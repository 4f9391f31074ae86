//! The package: the top-level record that holds records of several kinds,
//! the relationships between them, and observable objects.
use std::collections::HashMap;
use vstd::prelude::*;

use crate::common::{
    check_kind_and_id, default_version, is_built_header, is_fresh_header, is_header_verdict,
    kind_message, CommonProperties, MaecObject,
};
use crate::error::MaecError;
use crate::ids::{is_plain_kind, is_valid_id, same_text};
use crate::objects::behavior::Behavior;
use crate::objects::collection::Collection;
use crate::objects::malware_action::MalwareAction;
use crate::objects::malware_family::MalwareFamily;
use crate::objects::malware_instance::MalwareInstance;
use crate::objects::relationship::Relationship;
use crate::time::Timestamp;

verus! {

/// The kind of package records.
pub open spec fn package_kind() -> Seq<char> {
    "package"@
}

/// The kind `package` can carry an identifier.
proof fn lemma_package_kind_plain()
    ensures
        is_plain_kind(package_kind()),
{
    reveal_strlit("package");
}

/// A record that a package holds: one of five kinds.
#[derive(Debug, PartialEq)]
pub enum MaecObjectType {
    /// A behavior.
    Behavior(Behavior),
    /// A collection.
    Collection(Collection),
    /// A malware action.
    MalwareAction(MalwareAction),
    /// A malware family.
    MalwareFamily(MalwareFamily),
    /// A malware instance.
    MalwareInstance(MalwareInstance),
}

/// The kinds of record that a package holds.
#[derive(Debug, Clone, Copy, PartialEq, Eq, Structural)]
pub enum ObjectKind {
    /// A behavior.
    Behavior,
    /// A collection.
    Collection,
    /// A malware action.
    MalwareAction,
    /// A malware family.
    MalwareFamily,
    /// A malware instance.
    MalwareInstance,
}

/// The order in which decoding tries the kinds of an embedded record that
/// carries no explicit tag.
pub open spec fn decode_order() -> Seq<ObjectKind> {
    seq![
        ObjectKind::Behavior,
        ObjectKind::Collection,
        ObjectKind::MalwareAction,
        ObjectKind::MalwareFamily,
        ObjectKind::MalwareInstance,
    ]
}

/// For each kind, whether an encoded record has that kind's shape: every
/// field the kind requires is present and every present field has the
/// kind's type for it.
#[derive(Debug, Clone, Copy, PartialEq, Eq, Structural)]
pub struct ShapeMatches {
    /// It has the shape of a behavior.
    pub behavior: bool,
    /// It has the shape of a collection.
    pub collection: bool,
    /// It has the shape of a malware action.
    pub malware_action: bool,
    /// It has the shape of a malware family.
    pub malware_family: bool,
    /// It has the shape of a malware instance.
    pub malware_instance: bool,
}

/// The encoded record has the shape of kind `k`.
pub open spec fn fits(m: ShapeMatches, k: ObjectKind) -> bool {
    match k {
        ObjectKind::Behavior => m.behavior,
        ObjectKind::Collection => m.collection,
        ObjectKind::MalwareAction => m.malware_action,
        ObjectKind::MalwareFamily => m.malware_family,
        ObjectKind::MalwareInstance => m.malware_instance,
    }
}

/// Whether the encoded record has the shape of kind `k`.
fn shape_fits(m: &ShapeMatches, k: ObjectKind) -> (r: bool)
    ensures
        r == fits(*m, k),
{
    match k {
        ObjectKind::Behavior => m.behavior,
        ObjectKind::Collection => m.collection,
        ObjectKind::MalwareAction => m.malware_action,
        ObjectKind::MalwareFamily => m.malware_family,
        ObjectKind::MalwareInstance => m.malware_instance,
    }
}

/// `r` is what an embedded record with shapes `m` decodes as: the first kind
/// in the decoding order whose shape it has, or none when it has no kind's
/// shape.
pub open spec fn is_resolution(m: ShapeMatches, r: Option<ObjectKind>) -> bool {
    match r {
        Some(k) => exists|i: int|
            0 <= i < 5 && decode_order()[i] == k && fits(m, k) && forall|j: int|
                0 <= j < i ==> !fits(m, #[trigger] decode_order()[j]),
        None => forall|i: int| 0 <= i < 5 ==> !fits(m, #[trigger] decode_order()[i]),
    }
}

/// A record decodes back as its own kind `k` when its encoding has the
/// shape of `k` and of no kind tried before `k`.
pub proof fn lemma_resolves_to_own_kind(m: ShapeMatches, k: ObjectKind, i: int, r: Option<ObjectKind>)
    requires
        0 <= i < 5,
        decode_order()[i] == k,
        fits(m, k),
        forall|j: int| 0 <= j < i ==> !fits(m, #[trigger] decode_order()[j]),
        is_resolution(m, r),
    ensures
        r == Some(k),
{
    match r {
        Some(k2) => {
            let i2 = choose|i2: int|
                0 <= i2 < 5 && decode_order()[i2] == k2 && fits(m, k2) && forall|j: int|
                    0 <= j < i2 ==> !fits(m, #[trigger] decode_order()[j]);
            if i2 < i {
                assert(!fits(m, decode_order()[i2]));
            } else if i < i2 {
                assert(!fits(m, decode_order()[i]));
            }
        },
        None => {
            assert(!fits(m, decode_order()[i]));
        },
    }
}

/// The kind that an embedded record without a tag decodes as: the first in
/// the decoding order whose shape it has; none when it has no kind's shape.
/// The record's own `type` field is not consulted, so a record that fits
/// several shapes takes the earliest of them.
pub fn resolve_object_kind(m: &ShapeMatches) -> (r: Option<ObjectKind>)
    ensures
        is_resolution(*m, r),
{
    let order = [
        ObjectKind::Behavior,
        ObjectKind::Collection,
        ObjectKind::MalwareAction,
        ObjectKind::MalwareFamily,
        ObjectKind::MalwareInstance,
    ];
    assert(order@ == decode_order());
    let mut i: usize = 0;
    while i < 5
        invariant
            0 <= i <= 5,
            order@ == decode_order(),
            forall|j: int| 0 <= j < i ==> !fits(*m, #[trigger] decode_order()[j]),
        decreases 5 - i,
    {
        if shape_fits(m, order[i]) {
            return Some(order[i]);
        }
        i = i + 1;
    }
    None
}

/// The malware families among `objs`, in their order.
pub open spec fn families_of(objs: Seq<MaecObjectType>) -> Seq<MalwareFamily>
    decreases objs.len(),
{
    if objs.len() == 0 {
        Seq::empty()
    } else {
        let prev = families_of(objs.drop_last());
        match objs.last() {
            MaecObjectType::MalwareFamily(f) => prev.push(f),
            _ => prev,
        }
    }
}

/// The malware instances among `objs`, in their order.
pub open spec fn instances_of(objs: Seq<MaecObjectType>) -> Seq<MalwareInstance>
    decreases objs.len(),
{
    if objs.len() == 0 {
        Seq::empty()
    } else {
        let prev = instances_of(objs.drop_last());
        match objs.last() {
            MaecObjectType::MalwareInstance(x) => prev.push(x),
            _ => prev,
        }
    }
}

/// The behaviors among `objs`, in their order.
pub open spec fn behaviors_of(objs: Seq<MaecObjectType>) -> Seq<Behavior>
    decreases objs.len(),
{
    if objs.len() == 0 {
        Seq::empty()
    } else {
        let prev = behaviors_of(objs.drop_last());
        match objs.last() {
            MaecObjectType::Behavior(b) => prev.push(b),
            _ => prev,
        }
    }
}

/// The malware actions among `objs`, in their order.
pub open spec fn actions_of(objs: Seq<MaecObjectType>) -> Seq<MalwareAction>
    decreases objs.len(),
{
    if objs.len() == 0 {
        Seq::empty()
    } else {
        let prev = actions_of(objs.drop_last());
        match objs.last() {
            MaecObjectType::MalwareAction(a) => prev.push(a),
            _ => prev,
        }
    }
}

/// The top-level record.
#[derive(Debug, PartialEq)]
pub struct Package {
    /// The header, of kind `package` and schema version `5.0`.
    pub common: CommonProperties,
    /// The records the package holds, in order.
    pub maec_objects: Vec<MaecObjectType>,
    /// Observable objects (files, network traffic) that the records refer
    /// to, by key.
    pub observable_objects: Option<HashMap<String, serde_json::Value>>,
    /// Relationships between the records.
    pub relationships: Vec<Relationship>,
}

/// The message for a package whose schema version `v` is not `5.0`.
pub open spec fn version_message(v: Option<String>) -> Seq<char> {
    match v {
        Some(s) => "schema_version must be '5.0', got '"@ + s@ + "'"@,
        None => "schema_version must be '5.0', got none"@,
    }
}

/// `r` is the outcome of validating package `p`: a validation error on a
/// kind other than `package`, else a validation error on a schema version
/// other than `5.0`, else an invalid-id error holding an invalid
/// identifier, else success.
pub open spec fn is_package_verdict(p: Package, r: Result<(), MaecError>) -> bool {
    if p.common.type_@ != package_kind() {
        r matches Err(MaecError::ValidationError(m)) && m@ == kind_message(
            package_kind(),
            p.common.type_@,
        )
    } else if !(p.common.schema_version is Some && p.common.schema_version->0@
        == default_version()) {
        r matches Err(MaecError::ValidationError(m)) && m@ == version_message(
            p.common.schema_version,
        )
    } else {
        is_header_verdict(p.common, package_kind(), r)
    }
}

/// Checks that `v` is the schema version `5.0`.
fn check_version(v: &Option<String>) -> (r: Result<(), MaecError>)
    ensures
        v is Some && v->0@ == default_version() ==> r is Ok,
        !(v is Some && v->0@ == default_version()) ==> (r matches Err(
            MaecError::ValidationError(m),
        ) && m@ == version_message(*v)),
{
    proof {
        reveal_strlit("5.0");
        assert("5.0"@ =~= default_version());
    }
    match v {
        Some(s) => {
            if same_text(s.as_str(), "5.0") {
                Ok(())
            } else {
                let mut m = String::from_str("schema_version must be '5.0', got '");
                m.append(s.as_str());
                m.append("'");
                proof {
                    assert(m@ =~= version_message(*v));
                }
                Err(MaecError::ValidationError(m))
            }
        },
        None => {
            proof {
                reveal_strlit("schema_version must be '5.0', got none");
            }
            Err(MaecError::ValidationError(String::from_str("schema_version must be '5.0', got none")))
        },
    }
}

impl Package {
    /// A builder with nothing set.
    pub fn builder() -> (r: PackageBuilder)
        ensures
            r.id is None,
            r.schema_version is None,
            r.maec_objects@.len() == 0,
            r.observable_objects is None,
            r.relationships@.len() == 0,
    {
        PackageBuilder {
            id: None,
            schema_version: None,
            maec_objects: Vec::new(),
            observable_objects: None,
            relationships: Vec::new(),
        }
    }

    /// An empty package with a fresh header.
    pub fn new() -> (r: Self)
        ensures
            is_fresh_header(r.common, package_kind(), None),
            r.maec_objects@.len() == 0,
            r.observable_objects is None,
            r.relationships@.len() == 0,
    {
        Package {
            common: CommonProperties::new("package", None),
            maec_objects: Vec::new(),
            observable_objects: None,
            relationships: Vec::new(),
        }
    }

    /// Checks the kind, the schema version and the identifier, in that
    /// order.
    pub fn validate(&self) -> (r: Result<(), MaecError>)
        ensures
            is_package_verdict(*self, r),
    {
        if !same_text(self.common.type_.as_str(), "package") {
            return check_kind_and_id(&self.common, "package");
        }
        check_version(&self.common.schema_version)?;
        check_kind_and_id(&self.common, "package")
    }

    /// The malware families the package holds, in order.
    pub fn malware_families(&self) -> (r: Vec<&MalwareFamily>)
        ensures
            r@.map_values(|x: &MalwareFamily| *x) == families_of(self.maec_objects@),
    {
        let mut r: Vec<&MalwareFamily> = Vec::new();
        let mut i: usize = 0;
        while i < self.maec_objects.len()
            invariant
                0 <= i <= self.maec_objects@.len(),
                r@.map_values(|x: &MalwareFamily| *x) == families_of(self.maec_objects@.take(i as int)),
            decreases self.maec_objects@.len() - i,
        {
            assert(self.maec_objects@.take(i + 1).drop_last() =~= self.maec_objects@.take(i as int));
            if let MaecObjectType::MalwareFamily(f) = &self.maec_objects[i] {
                r.push(f);
            }
            i = i + 1;
        }
        assert(self.maec_objects@.take(i as int) =~= self.maec_objects@);
        r
    }

    /// The malware instances the package holds, in order.
    pub fn malware_instances(&self) -> (r: Vec<&MalwareInstance>)
        ensures
            r@.map_values(|x: &MalwareInstance| *x) == instances_of(self.maec_objects@),
    {
        let mut r: Vec<&MalwareInstance> = Vec::new();
        let mut i: usize = 0;
        while i < self.maec_objects.len()
            invariant
                0 <= i <= self.maec_objects@.len(),
                r@.map_values(|x: &MalwareInstance| *x) == instances_of(self.maec_objects@.take(i as int)),
            decreases self.maec_objects@.len() - i,
        {
            assert(self.maec_objects@.take(i + 1).drop_last() =~= self.maec_objects@.take(i as int));
            if let MaecObjectType::MalwareInstance(x) = &self.maec_objects[i] {
                r.push(x);
            }
            i = i + 1;
        }
        assert(self.maec_objects@.take(i as int) =~= self.maec_objects@);
        r
    }

    /// The behaviors the package holds, in order.
    pub fn behaviors(&self) -> (r: Vec<&Behavior>)
        ensures
            r@.map_values(|x: &Behavior| *x) == behaviors_of(self.maec_objects@),
    {
        let mut r: Vec<&Behavior> = Vec::new();
        let mut i: usize = 0;
        while i < self.maec_objects.len()
            invariant
                0 <= i <= self.maec_objects@.len(),
                r@.map_values(|x: &Behavior| *x) == behaviors_of(self.maec_objects@.take(i as int)),
            decreases self.maec_objects@.len() - i,
        {
            assert(self.maec_objects@.take(i + 1).drop_last() =~= self.maec_objects@.take(i as int));
            if let MaecObjectType::Behavior(b) = &self.maec_objects[i] {
                r.push(b);
            }
            i = i + 1;
        }
        assert(self.maec_objects@.take(i as int) =~= self.maec_objects@);
        r
    }

    /// The malware actions the package holds, in order.
    pub fn malware_actions(&self) -> (r: Vec<&MalwareAction>)
        ensures
            r@.map_values(|x: &MalwareAction| *x) == actions_of(self.maec_objects@),
    {
        let mut r: Vec<&MalwareAction> = Vec::new();
        let mut i: usize = 0;
        while i < self.maec_objects.len()
            invariant
                0 <= i <= self.maec_objects@.len(),
                r@.map_values(|x: &MalwareAction| *x) == actions_of(self.maec_objects@.take(i as int)),
            decreases self.maec_objects@.len() - i,
        {
            assert(self.maec_objects@.take(i + 1).drop_last() =~= self.maec_objects@.take(i as int));
            if let MaecObjectType::MalwareAction(a) = &self.maec_objects[i] {
                r.push(a);
            }
            i = i + 1;
        }
        assert(self.maec_objects@.take(i as int) =~= self.maec_objects@);
        r
    }
}

impl MaecObject for Package {
    fn id(&self) -> (r: &str)
        ensures
            r@ == self.common.id@,
    {
        self.common.id.as_str()
    }

    fn type_(&self) -> (r: &str)
        ensures
            r@ == self.common.type_@,
    {
        self.common.type_.as_str()
    }

    fn created(&self) -> (r: Timestamp)
        ensures
            r == self.common.created,
    {
        self.common.created
    }
}

impl Default for Package {
    /// An empty package with a fresh header.
    fn default() -> (r: Self)
        ensures
            is_fresh_header(r.common, package_kind(), None),
            r.maec_objects@.len() == 0,
            r.observable_objects is None,
            r.relationships@.len() == 0,
    {
        Package::new()
    }
}

/// Collects the fields of a `Package`.
#[derive(Debug, Default)]
pub struct PackageBuilder {
    /// An identifier to use instead of a generated one.
    pub id: Option<String>,
    /// A schema version to use instead of `5.0`.
    pub schema_version: Option<String>,
    /// The records, in order of addition.
    pub maec_objects: Vec<MaecObjectType>,
    /// Observable objects, by key.
    pub observable_objects: Option<HashMap<String, serde_json::Value>>,
    /// Relationships, in order of addition.
    pub relationships: Vec<Relationship>,
}

impl PackageBuilder {
    /// Sets the identifier.
    pub fn id(self, id: &str) -> (r: Self)
        ensures
            r.id is Some && r.id->0@ == id@,
            r == (PackageBuilder { id: r.id, ..self }),
    {
        PackageBuilder { id: Some(String::from_str(id)), ..self }
    }

    /// Sets the schema version.
    pub fn schema_version(self, version: &str) -> (r: Self)
        ensures
            r.schema_version is Some && r.schema_version->0@ == version@,
            r == (PackageBuilder { schema_version: r.schema_version, ..self }),
    {
        PackageBuilder { schema_version: Some(String::from_str(version)), ..self }
    }

    /// Adds a record.
    pub fn add_object(self, object: MaecObjectType) -> (r: Self)
        ensures
            r.maec_objects@ == self.maec_objects@.push(object),
            r == (PackageBuilder { maec_objects: r.maec_objects, ..self }),
    {
        let mut b = self;
        b.maec_objects.push(object);
        b
    }

    /// Adds a malware family.
    pub fn add_malware_family(self, family: MalwareFamily) -> (r: Self)
        ensures
            r.maec_objects@ == self.maec_objects@.push(MaecObjectType::MalwareFamily(family)),
            r == (PackageBuilder { maec_objects: r.maec_objects, ..self }),
    {
        self.add_object(MaecObjectType::MalwareFamily(family))
    }

    /// Adds a malware instance.
    pub fn add_malware_instance(self, instance: MalwareInstance) -> (r: Self)
        ensures
            r.maec_objects@ == self.maec_objects@.push(MaecObjectType::MalwareInstance(instance)),
            r == (PackageBuilder { maec_objects: r.maec_objects, ..self }),
    {
        self.add_object(MaecObjectType::MalwareInstance(instance))
    }

    /// Adds a behavior.
    pub fn add_behavior(self, behavior: Behavior) -> (r: Self)
        ensures
            r.maec_objects@ == self.maec_objects@.push(MaecObjectType::Behavior(behavior)),
            r == (PackageBuilder { maec_objects: r.maec_objects, ..self }),
    {
        self.add_object(MaecObjectType::Behavior(behavior))
    }

    /// Adds a malware action.
    pub fn add_malware_action(self, action: MalwareAction) -> (r: Self)
        ensures
            r.maec_objects@ == self.maec_objects@.push(MaecObjectType::MalwareAction(action)),
            r == (PackageBuilder { maec_objects: r.maec_objects, ..self }),
    {
        self.add_object(MaecObjectType::MalwareAction(action))
    }

    /// Adds a relationship.
    pub fn add_relationship(self, relationship: Relationship) -> (r: Self)
        ensures
            r.relationships@ == self.relationships@.push(relationship),
            r == (PackageBuilder { relationships: r.relationships, ..self }),
    {
        let mut b = self;
        b.relationships.push(relationship);
        b
    }

    /// The package: a validation error for a given schema version other
    /// than `5.0`; else an invalid-id error for a given identifier that is
    /// not valid; else the package with the builder's fields.
    pub fn build(self) -> (r: Result<Package, MaecError>)
        ensures
            self.schema_version is Some && self.schema_version->0@ != default_version() ==> (r matches Err(
                MaecError::ValidationError(m),
            ) && m@ == version_message(self.schema_version)),
            (self.schema_version is None || self.schema_version->0@ == default_version())
                && self.id is Some && !is_valid_id(self.id->0@) ==> (r matches Err(
                MaecError::InvalidId(s),
            ) && s@ == self.id->0@),
            (self.schema_version is None || self.schema_version->0@ == default_version()) && (
            self.id is None || is_valid_id(self.id->0@)) ==> (r matches Ok(p) && is_built_header(
                p.common,
                package_kind(),
                self.id,
            ) && (self.schema_version is Some ==> p.common.schema_version == self.schema_version)
                && p.maec_objects == self.maec_objects && p.observable_objects
                == self.observable_objects && p.relationships == self.relationships),
    {
        let mut common = CommonProperties::new("package", None);
        proof {
            lemma_package_kind_plain();
        }
        if let Some(id) = self.id {
            common.id = id;
        }
        if let Some(version) = self.schema_version {
            common.schema_version = Some(version);
        }
        let package = Package {
            common,
            maec_objects: self.maec_objects,
            observable_objects: self.observable_objects,
            relationships: self.relationships,
        };
        package.validate()?;
        Ok(package)
    }
}

} // verus!
