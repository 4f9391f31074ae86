//! Malware families: sets of malware instances with a common origin.
use vstd::prelude::*;

use crate::common::{
    check_kind_and_id, is_built_header, is_header_verdict, CommonProperties, ExternalReference,
    MaecObject,
};
use crate::error::MaecError;
use crate::ids::{is_plain_kind, is_valid_id};
use crate::objects::capability::Capability;
use crate::objects::types::{FieldData, Name};
use crate::time::Timestamp;

verus! {

/// The kind of malware-family records.
pub open spec fn malware_family_kind() -> Seq<char> {
    "malware-family"@
}

/// The kind `malware-family` can carry an identifier.
proof fn lemma_malware_family_kind_plain()
    ensures
        is_plain_kind(malware_family_kind()),
{
    reveal_strlit("malware-family");
}

/// A family of malware instances.
#[derive(Debug, PartialEq, Eq)]
pub struct MalwareFamily {
    /// The header, of kind `malware-family`.
    pub common: CommonProperties,
    /// The family's name.
    pub name: Name,
    /// Other names of the family.
    pub aliases: Vec<Name>,
    /// Labels, such as `ransomware`.
    pub labels: Vec<String>,
    /// What the family is.
    pub description: Option<String>,
    /// When and how the family was seen.
    pub field_data: Option<FieldData>,
    /// Capabilities that the family's instances share.
    pub common_capabilities: Vec<Capability>,
    /// The identifiers of behaviors that the family's instances share.
    pub common_behavior_refs: Vec<String>,
    /// Outside references.
    pub references: Vec<ExternalReference>,
}

impl MalwareFamily {
    /// A builder with nothing set.
    pub fn builder() -> (r: MalwareFamilyBuilder)
        ensures
            r.id is None,
            r.name is None,
            r.aliases@.len() == 0,
            r.labels@.len() == 0,
            r.description is None,
            r.field_data is None,
            r.common_capabilities@.len() == 0,
            r.common_behavior_refs@.len() == 0,
            r.references@.len() == 0,
    {
        MalwareFamilyBuilder {
            id: None,
            name: None,
            aliases: Vec::new(),
            labels: Vec::new(),
            description: None,
            field_data: None,
            common_capabilities: Vec::new(),
            common_behavior_refs: Vec::new(),
            references: Vec::new(),
        }
    }

    /// Checks that the header has kind `malware-family` and a valid
    /// identifier.
    pub fn validate(&self) -> (r: Result<(), MaecError>)
        ensures
            is_header_verdict(self.common, malware_family_kind(), r),
    {
        check_kind_and_id(&self.common, "malware-family")
    }
}

impl MaecObject for MalwareFamily {
    fn id(&self) -> (r: &str)
        ensures
            r@ == self.common.id@,
    {
        self.common.id.as_str()
    }

    fn type_(&self) -> (r: &str)
        ensures
            r@ == self.common.type_@,
    {
        self.common.type_.as_str()
    }

    fn created(&self) -> (r: Timestamp)
        ensures
            r == self.common.created,
    {
        self.common.created
    }
}

/// Collects the fields of a `MalwareFamily`.
#[derive(Debug, Default)]
pub struct MalwareFamilyBuilder {
    /// An identifier to use instead of a generated one.
    pub id: Option<String>,
    /// The family's name.
    pub name: Option<Name>,
    /// Other names, in order of addition.
    pub aliases: Vec<Name>,
    /// Labels, in order of addition.
    pub labels: Vec<String>,
    /// What the family is.
    pub description: Option<String>,
    /// When and how the family was seen.
    pub field_data: Option<FieldData>,
    /// Shared capabilities, in order of addition.
    pub common_capabilities: Vec<Capability>,
    /// Identifiers of shared behaviors, in order of addition.
    pub common_behavior_refs: Vec<String>,
    /// Outside references, in order of addition.
    pub references: Vec<ExternalReference>,
}

impl MalwareFamilyBuilder {
    /// Sets the identifier.
    pub fn id(self, id: &str) -> (r: Self)
        ensures
            r.id is Some && r.id->0@ == id@,
            r == (MalwareFamilyBuilder { id: r.id, ..self }),
    {
        MalwareFamilyBuilder { id: Some(String::from_str(id)), ..self }
    }

    /// Sets the name.
    pub fn name(self, name: Name) -> (r: Self)
        ensures
            r == (MalwareFamilyBuilder { name: Some(name), ..self }),
    {
        MalwareFamilyBuilder { name: Some(name), ..self }
    }

    /// Adds another name.
    pub fn add_alias(self, alias: Name) -> (r: Self)
        ensures
            r.aliases@ == self.aliases@.push(alias),
            r == (MalwareFamilyBuilder { aliases: r.aliases, ..self }),
    {
        let mut b = self;
        b.aliases.push(alias);
        b
    }

    /// Adds a label.
    pub fn add_label(self, label: &str) -> (r: Self)
        ensures
            r.labels.deep_view() == self.labels.deep_view().push(label@),
            r == (MalwareFamilyBuilder { labels: r.labels, ..self }),
    {
        let mut b = self;
        b.labels.push(String::from_str(label));
        proof {
            assert(b.labels.deep_view() =~= self.labels.deep_view().push(label@));
        }
        b
    }

    /// Sets the description.
    pub fn description(self, desc: &str) -> (r: Self)
        ensures
            r.description is Some && r.description->0@ == desc@,
            r == (MalwareFamilyBuilder { description: r.description, ..self }),
    {
        MalwareFamilyBuilder { description: Some(String::from_str(desc)), ..self }
    }

    /// Sets the field data.
    pub fn field_data(self, field_data: FieldData) -> (r: Self)
        ensures
            r == (MalwareFamilyBuilder { field_data: Some(field_data), ..self }),
    {
        MalwareFamilyBuilder { field_data: Some(field_data), ..self }
    }

    /// Adds a shared capability.
    pub fn add_common_capability(self, capability: Capability) -> (r: Self)
        ensures
            r.common_capabilities@ == self.common_capabilities@.push(capability),
            r == (MalwareFamilyBuilder { common_capabilities: r.common_capabilities, ..self }),
    {
        let mut b = self;
        b.common_capabilities.push(capability);
        b
    }

    /// Adds the identifier of a shared behavior.
    pub fn add_common_behavior_ref(self, ref_id: &str) -> (r: Self)
        ensures
            r.common_behavior_refs.deep_view() == self.common_behavior_refs.deep_view().push(
                ref_id@,
            ),
            r == (MalwareFamilyBuilder { common_behavior_refs: r.common_behavior_refs, ..self }),
    {
        let mut b = self;
        b.common_behavior_refs.push(String::from_str(ref_id));
        proof {
            assert(b.common_behavior_refs.deep_view() =~= self.common_behavior_refs.deep_view().push(
                ref_id@,
            ));
        }
        b
    }

    /// Adds an outside reference.
    pub fn add_reference(self, reference: ExternalReference) -> (r: Self)
        ensures
            r.references@ == self.references@.push(reference),
            r == (MalwareFamilyBuilder { references: r.references, ..self }),
    {
        let mut b = self;
        b.references.push(reference);
        b
    }

    /// The family: a missing-field error without a name; else an invalid-id
    /// error for a given identifier that is not valid; else the family with
    /// the builder's fields.
    pub fn build(self) -> (r: Result<MalwareFamily, MaecError>)
        ensures
            self.name is None ==> (r matches Err(MaecError::MissingField(f)) && f@ == "name"@),
            self.name is Some && self.id is Some && !is_valid_id(self.id->0@) ==> (r matches Err(
                MaecError::InvalidId(s),
            ) && s@ == self.id->0@),
            self.name is Some && (self.id is None || is_valid_id(self.id->0@)) ==> (r matches Ok(
                f,
            ) && is_built_header(f.common, malware_family_kind(), self.id) && f.name
                == self.name->0 && f.aliases == self.aliases && f.labels == self.labels
                && f.description == self.description && f.field_data == self.field_data
                && f.common_capabilities == self.common_capabilities && f.common_behavior_refs
                == self.common_behavior_refs && f.references == self.references),
    {
        let name = match self.name {
            Some(n) => n,
            None => return Err(MaecError::MissingField("name")),
        };
        let mut common = CommonProperties::new("malware-family", None);
        proof {
            lemma_malware_family_kind_plain();
        }
        if let Some(id) = self.id {
            common.id = id;
        }
        let family = MalwareFamily {
            common,
            name,
            aliases: self.aliases,
            labels: self.labels,
            description: self.description,
            field_data: self.field_data,
            common_capabilities: self.common_capabilities,
            common_behavior_refs: self.common_behavior_refs,
            references: self.references,
        };
        family.validate()?;
        Ok(family)
    }
}

} // verus!
