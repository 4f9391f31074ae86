//! The header shared by every top-level record, its versioning lifecycle, and
//! references to outside resources.
use std::collections::HashMap;
use vstd::prelude::*;

use crate::error::MaecError;
use crate::ids::{id_kind, is_generated_id, is_plain_kind, is_valid_id, same_text};
use crate::time::{now, ts_le, ts_lt, Timestamp};

pub use crate::ids::{
    extract_type_from_id, generate_maec_id, is_valid_maec_id, is_valid_ref_for_type,
};

verus! {

/// `serde_json::Value`, carried unread in extension fields, attributes and
/// observable objects.
#[verifier::external_type_specification]
#[verifier::external_body]
pub struct ExJsonValue(serde_json::Value);

/// The schema version that new records carry: `5.0`.
pub open spec fn default_version() -> Seq<char> {
    seq!['5', '.', '0']
}

/// `v` is present and equals the default schema version.
pub open spec fn is_default_version(v: Option<String>) -> bool {
    v is Some && v->0@ == default_version()
}

/// The schema version that new records carry.
fn default_version_text() -> (r: String)
    ensures
        r@ == default_version(),
{
    proof {
        reveal_strlit("5.0");
    }
    String::from_str("5.0")
}

/// Accessors that every identified record offers.
pub trait MaecObject {
    /// The record's identifier.
    fn id(&self) -> &str;

    /// The record's kind, such as `package` or `malware-family`.
    fn type_(&self) -> &str;

    /// When the record was created.
    fn created(&self) -> Timestamp;
}

/// The metadata block of a top-level record: its kind, identifier, schema
/// version, creation and modification times, creator, and extension fields.
#[derive(Debug, Clone, PartialEq, Eq)]
pub struct CommonProperties {
    /// The record's kind, such as `package` or `malware-family`.
    pub type_: String,
    /// The identifier, `{kind}--{uuid}`.
    pub id: String,
    /// The schema version, `5.0` for new records.
    pub schema_version: Option<String>,
    /// When the record was created.
    pub created: Timestamp,
    /// When the record was last given a new version.
    pub modified: Timestamp,
    /// The identifier of the identity that created the record.
    pub created_by_ref: Option<String>,
    /// Extension fields, by name.
    pub custom_properties: HashMap<String, serde_json::Value>,
}

/// `h` with its modification time set to `t` and every other field kept.
pub open spec fn with_modified(h: CommonProperties, t: Timestamp) -> CommonProperties {
    CommonProperties { modified: t, ..h }
}

/// The header after giving it a new version at each of `times` in turn.
pub open spec fn after_versions(h: CommonProperties, times: Seq<Timestamp>) -> CommonProperties
    decreases times.len(),
{
    if times.len() == 0 {
        h
    } else {
        with_modified(after_versions(h, times.drop_last()), times.last())
    }
}

/// A fresh header of kind `kind`: a generated identifier, the default schema
/// version, one clock reading as both creation and modification time, and no
/// extension fields.
pub open spec fn is_fresh_header(
    h: CommonProperties,
    kind: Seq<char>,
    created_by_ref: Option<String>,
) -> bool {
    &&& h.type_@ == kind
    &&& is_generated_id(kind, h.id@)
    &&& is_default_version(h.schema_version)
    &&& h.created == h.modified
    &&& h.created.nanos < 1_000_000_000
    &&& h.created_by_ref == created_by_ref
    &&& h.custom_properties@ == Map::<String, serde_json::Value>::empty()
}

impl CommonProperties {
    /// A fresh header for a record of kind `object_type`.
    pub fn new(object_type: &str, created_by_ref: Option<String>) -> (r: Self)
        ensures
            is_fresh_header(r, object_type@, created_by_ref),
            is_plain_kind(object_type@) ==> is_valid_id(r.id@) && id_kind(r.id@) == Some(
                object_type@,
            ),
    {
        let t = now();
        CommonProperties {
            type_: String::from_str(object_type),
            id: generate_maec_id(object_type),
            schema_version: Some(default_version_text()),
            created: t,
            modified: t,
            created_by_ref,
            custom_properties: HashMap::new(),
        }
    }

    /// Gives the record a new version at time `at`: only the modification
    /// time changes.
    pub fn new_version_at(&mut self, at: Timestamp)
        ensures
            *final(self) == with_modified(*old(self), at),
    {
        self.modified = at;
    }

    /// Gives the record a new version now: the modification time becomes a
    /// reading of the clock, every other field is kept.
    pub fn new_version(&mut self)
        ensures
            exists|t: Timestamp| t.nanos < 1_000_000_000 && *final(self) == with_modified(*old(self), t),
    {
        let t = now();
        self.new_version_at(t);
    }
}

/// New versions never change the kind, identifier, creation time or any
/// field but the modification time; when the clock readings do not go back
/// in time from the current modification time, the modification time never
/// decreases, a first reading later than it makes it strictly later, and a
/// header modified no earlier than it was created stays so.
pub proof fn lemma_versions_keep_identity(h: CommonProperties, times: Seq<Timestamp>)
    requires
        forall|i: int| 0 <= i < times.len() ==> ts_le(
            if i == 0 { h.modified } else { times[i - 1] },
            #[trigger] times[i],
        ),
    ensures
        after_versions(h, times).type_ == h.type_,
        after_versions(h, times).id == h.id,
        after_versions(h, times).created == h.created,
        after_versions(h, times).schema_version == h.schema_version,
        after_versions(h, times).created_by_ref == h.created_by_ref,
        after_versions(h, times).custom_properties == h.custom_properties,
        ts_le(h.modified, after_versions(h, times).modified),
        times.len() > 0 && ts_lt(h.modified, times[0]) ==> ts_lt(
            h.modified,
            after_versions(h, times).modified,
        ),
        ts_le(h.created, h.modified) ==> ts_le(
            after_versions(h, times).created,
            after_versions(h, times).modified,
        ),
    decreases times.len(),
{
    if times.len() > 0 {
        let prefix = times.drop_last();
        assert forall|i: int| 0 <= i < prefix.len() implies ts_le(
            if i == 0 { h.modified } else { prefix[i - 1] },
            #[trigger] prefix[i],
        ) by {
            assert(prefix[i] == times[i]);
            if i > 0 {
                assert(prefix[i - 1] == times[i - 1]);
            }
        }
        lemma_versions_keep_identity(h, prefix);
        if prefix.len() > 0 {
            assert(after_versions(h, prefix).modified == prefix.last());
            assert(ts_le(times[times.len() - 2], times[times.len() - 1]));
            assert(prefix[0] == times[0]);
        }
    }
}

/// A header that a builder assembled for kind `kind`: the identifier given
/// to the builder, or else a generated one, and otherwise fresh.
pub open spec fn is_built_header(h: CommonProperties, kind: Seq<char>, id: Option<String>) -> bool {
    &&& h.type_@ == kind
    &&& match id {
        Some(given) => h.id == given,
        None => is_generated_id(kind, h.id@),
    }
    &&& is_default_version(h.schema_version)
    &&& h.created == h.modified
    &&& h.created_by_ref is None
    &&& h.custom_properties@ == Map::<String, serde_json::Value>::empty()
}

/// The message for a header whose kind `got` is not `kind`.
pub open spec fn kind_message(kind: Seq<char>, got: Seq<char>) -> Seq<char> {
    "type must be '"@ + kind + "', got '"@ + got + "'"@
}

/// `r` is the outcome of checking that header `h` has kind `kind` and a
/// valid identifier: a validation error on a wrong kind, else an invalid-id
/// error holding the identifier, else success.
pub open spec fn is_header_verdict(
    h: CommonProperties,
    kind: Seq<char>,
    r: Result<(), MaecError>,
) -> bool {
    if h.type_@ != kind {
        r matches Err(MaecError::ValidationError(m)) && m@ == kind_message(kind, h.type_@)
    } else if !is_valid_id(h.id@) {
        r matches Err(MaecError::InvalidId(s)) && s@ == h.id@
    } else {
        r is Ok
    }
}

/// Checks that header `h` has kind `kind` and a valid identifier.
pub(crate) fn check_kind_and_id(h: &CommonProperties, kind: &str) -> (r: Result<(), MaecError>)
    ensures
        is_header_verdict(*h, kind@, r),
{
    if !same_text(h.type_.as_str(), kind) {
        let mut m = String::from_str("type must be '");
        m.append(kind);
        m.append("', got '");
        m.append(h.type_.as_str());
        m.append("'");
        proof {
            assert(m@ =~= kind_message(kind@, h.type_@));
        }
        return Err(MaecError::ValidationError(m));
    }
    if !is_valid_maec_id(h.id.as_str()) {
        return Err(MaecError::InvalidId(h.id.clone()));
    }
    Ok(())
}

impl Default for CommonProperties {
    /// A header with an empty kind, an identifier of kind `object`, the
    /// default schema version and the current time.
    fn default() -> (r: Self)
        ensures
            r.type_@ == Seq::<char>::empty(),
            is_generated_id("object"@, r.id@),
            is_default_version(r.schema_version),
            r.created == r.modified,
            r.created_by_ref is None,
            r.custom_properties@ == Map::<String, serde_json::Value>::empty(),
    {
        let t = now();
        CommonProperties {
            type_: String::new(),
            id: generate_maec_id("object"),
            schema_version: Some(default_version_text()),
            created: t,
            modified: t,
            created_by_ref: None,
            custom_properties: HashMap::new(),
        }
    }
}

impl MaecObject for CommonProperties {
    fn id(&self) -> (r: &str)
        ensures
            r@ == self.id@,
    {
        self.id.as_str()
    }

    fn type_(&self) -> (r: &str)
        ensures
            r@ == self.type_@,
    {
        self.type_.as_str()
    }

    fn created(&self) -> (r: Timestamp)
        ensures
            r == self.created,
    {
        self.created
    }
}

/// A link from a record to an outside resource.
#[derive(Debug, Clone, PartialEq, Eq)]
pub struct ExternalReference {
    /// The name of the source, such as `mitre-attack` or `cve`.
    pub source_name: String,
    /// What the reference is about.
    pub description: Option<String>,
    /// Where the resource is.
    pub url: Option<String>,
    /// The resource's identifier at its source, such as `T1055`.
    pub external_id: Option<String>,
}

/// The source name of ATT&CK references.
pub open spec fn attack_source() -> Seq<char> {
    "mitre-attack"@
}

/// The address of the ATT&CK page of technique `id`.
pub open spec fn attack_url(id: Seq<char>) -> Seq<char> {
    "https://attack.mitre.org/techniques/"@ + id
}

impl ExternalReference {
    /// A reference that holds only a source name.
    pub fn new(source_name: &str) -> (r: Self)
        ensures
            r.source_name@ == source_name@,
            r.description is None,
            r.url is None,
            r.external_id is None,
    {
        ExternalReference {
            source_name: String::from_str(source_name),
            description: None,
            url: None,
            external_id: None,
        }
    }

    /// A reference to ATT&CK technique `technique_id`, described by `name`.
    pub fn attack_technique(technique_id: &str, name: &str) -> (r: Self)
        ensures
            r.source_name@ == attack_source(),
            r.description is Some && r.description->0@ == name@,
            r.url is Some && r.url->0@ == attack_url(technique_id@),
            r.external_id is Some && r.external_id->0@ == technique_id@,
    {
        let mut url = String::from_str("https://attack.mitre.org/techniques/");
        url.append(technique_id);
        ExternalReference {
            source_name: String::from_str("mitre-attack"),
            description: Some(String::from_str(name)),
            url: Some(url),
            external_id: Some(String::from_str(technique_id)),
        }
    }
}

} // verus!
