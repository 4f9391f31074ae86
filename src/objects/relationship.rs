//! Relationships: typed links between two records.
use vstd::prelude::*;

use crate::common::{
    check_kind_and_id, is_built_header, is_fresh_header, is_header_verdict, CommonProperties,
    MaecObject,
};
use crate::error::MaecError;
use crate::ids::{is_plain_kind, is_valid_id, is_valid_maec_id};
use crate::time::Timestamp;

verus! {

/// The kind of relationship records.
pub open spec fn relationship_kind() -> Seq<char> {
    "relationship"@
}

/// A link from the record `source_ref` names to the one `target_ref` names.
#[derive(Debug, Clone, PartialEq, Eq)]
pub struct Relationship {
    /// The header, of kind `relationship`.
    pub common: CommonProperties,
    /// The identifier of the source record.
    pub source_ref: String,
    /// The identifier of the target record.
    pub target_ref: String,
    /// How the two are related, such as `derived-from` or `variant-of`.
    pub relationship_type: String,
    /// What the link means.
    pub description: Option<String>,
}

/// `r` is the outcome of validating `x`: the header check first, then an
/// invalid-id error for a source or, after it, a target reference that is
/// not an identifier. Which kind each reference names is not checked.
pub open spec fn is_relationship_verdict(x: Relationship, r: Result<(), MaecError>) -> bool {
    if x.common.type_@ != relationship_kind() || !is_valid_id(x.common.id@) {
        is_header_verdict(x.common, relationship_kind(), r)
    } else if !is_valid_id(x.source_ref@) {
        r matches Err(MaecError::InvalidId(s)) && s@ == x.source_ref@
    } else if !is_valid_id(x.target_ref@) {
        r matches Err(MaecError::InvalidId(s)) && s@ == x.target_ref@
    } else {
        r is Ok
    }
}

/// The kind `relationship` can carry an identifier.
proof fn lemma_relationship_kind_plain()
    ensures
        is_plain_kind(relationship_kind()),
{
    reveal_strlit("relationship");
}

impl Relationship {
    /// A builder with nothing set.
    pub fn builder() -> (r: RelationshipBuilder)
        ensures
            r.id is None,
            r.source_ref is None,
            r.target_ref is None,
            r.relationship_type is None,
            r.description is None,
    {
        RelationshipBuilder {
            id: None,
            source_ref: None,
            target_ref: None,
            relationship_type: None,
            description: None,
        }
    }

    /// A relationship with a fresh header and no description; nothing is
    /// checked.
    pub fn new(source_ref: &str, relationship_type: &str, target_ref: &str) -> (r: Self)
        ensures
            is_fresh_header(r.common, relationship_kind(), None),
            r.source_ref@ == source_ref@,
            r.target_ref@ == target_ref@,
            r.relationship_type@ == relationship_type@,
            r.description is None,
    {
        Relationship {
            common: CommonProperties::new("relationship", None),
            source_ref: String::from_str(source_ref),
            target_ref: String::from_str(target_ref),
            relationship_type: String::from_str(relationship_type),
            description: None,
        }
    }

    /// Checks the header and that both references are identifiers.
    pub fn validate(&self) -> (r: Result<(), MaecError>)
        ensures
            is_relationship_verdict(*self, r),
    {
        check_kind_and_id(&self.common, "relationship")?;
        if !is_valid_maec_id(self.source_ref.as_str()) {
            return Err(MaecError::InvalidId(self.source_ref.clone()));
        }
        if !is_valid_maec_id(self.target_ref.as_str()) {
            return Err(MaecError::InvalidId(self.target_ref.clone()));
        }
        Ok(())
    }
}

impl MaecObject for Relationship {
    fn id(&self) -> (r: &str)
        ensures
            r@ == self.common.id@,
    {
        self.common.id.as_str()
    }

    fn type_(&self) -> (r: &str)
        ensures
            r@ == self.common.type_@,
    {
        self.common.type_.as_str()
    }

    fn created(&self) -> (r: Timestamp)
        ensures
            r == self.common.created,
    {
        self.common.created
    }
}

/// Collects the fields of a `Relationship`.
#[derive(Debug, Default)]
pub struct RelationshipBuilder {
    /// An identifier to use instead of a generated one.
    pub id: Option<String>,
    /// The identifier of the source record.
    pub source_ref: Option<String>,
    /// The identifier of the target record.
    pub target_ref: Option<String>,
    /// How the two are related.
    pub relationship_type: Option<String>,
    /// What the link means.
    pub description: Option<String>,
}

impl RelationshipBuilder {
    /// Sets the identifier.
    pub fn id(self, id: &str) -> (r: Self)
        ensures
            r.id is Some && r.id->0@ == id@,
            r == (RelationshipBuilder { id: r.id, ..self }),
    {
        RelationshipBuilder { id: Some(String::from_str(id)), ..self }
    }

    /// Sets the source reference.
    pub fn source_ref(self, ref_id: &str) -> (r: Self)
        ensures
            r.source_ref is Some && r.source_ref->0@ == ref_id@,
            r == (RelationshipBuilder { source_ref: r.source_ref, ..self }),
    {
        RelationshipBuilder { source_ref: Some(String::from_str(ref_id)), ..self }
    }

    /// Sets the target reference.
    pub fn target_ref(self, ref_id: &str) -> (r: Self)
        ensures
            r.target_ref is Some && r.target_ref->0@ == ref_id@,
            r == (RelationshipBuilder { target_ref: r.target_ref, ..self }),
    {
        RelationshipBuilder { target_ref: Some(String::from_str(ref_id)), ..self }
    }

    /// Sets the relationship type.
    pub fn relationship_type(self, rel_type: &str) -> (r: Self)
        ensures
            r.relationship_type is Some && r.relationship_type->0@ == rel_type@,
            r == (RelationshipBuilder { relationship_type: r.relationship_type, ..self }),
    {
        RelationshipBuilder { relationship_type: Some(String::from_str(rel_type)), ..self }
    }

    /// Sets the description.
    pub fn description(self, desc: &str) -> (r: Self)
        ensures
            r.description is Some && r.description->0@ == desc@,
            r == (RelationshipBuilder { description: r.description, ..self }),
    {
        RelationshipBuilder { description: Some(String::from_str(desc)), ..self }
    }

    /// The relationship: a missing-field error for the first of source
    /// reference, target reference and relationship type that is not set;
    /// else the outcome of validating the assembled record.
    pub fn build(self) -> (r: Result<Relationship, MaecError>)
        ensures
            self.source_ref is None ==> (r matches Err(MaecError::MissingField(f)) && f@
                == "source_ref"@),
            self.source_ref is Some && self.target_ref is None ==> (r matches Err(
                MaecError::MissingField(f),
            ) && f@ == "target_ref"@),
            self.source_ref is Some && self.target_ref is Some && self.relationship_type is None
                ==> (r matches Err(MaecError::MissingField(f)) && f@ == "relationship_type"@),
            self.source_ref is Some && self.target_ref is Some && self.relationship_type is Some
                ==> {
                let given = self.id;
                if given is Some && !is_valid_id(given->0@) {
                    r matches Err(MaecError::InvalidId(s)) && s@ == given->0@
                } else if !is_valid_id(self.source_ref->0@) {
                    r matches Err(MaecError::InvalidId(s)) && s@ == self.source_ref->0@
                } else if !is_valid_id(self.target_ref->0@) {
                    r matches Err(MaecError::InvalidId(s)) && s@ == self.target_ref->0@
                } else {
                    r matches Ok(x) && is_built_header(x.common, relationship_kind(), self.id)
                        && x.source_ref == self.source_ref->0 && x.target_ref
                        == self.target_ref->0 && x.relationship_type == self.relationship_type->0
                        && x.description == self.description
                }
            },
    {
        let source_ref = match self.source_ref {
            Some(s) => s,
            None => return Err(MaecError::MissingField("source_ref")),
        };
        let target_ref = match self.target_ref {
            Some(t) => t,
            None => return Err(MaecError::MissingField("target_ref")),
        };
        let relationship_type = match self.relationship_type {
            Some(t) => t,
            None => return Err(MaecError::MissingField("relationship_type")),
        };
        let mut common = CommonProperties::new("relationship", None);
        proof {
            lemma_relationship_kind_plain();
        }
        if let Some(id) = self.id {
            common.id = id;
        }
        let relationship = Relationship {
            common,
            source_ref,
            target_ref,
            relationship_type,
            description: self.description,
        };
        relationship.validate()?;
        Ok(relationship)
    }
}

} // verus!
