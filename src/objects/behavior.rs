//! Behaviors: the purpose behind a piece of code that malware runs, such as
//! keylogging or detecting a virtual machine.
use std::collections::HashMap;
use vstd::prelude::*;

use crate::common::{
    check_kind_and_id, is_built_header, is_fresh_header, is_header_verdict, CommonProperties,
    ExternalReference, MaecObject,
};
use crate::error::MaecError;
use crate::ids::{is_plain_kind, is_valid_id};
use crate::time::Timestamp;

verus! {

/// The kind of behavior records.
pub open spec fn behavior_kind() -> Seq<char> {
    "behavior"@
}

/// The kind `behavior` can carry an identifier.
proof fn lemma_behavior_kind_plain()
    ensures
        is_plain_kind(behavior_kind()),
{
    reveal_strlit("behavior");
}

/// A behavior that a malware instance exhibits.
#[derive(Debug, Clone, PartialEq)]
pub struct Behavior {
    /// The header, of kind `behavior`.
    pub common: CommonProperties,
    /// What the behavior is, from the behavior vocabulary.
    pub name: crate::vocab_large::Behavior,
    /// What the behavior does.
    pub description: Option<String>,
    /// When the behavior was seen.
    pub timestamp: Option<Timestamp>,
    /// Further attributes, by name.
    pub attributes: Option<HashMap<String, serde_json::Value>>,
    /// The identifiers of the actions that implement the behavior.
    pub action_refs: Vec<String>,
    /// The techniques it uses, such as ATT&CK techniques.
    pub technique_refs: Vec<ExternalReference>,
}

impl Behavior {
    /// A builder with nothing set.
    pub fn builder() -> (r: BehaviorBuilder)
        ensures
            r.id is None,
            r.name is None,
            r.description is None,
            r.timestamp is None,
            r.attributes is None,
            r.action_refs@.len() == 0,
            r.technique_refs@.len() == 0,
    {
        BehaviorBuilder {
            id: None,
            name: None,
            description: None,
            timestamp: None,
            attributes: None,
            action_refs: Vec::new(),
            technique_refs: Vec::new(),
        }
    }

    /// A behavior with a fresh header and only a name.
    pub fn new(name: crate::vocab_large::Behavior) -> (r: Self)
        ensures
            is_fresh_header(r.common, behavior_kind(), None),
            r.name == name,
            r.description is None,
            r.timestamp is None,
            r.attributes is None,
            r.action_refs@.len() == 0,
            r.technique_refs@.len() == 0,
    {
        Behavior {
            common: CommonProperties::new("behavior", None),
            name,
            description: None,
            timestamp: None,
            attributes: None,
            action_refs: Vec::new(),
            technique_refs: Vec::new(),
        }
    }

    /// Checks that the header has kind `behavior` and a valid identifier.
    pub fn validate(&self) -> (r: Result<(), MaecError>)
        ensures
            is_header_verdict(self.common, behavior_kind(), r),
    {
        check_kind_and_id(&self.common, "behavior")
    }
}

impl MaecObject for Behavior {
    fn id(&self) -> (r: &str)
        ensures
            r@ == self.common.id@,
    {
        self.common.id.as_str()
    }

    fn type_(&self) -> (r: &str)
        ensures
            r@ == self.common.type_@,
    {
        self.common.type_.as_str()
    }

    fn created(&self) -> (r: Timestamp)
        ensures
            r == self.common.created,
    {
        self.common.created
    }
}

/// Collects the fields of a `Behavior`.
#[derive(Debug, Default)]
pub struct BehaviorBuilder {
    /// An identifier to use instead of a generated one.
    pub id: Option<String>,
    /// What the behavior is.
    pub name: Option<crate::vocab_large::Behavior>,
    /// What the behavior does.
    pub description: Option<String>,
    /// When the behavior was seen.
    pub timestamp: Option<Timestamp>,
    /// Further attributes.
    pub attributes: Option<HashMap<String, serde_json::Value>>,
    /// The identifiers of the implementing actions, in order of addition.
    pub action_refs: Vec<String>,
    /// The techniques used, in order of addition.
    pub technique_refs: Vec<ExternalReference>,
}

impl BehaviorBuilder {
    /// Sets the identifier.
    pub fn id(self, id: &str) -> (r: Self)
        ensures
            r.id is Some && r.id->0@ == id@,
            r == (BehaviorBuilder { id: r.id, ..self }),
    {
        BehaviorBuilder { id: Some(String::from_str(id)), ..self }
    }

    /// Sets the name.
    pub fn name(self, name: crate::vocab_large::Behavior) -> (r: Self)
        ensures
            r == (BehaviorBuilder { name: Some(name), ..self }),
    {
        BehaviorBuilder { name: Some(name), ..self }
    }

    /// Sets the description.
    pub fn description(self, desc: &str) -> (r: Self)
        ensures
            r.description is Some && r.description->0@ == desc@,
            r == (BehaviorBuilder { description: r.description, ..self }),
    {
        BehaviorBuilder { description: Some(String::from_str(desc)), ..self }
    }

    /// Sets when the behavior was seen.
    pub fn timestamp(self, timestamp: Timestamp) -> (r: Self)
        ensures
            r == (BehaviorBuilder { timestamp: Some(timestamp), ..self }),
    {
        BehaviorBuilder { timestamp: Some(timestamp), ..self }
    }

    /// Adds the identifier of an implementing action.
    pub fn add_action_ref(self, ref_id: &str) -> (r: Self)
        ensures
            r.action_refs.deep_view() == self.action_refs.deep_view().push(ref_id@),
            r == (BehaviorBuilder { action_refs: r.action_refs, ..self }),
    {
        let mut b = self;
        b.action_refs.push(String::from_str(ref_id));
        proof {
            assert(b.action_refs.deep_view() =~= self.action_refs.deep_view().push(ref_id@));
        }
        b
    }

    /// Adds a technique.
    pub fn add_technique_ref(self, reference: ExternalReference) -> (r: Self)
        ensures
            r.technique_refs@ == self.technique_refs@.push(reference),
            r == (BehaviorBuilder { technique_refs: r.technique_refs, ..self }),
    {
        let mut b = self;
        b.technique_refs.push(reference);
        b
    }

    /// The behavior: a missing-field error without a name; else an
    /// invalid-id error for a given identifier that is not valid; else the
    /// behavior with the builder's fields.
    pub fn build(self) -> (r: Result<Behavior, MaecError>)
        ensures
            self.name is None ==> (r matches Err(MaecError::MissingField(f)) && f@ == "name"@),
            self.name is Some && self.id is Some && !is_valid_id(self.id->0@) ==> (r matches Err(
                MaecError::InvalidId(s),
            ) && s@ == self.id->0@),
            self.name is Some && (self.id is None || is_valid_id(self.id->0@)) ==> (r matches Ok(
                b,
            ) && is_built_header(b.common, behavior_kind(), self.id) && b.name == self.name->0
                && b.description == self.description && b.timestamp == self.timestamp
                && b.attributes == self.attributes && b.action_refs == self.action_refs
                && b.technique_refs == self.technique_refs),
    {
        let name = match self.name {
            Some(n) => n,
            None => return Err(MaecError::MissingField("name")),
        };
        let mut common = CommonProperties::new("behavior", None);
        proof {
            lemma_behavior_kind_plain();
        }
        if let Some(id) = self.id {
            common.id = id;
        }
        let behavior = Behavior {
            common,
            name,
            description: self.description,
            timestamp: self.timestamp,
            attributes: self.attributes,
            action_refs: self.action_refs,
            technique_refs: self.technique_refs,
        };
        behavior.validate()?;
        Ok(behavior)
    }
}

} // verus!
