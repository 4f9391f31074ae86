//! Capabilities: what a malware instance may be able to do.
use std::collections::HashMap;
use vstd::prelude::*;

use crate::common::ExternalReference;
use crate::error::MaecError;

verus! {

/// A capability that malware may implement; a plain value with no header.
#[derive(Debug, PartialEq, Eq)]
pub struct Capability {
    /// The capability's name.
    pub name: String,
    /// Finer capabilities that this one is made of.
    pub refined_capabilities: Vec<Capability>,
    /// What the capability is.
    pub description: Option<String>,
    /// Further attributes, by name.
    pub attributes: Option<HashMap<String, serde_json::Value>>,
    /// The identifiers of the behaviors that implement it.
    pub behavior_refs: Vec<String>,
    /// Outside references, such as ATT&CK tactics.
    pub references: Vec<ExternalReference>,
}

impl Capability {
    /// A capability with only a name.
    pub fn new(name: &str) -> (r: Self)
        ensures
            r.name@ == name@,
            r.refined_capabilities@.len() == 0,
            r.description is None,
            r.attributes is None,
            r.behavior_refs@.len() == 0,
            r.references@.len() == 0,
    {
        Capability {
            name: String::from_str(name),
            refined_capabilities: Vec::new(),
            description: None,
            attributes: None,
            behavior_refs: Vec::new(),
            references: Vec::new(),
        }
    }

    /// A builder with nothing set.
    pub fn builder() -> (r: CapabilityBuilder)
        ensures
            r.name is None,
            r.refined_capabilities@.len() == 0,
            r.description is None,
            r.attributes is None,
            r.behavior_refs@.len() == 0,
            r.references@.len() == 0,
    {
        CapabilityBuilder {
            name: None,
            refined_capabilities: Vec::new(),
            description: None,
            attributes: None,
            behavior_refs: Vec::new(),
            references: Vec::new(),
        }
    }
}

/// Collects the fields of a `Capability`.
#[derive(Debug, Default)]
pub struct CapabilityBuilder {
    /// The capability's name.
    pub name: Option<String>,
    /// Finer capabilities, in order of addition.
    pub refined_capabilities: Vec<Capability>,
    /// What the capability is.
    pub description: Option<String>,
    /// Further attributes.
    pub attributes: Option<HashMap<String, serde_json::Value>>,
    /// The identifiers of implementing behaviors, in order of addition.
    pub behavior_refs: Vec<String>,
    /// Outside references, in order of addition.
    pub references: Vec<ExternalReference>,
}

impl CapabilityBuilder {
    /// Sets the name.
    pub fn name(self, name: &str) -> (r: Self)
        ensures
            r.name is Some && r.name->0@ == name@,
            r == (CapabilityBuilder { name: r.name, ..self }),
    {
        CapabilityBuilder { name: Some(String::from_str(name)), ..self }
    }

    /// Sets the description.
    pub fn description(self, desc: &str) -> (r: Self)
        ensures
            r.description is Some && r.description->0@ == desc@,
            r == (CapabilityBuilder { description: r.description, ..self }),
    {
        CapabilityBuilder { description: Some(String::from_str(desc)), ..self }
    }

    /// Adds a finer capability.
    pub fn add_refined_capability(self, capability: Capability) -> (r: Self)
        ensures
            r.refined_capabilities@ == self.refined_capabilities@.push(capability),
            r == (CapabilityBuilder { refined_capabilities: r.refined_capabilities, ..self }),
    {
        let mut b = self;
        b.refined_capabilities.push(capability);
        b
    }

    /// Adds the identifier of an implementing behavior.
    pub fn add_behavior_ref(self, ref_id: &str) -> (r: Self)
        ensures
            r.behavior_refs.deep_view() == self.behavior_refs.deep_view().push(ref_id@),
            r == (CapabilityBuilder { behavior_refs: r.behavior_refs, ..self }),
    {
        let mut b = self;
        b.behavior_refs.push(String::from_str(ref_id));
        proof {
            assert(b.behavior_refs.deep_view() =~= self.behavior_refs.deep_view().push(ref_id@));
        }
        b
    }

    /// Adds an outside reference.
    pub fn add_reference(self, reference: ExternalReference) -> (r: Self)
        ensures
            r.references@ == self.references@.push(reference),
            r == (CapabilityBuilder { references: r.references, ..self }),
    {
        let mut b = self;
        b.references.push(reference);
        b
    }

    /// The capability: a missing-field error without a name; else the
    /// capability with the builder's fields.
    pub fn build(self) -> (r: Result<Capability, MaecError>)
        ensures
            self.name is None ==> (r matches Err(MaecError::MissingField(f)) && f@ == "name"@),
            self.name is Some ==> r == Ok::<Capability, MaecError>(
                Capability {
                    name: self.name->0,
                    refined_capabilities: self.refined_capabilities,
                    description: self.description,
                    attributes: self.attributes,
                    behavior_refs: self.behavior_refs,
                    references: self.references,
                },
            ),
    {
        let name = match self.name {
            Some(n) => n,
            None => return Err(MaecError::MissingField("name")),
        };
        Ok(
            Capability {
                name,
                refined_capabilities: self.refined_capabilities,
                description: self.description,
                attributes: self.attributes,
                behavior_refs: self.behavior_refs,
                references: self.references,
            },
        )
    }
}

} // verus!
