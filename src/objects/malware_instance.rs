//! Malware instances: single pieces of malware, such as one binary.
use vstd::prelude::*;

use crate::common::{
    check_kind_and_id, is_built_header, is_header_verdict, CommonProperties, MaecObject,
};
use crate::error::MaecError;
use crate::ids::{is_plain_kind, is_valid_id};
use crate::objects::capability::Capability;
use crate::objects::types::{FieldData, Name};
use crate::time::Timestamp;
use crate::vocab::ProcessorArchitecture;

verus! {

/// The kind of malware-instance records.
pub open spec fn malware_instance_kind() -> Seq<char> {
    "malware-instance"@
}

/// The kind `malware-instance` can carry an identifier.
proof fn lemma_malware_instance_kind_plain()
    ensures
        is_plain_kind(malware_instance_kind()),
{
    reveal_strlit("malware-instance");
}

/// A single piece of malware.
#[derive(Debug, PartialEq, Eq)]
pub struct MalwareInstance {
    /// The header, of kind `malware-instance`.
    pub common: CommonProperties,
    /// The identifiers of the observable objects (files, processes) that
    /// make up the instance; at least one.
    pub instance_object_refs: Vec<String>,
    /// The instance's name.
    pub name: Option<Name>,
    /// Other names of the instance.
    pub aliases: Vec<Name>,
    /// Labels, such as `ransomware`.
    pub labels: Vec<String>,
    /// What the instance is.
    pub description: Option<String>,
    /// When and how the instance was seen.
    pub field_data: Option<FieldData>,
    /// The processor architectures the instance runs on.
    pub architecture_execution_envs: Vec<ProcessorArchitecture>,
    /// What the instance can do.
    pub capabilities: Vec<Capability>,
}

impl MalwareInstance {
    /// A builder with nothing set.
    pub fn builder() -> (r: MalwareInstanceBuilder)
        ensures
            r.id is None,
            r.instance_object_refs@.len() == 0,
            r.name is None,
            r.aliases@.len() == 0,
            r.labels@.len() == 0,
            r.description is None,
            r.field_data is None,
            r.architecture_execution_envs@.len() == 0,
            r.capabilities@.len() == 0,
    {
        MalwareInstanceBuilder {
            id: None,
            instance_object_refs: Vec::new(),
            name: None,
            aliases: Vec::new(),
            labels: Vec::new(),
            description: None,
            field_data: None,
            architecture_execution_envs: Vec::new(),
            capabilities: Vec::new(),
        }
    }

    /// Checks that the header has kind `malware-instance` and a valid
    /// identifier.
    pub fn validate(&self) -> (r: Result<(), MaecError>)
        ensures
            is_header_verdict(self.common, malware_instance_kind(), r),
    {
        check_kind_and_id(&self.common, "malware-instance")
    }
}

impl MaecObject for MalwareInstance {
    fn id(&self) -> (r: &str)
        ensures
            r@ == self.common.id@,
    {
        self.common.id.as_str()
    }

    fn type_(&self) -> (r: &str)
        ensures
            r@ == self.common.type_@,
    {
        self.common.type_.as_str()
    }

    fn created(&self) -> (r: Timestamp)
        ensures
            r == self.common.created,
    {
        self.common.created
    }
}

/// Collects the fields of a `MalwareInstance`.
#[derive(Debug, Default)]
pub struct MalwareInstanceBuilder {
    /// An identifier to use instead of a generated one.
    pub id: Option<String>,
    /// Identifiers of the objects that make up the instance, in order of
    /// addition.
    pub instance_object_refs: Vec<String>,
    /// The instance's name.
    pub name: Option<Name>,
    /// Other names, in order of addition.
    pub aliases: Vec<Name>,
    /// Labels, in order of addition.
    pub labels: Vec<String>,
    /// What the instance is.
    pub description: Option<String>,
    /// When and how the instance was seen.
    pub field_data: Option<FieldData>,
    /// Processor architectures, in order of addition.
    pub architecture_execution_envs: Vec<ProcessorArchitecture>,
    /// Capabilities, in order of addition.
    pub capabilities: Vec<Capability>,
}

impl MalwareInstanceBuilder {
    /// Sets the identifier.
    pub fn id(self, id: &str) -> (r: Self)
        ensures
            r.id is Some && r.id->0@ == id@,
            r == (MalwareInstanceBuilder { id: r.id, ..self }),
    {
        MalwareInstanceBuilder { id: Some(String::from_str(id)), ..self }
    }

    /// Adds the identifier of an object that makes up the instance.
    pub fn add_instance_object_ref(self, ref_id: &str) -> (r: Self)
        ensures
            r.instance_object_refs.deep_view() == self.instance_object_refs.deep_view().push(
                ref_id@,
            ),
            r == (MalwareInstanceBuilder { instance_object_refs: r.instance_object_refs, ..self }),
    {
        let mut b = self;
        b.instance_object_refs.push(String::from_str(ref_id));
        proof {
            assert(b.instance_object_refs.deep_view() =~= self.instance_object_refs.deep_view().push(
                ref_id@,
            ));
        }
        b
    }

    /// Sets the name.
    pub fn name(self, name: Name) -> (r: Self)
        ensures
            r == (MalwareInstanceBuilder { name: Some(name), ..self }),
    {
        MalwareInstanceBuilder { name: Some(name), ..self }
    }

    /// Adds another name.
    pub fn add_alias(self, alias: Name) -> (r: Self)
        ensures
            r.aliases@ == self.aliases@.push(alias),
            r == (MalwareInstanceBuilder { aliases: r.aliases, ..self }),
    {
        let mut b = self;
        b.aliases.push(alias);
        b
    }

    /// Adds a label.
    pub fn add_label(self, label: &str) -> (r: Self)
        ensures
            r.labels.deep_view() == self.labels.deep_view().push(label@),
            r == (MalwareInstanceBuilder { labels: r.labels, ..self }),
    {
        let mut b = self;
        b.labels.push(String::from_str(label));
        proof {
            assert(b.labels.deep_view() =~= self.labels.deep_view().push(label@));
        }
        b
    }

    /// Sets the description.
    pub fn description(self, desc: &str) -> (r: Self)
        ensures
            r.description is Some && r.description->0@ == desc@,
            r == (MalwareInstanceBuilder { description: r.description, ..self }),
    {
        MalwareInstanceBuilder { description: Some(String::from_str(desc)), ..self }
    }

    /// Sets the field data.
    pub fn field_data(self, field_data: FieldData) -> (r: Self)
        ensures
            r == (MalwareInstanceBuilder { field_data: Some(field_data), ..self }),
    {
        MalwareInstanceBuilder { field_data: Some(field_data), ..self }
    }

    /// Adds a processor architecture.
    pub fn add_architecture(self, arch: ProcessorArchitecture) -> (r: Self)
        ensures
            r.architecture_execution_envs@ == self.architecture_execution_envs@.push(arch),
            r == (MalwareInstanceBuilder {
                architecture_execution_envs: r.architecture_execution_envs,
                ..self
            }),
    {
        let mut b = self;
        b.architecture_execution_envs.push(arch);
        b
    }

    /// Adds a capability.
    pub fn add_capability(self, capability: Capability) -> (r: Self)
        ensures
            r.capabilities@ == self.capabilities@.push(capability),
            r == (MalwareInstanceBuilder { capabilities: r.capabilities, ..self }),
    {
        let mut b = self;
        b.capabilities.push(capability);
        b
    }

    /// The instance: a missing-field error without any object reference;
    /// else an invalid-id error for a given identifier that is not valid;
    /// else the instance with the builder's fields.
    pub fn build(self) -> (r: Result<MalwareInstance, MaecError>)
        ensures
            self.instance_object_refs@.len() == 0 ==> (r matches Err(MaecError::MissingField(f))
                && f@ == "instance_object_refs"@),
            self.instance_object_refs@.len() > 0 && self.id is Some && !is_valid_id(self.id->0@)
                ==> (r matches Err(MaecError::InvalidId(s)) && s@ == self.id->0@),
            self.instance_object_refs@.len() > 0 && (self.id is None || is_valid_id(self.id->0@))
                ==> (r matches Ok(m) && is_built_header(m.common, malware_instance_kind(), self.id)
                && m.instance_object_refs == self.instance_object_refs && m.name == self.name
                && m.aliases == self.aliases && m.labels == self.labels && m.description
                == self.description && m.field_data == self.field_data
                && m.architecture_execution_envs == self.architecture_execution_envs
                && m.capabilities == self.capabilities),
    {
        if self.instance_object_refs.len() == 0 {
            return Err(MaecError::MissingField("instance_object_refs"));
        }
        let mut common = CommonProperties::new("malware-instance", None);
        proof {
            lemma_malware_instance_kind_plain();
        }
        if let Some(id) = self.id {
            common.id = id;
        }
        let instance = MalwareInstance {
            common,
            instance_object_refs: self.instance_object_refs,
            name: self.name,
            aliases: self.aliases,
            labels: self.labels,
            description: self.description,
            field_data: self.field_data,
            architecture_execution_envs: self.architecture_execution_envs,
            capabilities: self.capabilities,
        };
        instance.validate()?;
        Ok(instance)
    }
}

} // verus!
