//! Malware actions: single steps that malware performs, such as creating a
//! file.
use vstd::prelude::*;

use crate::common::{
    check_kind_and_id, is_fresh_header, is_header_verdict, CommonProperties, MaecObject,
};
use crate::error::MaecError;
use crate::time::Timestamp;

verus! {

/// The kind of malware-action records.
pub open spec fn malware_action_kind() -> Seq<char> {
    "malware-action"@
}

/// An action that malware performed.
#[derive(Debug, Clone, PartialEq, Eq)]
pub struct MalwareAction {
    /// The header, of kind `malware-action`.
    pub common: CommonProperties,
    /// What the action is, such as `create-file`.
    pub name: String,
    /// Whether the action succeeded.
    pub is_successful: Option<bool>,
    /// When the action was performed.
    pub timestamp: Option<Timestamp>,
    /// What the action did.
    pub description: Option<String>,
    /// The identifiers of the objects the action took as input.
    pub input_object_refs: Vec<String>,
    /// The identifiers of the objects the action produced.
    pub output_object_refs: Vec<String>,
}

impl MalwareAction {
    /// An action with a fresh header and only a name.
    pub fn new(name: &str) -> (r: Self)
        ensures
            is_fresh_header(r.common, malware_action_kind(), None),
            r.name@ == name@,
            r.is_successful is None,
            r.timestamp is None,
            r.description is None,
            r.input_object_refs@.len() == 0,
            r.output_object_refs@.len() == 0,
    {
        MalwareAction {
            common: CommonProperties::new("malware-action", None),
            name: String::from_str(name),
            is_successful: None,
            timestamp: None,
            description: None,
            input_object_refs: Vec::new(),
            output_object_refs: Vec::new(),
        }
    }

    /// Checks that the header has kind `malware-action` and a valid
    /// identifier.
    pub fn validate(&self) -> (r: Result<(), MaecError>)
        ensures
            is_header_verdict(self.common, malware_action_kind(), r),
    {
        check_kind_and_id(&self.common, "malware-action")
    }
}

impl MaecObject for MalwareAction {
    fn id(&self) -> (r: &str)
        ensures
            r@ == self.common.id@,
    {
        self.common.id.as_str()
    }

    fn type_(&self) -> (r: &str)
        ensures
            r@ == self.common.type_@,
    {
        self.common.type_.as_str()
    }

    fn created(&self) -> (r: Timestamp)
        ensures
            r == self.common.created,
    {
        self.common.created
    }
}

} // verus!
