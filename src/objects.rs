//! The record kinds, the values embedded in them, and the package that
//! aggregates them.
pub mod behavior;
pub mod capability;
pub mod collection;
pub mod malware_action;
pub mod malware_family;
pub mod malware_instance;
pub mod package;
pub mod relationship;
pub mod types;

pub use behavior::{Behavior, BehaviorBuilder};
pub use capability::{Capability, CapabilityBuilder};
pub use collection::{Collection, CollectionBuilder};
pub use malware_action::MalwareAction;
pub use malware_family::{MalwareFamily, MalwareFamilyBuilder};
pub use malware_instance::{MalwareInstance, MalwareInstanceBuilder};
pub use package::{MaecObjectType, ObjectKind, Package, PackageBuilder, ShapeMatches};
pub use relationship::{Relationship, RelationshipBuilder};
pub use types::{FieldData, FieldDataBuilder, Name};
