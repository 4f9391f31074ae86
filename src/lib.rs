//! A library for the MAEC 5.0 exchange format: typed identifiers, record
//! headers with a versioning lifecycle, validating builders for each record
//! kind, and the package that aggregates them.
use vstd::prelude::*;

pub mod common;
pub mod error;
pub mod ids;
pub mod objects;
pub mod time;
pub mod vocab;
pub mod vocab_large;

pub use common::{
    extract_type_from_id, generate_maec_id, is_valid_maec_id, is_valid_ref_for_type,
    CommonProperties, ExternalReference, MaecObject,
};
pub use error::MaecError;
pub use objects::{
    Behavior, BehaviorBuilder, Capability, CapabilityBuilder, Collection, CollectionBuilder,
    FieldData, FieldDataBuilder, MaecObjectType, MalwareAction, MalwareFamily,
    MalwareFamilyBuilder, MalwareInstance, MalwareInstanceBuilder, Name, ObjectKind, Package,
    PackageBuilder, Relationship, RelationshipBuilder, ShapeMatches,
};
pub use time::Timestamp;
pub use vocab::{
    AnalysisConclusionType, AnalysisEnvironment, AnalysisType, ConfidenceMeasure, DeliveryVector,
    EntityAssociation, MalwareLabel, ObfuscationMethod, ProcessorArchitecture,
};
pub use vocab_large::Behavior as BehaviorVocab;

verus! {

/// The media type of MAEC 5.0 JSON documents.
pub const MEDIA_TYPE_MAEC: &'static str = "application/maec+json;version=5.0";

/// The media type of MAEC JSON documents, without a version.
pub const MEDIA_TYPE_MAEC_GENERIC: &'static str = "application/maec+json";

} // verus!
