//! Value types embedded in records: names and field data.
use vstd::prelude::*;

use crate::common::ExternalReference;
use crate::error::MaecError;
use crate::time::Timestamp;

verus! {

/// The name of a malware instance, family or alias, with where it comes
/// from and how sure that source is.
#[derive(Debug, Clone, PartialEq, Eq)]
pub struct Name {
    /// The name itself.
    pub value: String,
    /// Who gave the name, such as an anti-virus vendor.
    pub source: Option<ExternalReference>,
    /// How sure the source is of the name.
    pub confidence: Option<String>,
}

impl Name {
    /// A name with no source and no confidence.
    pub fn new(value: &str) -> (r: Self)
        ensures
            r.value@ == value@,
            r.source is None,
            r.confidence is None,
    {
        Name { value: String::from_str(value), source: None, confidence: None }
    }

    /// A name with a source and no confidence.
    pub fn with_source(value: &str, source: ExternalReference) -> (r: Self)
        ensures
            r.value@ == value@,
            r.source == Some(source),
            r.confidence is None,
    {
        Name { value: String::from_str(value), source: Some(source), confidence: None }
    }

    /// A name with a source and a confidence.
    pub fn with_confidence(value: &str, source: ExternalReference, confidence: &str) -> (r: Self)
        ensures
            r.value@ == value@,
            r.source == Some(source),
            r.confidence is Some && r.confidence->0@ == confidence@,
    {
        Name {
            value: String::from_str(value),
            source: Some(source),
            confidence: Some(String::from_str(confidence)),
        }
    }
}

impl From<String> for Name {
    /// A name with no source and no confidence.
    fn from(value: String) -> (r: Self)
        ensures
            r.value == value,
            r.source is None,
            r.confidence is None,
    {
        Name { value, source: None, confidence: None }
    }
}

impl vstd::std_specs::convert::FromSpecImpl<String> for Name {
    open spec fn obeys_from_spec() -> bool {
        true
    }

    open spec fn from_spec(v: String) -> Name {
        Name { value: v, source: None, confidence: None }
    }
}

impl From<&str> for Name {
    /// A name with no source and no confidence.
    fn from(value: &str) -> (r: Self)
        ensures
            r.value@ == value@,
            r.source is None,
            r.confidence is None,
    {
        Name::new(value)
    }
}

impl vstd::std_specs::convert::FromSpecImpl<&str> for Name {
    /// The name is a fresh `String`, which no spec value can denote.
    open spec fn obeys_from_spec() -> bool {
        false
    }

    open spec fn from_spec(v: &str) -> Name {
        arbitrary()
    }
}

/// When and how a malware instance or family was seen in the field. At least
/// one of the three parts is present.
#[derive(Debug, Clone, PartialEq, Eq)]
pub struct FieldData {
    /// How the malware was delivered, such as `email-attachment`.
    pub delivery_vectors: Option<Vec<String>>,
    /// When the malware was first seen.
    pub first_seen: Option<Timestamp>,
    /// When the malware was last seen.
    pub last_seen: Option<Timestamp>,
}

impl FieldData {
    /// At least one part is present.
    pub open spec fn wf(&self) -> bool {
        self.delivery_vectors is Some || self.first_seen is Some || self.last_seen is Some
    }

    /// A builder with no part set.
    pub fn builder() -> (r: FieldDataBuilder)
        ensures
            r.delivery_vectors is None,
            r.first_seen is None,
            r.last_seen is None,
    {
        FieldDataBuilder { delivery_vectors: None, first_seen: None, last_seen: None }
    }

    /// Field data with only delivery vectors.
    pub fn with_delivery_vectors(vectors: Vec<String>) -> (r: Self)
        ensures
            r.delivery_vectors == Some(vectors),
            r.first_seen is None,
            r.last_seen is None,
            r.wf(),
    {
        FieldData { delivery_vectors: Some(vectors), first_seen: None, last_seen: None }
    }

    /// Field data with a first sighting and maybe a last one.
    pub fn with_timestamps(first_seen: Timestamp, last_seen: Option<Timestamp>) -> (r: Self)
        ensures
            r.delivery_vectors is None,
            r.first_seen == Some(first_seen),
            r.last_seen == last_seen,
            r.wf(),
    {
        FieldData { delivery_vectors: None, first_seen: Some(first_seen), last_seen }
    }
}

/// Collects the parts of a `FieldData`.
#[derive(Debug, Default)]
pub struct FieldDataBuilder {
    /// The delivery vectors set so far.
    pub delivery_vectors: Option<Vec<String>>,
    /// The first sighting, if set.
    pub first_seen: Option<Timestamp>,
    /// The last sighting, if set.
    pub last_seen: Option<Timestamp>,
}

/// The delivery vectors of `v`, none counted as empty.
pub open spec fn vectors_or_empty(v: Option<Vec<String>>) -> Seq<Seq<char>> {
    match v {
        Some(v) => v.deep_view(),
        None => Seq::empty(),
    }
}

/// The message of the error for field data with no part.
pub open spec fn empty_field_data_message() -> Seq<char> {
    "FieldData must have at least one of: delivery_vectors, first_seen, or last_seen"@
}

impl FieldDataBuilder {
    /// Sets the delivery vectors.
    pub fn delivery_vectors(self, vectors: Vec<String>) -> (r: Self)
        ensures
            r.delivery_vectors == Some(vectors),
            r.first_seen == self.first_seen,
            r.last_seen == self.last_seen,
    {
        FieldDataBuilder { delivery_vectors: Some(vectors), ..self }
    }

    /// Adds one delivery vector after those already set.
    pub fn add_delivery_vector(self, vector: &str) -> (r: Self)
        ensures
            r.delivery_vectors is Some,
            vectors_or_empty(r.delivery_vectors) == vectors_or_empty(self.delivery_vectors).push(
                vector@,
            ),
            r.first_seen == self.first_seen,
            r.last_seen == self.last_seen,
    {
        let mut vectors = match self.delivery_vectors {
            Some(v) => v,
            None => Vec::new(),
        };
        vectors.push(String::from_str(vector));
        proof {
            assert(vectors.deep_view() =~= vectors_or_empty(self.delivery_vectors).push(vector@));
        }
        FieldDataBuilder { delivery_vectors: Some(vectors), first_seen: self.first_seen, last_seen: self.last_seen }
    }

    /// Sets the first sighting.
    pub fn first_seen(self, timestamp: Timestamp) -> (r: Self)
        ensures
            r.delivery_vectors == self.delivery_vectors,
            r.first_seen == Some(timestamp),
            r.last_seen == self.last_seen,
    {
        FieldDataBuilder { first_seen: Some(timestamp), ..self }
    }

    /// Sets the last sighting.
    pub fn last_seen(self, timestamp: Timestamp) -> (r: Self)
        ensures
            r.delivery_vectors == self.delivery_vectors,
            r.first_seen == self.first_seen,
            r.last_seen == Some(timestamp),
    {
        FieldDataBuilder { last_seen: Some(timestamp), ..self }
    }

    /// The field data, or a validation error when no part is set.
    pub fn build(self) -> (r: Result<FieldData, MaecError>)
        ensures
            self.delivery_vectors is None && self.first_seen is None && self.last_seen is None
                ==> (r matches Err(MaecError::ValidationError(m)) && m@ == empty_field_data_message()),
            self.delivery_vectors is Some || self.first_seen is Some || self.last_seen is Some
                ==> r == Ok::<FieldData, MaecError>(
                FieldData {
                    delivery_vectors: self.delivery_vectors,
                    first_seen: self.first_seen,
                    last_seen: self.last_seen,
                },
            ),
    {
        if self.delivery_vectors.is_none() && self.first_seen.is_none() && self.last_seen.is_none() {
            proof {
                reveal_strlit(
                    "FieldData must have at least one of: delivery_vectors, first_seen, or last_seen",
                );
            }
            return Err(
                MaecError::ValidationError(
                    String::from_str(
                        "FieldData must have at least one of: delivery_vectors, first_seen, or last_seen",
                    ),
                ),
            );
        }
        Ok(
            FieldData {
                delivery_vectors: self.delivery_vectors,
                first_seen: self.first_seen,
                last_seen: self.last_seen,
            },
        )
    }
}

} // verus!
