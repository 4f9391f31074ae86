//! Collections: groupings of related records.
use vstd::prelude::*;

use crate::common::{
    check_kind_and_id, is_built_header, is_fresh_header, is_header_verdict, CommonProperties,
    MaecObject,
};
use crate::error::MaecError;
use crate::ids::{is_plain_kind, is_valid_id};
use crate::time::Timestamp;

verus! {

/// The kind of collection records.
pub open spec fn collection_kind() -> Seq<char> {
    "collection"@
}

/// The kind `collection` can carry an identifier.
proof fn lemma_collection_kind_plain()
    ensures
        is_plain_kind(collection_kind()),
{
    reveal_strlit("collection");
}

/// A grouping of related records.
#[derive(Debug, Clone, PartialEq, Eq)]
pub struct Collection {
    /// The header, of kind `collection`.
    pub common: CommonProperties,
    /// The collection's name.
    pub name: Option<String>,
    /// What the collection holds.
    pub description: Option<String>,
}

impl Collection {
    /// A builder with nothing set.
    pub fn builder() -> (r: CollectionBuilder)
        ensures
            r.id is None,
            r.name is None,
            r.description is None,
    {
        CollectionBuilder { id: None, name: None, description: None }
    }

    /// A collection with a fresh header, no name and no description.
    pub fn new() -> (r: Self)
        ensures
            is_fresh_header(r.common, collection_kind(), None),
            r.name is None,
            r.description is None,
    {
        Collection { common: CommonProperties::new("collection", None), name: None, description: None }
    }

    /// Checks that the header has kind `collection` and a valid identifier.
    pub fn validate(&self) -> (r: Result<(), MaecError>)
        ensures
            is_header_verdict(self.common, collection_kind(), r),
    {
        check_kind_and_id(&self.common, "collection")
    }
}

impl Default for Collection {
    /// A collection with a fresh header, no name and no description.
    fn default() -> (r: Self)
        ensures
            is_fresh_header(r.common, collection_kind(), None),
            r.name is None,
            r.description is None,
    {
        Collection::new()
    }
}

impl MaecObject for Collection {
    fn id(&self) -> (r: &str)
        ensures
            r@ == self.common.id@,
    {
        self.common.id.as_str()
    }

    fn type_(&self) -> (r: &str)
        ensures
            r@ == self.common.type_@,
    {
        self.common.type_.as_str()
    }

    fn created(&self) -> (r: Timestamp)
        ensures
            r == self.common.created,
    {
        self.common.created
    }
}

/// Collects the fields of a `Collection`.
#[derive(Debug, Default)]
pub struct CollectionBuilder {
    /// An identifier to use instead of a generated one.
    pub id: Option<String>,
    /// The collection's name.
    pub name: Option<String>,
    /// What the collection holds.
    pub description: Option<String>,
}

impl CollectionBuilder {
    /// Sets the identifier.
    pub fn id(self, id: &str) -> (r: Self)
        ensures
            r.id is Some && r.id->0@ == id@,
            r == (CollectionBuilder { id: r.id, ..self }),
    {
        CollectionBuilder { id: Some(String::from_str(id)), ..self }
    }

    /// Sets the name.
    pub fn name(self, name: &str) -> (r: Self)
        ensures
            r.name is Some && r.name->0@ == name@,
            r == (CollectionBuilder { name: r.name, ..self }),
    {
        CollectionBuilder { name: Some(String::from_str(name)), ..self }
    }

    /// Sets the description.
    pub fn description(self, desc: &str) -> (r: Self)
        ensures
            r.description is Some && r.description->0@ == desc@,
            r == (CollectionBuilder { description: r.description, ..self }),
    {
        CollectionBuilder { description: Some(String::from_str(desc)), ..self }
    }

    /// The collection: an invalid-id error for a given identifier that is
    /// not valid; else the collection with the builder's fields.
    pub fn build(self) -> (r: Result<Collection, MaecError>)
        ensures
            self.id is Some && !is_valid_id(self.id->0@) ==> (r matches Err(MaecError::InvalidId(s))
                && s@ == self.id->0@),
            self.id is None || is_valid_id(self.id->0@) ==> (r matches Ok(c) && is_built_header(
                c.common,
                collection_kind(),
                self.id,
            ) && c.name == self.name && c.description == self.description),
    {
        let mut common = CommonProperties::new("collection", None);
        proof {
            lemma_collection_kind_plain();
        }
        if let Some(id) = self.id {
            common.id = id;
        }
        let collection = Collection { common, name: self.name, description: self.description };
        collection.validate()?;
        Ok(collection)
    }
}

} // verus!
