//! Which storage provider holds which content: each relationship ties a
//! content id to the account that stores it, with a flag the provider sets
//! once the content is ready to be served.
use vstd::prelude::*;

use crate::principal::{AccountId, Origin};

verus! {

pub type ContentId = u64;

pub type RelationshipId = u64;

/// Why a registry operation was refused.
#[derive(Clone, Copy, Debug, PartialEq, Eq, Structural)]
pub enum StorageRegistryError {
    BadOriginExpectedSigned,
    ContentIdNotFound,
    RelationshipNotFound,
    OnlyStorageProviderMayClaimReady,
}

/// Content stored by one provider.
#[derive(Clone, Copy, Debug, PartialEq, Eq, Structural)]
pub struct DataObjectStorageRelationship {
    pub content_id: ContentId,
    pub storage_provider: AccountId,
    pub ready: bool,
}

/// The relationships, numbered consecutively from `first_relationship_id`,
/// and the content ids that the content directory knows.
pub struct DataObjectStorageRegistry {
    first_relationship_id: RelationshipId,
    relationships: Vec<DataObjectStorageRelationship>,
    known_content: Vec<ContentId>,
}

impl DataObjectStorageRegistry {
    pub closed spec fn first_id(&self) -> RelationshipId {
        self.first_relationship_id
    }

    /// The relationships in order of id.
    pub closed spec fn relationships_seq(&self) -> Seq<DataObjectStorageRelationship> {
        self.relationships@
    }

    pub closed spec fn known_content_seq(&self) -> Seq<ContentId> {
        self.known_content@
    }

    /// The id that the next relationship gets.
    pub open spec fn next_id(&self) -> int {
        self.first_id() + self.relationships_seq().len()
    }

    /// The relationship with id `id`, if there is one.
    pub open spec fn relationship_at(&self, id: RelationshipId) -> Option<DataObjectStorageRelationship> {
        if self.first_id() <= id < self.next_id() {
            Some(self.relationships_seq()[id - self.first_id()])
        } else {
            None
        }
    }

    /// A registry with no relationships, whose first relationship will have
    /// id `first_relationship_id`, over the content ids `known_content`.
    pub fn new(first_relationship_id: RelationshipId, known_content: Vec<ContentId>) -> (r: Self)
        ensures
            r.first_id() == first_relationship_id,
            r.relationships_seq().len() == 0,
            r.known_content_seq() == known_content@,
    {
        DataObjectStorageRegistry { first_relationship_id, relationships: Vec::new(), known_content }
    }

    /// The id of the first relationship.
    pub fn first_relationship_id(&self) -> (r: RelationshipId)
        ensures
            r == self.first_id(),
    {
        self.first_relationship_id
    }

    /// The id that the next relationship will get.
    pub fn next_relationship_id(&self) -> (r: RelationshipId)
        requires
            self.next_id() <= u64::MAX,
        ensures
            r == self.next_id(),
    {
        let n = self.relationships.len() as u64;
        self.first_relationship_id + n
    }

    /// Records that the signed caller stores `content_id`, not yet ready;
    /// returns the new relationship's id.
    pub fn add_relationship(&mut self, origin: Origin, content_id: ContentId) -> (r: Result<RelationshipId, StorageRegistryError>)
        requires
            old(self).next_id() < u64::MAX,
        ensures
            final(self).first_id() == old(self).first_id(),
            final(self).known_content_seq() == old(self).known_content_seq(),
            match origin {
                Origin::Signed(who) => if old(self).known_content_seq().contains(content_id) {
                    &&& r == Ok::<RelationshipId, StorageRegistryError>(old(self).next_id() as RelationshipId)
                    &&& final(self).relationships_seq() == old(self).relationships_seq().push(
                        DataObjectStorageRelationship { content_id, storage_provider: who, ready: false },
                    )
                } else {
                    &&& r == Err::<RelationshipId, StorageRegistryError>(StorageRegistryError::ContentIdNotFound)
                    &&& final(self).relationships_seq() == old(self).relationships_seq()
                },
                _ => {
                    &&& r == Err::<RelationshipId, StorageRegistryError>(StorageRegistryError::BadOriginExpectedSigned)
                    &&& final(self).relationships_seq() == old(self).relationships_seq()
                },
            },
    {
        let who = match origin {
            Origin::Signed(who) => who,
            _ => {
                return Err(StorageRegistryError::BadOriginExpectedSigned);
            },
        };
        if !contains_content(&self.known_content, content_id) {
            return Err(StorageRegistryError::ContentIdNotFound);
        }
        let id = self.next_relationship_id();
        self.relationships.push(DataObjectStorageRelationship { content_id, storage_provider: who, ready: false });
        Ok(id)
    }

    /// The relationship with id `id`, if there is one.
    pub fn relationship(&self, id: RelationshipId) -> (r: Option<DataObjectStorageRelationship>)
        ensures
            r == self.relationship_at(id),
    {
        if id < self.first_relationship_id {
            return None;
        }
        let index = id - self.first_relationship_id;
        if index < self.relationships.len() as u64 {
            Some(self.relationships[index as usize])
        } else {
            None
        }
    }

    /// Lets the provider of relationship `id` set its ready flag to `ready`.
    pub fn toggle_relationship_ready(&mut self, origin: Origin, id: RelationshipId, ready: bool) -> (r: Result<(), StorageRegistryError>)
        ensures
            final(self).first_id() == old(self).first_id(),
            final(self).known_content_seq() == old(self).known_content_seq(),
            r == (match origin {
                Origin::Signed(who) => match old(self).relationship_at(id) {
                    Some(rel) => if rel.storage_provider == who {
                        Ok(())
                    } else {
                        Err(StorageRegistryError::OnlyStorageProviderMayClaimReady)
                    },
                    None => Err(StorageRegistryError::RelationshipNotFound),
                },
                _ => Err(StorageRegistryError::BadOriginExpectedSigned),
            }),
            r is Err ==> final(self).relationships_seq() == old(self).relationships_seq(),
            r is Ok ==> final(self).relationships_seq() == old(self).relationships_seq().update(
                id - old(self).first_id(),
                DataObjectStorageRelationship { ready, ..old(self).relationship_at(id)->Some_0 },
            ),
    {
        let who = match origin {
            Origin::Signed(who) => who,
            _ => {
                return Err(StorageRegistryError::BadOriginExpectedSigned);
            },
        };
        let found = self.relationship(id);
        let rel = match found {
            Some(rel) => rel,
            None => {
                return Err(StorageRegistryError::RelationshipNotFound);
            },
        };
        if rel.storage_provider != who {
            return Err(StorageRegistryError::OnlyStorageProviderMayClaimReady);
        }
        let offset = id - self.first_relationship_id;
        assert(offset < self.relationships.len());
        let index = offset as usize;
        self.relationships.set(index, DataObjectStorageRelationship { ready, ..rel });
        Ok(())
    }

    /// Marks relationship `id` ready; only its provider may.
    pub fn set_relationship_ready(&mut self, origin: Origin, id: RelationshipId) -> (r: Result<(), StorageRegistryError>)
        ensures
            r is Ok <==> (origin is Signed && old(self).relationship_at(id) is Some
                && old(self).relationship_at(id)->Some_0.storage_provider == origin->Signed_0),
            r is Err ==> final(self).relationships_seq() == old(self).relationships_seq(),
            r is Ok ==> final(self).relationship_at(id) == Some(
                DataObjectStorageRelationship { ready: true, ..old(self).relationship_at(id)->Some_0 },
            ),
            r is Ok ==> final(self).relationships_seq().len() == old(self).relationships_seq().len(),
    {
        self.toggle_relationship_ready(origin, id, true)
    }

    /// Marks relationship `id` not ready; only its provider may.
    pub fn unset_relationship_ready(&mut self, origin: Origin, id: RelationshipId) -> (r: Result<(), StorageRegistryError>)
        ensures
            r is Ok <==> (origin is Signed && old(self).relationship_at(id) is Some
                && old(self).relationship_at(id)->Some_0.storage_provider == origin->Signed_0),
            r is Err ==> final(self).relationships_seq() == old(self).relationships_seq(),
            r is Ok ==> final(self).relationship_at(id) == Some(
                DataObjectStorageRelationship { ready: false, ..old(self).relationship_at(id)->Some_0 },
            ),
            r is Ok ==> final(self).relationships_seq().len() == old(self).relationships_seq().len(),
    {
        self.toggle_relationship_ready(origin, id, false)
    }
}

/// Whether `id` is in `ids`.
fn contains_content(ids: &Vec<ContentId>, id: ContentId) -> (r: bool)
    ensures
        r == ids@.contains(id),
{
    let mut i: usize = 0;
    while i < ids.len()
        invariant
            0 <= i <= ids@.len(),
            forall|j: int| 0 <= j < i ==> ids@[j] != id,
        decreases ids@.len() - i,
    {
        if ids[i] == id {
            return true;
        }
        i = i + 1;
    }
    false
}

} // verus!
