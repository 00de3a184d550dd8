//! Who is calling: principals, origins, and the derivation of one verified
//! principal from a call's identity claims.
use vstd::prelude::*;

use crate::error::PermissionError;

verus! {

pub type AccountId = u64;

pub type GroupId = u64;

pub type EntityId = u64;

/// An account, or any member of a group.
#[derive(Clone, Copy, Debug, PartialEq, Eq, Structural, PartialOrd, Ord, Hash)]
pub enum BasePrincipal {
    Account(AccountId),
    GroupMember(GroupId),
}

/// A principal named in an entity permission set: `Owner` stands for whoever
/// owns the entity at the time of the call.
#[derive(Clone, Copy, Debug, PartialEq, Eq, Structural, PartialOrd, Ord, Hash)]
pub enum EntityPrincipal {
    Owner,
    Base(BasePrincipal),
}

/// Who a call was proven to come from.
#[derive(Clone, Copy, Debug, PartialEq, Eq, Structural)]
pub enum DerivedPrincipal {
    System,
    EntityOwner,
    Base(BasePrincipal),
}

/// The raw identity a call arrives with.
#[derive(Clone, Copy, Debug, PartialEq, Eq, Structural)]
pub enum Origin {
    Root,
    Signed(AccountId),
    Unsigned,
}

/// The owner recorded for `entity`; `None` means the system owns it.
pub open spec fn stored_owner(owners: Seq<Option<BasePrincipal>>, entity: EntityId) -> Option<BasePrincipal> {
    if entity < owners.len() {
        owners[entity as int]
    } else {
        None
    }
}

/// The ownership claim holds when the recorded owner is exactly `claimant`.
pub open spec fn owner_claim(
    owners: Seq<Option<BasePrincipal>>,
    entity: EntityId,
    claimant: BasePrincipal,
) -> Result<DerivedPrincipal, PermissionError> {
    if stored_owner(owners, entity) == Some(claimant) {
        Ok(DerivedPrincipal::EntityOwner)
    } else {
        Err(PermissionError::NotEntityOwner)
    }
}

/// The principal that a call's claims prove, given the group memberships as
/// `(account, group)` pairs and the ownership table indexed by entity.
pub open spec fn derived_principal(
    origin: Origin,
    claimed_group: Option<GroupId>,
    acting_as_owner_of: Option<EntityId>,
    memberships: Seq<(AccountId, GroupId)>,
    owners: Seq<Option<BasePrincipal>>,
) -> Result<DerivedPrincipal, PermissionError> {
    match origin {
        Origin::Root => Ok(DerivedPrincipal::System),
        Origin::Signed(account) => {
            let claimant = match claimed_group {
                Some(g) => BasePrincipal::GroupMember(g),
                None => BasePrincipal::Account(account),
            };
            if claimed_group.is_some() && !memberships.contains((account, claimed_group.unwrap())) {
                Err(PermissionError::OriginNotMemberOfClaimedGroup)
            } else {
                match acting_as_owner_of {
                    Some(entity) => owner_claim(owners, entity, claimant),
                    None => Ok(DerivedPrincipal::Base(claimant)),
                }
            }
        },
        Origin::Unsigned => Err(PermissionError::BadOriginExpectedRootOrSigned),
    }
}

/// Whether `(account, group)` is among the recorded memberships.
pub fn is_member(memberships: &Vec<(AccountId, GroupId)>, account: AccountId, group: GroupId) -> (r: bool)
    ensures
        r == memberships@.contains((account, group)),
{
    let mut i: usize = 0;
    while i < memberships.len()
        invariant
            0 <= i <= memberships@.len(),
            forall|j: int| 0 <= j < i ==> memberships@[j] != (account, group),
        decreases memberships@.len() - i,
    {
        let (a, g) = memberships[i];
        if a == account && g == group {
            assert(memberships@[i as int] == (account, group));
            return true;
        }
        i = i + 1;
    }
    false
}

/// Checks that `claimant` is the recorded owner of `entity`.
fn prove_ownership(
    owners: &Vec<Option<BasePrincipal>>,
    entity: EntityId,
    claimant: BasePrincipal,
) -> (r: Result<DerivedPrincipal, PermissionError>)
    ensures
        r == owner_claim(owners@, entity, claimant),
{
    if entity < owners.len() as u64 {
        match owners[entity as usize] {
            Some(owner) => {
                if owner == claimant {
                    Ok(DerivedPrincipal::EntityOwner)
                } else {
                    Err(PermissionError::NotEntityOwner)
                }
            },
            None => Err(PermissionError::NotEntityOwner),
        }
    } else {
        Err(PermissionError::NotEntityOwner)
    }
}

/// Turns a call's identity claims into one verified principal. Root ignores
/// the other claims; a claimed group must hold the account; a claim to act as
/// an entity's owner must match the recorded owner.
pub fn derive_principal(
    origin: Origin,
    claimed_group: Option<GroupId>,
    acting_as_owner_of: Option<EntityId>,
    memberships: &Vec<(AccountId, GroupId)>,
    owners: &Vec<Option<BasePrincipal>>,
) -> (r: Result<DerivedPrincipal, PermissionError>)
    ensures
        r == derived_principal(origin, claimed_group, acting_as_owner_of, memberships@, owners@),
{
    match origin {
        Origin::Root => Ok(DerivedPrincipal::System),
        Origin::Signed(account) => {
            let claimant = match claimed_group {
                Some(g) => {
                    if !is_member(memberships, account, g) {
                        return Err(PermissionError::OriginNotMemberOfClaimedGroup);
                    }
                    BasePrincipal::GroupMember(g)
                },
                None => BasePrincipal::Account(account),
            };
            match acting_as_owner_of {
                Some(entity) => prove_ownership(owners, entity, claimant),
                None => Ok(DerivedPrincipal::Base(claimant)),
            }
        },
        Origin::Unsigned => Err(PermissionError::BadOriginExpectedRootOrSigned),
    }
}

} // verus!
