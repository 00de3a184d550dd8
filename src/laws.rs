//! Properties that hold across the derivation, the predicates and the
//! permission changes of the store.
use vstd::prelude::*;

use crate::error::PermissionError;
use crate::permissions::{BlockNumber, ClassId, ClassPermissions, ClassPredicate};
use crate::principal::{
    derived_principal, stored_owner, AccountId, BasePrincipal, DerivedPrincipal, EntityId, GroupId,
    Origin,
};
use crate::store::{updated_permissions, PermissionsUpdate, StoreModel};

verus! {

/// A root origin is always the system, whatever group or ownership it
/// claims.
pub proof fn root_derives_system(
    claimed_group: Option<GroupId>,
    acting_as_owner_of: Option<EntityId>,
    memberships: Seq<(AccountId, GroupId)>,
    owners: Seq<Option<BasePrincipal>>,
)
    ensures
        derived_principal(Origin::Root, claimed_group, acting_as_owner_of, memberships, owners)
            == Ok::<DerivedPrincipal, PermissionError>(DerivedPrincipal::System),
{
}

/// Claiming a group that the account is not a member of fails with
/// `OriginNotMemberOfClaimedGroup`, whether or not ownership is claimed too.
pub proof fn non_member_group_claim_fails(
    account: AccountId,
    group: GroupId,
    acting_as_owner_of: Option<EntityId>,
    memberships: Seq<(AccountId, GroupId)>,
    owners: Seq<Option<BasePrincipal>>,
)
    requires
        !memberships.contains((account, group)),
    ensures
        derived_principal(Origin::Signed(account), Some(group), acting_as_owner_of, memberships, owners)
            == Err::<DerivedPrincipal, PermissionError>(PermissionError::OriginNotMemberOfClaimedGroup),
{
}

/// A signed caller whose group claim, if any, holds is the entity's owner
/// exactly when the recorded owner is its proven identity: the claimed group,
/// or else its account. Any mismatch fails with `NotEntityOwner`.
pub proof fn entity_owner_derivation(
    account: AccountId,
    claimed_group: Option<GroupId>,
    entity: EntityId,
    memberships: Seq<(AccountId, GroupId)>,
    owners: Seq<Option<BasePrincipal>>,
)
    requires
        claimed_group is Some ==> memberships.contains((account, claimed_group->Some_0)),
    ensures
        ({
            let claimant = match claimed_group {
                Some(g) => BasePrincipal::GroupMember(g),
                None => BasePrincipal::Account(account),
            };
            let r = derived_principal(Origin::Signed(account), claimed_group, Some(entity), memberships, owners);
            &&& r is Ok <==> stored_owner(owners, entity) == Some(claimant)
            &&& r is Ok ==> r == Ok::<DerivedPrincipal, PermissionError>(DerivedPrincipal::EntityOwner)
            &&& r is Err ==> r == Err::<DerivedPrincipal, PermissionError>(PermissionError::NotEntityOwner)
        }),
{
}

/// The admin check admits the system and the members of the admin set, and
/// nobody else.
pub proof fn admin_check_admits_only_admins(permissions: ClassPermissions, principal: DerivedPrincipal)
    ensures
        permissions.decides(ClassPredicate::IsAdmin, principal) is Ok <==> (principal is System || (
        principal is Base && permissions.admins@.contains(principal->Base_0))),
{
}

/// A permission change that is not authorized leaves the whole state,
/// record and stamp included, as it was.
pub proof fn refused_mutation_changes_nothing(
    m: StoreModel,
    origin: Origin,
    claimed_group: Option<GroupId>,
    predicate: ClassPredicate,
    class_id: ClassId,
    update: PermissionsUpdate,
)
    requires
        m.authorize(origin, claimed_group, None, predicate, class_id) is Err,
    ensures
        m.after_mutation(origin, claimed_group, predicate, class_id, update) == m,
{
}

/// Repeating a permission change that succeeded, at a later block, succeeds
/// again whenever the changed record still admits the caller, and changes
/// nothing but the record's stamp.
pub proof fn repeated_mutation_only_restamps(
    m: StoreModel,
    origin: Origin,
    claimed_group: Option<GroupId>,
    predicate: ClassPredicate,
    class_id: ClassId,
    update: PermissionsUpdate,
    later_block: BlockNumber,
)
    requires
        m.authorize(origin, claimed_group, None, predicate, class_id) is Ok,
        updated_permissions(m.class_permissions[class_id as int], update, m.block_number).decides(
            predicate,
            m.authorize(origin, claimed_group, None, predicate, class_id)->Ok_0,
        ) is Ok,
    ensures
        ({
            let once = m.after_mutation(origin, claimed_group, predicate, class_id, update);
            let moved = StoreModel { block_number: later_block, ..once };
            let twice = moved.after_mutation(origin, claimed_group, predicate, class_id, update);
            &&& moved.authorize(origin, claimed_group, None, predicate, class_id) is Ok
            &&& twice == StoreModel {
                class_permissions: once.class_permissions.update(
                    class_id as int,
                    ClassPermissions { last_permissions_update: later_block, ..once.class_permissions[class_id as int] },
                ),
                ..moved
            }
        }),
{
    let once = m.after_mutation(origin, claimed_group, predicate, class_id, update);
    let moved = StoreModel { block_number: later_block, ..once };
    let twice = moved.after_mutation(origin, claimed_group, predicate, class_id, update);
    assert(moved.class_permissions[class_id as int] == updated_permissions(m.class_permissions[class_id as int], update, m.block_number));
    assert(twice.class_permissions =~= once.class_permissions.update(
        class_id as int,
        ClassPermissions { last_permissions_update: later_block, ..once.class_permissions[class_id as int] },
    ));
}

/// The changes that the class setters make repeat cleanly: the admin set is
/// changed by the system only, and the admin check reads no field that the
/// other setters change.
pub proof fn repeated_setter_only_restamps(
    m: StoreModel,
    origin: Origin,
    claimed_group: Option<GroupId>,
    predicate: ClassPredicate,
    class_id: ClassId,
    update: PermissionsUpdate,
    later_block: BlockNumber,
)
    requires
        m.authorize(origin, claimed_group, None, predicate, class_id) is Ok,
        predicate is IsSystem || (predicate is IsAdmin && !(update is Admins)),
    ensures
        ({
            let once = m.after_mutation(origin, claimed_group, predicate, class_id, update);
            let moved = StoreModel { block_number: later_block, ..once };
            let twice = moved.after_mutation(origin, claimed_group, predicate, class_id, update);
            &&& moved.authorize(origin, claimed_group, None, predicate, class_id) is Ok
            &&& twice == StoreModel {
                class_permissions: once.class_permissions.update(
                    class_id as int,
                    ClassPermissions { last_permissions_update: later_block, ..once.class_permissions[class_id as int] },
                ),
                ..moved
            }
        }),
{
    repeated_mutation_only_restamps(m, origin, claimed_group, predicate, class_id, update, later_block);
}

} // verus!
