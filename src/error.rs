//! The reasons for which an operation is refused.
use vstd::prelude::*;

verus! {

/// Every reason for which an operation can be refused.
#[derive(Clone, Copy, Debug, PartialEq, Eq, Structural)]
pub enum PermissionError {
    OriginNotMemberOfClaimedGroup,
    NotEntityOwner,
    BadOriginExpectedRootOrSigned,
    NotInAdminsSet,
    NotInAddSchemasSet,
    EntitiesCannotBeCreated,
    NotInCreateEntitiesSet,
    NotInEntityPermissionsUpdateSet,
    NotInEntityPermissionsTransferOwnershipSet,
    NotRootOrigin,
    EntityOwnerUsedOutOfPlace,
    ClassIdDoesNotExist,
    EntityNotFound,
    EntityCannotReferenceTargetEntity,
    NotPermittedToCreateClass,
    SchemaNotFound,
    SchemaAlreadySupported,
    UnknownPropertyIndex,
}

} // verus!
