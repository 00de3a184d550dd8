//! The per-class permission record and the predicates evaluated against it.
use vstd::prelude::*;

use crate::error::PermissionError;
use crate::principal::{BasePrincipal, DerivedPrincipal, EntityPrincipal};

verus! {

pub type ClassId = u64;

pub type BlockNumber = u64;

/// One declared property slot of one class.
#[derive(Clone, Copy, Debug, PartialEq, Eq, Structural, PartialOrd, Ord, Hash)]
pub struct PropertyOfClass {
    pub class_id: ClassId,
    pub property_index: u16,
}

/// Which property slots elsewhere may hold a reference into a class.
#[derive(Clone, Debug, PartialEq, Eq)]
pub enum ReferenceConstraint {
    NoReferencingAllowed,
    NoConstraint,
    Restricted(Vec<PropertyOfClass>),
}

/// Who may update, delete, or transfer the ownership of a class's entities.
#[derive(Clone, Debug, PartialEq, Eq)]
pub struct EntityPermissions {
    pub update: Vec<EntityPrincipal>,
    pub delete: Vec<EntityPrincipal>,
    pub transfer_ownership: Vec<EntityPrincipal>,
}

/// The authorization record of one class.
#[derive(Clone, Debug, PartialEq, Eq)]
pub struct ClassPermissions {
    pub entity_permissions: EntityPermissions,
    pub entities_can_be_created: bool,
    pub add_schemas: Vec<BasePrincipal>,
    pub create_entities: Vec<BasePrincipal>,
    pub reference_constraint: ReferenceConstraint,
    pub admins: Vec<BasePrincipal>,
    pub last_permissions_update: BlockNumber,
}

/// The authorization checks that can guard an operation on a class.
#[derive(Clone, Copy, Debug, PartialEq, Eq, Structural)]
pub enum ClassPredicate {
    IsSystem,
    IsAdmin,
    CanAddSchema,
    CanCreateEntity,
    CanUpdateEntity,
    CanTransferEntityOwnership,
}

impl EntityPermissions {
    pub open spec fn is_empty(&self) -> bool {
        &&& self.update@.len() == 0
        &&& self.delete@.len() == 0
        &&& self.transfer_ownership@.len() == 0
    }
}

impl Default for EntityPermissions {
    fn default() -> (r: Self)
        ensures
            r.is_empty(),
    {
        EntityPermissions { update: Vec::new(), delete: Vec::new(), transfer_ownership: Vec::new() }
    }
}

impl Default for ReferenceConstraint {
    fn default() -> (r: Self)
        ensures
            r is NoReferencingAllowed,
    {
        ReferenceConstraint::NoReferencingAllowed
    }
}

impl ClassPermissions {
    /// The most restrictive record: nobody may do anything but the system,
    /// no entities can be created and nothing may reference the class.
    pub open spec fn is_default(&self) -> bool {
        &&& self.entity_permissions.is_empty()
        &&& !self.entities_can_be_created
        &&& self.add_schemas@.len() == 0
        &&& self.create_entities@.len() == 0
        &&& self.reference_constraint is NoReferencingAllowed
        &&& self.admins@.len() == 0
        &&& self.last_permissions_update == 0
    }

    /// What `predicate` decides for `principal` under this record.
    pub open spec fn decides(&self, predicate: ClassPredicate, principal: DerivedPrincipal) -> Result<(), PermissionError> {
        match principal {
            DerivedPrincipal::System => Ok(()),
            DerivedPrincipal::EntityOwner => match predicate {
                ClassPredicate::IsSystem => Err(PermissionError::NotRootOrigin),
                ClassPredicate::CanUpdateEntity =>
                    if self.entity_permissions.update@.contains(EntityPrincipal::Owner) {
                        Ok(())
                    } else {
                        Err(PermissionError::NotInEntityPermissionsUpdateSet)
                    },
                ClassPredicate::CanTransferEntityOwnership =>
                    if self.entity_permissions.transfer_ownership@.contains(EntityPrincipal::Owner) {
                        Ok(())
                    } else {
                        Err(PermissionError::NotInEntityPermissionsTransferOwnershipSet)
                    },
                _ => Err(PermissionError::EntityOwnerUsedOutOfPlace),
            },
            DerivedPrincipal::Base(p) => match predicate {
                ClassPredicate::IsSystem => Err(PermissionError::NotRootOrigin),
                ClassPredicate::IsAdmin =>
                    if self.admins@.contains(p) {
                        Ok(())
                    } else {
                        Err(PermissionError::NotInAdminsSet)
                    },
                ClassPredicate::CanAddSchema =>
                    if self.add_schemas@.contains(p) {
                        Ok(())
                    } else {
                        Err(PermissionError::NotInAddSchemasSet)
                    },
                ClassPredicate::CanCreateEntity =>
                    if !self.entities_can_be_created {
                        Err(PermissionError::EntitiesCannotBeCreated)
                    } else if self.create_entities@.contains(p) {
                        Ok(())
                    } else {
                        Err(PermissionError::NotInCreateEntitiesSet)
                    },
                ClassPredicate::CanUpdateEntity =>
                    if self.entity_permissions.update@.contains(EntityPrincipal::Base(p)) {
                        Ok(())
                    } else {
                        Err(PermissionError::NotInEntityPermissionsUpdateSet)
                    },
                ClassPredicate::CanTransferEntityOwnership =>
                    if self.entity_permissions.transfer_ownership@.contains(EntityPrincipal::Base(p)) {
                        Ok(())
                    } else {
                        Err(PermissionError::NotInEntityPermissionsTransferOwnershipSet)
                    },
            },
        }
    }

    /// Allows the system only.
    pub fn is_system(&self, principal: DerivedPrincipal) -> (r: Result<(), PermissionError>)
        ensures
            r == self.decides(ClassPredicate::IsSystem, principal),
            r is Ok <==> principal is System,
    {
        match principal {
            DerivedPrincipal::System => Ok(()),
            _ => Err(PermissionError::NotRootOrigin),
        }
    }

    /// Allows the system and the members of the admin set.
    pub fn is_admin(&self, principal: DerivedPrincipal) -> (r: Result<(), PermissionError>)
        ensures
            r == self.decides(ClassPredicate::IsAdmin, principal),
            r is Ok <==> (principal is System || (principal is Base && self.admins@.contains(principal->Base_0))),
    {
        match principal {
            DerivedPrincipal::System => Ok(()),
            DerivedPrincipal::EntityOwner => Err(PermissionError::EntityOwnerUsedOutOfPlace),
            DerivedPrincipal::Base(p) => {
                if contains_base(&self.admins, p) {
                    Ok(())
                } else {
                    Err(PermissionError::NotInAdminsSet)
                }
            },
        }
    }

    /// Allows the system and the members of the add-schemas set.
    pub fn can_add_schema(&self, principal: DerivedPrincipal) -> (r: Result<(), PermissionError>)
        ensures
            r == self.decides(ClassPredicate::CanAddSchema, principal),
    {
        match principal {
            DerivedPrincipal::System => Ok(()),
            DerivedPrincipal::EntityOwner => Err(PermissionError::EntityOwnerUsedOutOfPlace),
            DerivedPrincipal::Base(p) => {
                if contains_base(&self.add_schemas, p) {
                    Ok(())
                } else {
                    Err(PermissionError::NotInAddSchemasSet)
                }
            },
        }
    }

    /// Allows the system, and the members of the create-entities set while
    /// the class accepts new entities.
    pub fn can_create_entity(&self, principal: DerivedPrincipal) -> (r: Result<(), PermissionError>)
        ensures
            r == self.decides(ClassPredicate::CanCreateEntity, principal),
    {
        match principal {
            DerivedPrincipal::System => Ok(()),
            DerivedPrincipal::EntityOwner => Err(PermissionError::EntityOwnerUsedOutOfPlace),
            DerivedPrincipal::Base(p) => {
                if !self.entities_can_be_created {
                    Err(PermissionError::EntitiesCannotBeCreated)
                } else if contains_base(&self.create_entities, p) {
                    Ok(())
                } else {
                    Err(PermissionError::NotInCreateEntitiesSet)
                }
            },
        }
    }

    /// Allows the system and whoever the update set names, `Owner` standing
    /// for a proven entity owner.
    pub fn can_update_entity(&self, principal: DerivedPrincipal) -> (r: Result<(), PermissionError>)
        ensures
            r == self.decides(ClassPredicate::CanUpdateEntity, principal),
    {
        let wanted = match principal {
            DerivedPrincipal::System => {
                return Ok(());
            },
            DerivedPrincipal::EntityOwner => EntityPrincipal::Owner,
            DerivedPrincipal::Base(p) => EntityPrincipal::Base(p),
        };
        if contains_entity_principal(&self.entity_permissions.update, wanted) {
            Ok(())
        } else {
            Err(PermissionError::NotInEntityPermissionsUpdateSet)
        }
    }

    /// Allows the system and whoever the transfer-ownership set names,
    /// `Owner` standing for a proven entity owner.
    pub fn can_transfer_entity_ownership(&self, principal: DerivedPrincipal) -> (r: Result<(), PermissionError>)
        ensures
            r == self.decides(ClassPredicate::CanTransferEntityOwnership, principal),
    {
        let wanted = match principal {
            DerivedPrincipal::System => {
                return Ok(());
            },
            DerivedPrincipal::EntityOwner => EntityPrincipal::Owner,
            DerivedPrincipal::Base(p) => EntityPrincipal::Base(p),
        };
        if contains_entity_principal(&self.entity_permissions.transfer_ownership, wanted) {
            Ok(())
        } else {
            Err(PermissionError::NotInEntityPermissionsTransferOwnershipSet)
        }
    }

    /// Runs the check that `predicate` names.
    pub fn check(&self, predicate: ClassPredicate, principal: DerivedPrincipal) -> (r: Result<(), PermissionError>)
        ensures
            r == self.decides(predicate, principal),
    {
        match predicate {
            ClassPredicate::IsSystem => self.is_system(principal),
            ClassPredicate::IsAdmin => self.is_admin(principal),
            ClassPredicate::CanAddSchema => self.can_add_schema(principal),
            ClassPredicate::CanCreateEntity => self.can_create_entity(principal),
            ClassPredicate::CanUpdateEntity => self.can_update_entity(principal),
            ClassPredicate::CanTransferEntityOwnership => self.can_transfer_entity_ownership(principal),
        }
    }
}

impl Default for ClassPermissions {
    fn default() -> (r: Self)
        ensures
            r.is_default(),
    {
        ClassPermissions {
            entity_permissions: EntityPermissions::default(),
            entities_can_be_created: false,
            add_schemas: Vec::new(),
            create_entities: Vec::new(),
            reference_constraint: ReferenceConstraint::default(),
            admins: Vec::new(),
            last_permissions_update: 0,
        }
    }
}

/// Whether a value written into `source` may reference an entity of a class
/// under `constraint`.
pub open spec fn reference_permitted(constraint: ReferenceConstraint, source: PropertyOfClass) -> bool {
    match constraint {
        ReferenceConstraint::NoReferencingAllowed => false,
        ReferenceConstraint::NoConstraint => true,
        ReferenceConstraint::Restricted(allowed) => allowed@.contains(source),
    }
}

impl ReferenceConstraint {
    /// Decides whether the property slot `source` may reference into the
    /// class that carries this constraint.
    pub fn permits(&self, source: PropertyOfClass) -> (r: bool)
        ensures
            r == reference_permitted(*self, source),
    {
        match self {
            ReferenceConstraint::NoReferencingAllowed => false,
            ReferenceConstraint::NoConstraint => true,
            ReferenceConstraint::Restricted(allowed) => contains_property(allowed, source),
        }
    }
}

/// Whether `p` is in the principal set `set`.
pub fn contains_base(set: &Vec<BasePrincipal>, p: BasePrincipal) -> (r: bool)
    ensures
        r == set@.contains(p),
{
    let mut i: usize = 0;
    while i < set.len()
        invariant
            0 <= i <= set@.len(),
            forall|j: int| 0 <= j < i ==> set@[j] != p,
        decreases set@.len() - i,
    {
        if set[i] == p {
            return true;
        }
        i = i + 1;
    }
    false
}

/// Whether `p` is in the entity principal set `set`.
pub fn contains_entity_principal(set: &Vec<EntityPrincipal>, p: EntityPrincipal) -> (r: bool)
    ensures
        r == set@.contains(p),
{
    let mut i: usize = 0;
    while i < set.len()
        invariant
            0 <= i <= set@.len(),
            forall|j: int| 0 <= j < i ==> set@[j] != p,
        decreases set@.len() - i,
    {
        if set[i] == p {
            return true;
        }
        i = i + 1;
    }
    false
}

/// Whether `p` is in the property slot set `set`.
pub fn contains_property(set: &Vec<PropertyOfClass>, p: PropertyOfClass) -> (r: bool)
    ensures
        r == set@.contains(p),
{
    let mut i: usize = 0;
    while i < set.len()
        invariant
            0 <= i <= set@.len(),
            forall|j: int| 0 <= j < i ==> set@[j] != p,
        decreases set@.len() - i,
    {
        if set[i] == p {
            return true;
        }
        i = i + 1;
    }
    false
}

} // verus!
