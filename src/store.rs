//! The permissioned entity store: class permission records, entity
//! ownership, a minimal entity store, and every operation behind the
//! authorization check.
use vstd::prelude::*;

use crate::error::PermissionError;
use crate::permissions::{
    reference_permitted, BlockNumber, ClassId, ClassPermissions, ClassPredicate, EntityPermissions,
    PropertyOfClass, ReferenceConstraint,
};
use crate::principal::{
    derive_principal, derived_principal, is_member, stored_owner, AccountId, BasePrincipal,
    DerivedPrincipal, EntityId, GroupId, Origin,
};

verus! {

pub type SchemaId = u64;

/// A change to one field of a class's permission record.
#[derive(Clone, Debug, PartialEq, Eq)]
pub enum PermissionsUpdate {
    Admins(Vec<BasePrincipal>),
    EntityPermissions(EntityPermissions),
    EntitiesCanBeCreated(bool),
    AddSchemas(Vec<BasePrincipal>),
    CreateEntities(Vec<BasePrincipal>),
    ReferenceConstraint(ReferenceConstraint),
}

/// The record `p` after `update`, stamped with `block`.
pub open spec fn updated_permissions(p: ClassPermissions, update: PermissionsUpdate, block: BlockNumber) -> ClassPermissions {
    let q = match update {
        PermissionsUpdate::Admins(v) => ClassPermissions { admins: v, ..p },
        PermissionsUpdate::EntityPermissions(v) => ClassPermissions { entity_permissions: v, ..p },
        PermissionsUpdate::EntitiesCanBeCreated(v) => ClassPermissions { entities_can_be_created: v, ..p },
        PermissionsUpdate::AddSchemas(v) => ClassPermissions { add_schemas: v, ..p },
        PermissionsUpdate::CreateEntities(v) => ClassPermissions { create_entities: v, ..p },
        PermissionsUpdate::ReferenceConstraint(v) => ClassPermissions { reference_constraint: v, ..p },
    };
    ClassPermissions { last_permissions_update: block, ..q }
}

/// A value held by one property of an entity.
#[derive(Clone, Copy, Debug, PartialEq, Eq, Structural)]
pub enum PropertyValue {
    Bool(bool),
    Uint64(u64),
    Int64(i64),
    Internal(EntityId),
}

/// A property value together with the index of the class property it fills.
#[derive(Clone, Copy, Debug, PartialEq, Eq, Structural)]
pub struct ClassPropertyValue {
    pub in_class_index: u16,
    pub value: PropertyValue,
}

/// A class of the entity store: its name, description and declared schemas,
/// each schema a list of property indices.
#[derive(Clone, Debug, PartialEq, Eq)]
pub struct Class {
    pub name: Vec<u8>,
    pub description: Vec<u8>,
    pub schemas: Vec<Vec<u16>>,
}

/// An entity of the entity store.
#[derive(Clone, Debug, PartialEq, Eq)]
pub struct Entity {
    pub class_id: ClassId,
    pub supported_schemas: Vec<SchemaId>,
    pub values: Vec<ClassPropertyValue>,
}

/// The entity store with its authorization state: class permission records,
/// entity ownership, and the group memberships and class creators that the
/// host has registered. Classes and entities are numbered from zero in order
/// of creation.
pub struct PermissionedStore {
    block_number: BlockNumber,
    class_creators: Vec<AccountId>,
    memberships: Vec<(AccountId, GroupId)>,
    classes: Vec<Class>,
    class_permissions: Vec<ClassPermissions>,
    entities: Vec<Entity>,
    entity_owners: Vec<Option<BasePrincipal>>,
}

/// The abstract state of a [`PermissionedStore`].
pub ghost struct StoreModel {
    pub block_number: BlockNumber,
    pub class_creators: Seq<AccountId>,
    pub memberships: Seq<(AccountId, GroupId)>,
    pub classes: Seq<Class>,
    pub class_permissions: Seq<ClassPermissions>,
    pub entities: Seq<Entity>,
    pub entity_owners: Seq<Option<BasePrincipal>>,
}

impl View for PermissionedStore {
    type V = StoreModel;

    closed spec fn view(&self) -> StoreModel {
        StoreModel {
            block_number: self.block_number,
            class_creators: self.class_creators@,
            memberships: self.memberships@,
            classes: self.classes@,
            class_permissions: self.class_permissions@,
            entities: self.entities@,
            entity_owners: self.entity_owners@,
        }
    }
}

impl StoreModel {
    /// Every class has a permission record, every entity an ownership entry
    /// and an existing class.
    pub open spec fn wf(self) -> bool {
        &&& self.classes.len() == self.class_permissions.len()
        &&& self.entities.len() == self.entity_owners.len()
        &&& forall|e: int| 0 <= e < self.entities.len() ==> #[trigger] self.entities[e].class_id < self.classes.len()
    }

    /// The principal that the claims prove in this state.
    pub open spec fn principal(self, origin: Origin, claimed_group: Option<GroupId>, acting_as_owner_of: Option<EntityId>) -> Result<DerivedPrincipal, PermissionError> {
        derived_principal(origin, claimed_group, acting_as_owner_of, self.memberships, self.entity_owners)
    }

    /// The outcome of authorization: the principal, once it is derived, the class
    /// exists and `predicate` allows the principal under the class's record.
    pub open spec fn authorize(
        self,
        origin: Origin,
        claimed_group: Option<GroupId>,
        acting_as_owner_of: Option<EntityId>,
        predicate: ClassPredicate,
        class_id: ClassId,
    ) -> Result<DerivedPrincipal, PermissionError> {
        match self.principal(origin, claimed_group, acting_as_owner_of) {
            Err(e) => Err(e),
            Ok(p) => if class_id >= self.class_permissions.len() {
                Err(PermissionError::ClassIdDoesNotExist)
            } else {
                match self.class_permissions[class_id as int].decides(predicate, p) {
                    Err(e) => Err(e),
                    Ok(()) => Ok(p),
                }
            },
        }
    }

    /// The state after a permission mutation that was authorized.
    pub open spec fn with_permissions_updated(self, class_id: ClassId, update: PermissionsUpdate) -> StoreModel {
        StoreModel {
            class_permissions: self.class_permissions.update(
                class_id as int,
                updated_permissions(self.class_permissions[class_id as int], update, self.block_number),
            ),
            ..self
        }
    }

    /// The state after a permission mutation, allowed or not.
    pub open spec fn after_mutation(
        self,
        origin: Origin,
        claimed_group: Option<GroupId>,
        predicate: ClassPredicate,
        class_id: ClassId,
        update: PermissionsUpdate,
    ) -> StoreModel {
        if self.authorize(origin, claimed_group, None, predicate, class_id) is Ok {
            self.with_permissions_updated(class_id, update)
        } else {
            self
        }
    }
}

/// The owner that a newly created entity gets from the principal that
/// created it; the system's entities have no owner entry.
pub open spec fn creator_owner(p: DerivedPrincipal) -> Option<BasePrincipal> {
    match p {
        DerivedPrincipal::Base(b) => Some(b),
        _ => None,
    }
}

/// Whether some value in `values` fills property `index`.
pub open spec fn has_index(values: Seq<ClassPropertyValue>, index: u16) -> bool {
    exists|j: int| 0 <= j < values.len() && (#[trigger] values[j]).in_class_index == index
}

/// `values` with every value of `v`'s property replaced by `v`.
pub open spec fn write_value(values: Seq<ClassPropertyValue>, v: ClassPropertyValue) -> Seq<ClassPropertyValue> {
    Seq::new(values.len(), |j: int| if values[j].in_class_index == v.in_class_index { v } else { values[j] })
}

/// `values` after writing each of `news` in turn.
pub open spec fn write_values(values: Seq<ClassPropertyValue>, news: Seq<ClassPropertyValue>) -> Seq<ClassPropertyValue>
    decreases news.len(),
{
    if news.len() == 0 {
        values
    } else {
        write_value(write_values(values, news.drop_last()), news.last())
    }
}

impl StoreModel {
    /// Who may create classes: root, and the registered class creators.
    pub open spec fn class_creation(self, origin: Origin) -> Result<(), PermissionError> {
        match origin {
            Origin::Root => Ok(()),
            Origin::Signed(account) => if self.class_creators.contains(account) {
                Ok(())
            } else {
                Err(PermissionError::NotPermittedToCreateClass)
            },
            Origin::Unsigned => Err(PermissionError::BadOriginExpectedRootOrSigned),
        }
    }

    /// Authorization of an operation on an existing entity: the entity must exist,
    /// and an ownership claim, if made, is a claim on this entity.
    pub open spec fn authorize_entity(
        self,
        origin: Origin,
        claimed_group: Option<GroupId>,
        as_entity_owner: bool,
        predicate: ClassPredicate,
        entity_id: EntityId,
    ) -> Result<DerivedPrincipal, PermissionError> {
        if entity_id >= self.entities.len() {
            Err(PermissionError::EntityNotFound)
        } else {
            self.authorize(
                origin,
                claimed_group,
                if as_entity_owner { Some(entity_id) } else { None },
                predicate,
                self.entities[entity_id as int].class_id,
            )
        }
    }

    /// Whether `v`, written into a property of `source_class`, may stand:
    /// a reference must point at an existing entity whose class permits it.
    pub open spec fn value_reference(self, source_class: ClassId, v: ClassPropertyValue) -> Result<(), PermissionError> {
        match v.value {
            PropertyValue::Internal(target) => if target >= self.entities.len() {
                Err(PermissionError::EntityNotFound)
            } else if reference_permitted(
                self.class_permissions[self.entities[target as int].class_id as int].reference_constraint,
                PropertyOfClass { class_id: source_class, property_index: v.in_class_index },
            ) {
                Ok(())
            } else {
                Err(PermissionError::EntityCannotReferenceTargetEntity)
            },
            _ => Ok(()),
        }
    }

    /// The first failing reference among `values`, in order.
    pub open spec fn references(self, source_class: ClassId, values: Seq<ClassPropertyValue>) -> Result<(), PermissionError>
        decreases values.len(),
    {
        if values.len() == 0 {
            Ok(())
        } else {
            match self.value_reference(source_class, values[0]) {
                Err(e) => Err(e),
                Ok(()) => self.references(source_class, values.drop_first()),
            }
        }
    }

    /// `next` differs from this state at most in entity `entity_id`, which
    /// keeps its class.
    pub open spec fn only_entity_changed(self, next: StoreModel, entity_id: EntityId) -> bool {
        &&& next.entities.len() == self.entities.len()
        &&& next.entities[entity_id as int].class_id == self.entities[entity_id as int].class_id
        &&& forall|i: int| 0 <= i < self.entities.len() && i != entity_id ==> next.entities[i] == self.entities[i]
        &&& next == StoreModel { entities: next.entities, ..self }
    }

    /// The outcome of adding support for `schema_id` to `entity_id`.
    pub open spec fn schema_support(
        self,
        origin: Origin,
        claimed_group: Option<GroupId>,
        as_entity_owner: bool,
        entity_id: EntityId,
        schema_id: SchemaId,
        values: Seq<ClassPropertyValue>,
    ) -> Result<(), PermissionError> {
        match self.authorize_entity(origin, claimed_group, as_entity_owner, ClassPredicate::CanUpdateEntity, entity_id) {
            Err(e) => Err(e),
            Ok(_) => {
                let entity = self.entities[entity_id as int];
                if schema_id >= self.classes[entity.class_id as int].schemas@.len() {
                    Err(PermissionError::SchemaNotFound)
                } else if entity.supported_schemas@.contains(schema_id) {
                    Err(PermissionError::SchemaAlreadySupported)
                } else {
                    match self.references(entity.class_id, values) {
                        Err(e) => Err(e),
                        Ok(_) => Ok(()),
                    }
                }
            },
        }
    }

    /// The outcome of writing `values` into `entity_id`.
    pub open spec fn value_update(
        self,
        origin: Origin,
        claimed_group: Option<GroupId>,
        as_entity_owner: bool,
        entity_id: EntityId,
        values: Seq<ClassPropertyValue>,
    ) -> Result<(), PermissionError> {
        match self.authorize_entity(origin, claimed_group, as_entity_owner, ClassPredicate::CanUpdateEntity, entity_id) {
            Err(e) => Err(e),
            Ok(_) => {
                let entity = self.entities[entity_id as int];
                match self.references(entity.class_id, values) {
                    Err(e) => Err(e),
                    Ok(()) => if forall|i: int| 0 <= i < values.len() ==> has_index(entity.values@, #[trigger] values[i].in_class_index) {
                        Ok(())
                    } else {
                        Err(PermissionError::UnknownPropertyIndex)
                    },
                }
            },
        }
    }
}

/// The outcome of authorization without the principal.
pub open spec fn unit_result(r: Result<DerivedPrincipal, PermissionError>) -> Result<(), PermissionError> {
    match r {
        Ok(_) => Ok(()),
        Err(e) => Err(e),
    }
}

/// Writes `update` into `perms` and stamps it with `block`.
fn apply_update(perms: &mut ClassPermissions, update: PermissionsUpdate, block: BlockNumber)
    ensures
        *final(perms) == updated_permissions(*old(perms), update, block),
{
    match update {
        PermissionsUpdate::Admins(v) => perms.admins = v,
        PermissionsUpdate::EntityPermissions(v) => perms.entity_permissions = v,
        PermissionsUpdate::EntitiesCanBeCreated(v) => perms.entities_can_be_created = v,
        PermissionsUpdate::AddSchemas(v) => perms.add_schemas = v,
        PermissionsUpdate::CreateEntities(v) => perms.create_entities = v,
        PermissionsUpdate::ReferenceConstraint(v) => perms.reference_constraint = v,
    }
    perms.last_permissions_update = block;
}

impl PermissionedStore {
    pub open spec fn wf(&self) -> bool {
        self@.wf()
    }

    /// An empty store at block zero.
    pub fn new() -> (r: Self)
        ensures
            r.wf(),
            r@.block_number == 0,
            r@.class_creators.len() == 0,
            r@.memberships.len() == 0,
            r@.classes.len() == 0,
            r@.class_permissions.len() == 0,
            r@.entities.len() == 0,
            r@.entity_owners.len() == 0,
    {
        PermissionedStore {
            block_number: 0,
            class_creators: Vec::new(),
            memberships: Vec::new(),
            classes: Vec::new(),
            class_permissions: Vec::new(),
            entities: Vec::new(),
            entity_owners: Vec::new(),
        }
    }

    /// Derives the principal, looks up the class's record and runs
    /// `predicate`; returns the principal when all three pass.
    pub fn if_class_permissions_satisfied(
        &self,
        origin: Origin,
        claimed_group: Option<GroupId>,
        acting_as_owner_of: Option<EntityId>,
        predicate: ClassPredicate,
        class_id: ClassId,
    ) -> (r: Result<DerivedPrincipal, PermissionError>)
        ensures
            r == self@.authorize(origin, claimed_group, acting_as_owner_of, predicate, class_id),
    {
        let principal = match derive_principal(
            origin,
            claimed_group,
            acting_as_owner_of,
            &self.memberships,
            &self.entity_owners,
        ) {
            Ok(p) => p,
            Err(e) => {
                return Err(e);
            },
        };
        if class_id >= self.class_permissions.len() as u64 {
            return Err(PermissionError::ClassIdDoesNotExist);
        }
        match self.class_permissions[class_id as usize].check(predicate, principal) {
            Ok(()) => Ok(principal),
            Err(e) => Err(e),
        }
    }

    /// Applies `update` to the record of `class_id` and stamps it with the
    /// current block, if that is authorized; otherwise changes nothing.
    pub fn mutate_class_permissions(
        &mut self,
        origin: Origin,
        claimed_group: Option<GroupId>,
        predicate: ClassPredicate,
        class_id: ClassId,
        update: PermissionsUpdate,
    ) -> (r: Result<(), PermissionError>)
        requires
            old(self).wf(),
        ensures
            final(self).wf(),
            r == unit_result(old(self)@.authorize(origin, claimed_group, None, predicate, class_id)),
            final(self)@ == old(self)@.after_mutation(origin, claimed_group, predicate, class_id, update),
            r is Err ==> final(self)@ == old(self)@,
    {
        match self.if_class_permissions_satisfied(origin, claimed_group, None, predicate, class_id) {
            Ok(_) => {},
            Err(e) => {
                return Err(e);
            },
        }
        let block = self.block_number;
        let c: usize = class_id as usize;
        let mut perms = ClassPermissions::default();
        std::mem::swap(&mut perms, &mut self.class_permissions[c]);
        apply_update(&mut perms, update, block);
        self.class_permissions.set(c, perms);
        proof {
            assert(self@.class_permissions =~= old(self)@.with_permissions_updated(class_id, update).class_permissions);
        }
        Ok(())
    }
}

impl PermissionedStore {
    /// Creates a class with `permissions` as its record, if the origin may
    /// create classes; the new class's id is the number of classes before.
    pub fn create_class(
        &mut self,
        origin: Origin,
        name: Vec<u8>,
        description: Vec<u8>,
        permissions: ClassPermissions,
    ) -> (r: Result<ClassId, PermissionError>)
        requires
            old(self).wf(),
        ensures
            final(self).wf(),
            r is Ok <==> old(self)@.class_creation(origin) is Ok,
            r is Err ==> r == Err::<ClassId, _>(old(self)@.class_creation(origin)->Err_0),
            r is Err ==> final(self)@ == old(self)@,
            r is Ok ==> {
                &&& r->Ok_0 == old(self)@.classes.len()
                &&& final(self)@.class_permissions == old(self)@.class_permissions.push(permissions)
                &&& final(self)@.class_permissions[r->Ok_0 as int] == permissions
                &&& final(self)@.classes.len() == old(self)@.classes.len() + 1
                &&& final(self)@.classes.drop_last() == old(self)@.classes
                &&& final(self)@.classes.last().name == name
                &&& final(self)@.classes.last().description == description
                &&& final(self)@.classes.last().schemas@.len() == 0
                &&& final(self)@ == (StoreModel {
                    classes: final(self)@.classes,
                    class_permissions: final(self)@.class_permissions,
                    ..old(self)@
                })
            },
    {
        match origin {
            Origin::Root => {},
            Origin::Signed(account) => {
                if !contains_account(&self.class_creators, account) {
                    return Err(PermissionError::NotPermittedToCreateClass);
                }
            },
            Origin::Unsigned => {
                return Err(PermissionError::BadOriginExpectedRootOrSigned);
            },
        }
        let id = self.classes.len() as u64;
        self.classes.push(Class { name, description, schemas: Vec::new() });
        self.class_permissions.push(permissions);
        proof {
            assert(self@.classes.drop_last() =~= old(self)@.classes);
        }
        Ok(id)
    }

    /// Creates a class with the most restrictive permission record.
    pub fn create_class_with_default_permissions(
        &mut self,
        origin: Origin,
        name: Vec<u8>,
        description: Vec<u8>,
    ) -> (r: Result<ClassId, PermissionError>)
        requires
            old(self).wf(),
        ensures
            final(self).wf(),
            r is Ok <==> old(self)@.class_creation(origin) is Ok,
            r is Err ==> r == Err::<ClassId, _>(old(self)@.class_creation(origin)->Err_0),
            r is Err ==> final(self)@ == old(self)@,
            r is Ok ==> {
                &&& r->Ok_0 == old(self)@.classes.len()
                &&& final(self)@.class_permissions.drop_last() == old(self)@.class_permissions
                &&& final(self)@.class_permissions[r->Ok_0 as int].is_default()
                &&& final(self)@.classes.len() == old(self)@.classes.len() + 1
                &&& final(self)@.classes.drop_last() == old(self)@.classes
                &&& final(self)@.classes.last().name == name
                &&& final(self)@.classes.last().description == description
                &&& final(self)@.classes.last().schemas@.len() == 0
                &&& final(self)@ == (StoreModel {
                    classes: final(self)@.classes,
                    class_permissions: final(self)@.class_permissions,
                    ..old(self)@
                })
            },
    {
        let r = self.create_class(origin, name, description, ClassPermissions::default());
        proof {
            if r is Ok {
                assert(self@.class_permissions.drop_last() =~= old(self)@.class_permissions);
            }
        }
        r
    }

    /// Replaces the admin set of a class; only the system may.
    pub fn set_class_admins(&mut self, origin: Origin, class_id: ClassId, admins: Vec<BasePrincipal>) -> (r: Result<(), PermissionError>)
        requires
            old(self).wf(),
        ensures
            final(self).wf(),
            r == unit_result(old(self)@.authorize(origin, None, None, ClassPredicate::IsSystem, class_id)),
            final(self)@ == old(self)@.after_mutation(origin, None, ClassPredicate::IsSystem, class_id, PermissionsUpdate::Admins(admins)),
    {
        self.mutate_class_permissions(origin, None, ClassPredicate::IsSystem, class_id, PermissionsUpdate::Admins(admins))
    }

    /// Replaces the entity permissions of a class; admins may.
    pub fn set_class_entity_permissions(
        &mut self,
        origin: Origin,
        claimed_group: Option<GroupId>,
        class_id: ClassId,
        entity_permissions: EntityPermissions,
    ) -> (r: Result<(), PermissionError>)
        requires
            old(self).wf(),
        ensures
            final(self).wf(),
            r == unit_result(old(self)@.authorize(origin, claimed_group, None, ClassPredicate::IsAdmin, class_id)),
            final(self)@ == old(self)@.after_mutation(
                origin, claimed_group, ClassPredicate::IsAdmin, class_id,
                PermissionsUpdate::EntityPermissions(entity_permissions),
            ),
    {
        self.mutate_class_permissions(
            origin,
            claimed_group,
            ClassPredicate::IsAdmin,
            class_id,
            PermissionsUpdate::EntityPermissions(entity_permissions),
        )
    }

    /// Turns the creation of entities of a class on or off; admins may.
    pub fn set_class_entities_can_be_created(
        &mut self,
        origin: Origin,
        claimed_group: Option<GroupId>,
        class_id: ClassId,
        can_be_created: bool,
    ) -> (r: Result<(), PermissionError>)
        requires
            old(self).wf(),
        ensures
            final(self).wf(),
            r == unit_result(old(self)@.authorize(origin, claimed_group, None, ClassPredicate::IsAdmin, class_id)),
            final(self)@ == old(self)@.after_mutation(
                origin, claimed_group, ClassPredicate::IsAdmin, class_id,
                PermissionsUpdate::EntitiesCanBeCreated(can_be_created),
            ),
    {
        self.mutate_class_permissions(
            origin,
            claimed_group,
            ClassPredicate::IsAdmin,
            class_id,
            PermissionsUpdate::EntitiesCanBeCreated(can_be_created),
        )
    }

    /// Replaces the set of principals that may add schemas; admins may.
    pub fn set_class_add_schemas_set(
        &mut self,
        origin: Origin,
        claimed_group: Option<GroupId>,
        class_id: ClassId,
        principals: Vec<BasePrincipal>,
    ) -> (r: Result<(), PermissionError>)
        requires
            old(self).wf(),
        ensures
            final(self).wf(),
            r == unit_result(old(self)@.authorize(origin, claimed_group, None, ClassPredicate::IsAdmin, class_id)),
            final(self)@ == old(self)@.after_mutation(
                origin, claimed_group, ClassPredicate::IsAdmin, class_id,
                PermissionsUpdate::AddSchemas(principals),
            ),
    {
        self.mutate_class_permissions(
            origin,
            claimed_group,
            ClassPredicate::IsAdmin,
            class_id,
            PermissionsUpdate::AddSchemas(principals),
        )
    }

    /// Replaces the set of principals that may create entities; admins may.
    pub fn set_class_create_entities_set(
        &mut self,
        origin: Origin,
        claimed_group: Option<GroupId>,
        class_id: ClassId,
        principals: Vec<BasePrincipal>,
    ) -> (r: Result<(), PermissionError>)
        requires
            old(self).wf(),
        ensures
            final(self).wf(),
            r == unit_result(old(self)@.authorize(origin, claimed_group, None, ClassPredicate::IsAdmin, class_id)),
            final(self)@ == old(self)@.after_mutation(
                origin, claimed_group, ClassPredicate::IsAdmin, class_id,
                PermissionsUpdate::CreateEntities(principals),
            ),
    {
        self.mutate_class_permissions(
            origin,
            claimed_group,
            ClassPredicate::IsAdmin,
            class_id,
            PermissionsUpdate::CreateEntities(principals),
        )
    }

    /// Replaces the reference constraint of a class; admins may.
    pub fn set_class_reference_constraint(
        &mut self,
        origin: Origin,
        claimed_group: Option<GroupId>,
        class_id: ClassId,
        constraint: ReferenceConstraint,
    ) -> (r: Result<(), PermissionError>)
        requires
            old(self).wf(),
        ensures
            final(self).wf(),
            r == unit_result(old(self)@.authorize(origin, claimed_group, None, ClassPredicate::IsAdmin, class_id)),
            final(self)@ == old(self)@.after_mutation(
                origin, claimed_group, ClassPredicate::IsAdmin, class_id,
                PermissionsUpdate::ReferenceConstraint(constraint),
            ),
    {
        self.mutate_class_permissions(
            origin,
            claimed_group,
            ClassPredicate::IsAdmin,
            class_id,
            PermissionsUpdate::ReferenceConstraint(constraint),
        )
    }

    /// Creates an entity of `class_id`, owned by the principal that created
    /// it (the system's entities have no owner); the new entity's id is the
    /// number of entities before.
    pub fn create_entity(&mut self, origin: Origin, claimed_group: Option<GroupId>, class_id: ClassId) -> (r: Result<EntityId, PermissionError>)
        requires
            old(self).wf(),
        ensures
            final(self).wf(),
            r is Ok <==> old(self)@.authorize(origin, claimed_group, None, ClassPredicate::CanCreateEntity, class_id) is Ok,
            r is Err ==> r == Err::<EntityId, _>(old(self)@.authorize(origin, claimed_group, None, ClassPredicate::CanCreateEntity, class_id)->Err_0),
            r is Err ==> final(self)@ == old(self)@,
            r is Ok ==> {
                &&& r->Ok_0 == old(self)@.entities.len()
                &&& final(self)@.entity_owners == old(self)@.entity_owners.push(
                    creator_owner(old(self)@.authorize(origin, claimed_group, None, ClassPredicate::CanCreateEntity, class_id)->Ok_0),
                )
                &&& final(self)@.entities.len() == old(self)@.entities.len() + 1
                &&& final(self)@.entities.drop_last() == old(self)@.entities
                &&& final(self)@.entities.last().class_id == class_id
                &&& final(self)@.entities.last().supported_schemas@.len() == 0
                &&& final(self)@.entities.last().values@.len() == 0
                &&& final(self)@ == (StoreModel {
                    entities: final(self)@.entities,
                    entity_owners: final(self)@.entity_owners,
                    ..old(self)@
                })
            },
    {
        let principal = match self.if_class_permissions_satisfied(
            origin,
            claimed_group,
            None,
            ClassPredicate::CanCreateEntity,
            class_id,
        ) {
            Ok(p) => p,
            Err(e) => {
                return Err(e);
            },
        };
        let owner = match principal {
            DerivedPrincipal::Base(b) => Some(b),
            _ => None,
        };
        let id = self.entities.len() as u64;
        self.entities.push(Entity { class_id, supported_schemas: Vec::new(), values: Vec::new() });
        self.entity_owners.push(owner);
        proof {
            assert(self@.entities.drop_last() =~= old(self)@.entities);
            assert forall|e: int| 0 <= e < self@.entities.len() implies #[trigger] self@.entities[e].class_id < self@.classes.len() by {
                if e < old(self)@.entities.len() {
                    assert(self@.entities[e] == old(self)@.entities[e]);
                }
            }
        }
        Ok(id)
    }

    /// Authorizes `predicate` on the class of `entity_id`.
    fn authorize_entity(
        &self,
        origin: Origin,
        claimed_group: Option<GroupId>,
        as_entity_owner: bool,
        predicate: ClassPredicate,
        entity_id: EntityId,
    ) -> (r: Result<DerivedPrincipal, PermissionError>)
        ensures
            r == self@.authorize_entity(origin, claimed_group, as_entity_owner, predicate, entity_id),
    {
        if entity_id >= self.entities.len() as u64 {
            return Err(PermissionError::EntityNotFound);
        }
        let class_id = self.entities[entity_id as usize].class_id;
        let acting_as_owner_of = if as_entity_owner {
            Some(entity_id)
        } else {
            None
        };
        self.if_class_permissions_satisfied(origin, claimed_group, acting_as_owner_of, predicate, class_id)
    }

    /// Hands the entity to `new_owner`, or to the system when it is `None`,
    /// if the caller may transfer ownership of the class's entities.
    pub fn set_entity_owner(
        &mut self,
        origin: Origin,
        claimed_group: Option<GroupId>,
        as_entity_owner: bool,
        entity_id: EntityId,
        new_owner: Option<BasePrincipal>,
    ) -> (r: Result<(), PermissionError>)
        requires
            old(self).wf(),
        ensures
            final(self).wf(),
            r == unit_result(old(self)@.authorize_entity(origin, claimed_group, as_entity_owner, ClassPredicate::CanTransferEntityOwnership, entity_id)),
            r is Err ==> final(self)@ == old(self)@,
            r is Ok ==> final(self)@ == (StoreModel {
                entity_owners: old(self)@.entity_owners.update(entity_id as int, new_owner),
                ..old(self)@
            }),
    {
        let allowed = self.authorize_entity(
            origin,
            claimed_group,
            as_entity_owner,
            ClassPredicate::CanTransferEntityOwnership,
            entity_id,
        );
        match allowed {
            Ok(_) => {},
            Err(e) => {
                return Err(e);
            },
        }
        self.entity_owners.set(entity_id as usize, new_owner);
        Ok(())
    }

    /// Lets admins and those allowed to add schemas declare a new schema on
    /// `class_id`, as a list of property indices; its id is the number of
    /// schemas the class had.
    pub fn add_class_schema(
        &mut self,
        origin: Origin,
        claimed_group: Option<GroupId>,
        class_id: ClassId,
        properties: Vec<u16>,
    ) -> (r: Result<SchemaId, PermissionError>)
        requires
            old(self).wf(),
        ensures
            final(self).wf(),
            r is Ok <==> old(self)@.authorize(origin, claimed_group, None, ClassPredicate::CanAddSchema, class_id) is Ok,
            r is Err ==> r == Err::<SchemaId, _>(old(self)@.authorize(origin, claimed_group, None, ClassPredicate::CanAddSchema, class_id)->Err_0),
            r is Err ==> final(self)@ == old(self)@,
            r is Ok ==> {
                let old_class = old(self)@.classes[class_id as int];
                let new_class = final(self)@.classes[class_id as int];
                &&& r->Ok_0 == old_class.schemas@.len()
                &&& new_class.schemas@ == old_class.schemas@.push(properties)
                &&& new_class.name == old_class.name
                &&& new_class.description == old_class.description
                &&& final(self)@ == (StoreModel {
                    classes: old(self)@.classes.update(class_id as int, new_class),
                    ..old(self)@
                })
            },
    {
        match self.if_class_permissions_satisfied(origin, claimed_group, None, ClassPredicate::CanAddSchema, class_id) {
            Ok(_) => {},
            Err(e) => {
                return Err(e);
            },
        }
        let c: usize = class_id as usize;
        let mut class = Class { name: Vec::new(), description: Vec::new(), schemas: Vec::new() };
        std::mem::swap(&mut class, &mut self.classes[c]);
        let id = class.schemas.len() as u64;
        class.schemas.push(properties);
        self.classes.set(c, class);
        proof {
            assert(self@.classes =~= old(self)@.classes.update(class_id as int, self@.classes[class_id as int]));
        }
        Ok(id)
    }

    /// Checks one written value: a reference must point at an existing
    /// entity whose class permits references from this property.
    fn check_value_reference(&self, source_class: ClassId, v: ClassPropertyValue) -> (r: Result<(), PermissionError>)
        requires
            self.wf(),
        ensures
            r == self@.value_reference(source_class, v),
    {
        match v.value {
            PropertyValue::Internal(target) => {
                if target >= self.entities.len() as u64 {
                    return Err(PermissionError::EntityNotFound);
                }
                let target_class = self.entities[target as usize].class_id;
                assert(self@.entities[target as int].class_id < self@.classes.len());
                assert(target_class < self.class_permissions.len());
                let tc: usize = target_class as usize;
                let source = PropertyOfClass { class_id: source_class, property_index: v.in_class_index };
                if self.class_permissions[tc].reference_constraint.permits(source) {
                    Ok(())
                } else {
                    Err(PermissionError::EntityCannotReferenceTargetEntity)
                }
            },
            _ => Ok(()),
        }
    }

    /// Checks, in order, that every reference among `values`, written into
    /// properties of `source_class`, is permitted by its target's class.
    pub fn check_internal_references(&self, source_class: ClassId, values: &Vec<ClassPropertyValue>) -> (r: Result<(), PermissionError>)
        requires
            self.wf(),
        ensures
            r == self@.references(source_class, values@),
    {
        let mut i: usize = 0;
        assert(values@.subrange(0, values@.len() as int) =~= values@);
        while i < values.len()
            invariant
                self.wf(),
                0 <= i <= values@.len(),
                self@.references(source_class, values@) == self@.references(
                    source_class,
                    values@.subrange(i as int, values@.len() as int),
                ),
            decreases values@.len() - i,
        {
            let v = values[i];
            proof {
                let rest = values@.subrange(i as int, values@.len() as int);
                assert(rest[0] == v);
                assert(rest.drop_first() =~= values@.subrange(i + 1, values@.len() as int));
            }
            match self.check_value_reference(source_class, v) {
                Ok(()) => {},
                Err(e) => {
                    return Err(e);
                },
            }
            i = i + 1;
        }
        proof {
            assert(values@.subrange(i as int, values@.len() as int).len() == 0);
        }
        Ok(())
    }
}

/// Whether `account` is in `accounts`.
fn contains_account(accounts: &Vec<AccountId>, account: AccountId) -> (r: bool)
    ensures
        r == accounts@.contains(account),
{
    let mut i: usize = 0;
    while i < accounts.len()
        invariant
            0 <= i <= accounts@.len(),
            forall|j: int| 0 <= j < i ==> accounts@[j] != account,
        decreases accounts@.len() - i,
    {
        if accounts[i] == account {
            return true;
        }
        i = i + 1;
    }
    false
}

impl PermissionedStore {
    /// Declares that `entity_id` supports the class schema `schema_id`,
    /// with `values` as the values of the schema's properties.
    pub fn add_schema_support_to_entity(
        &mut self,
        origin: Origin,
        claimed_group: Option<GroupId>,
        as_entity_owner: bool,
        entity_id: EntityId,
        schema_id: SchemaId,
        values: Vec<ClassPropertyValue>,
    ) -> (r: Result<(), PermissionError>)
        requires
            old(self).wf(),
        ensures
            final(self).wf(),
            r == old(self)@.schema_support(origin, claimed_group, as_entity_owner, entity_id, schema_id, values@),
            r is Err ==> final(self)@ == old(self)@,
            r is Ok ==> {
                let before = old(self)@.entities[entity_id as int];
                let after = final(self)@.entities[entity_id as int];
                &&& old(self)@.only_entity_changed(final(self)@, entity_id)
                &&& after.supported_schemas@ == before.supported_schemas@.push(schema_id)
                &&& after.values@ == before.values@ + values@
            },
    {
        let allowed = self.authorize_entity(origin, claimed_group, as_entity_owner, ClassPredicate::CanUpdateEntity, entity_id);
        match allowed {
            Ok(_) => {},
            Err(e) => {
                return Err(e);
            },
        }
        assert(entity_id < self.entities.len());
        let e: usize = entity_id as usize;
        let class_id = self.entities[e].class_id;
        assert(self@.entities[e as int].class_id < self@.classes.len());
        assert(class_id < self.classes.len());
        if schema_id >= self.classes[class_id as usize].schemas.len() as u64 {
            return Err(PermissionError::SchemaNotFound);
        }
        if contains_schema(&self.entities[e].supported_schemas, schema_id) {
            return Err(PermissionError::SchemaAlreadySupported);
        }
        let checked = self.check_internal_references(class_id, &values);
        if checked.is_err() {
            return checked;
        }
        let mut entity = Entity { class_id: 0, supported_schemas: Vec::new(), values: Vec::new() };
        std::mem::swap(&mut entity, &mut self.entities[e]);
        entity.supported_schemas.push(schema_id);
        let mut new_values = values;
        entity.values.append(&mut new_values);
        self.entities.set(e, entity);
        proof {
            assert forall|i: int| 0 <= i < self@.entities.len() implies #[trigger] self@.entities[i].class_id < self@.classes.len() by {
                if i != e {
                    assert(self@.entities[i] == old(self)@.entities[i]);
                }
            }
        }
        Ok(())
    }

    /// Writes `values` into `entity_id`: each value replaces the entity's
    /// value for the same property, which must already have one.
    pub fn update_entity_property_values(
        &mut self,
        origin: Origin,
        claimed_group: Option<GroupId>,
        as_entity_owner: bool,
        entity_id: EntityId,
        values: Vec<ClassPropertyValue>,
    ) -> (r: Result<(), PermissionError>)
        requires
            old(self).wf(),
        ensures
            final(self).wf(),
            r == old(self)@.value_update(origin, claimed_group, as_entity_owner, entity_id, values@),
            r is Err ==> final(self)@ == old(self)@,
            r is Ok ==> {
                let before = old(self)@.entities[entity_id as int];
                let after = final(self)@.entities[entity_id as int];
                &&& old(self)@.only_entity_changed(final(self)@, entity_id)
                &&& after.supported_schemas == before.supported_schemas
                &&& after.values@ == write_values(before.values@, values@)
            },
    {
        let allowed = self.authorize_entity(origin, claimed_group, as_entity_owner, ClassPredicate::CanUpdateEntity, entity_id);
        match allowed {
            Ok(_) => {},
            Err(e) => {
                return Err(e);
            },
        }
        assert(entity_id < self.entities.len());
        let e: usize = entity_id as usize;
        let class_id = self.entities[e].class_id;
        let checked = self.check_internal_references(class_id, &values);
        if checked.is_err() {
            return checked;
        }
        if !all_indices_known(&self.entities[e].values, &values) {
            return Err(PermissionError::UnknownPropertyIndex);
        }
        let mut entity = Entity { class_id: 0, supported_schemas: Vec::new(), values: Vec::new() };
        std::mem::swap(&mut entity, &mut self.entities[e]);
        let ghost original = entity.values@;
        let ghost swapped = self@;
        let mut k: usize = 0;
        assert(values@.subrange(0, 0).len() == 0);
        while k < values.len()
            invariant
                self@ == swapped,
                e == entity_id,
                e < old(self)@.entities.len(),
                swapped.entities.len() == old(self)@.entities.len(),
                forall|j: int| 0 <= j < swapped.entities.len() && j != e ==> swapped.entities[j] == old(self)@.entities[j],
                swapped == (StoreModel { entities: swapped.entities, ..old(self)@ }),
                entity.class_id == old(self)@.entities[e as int].class_id,
                entity.supported_schemas == old(self)@.entities[e as int].supported_schemas,
                original == old(self)@.entities[e as int].values@,
                old(self).wf(),
                0 <= k <= values@.len(),
                entity.values@ == write_values(original, values@.subrange(0, k as int)),
            decreases values@.len() - k,
        {
            write_value_into(&mut entity.values, values[k]);
            proof {
                let taken = values@.subrange(0, k + 1);
                assert(taken.drop_last() =~= values@.subrange(0, k as int));
                assert(taken.last() == values@[k as int]);
            }
            k = k + 1;
        }
        assert(values@.subrange(0, values@.len() as int) =~= values@);
        self.entities.set(e, entity);
        proof {
            assert forall|j: int| 0 <= j < self@.entities.len() implies #[trigger] self@.entities[j].class_id < self@.classes.len() by {
                if j != e {
                    assert(self@.entities[j] == old(self)@.entities[j]);
                }
            }
        }
        Ok(())
    }

    /// The current block number.
    pub fn block_number(&self) -> (r: BlockNumber)
        ensures
            r == self@.block_number,
    {
        self.block_number
    }

    /// Moves the store to block `block`, which stamps later permission changes.
    pub fn set_block_number(&mut self, block: BlockNumber)
        requires
            old(self).wf(),
        ensures
            final(self).wf(),
            final(self)@ == (StoreModel { block_number: block, ..old(self)@ }),
    {
        self.block_number = block;
    }

    /// Records that `account` is a member of `group`.
    pub fn add_group_member(&mut self, account: AccountId, group: GroupId)
        requires
            old(self).wf(),
        ensures
            final(self).wf(),
            final(self)@ == (StoreModel { memberships: old(self)@.memberships.push((account, group)), ..old(self)@ }),
    {
        self.memberships.push((account, group));
    }

    /// Allows `account` to create classes.
    pub fn add_class_creator(&mut self, account: AccountId)
        requires
            old(self).wf(),
        ensures
            final(self).wf(),
            final(self)@ == (StoreModel { class_creators: old(self)@.class_creators.push(account), ..old(self)@ }),
    {
        self.class_creators.push(account);
    }

    /// Whether `account` is a member of `group`.
    pub fn is_group_member(&self, account: AccountId, group: GroupId) -> (r: bool)
        ensures
            r == self@.memberships.contains((account, group)),
    {
        is_member(&self.memberships, account, group)
    }

    /// The permission record of `class_id`, if the class exists.
    pub fn class_permissions(&self, class_id: ClassId) -> (r: Option<&ClassPermissions>)
        ensures
            r is Some <==> class_id < self@.class_permissions.len(),
            r is Some ==> *r->Some_0 == self@.class_permissions[class_id as int],
    {
        if class_id < self.class_permissions.len() as u64 {
            Some(&self.class_permissions[class_id as usize])
        } else {
            None
        }
    }

    /// The class `class_id`, if it exists.
    pub fn class(&self, class_id: ClassId) -> (r: Option<&Class>)
        ensures
            r is Some <==> class_id < self@.classes.len(),
            r is Some ==> *r->Some_0 == self@.classes[class_id as int],
    {
        if class_id < self.classes.len() as u64 {
            Some(&self.classes[class_id as usize])
        } else {
            None
        }
    }

    /// The entity `entity_id`, if it exists.
    pub fn entity(&self, entity_id: EntityId) -> (r: Option<&Entity>)
        ensures
            r is Some <==> entity_id < self@.entities.len(),
            r is Some ==> *r->Some_0 == self@.entities[entity_id as int],
    {
        if entity_id < self.entities.len() as u64 {
            Some(&self.entities[entity_id as usize])
        } else {
            None
        }
    }

    /// The recorded owner of `entity_id`; `None` when the system owns it or
    /// it does not exist.
    pub fn entity_owner(&self, entity_id: EntityId) -> (r: Option<BasePrincipal>)
        ensures
            r == stored_owner(self@.entity_owners, entity_id),
    {
        if entity_id < self.entity_owners.len() as u64 {
            self.entity_owners[entity_id as usize]
        } else {
            None
        }
    }

    /// The number of classes.
    pub fn class_count(&self) -> (r: usize)
        ensures
            r == self@.classes.len(),
    {
        self.classes.len()
    }

    /// The number of entities.
    pub fn entity_count(&self) -> (r: usize)
        ensures
            r == self@.entities.len(),
    {
        self.entities.len()
    }
}

/// Whether `schema_id` is in `schemas`.
fn contains_schema(schemas: &Vec<SchemaId>, schema_id: SchemaId) -> (r: bool)
    ensures
        r == schemas@.contains(schema_id),
{
    let mut i: usize = 0;
    while i < schemas.len()
        invariant
            0 <= i <= schemas@.len(),
            forall|j: int| 0 <= j < i ==> schemas@[j] != schema_id,
        decreases schemas@.len() - i,
    {
        if schemas[i] == schema_id {
            return true;
        }
        i = i + 1;
    }
    false
}

/// Whether some value in `values` fills property `index`.
fn has_value_for(values: &Vec<ClassPropertyValue>, index: u16) -> (r: bool)
    ensures
        r == has_index(values@, index),
{
    let mut i: usize = 0;
    while i < values.len()
        invariant
            0 <= i <= values@.len(),
            forall|j: int| 0 <= j < i ==> (#[trigger] values@[j]).in_class_index != index,
        decreases values@.len() - i,
    {
        if values[i].in_class_index == index {
            assert(values@[i as int].in_class_index == index);
            return true;
        }
        i = i + 1;
    }
    false
}

/// Whether every value in `news` fills a property that `values` fills.
fn all_indices_known(values: &Vec<ClassPropertyValue>, news: &Vec<ClassPropertyValue>) -> (r: bool)
    ensures
        r == forall|i: int| 0 <= i < news@.len() ==> has_index(values@, #[trigger] news@[i].in_class_index),
{
    let mut i: usize = 0;
    while i < news.len()
        invariant
            0 <= i <= news@.len(),
            forall|m: int| 0 <= m < i ==> has_index(values@, #[trigger] news@[m].in_class_index),
        decreases news@.len() - i,
    {
        if !has_value_for(values, news[i].in_class_index) {
            return false;
        }
        i = i + 1;
    }
    true
}

/// Replaces every value of `v`'s property in `values` by `v`.
fn write_value_into(values: &mut Vec<ClassPropertyValue>, v: ClassPropertyValue)
    ensures
        final(values)@ == write_value(old(values)@, v),
{
    let ghost original = values@;
    let mut i: usize = 0;
    while i < values.len()
        invariant
            values@.len() == original.len(),
            0 <= i <= values@.len(),
            forall|j: int| 0 <= j < i ==> values@[j] == (if original[j].in_class_index == v.in_class_index { v } else { original[j] }),
            forall|j: int| i <= j < values@.len() ==> values@[j] == original[j],
        decreases values@.len() - i,
    {
        if values[i].in_class_index == v.in_class_index {
            values.set(i, v);
        }
        i = i + 1;
    }
    assert(values@ =~= write_value(original, v));
}

} // verus!
