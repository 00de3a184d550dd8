use versioned_store_permissions::error::PermissionError;
use versioned_store_permissions::permissions::{
    ClassPermissions, ClassPredicate, EntityPermissions, PropertyOfClass, ReferenceConstraint,
};
use versioned_store_permissions::principal::{BasePrincipal, EntityPrincipal, Origin};
use versioned_store_permissions::store::{
    ClassPropertyValue, PermissionedStore, PermissionsUpdate, PropertyValue,
};

const X: u64 = 100;
const Y: u64 = 200;
const Z: u64 = 300;

fn name(s: &str) -> Vec<u8> {
    s.as_bytes().to_vec()
}

fn reference(index: u16, target: u64) -> ClassPropertyValue {
    ClassPropertyValue { in_class_index: index, value: PropertyValue::Internal(target) }
}

#[test]
fn new_store_is_empty() {
    let store = PermissionedStore::new();
    assert_eq!(store.class_count(), 0);
    assert_eq!(store.entity_count(), 0);
    assert_eq!(store.block_number(), 0);
    assert!(store.class_permissions(0).is_none());
    assert!(store.entity(0).is_none());
    assert_eq!(store.entity_owner(0), None);
}

#[test]
fn created_class_keeps_supplied_record() {
    let mut store = PermissionedStore::new();
    let mut record = ClassPermissions::default();
    record.admins = vec![BasePrincipal::Account(X), BasePrincipal::GroupMember(4)];
    record.create_entities = vec![BasePrincipal::Account(Y)];
    record.entities_can_be_created = true;
    record.reference_constraint = ReferenceConstraint::NoConstraint;
    record.last_permissions_update = 17;
    let id = store.create_class(Origin::Root, name("a"), name("first"), record.clone()).unwrap();
    assert_eq!(id, 0);
    assert_eq!(store.class_permissions(id), Some(&record));
    let class = store.class(id).unwrap();
    assert_eq!(class.name, name("a"));
    assert_eq!(class.description, name("first"));
    assert!(class.schemas.is_empty());
}

#[test]
fn created_class_with_default_record() {
    let mut store = PermissionedStore::new();
    store.create_class(Origin::Root, name("a"), name(""), ClassPermissions::default()).unwrap();
    let id = store.create_class_with_default_permissions(Origin::Root, name("b"), name("")).unwrap();
    assert_eq!(id, 1);
    assert_eq!(store.class_permissions(id), Some(&ClassPermissions::default()));
}

#[test]
fn class_creation_needs_root_or_creator() {
    let mut store = PermissionedStore::new();
    assert_eq!(
        store.create_class_with_default_permissions(Origin::Signed(X), name("a"), name("")),
        Err(PermissionError::NotPermittedToCreateClass)
    );
    assert_eq!(
        store.create_class_with_default_permissions(Origin::Unsigned, name("a"), name("")),
        Err(PermissionError::BadOriginExpectedRootOrSigned)
    );
    assert_eq!(store.class_count(), 0);
    store.add_class_creator(X);
    assert_eq!(store.create_class_with_default_permissions(Origin::Signed(X), name("a"), name("")), Ok(0));
    assert_eq!(
        store.create_class_with_default_permissions(Origin::Signed(Y), name("b"), name("")),
        Err(PermissionError::NotPermittedToCreateClass)
    );
    assert_eq!(store.class_count(), 1);
}

#[test]
fn admins_are_set_by_root_only() {
    let mut store = PermissionedStore::new();
    let c = store.create_class_with_default_permissions(Origin::Root, name("a"), name("")).unwrap();
    let before = store.class_permissions(c).unwrap().clone();
    store.set_block_number(3);
    assert_eq!(
        store.set_class_admins(Origin::Signed(X), c, vec![BasePrincipal::Account(X)]),
        Err(PermissionError::NotRootOrigin)
    );
    assert_eq!(store.class_permissions(c), Some(&before));
    assert_eq!(store.set_class_admins(Origin::Root, c, vec![BasePrincipal::Account(X)]), Ok(()));
    let after = store.class_permissions(c).unwrap();
    assert_eq!(after.admins, vec![BasePrincipal::Account(X)]);
    assert_eq!(after.last_permissions_update, 3);
}

#[test]
fn refused_change_leaves_record_and_stamp() {
    let mut store = PermissionedStore::new();
    let c = store.create_class_with_default_permissions(Origin::Root, name("a"), name("")).unwrap();
    store.set_block_number(2);
    store.set_class_admins(Origin::Root, c, vec![BasePrincipal::Account(X)]).unwrap();
    let before = store.class_permissions(c).unwrap().clone();
    store.set_block_number(8);
    assert_eq!(
        store.set_class_entities_can_be_created(Origin::Signed(Y), None, c, true),
        Err(PermissionError::NotInAdminsSet)
    );
    assert_eq!(
        store.set_class_reference_constraint(Origin::Signed(X), Some(1), c, ReferenceConstraint::NoConstraint),
        Err(PermissionError::OriginNotMemberOfClaimedGroup)
    );
    assert_eq!(
        store.set_class_create_entities_set(Origin::Unsigned, None, c, vec![]),
        Err(PermissionError::BadOriginExpectedRootOrSigned)
    );
    assert_eq!(store.class_permissions(c), Some(&before));
    assert_eq!(store.class_permissions(c).unwrap().last_permissions_update, 2);
}

#[test]
fn unknown_class_is_reported() {
    let mut store = PermissionedStore::new();
    assert_eq!(
        store.set_class_admins(Origin::Root, 0, vec![]),
        Err(PermissionError::ClassIdDoesNotExist)
    );
    assert_eq!(
        store.if_class_permissions_satisfied(Origin::Root, None, None, ClassPredicate::IsAdmin, 4),
        Err(PermissionError::ClassIdDoesNotExist)
    );
    assert_eq!(store.create_entity(Origin::Root, None, 0), Err(PermissionError::ClassIdDoesNotExist));
}

#[test]
fn group_admin_changes_fields() {
    let mut store = PermissionedStore::new();
    let c = store.create_class_with_default_permissions(Origin::Root, name("a"), name("")).unwrap();
    store.set_class_admins(Origin::Root, c, vec![BasePrincipal::GroupMember(7)]).unwrap();
    store.add_group_member(X, 7);
    assert!(store.is_group_member(X, 7));
    assert!(!store.is_group_member(Y, 7));
    store.set_block_number(11);
    assert_eq!(
        store.set_class_add_schemas_set(Origin::Signed(X), Some(7), c, vec![BasePrincipal::Account(Y)]),
        Ok(())
    );
    assert_eq!(
        store.set_class_add_schemas_set(Origin::Signed(X), None, c, vec![]),
        Err(PermissionError::NotInAdminsSet)
    );
    let perms = EntityPermissions {
        update: vec![EntityPrincipal::Owner],
        delete: vec![],
        transfer_ownership: vec![EntityPrincipal::Base(BasePrincipal::Account(Z))],
    };
    assert_eq!(store.set_class_entity_permissions(Origin::Signed(X), Some(7), c, perms.clone()), Ok(()));
    let record = store.class_permissions(c).unwrap();
    assert_eq!(record.add_schemas, vec![BasePrincipal::Account(Y)]);
    assert_eq!(record.entity_permissions, perms);
    assert_eq!(record.last_permissions_update, 11);
}

#[test]
fn mutate_with_explicit_predicate() {
    let mut store = PermissionedStore::new();
    let c = store.create_class_with_default_permissions(Origin::Root, name("a"), name("")).unwrap();
    store.set_block_number(6);
    assert_eq!(
        store.mutate_class_permissions(Origin::Root, None, ClassPredicate::IsAdmin, c, PermissionsUpdate::EntitiesCanBeCreated(true)),
        Ok(())
    );
    assert!(store.class_permissions(c).unwrap().entities_can_be_created);
    assert_eq!(store.class_permissions(c).unwrap().last_permissions_update, 6);
}

#[test]
fn reference_constraint_of_target_class_decides() {
    let mut store = PermissionedStore::new();
    let target = store.create_class_with_default_permissions(Origin::Root, name("target"), name("")).unwrap();
    let c1 = store.create_class_with_default_permissions(Origin::Root, name("c1"), name("")).unwrap();
    let c2 = store.create_class_with_default_permissions(Origin::Root, name("c2"), name("")).unwrap();
    let e = store.create_entity(Origin::Root, None, target).unwrap();
    let allowed = vec![PropertyOfClass { class_id: c1, property_index: 2 }];
    store.set_class_reference_constraint(Origin::Root, None, target, ReferenceConstraint::Restricted(allowed)).unwrap();

    assert_eq!(store.check_internal_references(c1, &vec![reference(2, e)]), Ok(()));
    assert_eq!(
        store.check_internal_references(c2, &vec![reference(2, e)]),
        Err(PermissionError::EntityCannotReferenceTargetEntity)
    );
    assert_eq!(
        store.check_internal_references(c1, &vec![reference(3, e)]),
        Err(PermissionError::EntityCannotReferenceTargetEntity)
    );

    store.set_class_reference_constraint(Origin::Root, None, target, ReferenceConstraint::NoConstraint).unwrap();
    assert_eq!(store.check_internal_references(c2, &vec![reference(3, e)]), Ok(()));

    store.set_class_reference_constraint(Origin::Root, None, target, ReferenceConstraint::NoReferencingAllowed).unwrap();
    assert_eq!(
        store.check_internal_references(c1, &vec![reference(2, e)]),
        Err(PermissionError::EntityCannotReferenceTargetEntity)
    );
}

#[test]
fn reference_checks_stop_at_first_failure() {
    let mut store = PermissionedStore::new();
    let c = store.create_class_with_default_permissions(Origin::Root, name("c"), name("")).unwrap();
    let e = store.create_entity(Origin::Root, None, c).unwrap();
    let plain = ClassPropertyValue { in_class_index: 0, value: PropertyValue::Uint64(5) };
    assert_eq!(store.check_internal_references(c, &vec![plain]), Ok(()));
    assert_eq!(store.check_internal_references(c, &vec![]), Ok(()));
    assert_eq!(
        store.check_internal_references(c, &vec![plain, reference(1, 9), reference(1, e)]),
        Err(PermissionError::EntityNotFound)
    );
    assert_eq!(
        store.check_internal_references(c, &vec![plain, reference(1, e), reference(1, 9)]),
        Err(PermissionError::EntityCannotReferenceTargetEntity)
    );
}

fn class_where_x_creates(store: &mut PermissionedStore) -> u64 {
    let mut record = ClassPermissions::default();
    record.create_entities = vec![BasePrincipal::Account(X)];
    record.entities_can_be_created = true;
    store.create_class(Origin::Root, name("a"), name(""), record).unwrap()
}

#[test]
fn entity_creation_follows_create_set_and_flag() {
    let mut store = PermissionedStore::new();
    let a = class_where_x_creates(&mut store);
    let e = store.create_entity(Origin::Signed(X), None, a).unwrap();
    assert_eq!(store.entity_owner(e), Some(BasePrincipal::Account(X)));
    assert_eq!(store.entity(e).unwrap().class_id, a);
    assert_eq!(store.create_entity(Origin::Signed(Y), None, a), Err(PermissionError::NotInCreateEntitiesSet));
    store.set_class_entities_can_be_created(Origin::Root, None, a, false).unwrap();
    assert_eq!(store.create_entity(Origin::Signed(X), None, a), Err(PermissionError::EntitiesCannotBeCreated));
    assert_eq!(store.entity_count(), 1);
}

#[test]
fn system_and_group_created_entities() {
    let mut store = PermissionedStore::new();
    let mut record = ClassPermissions::default();
    record.create_entities = vec![BasePrincipal::GroupMember(3)];
    record.entities_can_be_created = true;
    let a = store.create_class(Origin::Root, name("a"), name(""), record).unwrap();
    store.add_group_member(Y, 3);
    let by_system = store.create_entity(Origin::Root, None, a).unwrap();
    let by_group = store.create_entity(Origin::Signed(Y), Some(3), a).unwrap();
    assert_eq!((by_system, by_group), (0, 1));
    assert_eq!(store.entity_owner(by_system), None);
    assert_eq!(store.entity_owner(by_group), Some(BasePrincipal::GroupMember(3)));
}

#[test]
fn owner_transfers_when_owner_may_transfer() {
    let mut store = PermissionedStore::new();
    let a = class_where_x_creates(&mut store);
    let perms = EntityPermissions {
        update: vec![],
        delete: vec![],
        transfer_ownership: vec![EntityPrincipal::Owner],
    };
    store.set_class_entity_permissions(Origin::Root, None, a, perms).unwrap();
    let e = store.create_entity(Origin::Signed(X), None, a).unwrap();
    assert_eq!(
        store.set_entity_owner(Origin::Signed(X), None, false, e, Some(BasePrincipal::Account(Z))),
        Err(PermissionError::NotInEntityPermissionsTransferOwnershipSet)
    );
    assert_eq!(store.entity_owner(e), Some(BasePrincipal::Account(X)));
    assert_eq!(
        store.set_entity_owner(Origin::Signed(Y), None, true, e, Some(BasePrincipal::Account(Y))),
        Err(PermissionError::NotEntityOwner)
    );
    assert_eq!(store.set_entity_owner(Origin::Signed(X), None, true, e, Some(BasePrincipal::Account(Z))), Ok(()));
    assert_eq!(store.entity_owner(e), Some(BasePrincipal::Account(Z)));
    assert_eq!(
        store.set_entity_owner(Origin::Signed(X), None, true, e, None),
        Err(PermissionError::NotEntityOwner)
    );
    assert_eq!(store.set_entity_owner(Origin::Signed(Z), None, true, e, None), Ok(()));
    assert_eq!(store.entity_owner(e), None);
    assert_eq!(store.set_entity_owner(Origin::Root, None, false, 5, None), Err(PermissionError::EntityNotFound));
}

#[test]
fn repeated_change_only_restamps() {
    let mut store = PermissionedStore::new();
    let c = store.create_class_with_default_permissions(Origin::Root, name("a"), name("")).unwrap();
    let admins = vec![BasePrincipal::Account(X), BasePrincipal::GroupMember(2)];
    store.set_block_number(4);
    assert_eq!(store.set_class_admins(Origin::Root, c, admins.clone()), Ok(()));
    let once = store.class_permissions(c).unwrap().clone();
    store.set_block_number(9);
    assert_eq!(store.set_class_admins(Origin::Root, c, admins.clone()), Ok(()));
    let twice = store.class_permissions(c).unwrap().clone();
    assert_eq!(once.last_permissions_update, 4);
    assert_eq!(twice.last_permissions_update, 9);
    assert_eq!(ClassPermissions { last_permissions_update: 4, ..twice.clone() }, once);

    let set = vec![BasePrincipal::Account(Y)];
    assert_eq!(store.set_class_add_schemas_set(Origin::Signed(X), None, c, set.clone()), Ok(()));
    store.set_block_number(10);
    assert_eq!(store.set_class_add_schemas_set(Origin::Signed(X), None, c, set.clone()), Ok(()));
    let record = store.class_permissions(c).unwrap();
    assert_eq!(record.add_schemas, set);
    assert_eq!(ClassPermissions { last_permissions_update: 9, ..record.clone() }, ClassPermissions { add_schemas: set, ..twice });
}

#[test]
fn schemas_are_added_by_the_add_schemas_set() {
    let mut store = PermissionedStore::new();
    let mut record = ClassPermissions::default();
    record.add_schemas = vec![BasePrincipal::Account(X)];
    let c = store.create_class(Origin::Root, name("a"), name(""), record).unwrap();
    assert_eq!(store.add_class_schema(Origin::Signed(X), None, c, vec![0, 1]), Ok(0));
    assert_eq!(store.add_class_schema(Origin::Signed(Y), None, c, vec![2]), Err(PermissionError::NotInAddSchemasSet));
    assert_eq!(store.add_class_schema(Origin::Root, None, c, vec![2]), Ok(1));
    assert_eq!(store.class(c).unwrap().schemas, vec![vec![0, 1], vec![2]]);
    assert_eq!(store.add_class_schema(Origin::Root, None, 3, vec![]), Err(PermissionError::ClassIdDoesNotExist));
}

#[test]
fn schema_support_and_value_updates() {
    let mut store = PermissionedStore::new();
    let a = class_where_x_creates(&mut store);
    let perms = EntityPermissions {
        update: vec![EntityPrincipal::Owner],
        delete: vec![],
        transfer_ownership: vec![],
    };
    store.set_class_entity_permissions(Origin::Root, None, a, perms).unwrap();
    store.add_class_schema(Origin::Root, None, a, vec![0, 1]).unwrap();
    let e = store.create_entity(Origin::Signed(X), None, a).unwrap();
    let first = vec![
        ClassPropertyValue { in_class_index: 0, value: PropertyValue::Bool(true) },
        ClassPropertyValue { in_class_index: 1, value: PropertyValue::Int64(-4) },
    ];
    assert_eq!(
        store.add_schema_support_to_entity(Origin::Signed(X), None, false, e, 0, first.clone()),
        Err(PermissionError::NotInEntityPermissionsUpdateSet)
    );
    assert_eq!(
        store.add_schema_support_to_entity(Origin::Signed(X), None, true, e, 1, first.clone()),
        Err(PermissionError::SchemaNotFound)
    );
    assert_eq!(store.add_schema_support_to_entity(Origin::Signed(X), None, true, e, 0, first.clone()), Ok(()));
    assert_eq!(
        store.add_schema_support_to_entity(Origin::Signed(X), None, true, e, 0, vec![]),
        Err(PermissionError::SchemaAlreadySupported)
    );
    assert_eq!(store.entity(e).unwrap().supported_schemas, vec![0]);
    assert_eq!(store.entity(e).unwrap().values, first);

    let change = vec![ClassPropertyValue { in_class_index: 1, value: PropertyValue::Int64(8) }];
    assert_eq!(store.update_entity_property_values(Origin::Signed(X), None, true, e, change), Ok(()));
    assert_eq!(
        store.entity(e).unwrap().values,
        vec![
            ClassPropertyValue { in_class_index: 0, value: PropertyValue::Bool(true) },
            ClassPropertyValue { in_class_index: 1, value: PropertyValue::Int64(8) },
        ]
    );
    let unknown = vec![ClassPropertyValue { in_class_index: 5, value: PropertyValue::Bool(false) }];
    assert_eq!(
        store.update_entity_property_values(Origin::Signed(X), None, true, e, unknown),
        Err(PermissionError::UnknownPropertyIndex)
    );
    // no reference into class `a` is allowed, so a self reference is refused
    assert_eq!(
        store.update_entity_property_values(Origin::Root, None, false, e, vec![reference(0, e)]),
        Err(PermissionError::EntityCannotReferenceTargetEntity)
    );
    assert_eq!(
        store.update_entity_property_values(Origin::Root, None, false, 9, vec![]),
        Err(PermissionError::EntityNotFound)
    );
}

#[test]
fn later_values_for_one_property_win() {
    let mut store = PermissionedStore::new();
    let a = store.create_class_with_default_permissions(Origin::Root, name("a"), name("")).unwrap();
    store.add_class_schema(Origin::Root, None, a, vec![0]).unwrap();
    let e = store.create_entity(Origin::Root, None, a).unwrap();
    let start = vec![ClassPropertyValue { in_class_index: 0, value: PropertyValue::Uint64(1) }];
    store.add_schema_support_to_entity(Origin::Root, None, false, e, 0, start).unwrap();
    let writes = vec![
        ClassPropertyValue { in_class_index: 0, value: PropertyValue::Uint64(2) },
        ClassPropertyValue { in_class_index: 0, value: PropertyValue::Uint64(3) },
    ];
    assert_eq!(store.update_entity_property_values(Origin::Root, None, false, e, writes), Ok(()));
    assert_eq!(
        store.entity(e).unwrap().values,
        vec![ClassPropertyValue { in_class_index: 0, value: PropertyValue::Uint64(3) }]
    );
}
