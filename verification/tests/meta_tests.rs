use operator_framework::config::ConfigMap;
use operator_framework::meta::{ObjectMeta, OwnedBy, OwnershipError};

/// Create a new config map for testing.
fn new_cm(namespace: Option<&str>, name: &str, uid: &str) -> ConfigMap {
    ConfigMap {
        metadata: ObjectMeta {
            name: Some(name.into()),
            namespace: namespace.map(|s| s.to_string()),
            uid: Some(uid.to_string()),
            owner_references: None,
        },
        ..Default::default()
    }
}

#[test]
fn test_owned_by() {
    let mut config_map_1: ConfigMap = new_cm(Some("ns1"), "cm1", "123");
    let config_map_2: ConfigMap = new_cm(Some("ns1"), "cm2", "456");

    let r = config_map_1.owned_by(&config_map_2, false, None);
    assert!(r.is_ok(), "Should be ok");
    assert_eq!(1, config_map_1.metadata.owner_references.unwrap_or_default().len())
}

#[test]
fn test_owned_by_multiple() {
    let mut config_map_1: ConfigMap = new_cm(Some("ns1"), "cm1", "123");
    let config_map_2: ConfigMap = new_cm(Some("ns1"), "cm2", "456");
    let config_map_3: ConfigMap = new_cm(Some("ns1"), "cm3", "789");

    let r = config_map_1.owned_by(&config_map_2, false, None);
    assert!(r.is_ok(), "Should be ok");
    let r = config_map_1.owned_by(&config_map_3, false, None);
    assert!(r.is_ok(), "Should be ok");
    assert_eq!(2, config_map_1.metadata.owner_references.unwrap_or_default().len())
}

#[test]
fn test_owned_by_multiple_replace() {
    let mut config_map_1: ConfigMap = new_cm(Some("ns1"), "cm1", "123");
    let config_map_2: ConfigMap = new_cm(Some("ns1"), "cm2", "456");
    let config_map_3: ConfigMap = new_cm(Some("ns1"), "cm3", "789");

    let r = config_map_1.owned_by(&config_map_2, false, None);
    assert!(r.is_ok(), "Should be ok");
    let r = config_map_1.owned_by(&config_map_3, false, None);
    assert!(r.is_ok(), "Should be ok");

    let config_map_4: ConfigMap = new_cm(Some("ns1"), "cm3", "AAA");
    let r = config_map_1.owned_by(&config_map_4, false, None);
    assert!(r.is_ok(), "Should be ok");
    assert_eq!(2, config_map_1.metadata.owner_references.unwrap_or_default().len())
}

#[test]
fn test_owned_by_controller() {
    let mut config_map_1: ConfigMap = new_cm(Some("ns1"), "cm1", "123");
    let config_map_2: ConfigMap = new_cm(Some("ns1"), "cm2", "456");

    let r = config_map_1.owned_by_controller(&config_map_2);
    assert!(r.is_ok(), "Should be ok");
    assert_eq!(1, config_map_1.metadata.owner_references.unwrap_or_default().len())
}

#[test]
fn test_owned_by_controller_only_one() {
    let mut config_map_1: ConfigMap = new_cm(Some("ns1"), "cm1", "123");
    let config_map_2: ConfigMap = new_cm(Some("ns1"), "cm2", "456");
    let config_map_3: ConfigMap = new_cm(Some("ns1"), "cm3", "789");
    let config_map_4: ConfigMap = new_cm(Some("ns1"), "cm4", "012");

    let r = config_map_1.owned_by_controller(&config_map_2);
    assert!(r.is_ok(), "Should be ok");
    let r = config_map_1.owned_by(&config_map_3, false, None);
    assert!(r.is_ok(), "Should be ok");
    let r = config_map_1.owned_by_controller(&config_map_4);
    assert!(r.is_err(), "Must not be ok");
    assert_eq!(2, config_map_1.metadata.owner_references.unwrap_or_default().len())
}

#[test]
fn test_is_owned_by() {
    let mut config_map_1: ConfigMap = new_cm(Some("ns1"), "cm1", "123");
    let config_map_2: ConfigMap = new_cm(Some("ns1"), "cm2", "456");

    let r = config_map_1.owned_by(&config_map_2, false, None);
    assert!(r.is_ok());

    assert_eq!(true, config_map_1.is_owned_by(&config_map_2, Some(false)).unwrap());
    assert_eq!(false, config_map_2.is_owned_by(&config_map_1, Some(false)).unwrap());

    assert_eq!(true, config_map_1.is_owned_by(&config_map_2, None).unwrap());
    assert_eq!(false, config_map_2.is_owned_by(&config_map_1, None).unwrap());
}

#[test]
fn test_is_controlled_by() {
    let mut config_map_1: ConfigMap = new_cm(Some("ns1"), "cm1", "123");
    let config_map_2: ConfigMap = new_cm(Some("ns1"), "cm2", "456");
    let config_map_3: ConfigMap = new_cm(Some("ns1"), "cm3", "789");

    config_map_1.owned_by_controller(&config_map_2).unwrap();
    config_map_1.owned_by(&config_map_3, false, None).unwrap();

    assert_eq!(true, config_map_1.is_owned_by_controller(&config_map_2).unwrap());
    assert_eq!(false, config_map_1.is_owned_by_controller(&config_map_3).unwrap());

    assert_eq!(true, config_map_1.is_owned_by(&config_map_2, None).unwrap());
    assert_eq!(true, config_map_1.is_owned_by(&config_map_3, None).unwrap());
}

/// Setting the same controlling owner twice is idempotent: one entry, with
/// the controller flag set.
#[test]
fn controller_owner_set_twice() {
    let mut dependent = new_cm(Some("ns1"), "cm1", "123");
    let owner = new_cm(Some("ns1"), "cm2", "456");

    dependent.owned_by_controller(&owner).unwrap();
    dependent.owned_by_controller(&owner).unwrap();

    let refs = dependent.metadata.owner_references.unwrap();
    assert_eq!(1, refs.len());
    assert_eq!(Some(true), refs[0].controller);
    assert_eq!("cm2", refs[0].name);
}

/// A rejected second controller leaves the ledger untouched.
#[test]
fn controller_conflict_changes_nothing() {
    let mut dependent = new_cm(Some("ns1"), "cm1", "123");
    let owner = new_cm(Some("ns1"), "cm2", "456");
    let intruder = new_cm(Some("ns1"), "cm3", "789");

    dependent.owned_by_controller(&owner).unwrap();
    let before = dependent.metadata.clone();

    let r = dependent.owned_by_controller(&intruder);
    assert_eq!(Err(OwnershipError::ControllerConflict), r);
    assert_eq!(before, dependent.metadata);
}

/// Both namespaced in different namespaces: rejected.
#[test]
fn different_namespaces_rejected() {
    let mut dependent = new_cm(Some("ns1"), "cm1", "123");
    let owner = new_cm(Some("ns2"), "cm2", "456");

    let r = dependent.owned_by(&owner, false, None);
    assert_eq!(Err(OwnershipError::InvalidOwnership), r);
    assert_eq!(None, dependent.metadata.owner_references);
}

/// A cluster-scoped dependent must not have a namespaced owner, while a
/// namespaced dependent may have a cluster-scoped owner.
#[test]
fn cluster_scope_rules() {
    let mut cluster_dependent = new_cm(None, "cm1", "123");
    let namespaced_owner = new_cm(Some("ns1"), "cm2", "456");
    let r = cluster_dependent.owned_by(&namespaced_owner, false, None);
    assert_eq!(Err(OwnershipError::InvalidOwnership), r);

    let mut namespaced_dependent = new_cm(Some("ns1"), "cm3", "789");
    let cluster_owner = new_cm(None, "cm4", "012");
    assert!(namespaced_dependent.owned_by(&cluster_owner, false, None).is_ok());
}

/// An owner without a name or uid cannot be recorded or queried.
#[test]
fn missing_identity_rejected() {
    let mut dependent = new_cm(Some("ns1"), "cm1", "123");
    let mut owner = new_cm(Some("ns1"), "cm2", "456");
    owner.metadata.uid = None;

    let r = dependent.owned_by(&owner, false, None);
    assert_eq!(Err(OwnershipError::MissingIdentity), r);
    assert_eq!(None, dependent.metadata.owner_references);

    let q = dependent.is_owned_by(&owner, None);
    assert_eq!(Err(OwnershipError::MissingIdentity), q);
}
