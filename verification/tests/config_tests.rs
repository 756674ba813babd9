use operator_framework::config::{AppendBinary, AppendString, ConfigMap, Secret};

#[test]
fn test_cm_string_append() {
    let mut cm: ConfigMap = Default::default();
    cm.append_string("foo", "bar".to_string());

    let expected = vec![("foo".to_string(), "bar".to_string())];
    assert_eq!(cm.data, expected);

    cm.append_string("foo", "bar2".to_string());
    let expected = vec![("foo".to_string(), "bar2".to_string())];
    assert_eq!(cm.data, expected);
}

#[test]
fn test_cm_string_init() {
    let mut cm: ConfigMap = Default::default();
    cm.append_string("foo", "bar".to_string());

    let expected = vec![("foo".to_string(), "bar".to_string())];
    assert_eq!(cm.data, expected.clone());

    cm.init_string("foo", "bar2".to_string());
    assert_eq!(cm.data, expected);
}

#[test]
fn test_secret_string() {
    let mut secret: Secret = Default::default();
    secret.append_string("foo", "bar".to_string());
}

#[test]
fn test_cm_binary() {
    let mut cm: ConfigMap = Default::default();
    let data = [1u8, 2u8, 3u8];
    cm.append_binary("foo", data.to_vec());
}

#[test]
fn test_cm_bigger_binary() {
    let mut cm: ConfigMap = Default::default();
    let data = [0u8; 100];
    cm.append_binary("foo", data.to_vec());
}

#[test]
fn test_secret_binary() {
    let mut secret: Secret = Default::default();
    let data = [1u8, 2u8, 3u8];
    secret.append_binary("foo", data.to_vec());
}

/// A secret stores inserted text as its bytes.
#[test]
fn secret_string_stored_as_bytes() {
    let mut secret: Secret = Default::default();
    secret.append_string("foo", "bar".to_string());
    assert_eq!(secret.data, vec![("foo".to_string(), b"bar".to_vec())]);
}

/// Binary init keeps a present entry and creates an absent one.
#[test]
fn binary_init_keeps_existing() {
    let mut cm: ConfigMap = Default::default();
    cm.append_binary("foo", vec![1]);
    cm.init_binary("foo", vec![2]);
    cm.init_binary("bar", vec![3]);
    assert_eq!(
        cm.binary_data,
        vec![("foo".to_string(), vec![1u8]), ("bar".to_string(), vec![3u8])]
    );
}

/// The provider-based insertions store what the provider returns.
#[test]
fn provider_insertions() {
    let mut cm: ConfigMap = Default::default();
    cm.insert_string("a", false, || "one".to_string());
    cm.init_string_from("a", || "two".to_string());
    cm.init_string_from("b", || "three".to_string());
    assert_eq!(
        cm.data,
        vec![("a".to_string(), "one".to_string()), ("b".to_string(), "three".to_string())]
    );
}
