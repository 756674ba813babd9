use operator_framework::container::Container;
use operator_framework::env::{ApplyEnvironmentVariable, ConfigMapKeySelector, EnvVar, SecretKeySelector};
use operator_framework::value::ValueOrReference;

#[test]
fn value_applied_directly() {
    let mut env = EnvVar {
        name: "FIELD".to_string(),
        value: None,
        value_from: None,
    };
    let v = ValueOrReference::Value("foo".to_string());
    v.apply_to_envvar(&mut env);
    assert_eq!("FIELD", env.name);
    assert_eq!(Some("foo".to_string()), env.value);
    assert_eq!(None, env.value_from);
}

#[test]
fn reference_applied_as_source() {
    let mut env = EnvVar {
        name: "FIELD".to_string(),
        value: Some("stale".to_string()),
        value_from: None,
    };
    let v = ValueOrReference::ConfigMap(ConfigMapKeySelector {
        name: Some("foo".to_string()),
        key: "bar".to_string(),
        optional: None,
    });
    v.apply_to_envvar(&mut env);
    assert_eq!(None, env.value);
    let source = env.value_from.unwrap();
    let selector = source.config_map_key_ref.unwrap();
    assert_eq!(Some("foo".to_string()), selector.name);
    assert_eq!("bar", selector.key);
    assert_eq!(None, source.secret_key_ref);
}

#[test]
fn secret_reference_applied_to_container() {
    let mut container = Container::default();
    let v = ValueOrReference::Secret(SecretKeySelector {
        name: Some("foo".to_string()),
        key: "bar".to_string(),
        optional: None,
    });
    v.apply_to_env(&mut container, "FIELD");

    let env = container.env.unwrap();
    assert_eq!(1, env.len());
    assert_eq!("FIELD", env[0].name);
    assert_eq!(None, env[0].value);
    let source = env[0].value_from.as_ref().unwrap();
    let selector = source.secret_key_ref.as_ref().unwrap();
    assert_eq!(Some("foo".to_string()), selector.name);
    assert_eq!("bar", selector.key);
}
