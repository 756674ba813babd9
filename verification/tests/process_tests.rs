use operator_framework::meta::ObjectMeta;
use operator_framework::process::{converge_step, ConvergeOutcome};

/// A small object with a single interesting field.
#[derive(Clone, Debug, PartialEq)]
struct Object {
    name: Option<String>,
    f: i32,
}

fn creator(meta: ObjectMeta) -> Object {
    Object { name: meta.name, f: 0 }
}

/// The store reports the object as absent: the mutated fresh object is
/// created, and nothing is replaced.
#[test]
fn converge_creates_when_absent() {
    let r: Result<ConvergeOutcome<Object>, String> = converge_step(
        None,
        None::<String>,
        "x".to_string(),
        creator,
        |a: &Object, b: &Object| a == b,
        |o: &Object| Ok(Object { f: 1, ..o.clone() }),
    );

    match r {
        Ok(ConvergeOutcome::Create(o)) => {
            assert_eq!(1, o.f);
            assert_eq!(Some("x".to_string()), o.name);
        },
        other => panic!("expected a create, got {:?}", other),
    }
}

/// The store holds the object and the mutation changes nothing: no write.
#[test]
fn converge_skips_write_when_unchanged() {
    let existing = Object { name: Some("x".to_string()), f: 1 };
    let r: Result<ConvergeOutcome<Object>, String> = converge_step(
        Some(existing),
        None::<String>,
        "x".to_string(),
        creator,
        |a: &Object, b: &Object| a == b,
        |o: &Object| Ok(o.clone()),
    );

    match r {
        Ok(ConvergeOutcome::Unchanged(o)) => assert_eq!(1, o.f),
        other => panic!("expected no write, got {:?}", other),
    }
}

/// The store holds the object and the mutation changes it: exactly one
/// replace, carrying the mutated object.
#[test]
fn converge_replaces_when_changed() {
    let existing = Object { name: Some("x".to_string()), f: 1 };
    let r: Result<ConvergeOutcome<Object>, String> = converge_step(
        Some(existing),
        None::<String>,
        "x".to_string(),
        creator,
        |a: &Object, b: &Object| a == b,
        |o: &Object| Ok(Object { f: 2, ..o.clone() }),
    );

    match r {
        Ok(ConvergeOutcome::Replace(o)) => assert_eq!(2, o.f),
        other => panic!("expected a replace, got {:?}", other),
    }
}

/// A failing mutator propagates its error and no write is requested.
#[test]
fn converge_propagates_mutator_error() {
    let existing = Object { name: Some("x".to_string()), f: 1 };
    let r: Result<ConvergeOutcome<Object>, String> = converge_step(
        Some(existing),
        None::<String>,
        "x".to_string(),
        creator,
        |a: &Object, b: &Object| a == b,
        |_o: &Object| Err("mutation failed".to_string()),
    );

    assert_eq!(Err("mutation failed".to_string()), r);
}

/// A fresh object starts from metadata carrying the namespace and name.
#[test]
fn converge_fresh_metadata() {
    let r: Result<ConvergeOutcome<Object>, String> = converge_step(
        None,
        Some("ns1".to_string()),
        "thing".to_string(),
        |meta: ObjectMeta| {
            assert_eq!(Some("ns1".to_string()), meta.namespace);
            assert_eq!(Some("thing".to_string()), meta.name);
            assert_eq!(None, meta.uid);
            Object { name: meta.name, f: 0 }
        },
        |a: &Object, b: &Object| a == b,
        |o: &Object| Ok(o.clone()),
    );

    match r {
        Ok(ConvergeOutcome::Create(o)) => assert_eq!(0, o.f),
        other => panic!("expected a create, got {:?}", other),
    }
}
