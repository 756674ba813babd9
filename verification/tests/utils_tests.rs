use operator_framework::utils::UseOrCreate;

#[derive(Default, Debug)]
struct Example {
    foo: String,
}

#[test]
fn test_with_none() {
    let mut v: Option<Example> = None;
    v.use_or_create(|mut v| {
        v.foo = "bar".to_string();
        v
    });

    assert!(v.is_some());
    assert_eq!(v.unwrap().foo, "bar");
}

#[test]
fn test_with_some() {
    let mut v: Option<Example> = Some(Example { foo: "foo".into() });
    v.use_or_create(|mut v| {
        assert_eq!(v.foo, "foo");
        v.foo = "bar".to_string();
        v
    });

    assert!(v.is_some());
    assert_eq!(v.unwrap().foo, "bar");
}
