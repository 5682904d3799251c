use avm2_namespace::{
    get_uri, init, Activation, Error, Namespace, Object, QName, ScriptObject, Stub, ToStringMethod,
    Value,
};

fn activation() -> Activation {
    Activation::new(7, 0)
}

fn uri_of(this: &Object) -> Value {
    let mut act = activation();
    get_uri(&mut act, this, &[]).unwrap()
}

#[test]
fn get_uri_of_public_namespace() {
    let this = Object::NamespaceObject(Namespace::package("flash.display".to_string(), 3));
    assert_eq!(uri_of(&this), Value::String("flash.display".to_string()));
}

#[test]
fn get_uri_of_private_namespace() {
    let this = Object::NamespaceObject(Namespace::Private("my.pkg:Foo".to_string()));
    assert_eq!(uri_of(&this), Value::String("my.pkg:Foo".to_string()));
}

#[test]
fn get_uri_of_any_namespace_is_empty() {
    let this = Object::NamespaceObject(Namespace::any());
    assert_eq!(uri_of(&this), Value::String(String::new()));
}

#[test]
fn get_uri_of_other_object_is_undefined() {
    let this = Object::ScriptObject(ScriptObject { class_name: "Object".to_string(), to_string: ToStringMethod::Default });
    assert_eq!(uri_of(&this), Value::Undefined);
    let q = Object::QNameObject(QName { uri: Some("a".to_string()), local_name: "b".to_string() });
    assert_eq!(uri_of(&q), Value::Undefined);
}

fn run_init(count: u32, args: &[Value]) -> Object {
    let mut act = activation();
    let mut this = Object::NamespaceObject(Namespace::any());
    let r = init(&mut act, &mut this, Ok(count), args).unwrap();
    assert_eq!(r, Value::Undefined);
    assert_eq!(act.root_api_version, 7);
    assert_eq!(act.public_namespace_base_version, Namespace::Namespace(String::new(), 0));
    assert_eq!(act.stubs.len(), if count >= 2 { 1 } else { 0 });
    this
}

#[test]
fn init_without_uri_gives_base_public_namespace() {
    let this = run_init(0, &[Value::Integer(0)]);
    assert_eq!(this, Object::NamespaceObject(Namespace::Namespace(String::new(), 0)));
    assert_eq!(uri_of(&this), Value::String(String::new()));
}

#[test]
fn init_with_string_uri() {
    let this = run_init(1, &[Value::Integer(1), Value::String("http://example.com".to_string())]);
    assert_eq!(this, Object::NamespaceObject(Namespace::Namespace("http://example.com".to_string(), 7)));
    assert_eq!(uri_of(&this), Value::String("http://example.com".to_string()));
}

#[test]
fn init_with_prefix_reads_third_argument() {
    let this = run_init(
        2,
        &[Value::Integer(2), Value::String("pfx".to_string()), Value::String("urn:x".to_string())],
    );
    assert_eq!(this, Object::NamespaceObject(Namespace::Namespace("urn:x".to_string(), 7)));
    let this = run_init(
        5,
        &[Value::Integer(5), Value::Null, Value::String("urn:y".to_string()), Value::Null],
    );
    assert_eq!(uri_of(&this), Value::String("urn:y".to_string()));
}

#[test]
fn init_with_qname_uses_its_uri() {
    let q = QName { uri: Some("urn:q".to_string()), local_name: "n".to_string() };
    let this = run_init(1, &[Value::Integer(1), Value::Object(Object::QNameObject(q))]);
    assert_eq!(this, Object::NamespaceObject(Namespace::Namespace("urn:q".to_string(), 7)));
}

#[test]
fn init_with_qname_without_uri_gives_any() {
    let q = QName { uri: None, local_name: "n".to_string() };
    let this = run_init(1, &[Value::Integer(1), Value::Object(Object::QNameObject(q))]);
    assert_eq!(this, Object::NamespaceObject(Namespace::Any));
    assert_eq!(uri_of(&this), Value::String(String::new()));
}

#[test]
fn init_with_namespace_object_copies_uri() {
    let other = Object::NamespaceObject(Namespace::Protected("urn:p".to_string()));
    let this = run_init(1, &[Value::Integer(1), Value::Object(other.clone())]);
    assert_eq!(this, Object::NamespaceObject(Namespace::Namespace("urn:p".to_string(), 7)));
    assert_eq!(uri_of(&this), uri_of(&other));
}

#[test]
fn init_with_primitive_values_uses_their_string_form() {
    let cases = [
        (Value::Undefined, "undefined"),
        (Value::Null, "null"),
        (Value::Bool(true), "true"),
        (Value::Bool(false), "false"),
        (Value::Integer(0), "0"),
        (Value::Integer(42), "42"),
        (Value::Integer(-17), "-17"),
        (Value::Integer(i32::MIN), "-2147483648"),
        (Value::Integer(i32::MAX), "2147483647"),
    ];
    for (v, s) in cases {
        let this = run_init(1, &[Value::Integer(1), v]);
        assert_eq!(uri_of(&this), Value::String(s.to_string()));
    }
}

#[test]
fn init_with_script_object_uses_object_string() {
    let o = Object::ScriptObject(ScriptObject { class_name: "Object".to_string(), to_string: ToStringMethod::Default });
    let this = run_init(1, &[Value::Integer(1), Value::Object(o)]);
    assert_eq!(uri_of(&this), Value::String("[object Object]".to_string()));
}

fn prefix_stub() -> Stub {
    Stub {
        class: "Namespace".to_string(),
        specifics: "Namespace prefix not supported".to_string(),
    }
}

#[test]
fn init_with_prefix_records_stub_once() {
    let mut act = activation();
    let args = [Value::Integer(2), Value::Null, Value::String("urn:z".to_string())];
    let mut this = Object::NamespaceObject(Namespace::any());
    init(&mut act, &mut this, Ok(2), &args).unwrap();
    assert_eq!(act.stubs, vec![prefix_stub()]);
    let mut other = Object::NamespaceObject(Namespace::any());
    init(&mut act, &mut other, Ok(2), &args).unwrap();
    assert_eq!(act.stubs, vec![prefix_stub()]);
    let mut third = Object::NamespaceObject(Namespace::any());
    init(&mut act, &mut third, Ok(1), &args).unwrap();
    assert_eq!(act.stubs, vec![prefix_stub()]);
}

#[test]
fn init_keeps_stubs_met_before() {
    let mut act = activation();
    act.encounter_stub("Other", "thing");
    let args = [Value::Integer(3), Value::Null, Value::String("u".to_string())];
    let mut this = Object::NamespaceObject(Namespace::any());
    init(&mut act, &mut this, Ok(3), &args).unwrap();
    let other = Stub { class: "Other".to_string(), specifics: "thing".to_string() };
    assert_eq!(act.stubs, vec![other, prefix_stub()]);
}

#[test]
fn init_stops_with_error_of_throwing_to_string() {
    let err = Error { message: "boom".to_string() };
    let o = Object::ScriptObject(ScriptObject {
        class_name: "Foo".to_string(),
        to_string: ToStringMethod::Throws(err.clone()),
    });
    let mut act = activation();
    let mut this = Object::NamespaceObject(Namespace::Private("keep".to_string()));
    let r = init(&mut act, &mut this, Ok(1), &[Value::Integer(1), Value::Object(o.clone())]);
    assert_eq!(r, Err(err.clone()));
    assert_eq!(this, Object::NamespaceObject(Namespace::Private("keep".to_string())));
    let r = init(&mut act, &mut this, Ok(2), &[Value::Integer(2), Value::Null, Value::Object(o)]);
    assert_eq!(r, Err(err));
    assert_eq!(this, Object::NamespaceObject(Namespace::Private("keep".to_string())));
    assert_eq!(act.stubs, vec![prefix_stub()]);
}

#[test]
fn init_uses_string_of_own_to_string() {
    let o = Object::ScriptObject(ScriptObject {
        class_name: "Foo".to_string(),
        to_string: ToStringMethod::Returns("urn:foo".to_string()),
    });
    let this = run_init(1, &[Value::Integer(1), Value::Object(o)]);
    assert_eq!(uri_of(&this), Value::String("urn:foo".to_string()));
}

#[test]
fn new_activation_base_namespace_is_empty_public() {
    let act = Activation::new(5, 2);
    assert_eq!(act.root_api_version, 5);
    assert_eq!(act.public_namespace_base_version, Namespace::Namespace(String::new(), 2));
    assert!(act.stubs.is_empty());
}

#[test]
fn init_stops_with_error_of_count_conversion() {
    let err = Error { message: "no count".to_string() };
    let o = Object::ScriptObject(ScriptObject {
        class_name: "Foo".to_string(),
        to_string: ToStringMethod::Throws(err.clone()),
    });
    let mut act = activation();
    let mut this = Object::NamespaceObject(Namespace::Private("keep".to_string()));
    let args = [Value::Object(o), Value::String("urn:a".to_string())];
    let r = init(&mut act, &mut this, Err(err.clone()), &args);
    assert_eq!(r, Err(err));
    assert_eq!(this, Object::NamespaceObject(Namespace::Private("keep".to_string())));
    assert!(act.stubs.is_empty());
}
