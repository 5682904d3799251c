use avm2_namespace::{Namespace, Object, QName, Value};

#[test]
fn coerce_to_u32_of_primitives() {
    assert_eq!(Value::Undefined.coerce_to_u32(), Some(0));
    assert_eq!(Value::Null.coerce_to_u32(), Some(0));
    assert_eq!(Value::Bool(true).coerce_to_u32(), Some(1));
    assert_eq!(Value::Bool(false).coerce_to_u32(), Some(0));
    assert_eq!(Value::Integer(2).coerce_to_u32(), Some(2));
    assert_eq!(Value::Integer(-1).coerce_to_u32(), Some(4294967295));
    assert_eq!(Value::Integer(i32::MIN).coerce_to_u32(), Some(2147483648));
}

#[test]
fn coerce_to_u32_of_text_is_left_to_the_caller() {
    assert_eq!(Value::String("3".to_string()).coerce_to_u32(), None);
    assert_eq!(Value::Object(Object::NamespaceObject(Namespace::Any)).coerce_to_u32(), None);
}

#[test]
fn qname_string_forms() {
    let any = QName { uri: None, local_name: "x".to_string() };
    assert_eq!(any.to_string_value(), "*::x");
    let empty = QName { uri: Some(String::new()), local_name: "x".to_string() };
    assert_eq!(empty.to_string_value(), "x");
    let full = QName { uri: Some("urn:a".to_string()), local_name: "x".to_string() };
    assert_eq!(full.to_string_value(), "urn:a::x");
    assert_eq!(Value::Object(Object::QNameObject(full)).coerce_to_string(), Ok("urn:a::x".to_string()));
}

#[test]
fn namespace_uri_accessors() {
    let ns = Namespace::package("a.b".to_string(), 1);
    assert_eq!(ns.as_uri(), "a.b");
    assert_eq!(ns.as_uri_opt(), Some("a.b".to_string()));
    assert_eq!(Namespace::any().as_uri(), "");
    assert_eq!(Namespace::any().as_uri_opt(), None);
    assert_eq!(ns.duplicate(), ns);
}

#[test]
fn object_namespace_access() {
    let mut o = Object::NamespaceObject(Namespace::any());
    assert_eq!(o.as_namespace_object(), Some(&Namespace::Any));
    o.init_namespace(Namespace::Explicit("e".to_string()));
    assert_eq!(o.as_namespace_object(), Some(&Namespace::Explicit("e".to_string())));
    let q = Object::QNameObject(QName { uri: None, local_name: String::new() });
    assert_eq!(q.as_namespace_object(), None);
}

#[test]
fn integer_strings() {
    assert_eq!(avm2_namespace::value::integer_to_string(0), "0");
    assert_eq!(avm2_namespace::value::integer_to_string(-9), "-9");
    assert_eq!(avm2_namespace::value::integer_to_string(1000), "1000");
}
