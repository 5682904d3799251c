//! Native methods of the ActionScript `Namespace` class.

use vstd::prelude::*;

use crate::activation::{stub_encountered, Activation, Error};
use crate::namespace::Namespace;
use crate::value::{string_conversion, u32_form, Object, QName, Value};

verus! {

/// The argument of `new Namespace(..)` that holds the URI. The first
/// argument counts the arguments that follow it: none, the URI alone, or a
/// prefix and then the URI.
pub open spec fn uri_argument(count: u32, args: Seq<Value>) -> Option<Value> {
    if count == 0 {
        None
    } else if count == 1 {
        Some(args[1])
    } else {
        Some(args[2])
    }
}

/// Whether `ns` is the namespace that the initializer gives a new instance
/// when `uri_value` is the argument that holds the URI: a `QName` gives the
/// public namespace of its URI (the wildcard namespace when it has none),
/// any other value the public namespace of its string form, both for the
/// root movie's API version; no argument gives the public namespace of the
/// base version.
pub open spec fn is_initial_namespace(
    ns: Namespace,
    activation: Activation,
    uri_value: Option<Value>,
) -> bool {
    match uri_value {
        Some(Value::Object(Object::QNameObject(qname))) => match qname.uri {
            Some(uri) => ns == Namespace::Namespace(uri, activation.root_api_version),
            None => ns == Namespace::Any,
        },
        Some(v) => ns matches Namespace::Namespace(uri, version) && string_conversion(v) == Ok::<
            Seq<char>,
            Error,
        >(uri@) && version == activation.root_api_version,
        None => ns == activation.public_namespace_base_version,
    }
}

/// The error that the initializer stops with when `uri_value` is the
/// argument that holds the URI: that of a value, other than a `QName`, whose
/// string conversion throws.
pub open spec fn uri_error(uri_value: Option<Value>) -> Option<Error> {
    match uri_value {
        Some(Value::Object(Object::QNameObject(_))) => None,
        Some(v) => match string_conversion(v) {
            Err(e) => Some(e),
            Ok(_) => None,
        },
        None => None,
    }
}

/// What the getter `Namespace.uri` reads from an object: the URI of the
/// namespace of a `Namespace` instance, nothing for any other object.
pub open spec fn uri_property(this: Object) -> Option<Seq<char>> {
    match this {
        Object::NamespaceObject(ns) => Some(ns.uri_spec()),
        _ => None,
    }
}

/// Implements `Namespace`'s instance initializer.
///
/// `count` is the outcome of converting the first argument to an unsigned
/// integer: where that conversion needs no text (see `Value::coerce_to_u32`)
/// it is the integer that the conversion gives, and where the argument's
/// string conversion throws it is that error. A conversion that fails stops
/// the call with its error. A prefix argument is not supported: the call
/// records that stub and goes on without it.
pub fn init(
    activation: &mut Activation,
    this: &mut Object,
    count: Result<u32, Error>,
    args: &[Value],
) -> (r: Result<Value, Error>)
    requires
        *old(this) is NamespaceObject,
        args@.len() >= 1,
        u32_form(args@[0]) matches Some(n) ==> count == Ok::<u32, Error>(n),
        string_conversion(args@[0]) matches Err(e) ==> count == Err::<u32, Error>(e),
        count matches Ok(n) && n == 1 ==> args@.len() >= 2,
        count matches Ok(n) && n >= 2 ==> args@.len() >= 3,
    ensures
        match count {
            Err(e) => {
                &&& r == Err::<Value, Error>(e)
                &&& *final(this) == *old(this)
                &&& *final(activation) == *old(activation)
            },
            Ok(count) => {
                &&& final(activation).root_api_version == old(activation).root_api_version
                &&& final(activation).public_namespace_base_version
                    == old(activation).public_namespace_base_version
                &&& count >= 2 ==> stub_encountered(
                    old(activation).stubs@,
                    final(activation).stubs@,
                    "Namespace"@,
                    "Namespace prefix not supported"@,
                )
                &&& count < 2 ==> final(activation).stubs@ == old(activation).stubs@
                &&& uri_argument(count, args@) matches Some(
                    Value::Object(Object::QNameObject(q)),
                ) ==> *final(this) == Object::NamespaceObject(
                    match q.uri {
                        Some(u) => Namespace::Namespace(u, old(activation).root_api_version),
                        None => Namespace::Any,
                    },
                )
                &&& match uri_error(uri_argument(count, args@)) {
                    Some(e) => r == Err::<Value, Error>(e) && *final(this) == *old(this),
                    None => {
                        &&& r matches Ok(Value::Undefined)
                        &&& *final(this) matches Object::NamespaceObject(ns)
                            && is_initial_namespace(
                            ns,
                            *old(activation),
                            uri_argument(count, args@),
                        )
                    },
                }
            },
        },
{
    let count = count?;
    let uri_value: Option<&Value> = if count == 0 {
        // new Namespace ( )
        None
    } else if count == 1 {
        // new Namespace ( uriValue )
        Some(&args[1])
    } else {
        // new Namespace ( prefixValue, uriValue )
        activation.encounter_stub("Namespace", "Namespace prefix not supported");
        Some(&args[2])
    };

    let api_version = activation.root_api_version;

    let namespace = match uri_value {
        Some(Value::Object(Object::QNameObject(qname))) => match qname.uri() {
            Some(uri) => Namespace::package(uri, api_version),
            None => Namespace::any(),
        },
        Some(val) => Namespace::package(val.coerce_to_string()?, api_version),
        None => activation.public_namespace_base_version.duplicate(),
    };

    this.init_namespace(namespace);
    Ok(Value::Undefined)
}

/// Implements `Namespace.uri`'s getter.
pub fn get_uri(_activation: &mut Activation, this: &Object, _args: &[Value]) -> (r: Result<
    Value,
    Error,
>)
    ensures
        *final(_activation) == *old(_activation),
        match uri_property(*this) {
            Some(uri) => r matches Ok(Value::String(s)) && s@ == uri,
            None => r matches Ok(Value::Undefined),
        },
{
    if let Some(o) = this.as_namespace_object() {
        return Ok(Value::String(o.as_uri()));
    }
    Ok(Value::Undefined)
}

/// `new Namespace(s)` with a string `s` makes a namespace whose `uri` is `s`.
pub proof fn lemma_string_argument_is_uri(activation: Activation, args: Seq<Value>, ns: Namespace)
    requires
        args.len() >= 2,
        args[1] is String,
        is_initial_namespace(ns, activation, uri_argument(1, args)),
    ensures
        uri_property(Object::NamespaceObject(ns)) == Some(args[1]->String_0@),
{
}

/// `new Namespace(other)` with a `Namespace` instance `other` makes a
/// namespace with the same `uri` as `other`.
pub proof fn lemma_namespace_argument_keeps_uri(
    activation: Activation,
    args: Seq<Value>,
    ns: Namespace,
)
    requires
        args.len() >= 2,
        args[1] matches Value::Object(o) && o is NamespaceObject,
        is_initial_namespace(ns, activation, uri_argument(1, args)),
    ensures
        uri_property(Object::NamespaceObject(ns)) == uri_property(args[1]->Object_0),
{
}

/// `new Namespace(qname)` with a `QName` makes a namespace whose `uri` is
/// the URI of the qualified name, or the empty string where it has none.
pub proof fn lemma_qname_argument_gives_its_uri(
    activation: Activation,
    args: Seq<Value>,
    ns: Namespace,
)
    requires
        args.len() >= 2,
        args[1] matches Value::Object(o) && o is QNameObject,
        is_initial_namespace(ns, activation, uri_argument(1, args)),
    ensures
        uri_property(Object::NamespaceObject(ns)) == Some(
            match args[1]->Object_0->QNameObject_0.uri {
                Some(uri) => uri@,
                None => Seq::<char>::empty(),
            },
        ),
{
}

/// `new Namespace(prefix, uri)` makes the same namespace as
/// `new Namespace(uri)`: the prefix is not read.
pub proof fn lemma_prefix_is_ignored(count: u32, args: Seq<Value>)
    requires
        count >= 2,
        args.len() >= 3,
    ensures
        uri_argument(count, args) == uri_argument(1, args.remove(1)),
{
}

/// `new Namespace()` makes the public namespace of the base API version,
/// whatever else the arguments hold; its URI is the empty string.
pub proof fn lemma_no_argument_gives_base_namespace(
    activation: Activation,
    args: Seq<Value>,
    ns: Namespace,
)
    requires
        activation.wf(),
        is_initial_namespace(ns, activation, uri_argument(0, args)),
    ensures
        ns == activation.public_namespace_base_version,
        ns is Namespace,
        uri_property(Object::NamespaceObject(ns)) == Some(Seq::<char>::empty()),
{
}

/// A URI argument whose string conversion throws stops the initializer
/// with that error; a `QName`, a `Namespace` instance or a primitive value
/// never does.
pub proof fn lemma_only_throwing_objects_stop_init(uri_value: Value)
    requires
        uri_error(Some(uri_value)) is Some,
    ensures
        uri_value matches Value::Object(Object::ScriptObject(o)) && o.to_string is Throws,
{
}

/// A public namespace that the initializer makes from a URI argument belongs
/// to the root movie's API version.
pub proof fn lemma_uri_argument_uses_root_version(
    activation: Activation,
    uri_value: Value,
    ns: Namespace,
)
    requires
        is_initial_namespace(ns, activation, Some(uri_value)),
    ensures
        ns matches Namespace::Namespace(_, version) ==> version == activation.root_api_version,
        ns is Namespace || ns is Any,
{
}

/// `new Namespace(qname)` with a `QName` whose URI is `u` makes the public
/// namespace of `u` for the root movie's API version, for every `u`, the
/// empty URI included.
pub proof fn lemma_qname_with_uri_gives_public_namespace(
    activation: Activation,
    q: QName,
    u: String,
    ns: Namespace,
)
    requires
        q.uri == Some(u),
        is_initial_namespace(ns, activation, Some(Value::Object(Object::QNameObject(q)))),
    ensures
        ns == Namespace::Namespace(u, activation.root_api_version),
        uri_property(Object::NamespaceObject(ns)) == Some(u@),
{
}

/// The wildcard namespace comes from a URI argument only when it is a
/// `QName` without a URI.
pub proof fn lemma_wildcard_only_from_qname_without_uri(
    activation: Activation,
    uri_value: Value,
    ns: Namespace,
)
    requires
        is_initial_namespace(ns, activation, Some(uri_value)),
        ns is Any,
    ensures
        uri_value matches Value::Object(Object::QNameObject(q)) && q.uri is None,
{
}

/// The URI argument is none for a count of 0, the second argument for a
/// count of 1, and the third for a larger count.
pub proof fn lemma_uri_argument_position(count: u32, args: Seq<Value>)
    ensures
        count == 0 ==> uri_argument(count, args) is None,
        count == 1 ==> uri_argument(count, args) == Some(args[1]),
        count >= 2 ==> uri_argument(count, args) == Some(args[2]),
{
}

/// The getter reads a URI from `Namespace` instances, and from nothing
/// else.
pub proof fn lemma_uri_property_only_of_namespaces(this: Object)
    ensures
        uri_property(this) is Some <==> this is NamespaceObject,
        this matches Object::NamespaceObject(ns) ==> uri_property(this) == Some(ns.uri_spec()),
{
}

} // verus!
