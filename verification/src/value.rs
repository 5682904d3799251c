//! AVM2 values and objects, and the conversions of a value to a string and to
//! an unsigned 32-bit integer.

use vstd::prelude::*;

use crate::activation::Error;
use crate::namespace::Namespace;

verus! {

/// What the `toString` method that an object's class gives it does.
#[derive(Debug, Clone, PartialEq, Eq)]
pub enum ToStringMethod {
    /// `Object.prototype.toString`: `[object ClassName]`.
    Default,
    /// A method of the class's own that returns this string.
    Returns(String),
    /// A method of the class's own that throws this error.
    Throws(Error),
}

/// An instance of an ActionScript class without a native representation of
/// its own, known by the name of its class and by its `toString` method.
#[derive(Debug, Clone, PartialEq, Eq)]
pub struct ScriptObject {
    pub class_name: String,
    pub to_string: ToStringMethod,
}

/// A qualified name: a local name in a namespace given by its URI, where the
/// URI `None` stands for any namespace (`*`).
#[derive(Debug, Clone, PartialEq, Eq)]
pub struct QName {
    pub uri: Option<String>,
    pub local_name: String,
}

/// An AVM2 object.
#[derive(Debug, Clone, PartialEq, Eq)]
pub enum Object {
    ScriptObject(ScriptObject),
    /// An instance of `Namespace`, with the namespace it stands for.
    NamespaceObject(Namespace),
    /// An instance of `QName`.
    QNameObject(QName),
}

/// An AVM2 value.
#[derive(Debug, Clone, PartialEq, Eq)]
pub enum Value {
    Undefined,
    Null,
    Bool(bool),
    Integer(i32),
    String(String),
    Object(Object),
}

/// The character of a decimal digit.
pub open spec fn digit_char(d: nat) -> char
    recommends
        d < 10,
{
    if d == 0 {
        '0'
    } else if d == 1 {
        '1'
    } else if d == 2 {
        '2'
    } else if d == 3 {
        '3'
    } else if d == 4 {
        '4'
    } else if d == 5 {
        '5'
    } else if d == 6 {
        '6'
    } else if d == 7 {
        '7'
    } else if d == 8 {
        '8'
    } else {
        '9'
    }
}

/// The decimal digits of `n`, most significant first, without leading zeros.
pub open spec fn decimal(n: nat) -> Seq<char>
    decreases n,
{
    if n < 10 {
        seq![digit_char(n)]
    } else {
        decimal(n / 10).push(digit_char(n % 10))
    }
}

/// The decimal form of an integer, with a leading `-` when it is negative.
pub open spec fn integer_string(i: int) -> Seq<char> {
    if i < 0 {
        seq!['-'] + decimal((-i) as nat)
    } else {
        decimal(i as nat)
    }
}

/// `QName.prototype.toString`: `*::name` for any namespace, the bare local
/// name in the empty namespace, `uri::name` otherwise.
pub open spec fn qname_string(q: QName) -> Seq<char> {
    match q.uri {
        None => "*::"@ + q.local_name@,
        Some(uri) => if uri@.len() == 0 {
            q.local_name@
        } else {
            uri@ + "::"@ + q.local_name@
        },
    }
}

/// What ActionScript's `String(v)` gives for a value: its string, or the
/// error that the object's `toString` method throws.
pub open spec fn string_conversion(v: Value) -> Result<Seq<char>, Error> {
    match v {
        Value::Undefined => Ok("undefined"@),
        Value::Null => Ok("null"@),
        Value::Bool(b) => Ok(
            if b {
                "true"@
            } else {
                "false"@
            },
        ),
        Value::Integer(i) => Ok(integer_string(i as int)),
        Value::String(s) => Ok(s@),
        Value::Object(Object::NamespaceObject(ns)) => Ok(ns.uri_spec()),
        Value::Object(Object::QNameObject(q)) => Ok(qname_string(q)),
        Value::Object(Object::ScriptObject(o)) => match o.to_string {
            ToStringMethod::Default => Ok("[object "@ + o.class_name@ + "]"@),
            ToStringMethod::Returns(s) => Ok(s@),
            ToStringMethod::Throws(e) => Err(e),
        },
    }
}

/// The unsigned 32-bit integer of a value whose number needs no text to be
/// read: `undefined` and `null` give 0 (from NaN and +0), booleans 0 and 1,
/// and an integer its two's complement bits (ToUint32).
pub open spec fn u32_form(v: Value) -> Option<u32> {
    match v {
        Value::Undefined => Some(0),
        Value::Null => Some(0),
        Value::Bool(b) => Some(
            if b {
                1
            } else {
                0
            },
        ),
        Value::Integer(i) => Some(
            if i >= 0 {
                i as u32
            } else {
                (i + 0x1_0000_0000) as u32
            },
        ),
        _ => None,
    }
}

/// The text of one decimal digit.
fn digit_str(d: u32) -> (s: &'static str)
    requires
        d < 10,
    ensures
        s@ == seq![digit_char(d as nat)],
{
    proof {
        reveal_strlit("0");
        reveal_strlit("1");
        reveal_strlit("2");
        reveal_strlit("3");
        reveal_strlit("4");
        reveal_strlit("5");
        reveal_strlit("6");
        reveal_strlit("7");
        reveal_strlit("8");
        reveal_strlit("9");
    }
    if d == 0 {
        "0"
    } else if d == 1 {
        "1"
    } else if d == 2 {
        "2"
    } else if d == 3 {
        "3"
    } else if d == 4 {
        "4"
    } else if d == 5 {
        "5"
    } else if d == 6 {
        "6"
    } else if d == 7 {
        "7"
    } else if d == 8 {
        "8"
    } else {
        "9"
    }
}

/// Appends the decimal digits of `n` to `s`.
fn append_decimal(s: &mut String, n: u32)
    ensures
        final(s)@ == old(s)@ + decimal(n as nat),
    decreases n,
{
    if n >= 10 {
        append_decimal(s, n / 10);
    }
    let ghost before = s@;
    s.append(digit_str(n % 10));
    proof {
        if n >= 10 {
            assert(before + seq![digit_char((n % 10) as nat)] =~= old(s)@ + decimal(n as nat));
        } else {
            assert(before =~= old(s)@);
        }
    }
}

/// The decimal form of an integer.
pub fn integer_to_string(i: i32) -> (s: String)
    ensures
        s@ == integer_string(i as int),
{
    let mut s = String::new();
    if i < 0 {
        s.append("-");
        let magnitude: i64 = -(i as i64);
        let m: u32 = magnitude as u32;
        append_decimal(&mut s, m);
        proof {
            reveal_strlit("-");
            assert(s@ =~= seq!['-'] + decimal((-i) as nat));
        }
    } else {
        append_decimal(&mut s, i as u32);
        proof {
            assert(s@ =~= decimal(i as nat));
        }
    }
    s
}

impl QName {
    /// The URI of the qualified name's namespace, `None` for any namespace.
    pub fn uri(&self) -> (uri: Option<String>)
        ensures
            uri == self.uri,
    {
        match &self.uri {
            Some(u) => Some(u.clone()),
            None => None,
        }
    }

    /// The string form of the qualified name (`QName.prototype.toString`).
    pub fn to_string_value(&self) -> (s: String)
        ensures
            s@ == qname_string(*self),
    {
        match &self.uri {
            None => {
                let s = String::from_str("*::").concat(self.local_name.as_str());
                s
            },
            Some(uri) => {
                if uri.as_str().unicode_len() == 0 {
                    self.local_name.clone()
                } else {
                    let s = uri.clone().concat("::").concat(self.local_name.as_str());
                    s
                }
            },
        }
    }
}

impl Object {
    /// The namespace that the object stands for, if it is a `Namespace`
    /// instance.
    pub fn as_namespace_object(&self) -> (ns: Option<&Namespace>)
        ensures
            match *self {
                Object::NamespaceObject(n) => ns == Some(&n),
                _ => ns is None,
            },
    {
        match self {
            Object::NamespaceObject(n) => Some(n),
            _ => None,
        }
    }

    /// Sets the namespace that a `Namespace` instance stands for.
    pub fn init_namespace(&mut self, namespace: Namespace)
        requires
            *old(self) is NamespaceObject,
        ensures
            *final(self) == Object::NamespaceObject(namespace),
    {
        *self = Object::NamespaceObject(namespace);
    }
}

impl Value {
    /// `String(v)`: the value converted to a string, or the error that the
    /// object's `toString` method throws.
    pub fn coerce_to_string(&self) -> (r: Result<String, Error>)
        ensures
            match (r, string_conversion(*self)) {
                (Ok(s), Ok(t)) => s@ == t,
                (Err(e), Err(f)) => e == f,
                _ => false,
            },
    {
        match self {
            Value::Undefined => Ok(String::from_str("undefined")),
            Value::Null => Ok(String::from_str("null")),
            Value::Bool(b) => if *b {
                Ok(String::from_str("true"))
            } else {
                Ok(String::from_str("false"))
            },
            Value::Integer(i) => Ok(integer_to_string(*i)),
            Value::String(s) => Ok(s.clone()),
            Value::Object(Object::NamespaceObject(ns)) => Ok(ns.as_uri()),
            Value::Object(Object::QNameObject(q)) => Ok(q.to_string_value()),
            Value::Object(Object::ScriptObject(o)) => match &o.to_string {
                ToStringMethod::Default => {
                    let s = String::from_str("[object ").concat(o.class_name.as_str()).concat(
                        "]",
                    );
                    Ok(s)
                },
                ToStringMethod::Returns(s) => Ok(s.clone()),
                ToStringMethod::Throws(e) => Err(e.duplicate()),
            },
        }
    }

    /// The value converted to an unsigned 32-bit integer, where that needs
    /// no text to be read as a number; `None` for a string, or an object,
    /// whose number comes from its text.
    pub fn coerce_to_u32(&self) -> (n: Option<u32>)
        ensures
            n == u32_form(*self),
    {
        match self {
            Value::Undefined => Some(0),
            Value::Null => Some(0),
            Value::Bool(b) => if *b {
                Some(1)
            } else {
                Some(0)
            },
            Value::Integer(i) => {
                if *i >= 0 {
                    Some(*i as u32)
                } else {
                    let wrapped: i64 = *i as i64 + 0x1_0000_0000i64;
                    Some(wrapped as u32)
                }
            },
            _ => None,
        }
    }
}

/// The number that a string of decimal digits stands for, most significant
/// digit first.
pub open spec fn decimal_value(s: Seq<char>) -> int
    decreases s.len(),
{
    if s.len() == 0 {
        0
    } else {
        decimal_value(s.drop_last()) * 10 + (s.last() as int - '0' as int)
    }
}

/// Whether every character of `s` is one of the ASCII digits `0` to `9`.
pub open spec fn all_digits(s: Seq<char>) -> bool {
    forall|i: int| 0 <= i < s.len() ==> '0' <= #[trigger] s[i] <= '9'
}

/// The digit `d` is written with the ASCII character whose code is that of
/// `0` plus `d`; so different digits are written differently.
pub proof fn lemma_digit_char_code(d: nat)
    requires
        d < 10,
    ensures
        digit_char(d) as int == '0' as int + d,
        '0' <= digit_char(d) <= '9',
{
}

/// The decimal form of `n` is made of digits, and reads back as `n`.
pub proof fn lemma_decimal_reads_back(n: nat)
    ensures
        decimal_value(decimal(n)) == n,
        all_digits(decimal(n)),
        decimal(n).len() >= 1,
        n > 0 ==> decimal(n)[0] != '0',
    decreases n,
{
    lemma_digit_char_code(n % 10);
    if n >= 10 {
        lemma_decimal_reads_back(n / 10);
        let s = decimal(n);
        assert(s.drop_last() =~= decimal(n / 10));
        assert(s.last() == digit_char(n % 10));
        assert(s[0] == decimal(n / 10)[0]);
        assert((n / 10) * 10 + n % 10 == n);
        assert(decimal_value(s) == decimal_value(decimal(n / 10)) * 10 + (n % 10));
    } else {
        let s = decimal(n);
        assert(s.drop_last() =~= Seq::<char>::empty());
        assert(decimal_value(s.drop_last()) == 0);
        assert(s.last() == digit_char(n));
    }
}

/// The string form of an integer reads back as that integer: a `-` sign
/// before the digits of its magnitude when it is negative, the bare digits
/// otherwise.
pub proof fn lemma_integer_string_reads_back(i: int)
    ensures
        i >= 0 ==> all_digits(integer_string(i)) && decimal_value(integer_string(i)) == i,
        i < 0 ==> integer_string(i)[0] == '-' && all_digits(integer_string(i).drop_first())
            && -decimal_value(integer_string(i).drop_first()) == i,
{
    if i < 0 {
        lemma_decimal_reads_back((-i) as nat);
        assert(integer_string(i).drop_first() =~= decimal((-i) as nat));
    } else {
        lemma_decimal_reads_back(i as nat);
    }
}

/// A script object with the default `toString` gives `[object ` followed by
/// its class name and `]`; objects of different classes give different
/// strings.
pub proof fn lemma_default_object_string(a: ScriptObject, b: ScriptObject)
    requires
        a.to_string is Default,
        b.to_string is Default,
    ensures
        string_conversion(Value::Object(Object::ScriptObject(a))) == Ok::<Seq<char>, Error>(
            seq!['[', 'o', 'b', 'j', 'e', 'c', 't', ' '] + a.class_name@ + seq![']'],
        ),
        a.class_name@ != b.class_name@ ==> string_conversion(
            Value::Object(Object::ScriptObject(a)),
        ) != string_conversion(Value::Object(Object::ScriptObject(b))),
{
    reveal_strlit("[object ");
    reveal_strlit("]");
    let prefix = seq!['[', 'o', 'b', 'j', 'e', 'c', 't', ' '];
    assert("[object "@ =~= prefix);
    assert("]"@ =~= seq![']']);
    let sa = prefix + a.class_name@ + seq![']'];
    let sb = prefix + b.class_name@ + seq![']'];
    if a.class_name@ != b.class_name@ && sa == sb {
        assert(sa.len() == sb.len());
        assert(sa.subrange(8, sa.len() - 1) =~= a.class_name@);
        assert(sb.subrange(8, sb.len() - 1) =~= b.class_name@);
    }
}

/// `QName.prototype.toString` of a name with a namespace URI `u`: the bare
/// local name when `u` is empty, and `u`, `::` and the local name otherwise,
/// whatever their lengths; a name in any namespace gives `*::` and the local
/// name.
pub proof fn lemma_qname_string_parts(q: QName)
    ensures
        match q.uri {
            Some(u) => if u@.len() > 0 {
                &&& qname_string(q) == u@ + seq![':', ':'] + q.local_name@
                &&& qname_string(q).len() == u@.len() + 2 + q.local_name@.len()
            } else {
                qname_string(q) == q.local_name@
            },
            None => qname_string(q) == seq!['*', ':', ':'] + q.local_name@,
        },
{
    reveal_strlit("::");
    reveal_strlit("*::");
    assert("::"@ =~= seq![':', ':']);
    assert("*::"@ =~= seq!['*', ':', ':']);
}

/// The strings of the values that are not objects: `undefined`, `null`,
/// `true` and `false` spelled out, a string itself.
pub proof fn lemma_primitive_strings(b: bool, s: String)
    ensures
        string_conversion(Value::Undefined) == Ok::<Seq<char>, Error>(
            seq!['u', 'n', 'd', 'e', 'f', 'i', 'n', 'e', 'd'],
        ),
        string_conversion(Value::Null) == Ok::<Seq<char>, Error>(seq!['n', 'u', 'l', 'l']),
        string_conversion(Value::Bool(b)) == Ok::<Seq<char>, Error>(
            if b {
                seq!['t', 'r', 'u', 'e']
            } else {
                seq!['f', 'a', 'l', 's', 'e']
            },
        ),
        string_conversion(Value::String(s)) == Ok::<Seq<char>, Error>(s@),
{
    reveal_strlit("undefined");
    reveal_strlit("null");
    reveal_strlit("true");
    reveal_strlit("false");
    assert("undefined"@ =~= seq!['u', 'n', 'd', 'e', 'f', 'i', 'n', 'e', 'd']);
    assert("null"@ =~= seq!['n', 'u', 'l', 'l']);
    assert("true"@ =~= seq!['t', 'r', 'u', 'e']);
    assert("false"@ =~= seq!['f', 'a', 'l', 's', 'e']);
}

/// A `Namespace` instance converts to its URI, and a script object whose
/// `toString` returns a string or throws converts to that string or error.
pub proof fn lemma_object_strings(ns: Namespace, o: ScriptObject)
    ensures
        string_conversion(Value::Object(Object::NamespaceObject(ns))) == Ok::<Seq<char>, Error>(
            ns.uri_spec(),
        ),
        o.to_string matches ToStringMethod::Returns(t) ==> string_conversion(
            Value::Object(Object::ScriptObject(o)),
        ) == Ok::<Seq<char>, Error>(t@),
        o.to_string matches ToStringMethod::Throws(e) ==> string_conversion(
            Value::Object(Object::ScriptObject(o)),
        ) == Err::<Seq<char>, Error>(e),
        string_conversion(Value::Object(Object::ScriptObject(o))) is Err <==> o.to_string is Throws,
{
}

/// ToUint32 without text: `undefined` and `null` give 0, booleans 0 and 1,
/// and an integer the number that agrees with it modulo 2^32; strings and
/// objects are left to a conversion through text.
pub proof fn lemma_u32_form(i: i32, b: bool, v: Value)
    ensures
        u32_form(Value::Undefined) == Some(0u32),
        u32_form(Value::Null) == Some(0u32),
        u32_form(Value::Bool(b)) == Some(if b { 1u32 } else { 0u32 }),
        u32_form(Value::Integer(i)) matches Some(n) && (n - i) % 0x1_0000_0000 == 0,
        u32_form(v) is None <==> (v is String || v is Object),
{
}

} // verus!
