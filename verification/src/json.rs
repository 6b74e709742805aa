//! The library's own JSON value model.  Response bodies reach the library
//! already parsed into this tree (the transport side converts the parser
//! crate's values one-to-one), so every field extraction the normalizers
//! perform is checked, verified code: a missing or mis-typed field is a
//! typed error, never an abort.

use vstd::prelude::*;

verus! {

use vstd::string::StringSliceAdditionalSpecFns;
use crate::codec::{bytes_of, str_bytes_eq};

/// A JSON document.  Numbers keep their literal rendering; objects keep
/// their entries in order.
#[derive(Debug)]
pub enum JsonValue {
    Null,
    Bool(bool),
    Num(String),
    Str(String),
    Arr(Vec<JsonValue>),
    Obj(Vec<(String, JsonValue)>),
}

/// First entry of an object's entry list whose key has these bytes.
pub open spec fn spec_entries_get(es: Seq<(String, JsonValue)>, key: Seq<u8>) -> Option<JsonValue>
    decreases es.len(),
{
    if es.len() == 0 {
        None
    } else if bytes_of(es[0].0@) == key {
        Some(es[0].1)
    } else {
        spec_entries_get(es.drop_first(), key)
    }
}

/// Object field lookup; `None` on any non-object or a missing key.
pub open spec fn spec_get(v: JsonValue, key: Seq<u8>) -> Option<JsonValue> {
    match v {
        JsonValue::Obj(es) => spec_entries_get(es@, key),
        _ => None,
    }
}

/// The string payload, when the value is a string.
pub open spec fn spec_as_str(v: JsonValue) -> Option<String> {
    match v {
        JsonValue::Str(s) => Some(s),
        _ => None,
    }
}

/// The literal rendering, when the value is a number.
pub open spec fn spec_as_num(v: JsonValue) -> Option<String> {
    match v {
        JsonValue::Num(s) => Some(s),
        _ => None,
    }
}

/// The payload, when the value is a boolean.
pub open spec fn spec_as_bool(v: JsonValue) -> Option<bool> {
    match v {
        JsonValue::Bool(b) => Some(b),
        _ => None,
    }
}

/// The elements, when the value is an array.
pub open spec fn spec_as_arr(v: JsonValue) -> Option<Seq<JsonValue>> {
    match v {
        JsonValue::Arr(xs) => Some(xs@),
        _ => None,
    }
}

impl JsonValue {
    /// Look a field up in an object; `None` on any other shape.
    pub fn get<'a>(&'a self, key: &str) -> (r: Option<&'a JsonValue>)
        ensures
            r matches Some(x) ==> spec_get(*self, key.spec_bytes()) == Some(*x),
            r is None ==> spec_get(*self, key.spec_bytes()) is None,
    {
        match self {
            JsonValue::Obj(es) => {
                let n = es.len();
                let mut i: usize = 0;
                proof {
                    assert(es@.skip(0) =~= es@);
                }
                while i < n
                    invariant
                        0 <= i <= n == es@.len(),
                        spec_get(*self, key.spec_bytes()) == spec_entries_get(
                            es@,
                            key.spec_bytes(),
                        ),
                        spec_entries_get(es@, key.spec_bytes()) == spec_entries_get(
                            es@.skip(i as int),
                            key.spec_bytes(),
                        ),
                    decreases n - i,
                {
                    let e = &es[i];
                    proof {
                        assert(es@.skip(i as int)[0] == es@[i as int]);
                        assert(es@.skip(i as int).drop_first() =~= es@.skip(i as int + 1));
                    }
                    let e_key = e.0.as_str();
                    if str_bytes_eq(e_key, key) {
                        proof {
                            assert(e_key.spec_bytes() == key.spec_bytes());
                            assert(e_key@ == es@[i as int].0@);
                            assert(e_key.spec_bytes() == bytes_of(e_key@));
                            assert(bytes_of(es@[i as int].0@) == key.spec_bytes());
                            assert(spec_entries_get(es@.skip(i as int), key.spec_bytes()) == Some(
                                es@[i as int].1,
                            ));
                            assert(spec_get(*self, key.spec_bytes()) == Some(es@[i as int].1));
                        }
                        return Some(&e.1);
                    }
                    i = i + 1;
                }
                proof {
                    assert(es@.skip(n as int) =~= Seq::<(String, JsonValue)>::empty());
                }
                None
            },
            _ => None,
        }
    }

    /// The string payload, when this is a string.
    pub fn as_str<'a>(&'a self) -> (r: Option<&'a String>)
        ensures
            r matches Some(s) ==> spec_as_str(*self) == Some(*s),
            r is None ==> spec_as_str(*self) is None,
    {
        match self {
            JsonValue::Str(s) => Some(s),
            _ => None,
        }
    }

    /// The literal rendering, when this is a number.
    pub fn as_num<'a>(&'a self) -> (r: Option<&'a String>)
        ensures
            r matches Some(s) ==> spec_as_num(*self) == Some(*s),
            r is None ==> spec_as_num(*self) is None,
    {
        match self {
            JsonValue::Num(s) => Some(s),
            _ => None,
        }
    }

    /// The payload, when this is a boolean.
    pub fn as_bool(&self) -> (r: Option<bool>)
        ensures
            r == spec_as_bool(*self),
    {
        match self {
            JsonValue::Bool(b) => Some(*b),
            _ => None,
        }
    }

    /// The elements, when this is an array.
    pub fn as_arr<'a>(&'a self) -> (r: Option<&'a Vec<JsonValue>>)
        ensures
            r matches Some(xs) ==> spec_as_arr(*self) == Some(xs@),
            r is None ==> spec_as_arr(*self) is None,
    {
        match self {
            JsonValue::Arr(xs) => Some(xs),
            _ => None,
        }
    }

    /// Whether this is JSON `null`.
    pub fn is_null(&self) -> (r: bool)
        ensures
            r == (self is Null),
    {
        match self {
            JsonValue::Null => true,
            _ => false,
        }
    }
}

/// The decimal amount held by a string value.
pub open spec fn spec_str_amount(v: JsonValue) -> Option<crate::amount::Amount> {
    match spec_as_str(v) {
        Some(s) => crate::amount::amount_parsed(bytes_of(s@)),
        None => None,
    }
}

/// The decimal amount held by a string field of an object.
pub open spec fn spec_field_amount(v: JsonValue, field: Seq<u8>) -> Option<crate::amount::Amount> {
    match spec_get(v, field) {
        Some(x) => spec_str_amount(x),
        None => None,
    }
}

/// The string held by a field of an object.
pub open spec fn spec_field_str(v: JsonValue, field: Seq<u8>) -> Option<String> {
    match spec_get(v, field) {
        Some(x) => spec_as_str(x),
        None => None,
    }
}

/// The unsigned integer held by a number field of an object.
pub open spec fn spec_field_u64(v: JsonValue, field: Seq<u8>) -> Option<u64> {
    match spec_get(v, field) {
        Some(x) => match spec_as_num(x) {
            Some(s) => if bytes_of(s@).len() > 0 && crate::num::is_digits(bytes_of(s@))
                && crate::num::digits_val(bytes_of(s@)) <= u64::MAX {
                Some(crate::num::digits_val(bytes_of(s@)) as u64)
            } else {
                None
            },
            None => None,
        },
        None => None,
    }
}

/// Read a string value as a decimal amount.
pub fn str_amount(v: &JsonValue) -> (r: Option<crate::amount::Amount>)
    ensures
        r == spec_str_amount(*v),
{
    match v.as_str() {
        Some(s) => crate::amount::amount_parse(s.as_str().as_bytes()),
        None => None,
    }
}

/// Read a string field as a decimal amount.
pub fn field_amount(v: &JsonValue, field: &str) -> (r: Option<crate::amount::Amount>)
    ensures
        r == spec_field_amount(*v, field.spec_bytes()),
{
    match v.get(field) {
        Some(x) => str_amount(x),
        None => None,
    }
}

/// Read a string field.
pub fn field_str<'a>(v: &'a JsonValue, field: &str) -> (r: Option<&'a String>)
    ensures
        r matches Some(s) ==> spec_field_str(*v, field.spec_bytes()) == Some(*s),
        r is None ==> spec_field_str(*v, field.spec_bytes()) is None,
{
    match v.get(field) {
        Some(x) => x.as_str(),
        None => None,
    }
}

/// Read a number field as an unsigned integer.
pub fn field_u64(v: &JsonValue, field: &str) -> (r: Option<u64>)
    ensures
        r == spec_field_u64(*v, field.spec_bytes()),
{
    match v.get(field) {
        Some(x) => {
            match x.as_num() {
                Some(s) => crate::num::parse_u64(s.as_str().as_bytes()),
                None => None,
            }
        },
        None => None,
    }
}

/// The literal of a number field whose digits form a `u64`, kept verbatim.
pub open spec fn spec_field_u64_literal(v: JsonValue, field: Seq<u8>) -> Option<String> {
    match spec_get(v, field) {
        Some(x) => match spec_as_num(x) {
            Some(s) => if bytes_of(s@).len() > 0 && crate::num::is_digits(bytes_of(s@))
                && crate::num::digits_val(bytes_of(s@)) <= u64::MAX {
                Some(s)
            } else {
                None
            },
            None => None,
        },
        None => None,
    }
}

/// Read a `u64`-valued number field's literal rendering.
pub fn field_u64_literal(v: &JsonValue, field: &str) -> (r: Option<String>)
    ensures
        r matches Some(s) ==> (spec_field_u64_literal(*v, field.spec_bytes()) matches Some(t) && t@
            == s@),
        r is None ==> spec_field_u64_literal(*v, field.spec_bytes()) is None,
{
    match v.get(field) {
        Some(x) => {
            match x.as_num() {
                Some(s) => {
                    match crate::num::parse_u64(s.as_str().as_bytes()) {
                        Some(_) => Some(s.clone()),
                        None => None,
                    }
                },
                None => None,
            }
        },
        None => None,
    }
}

/// Whether a value is an object whose `field` is the string `want`.
pub open spec fn field_is(v: JsonValue, field: Seq<u8>, want: Seq<u8>) -> bool {
    match spec_get(v, field) {
        Some(JsonValue::Str(s)) => bytes_of(s@) == want,
        _ => false,
    }
}

/// The first element of `arr` whose `field` is the string `want`.
pub open spec fn spec_find(arr: Seq<JsonValue>, field: Seq<u8>, want: Seq<u8>) -> Option<JsonValue>
    decreases arr.len(),
{
    if arr.len() == 0 {
        None
    } else if field_is(arr[0], field, want) {
        Some(arr[0])
    } else {
        spec_find(arr.drop_first(), field, want)
    }
}

/// The first element matching two string-field conditions at once.
pub open spec fn spec_find2(
    arr: Seq<JsonValue>,
    f1: Seq<u8>,
    w1: Seq<u8>,
    f2: Seq<u8>,
    w2: Seq<u8>,
) -> Option<JsonValue>
    decreases arr.len(),
{
    if arr.len() == 0 {
        None
    } else if field_is(arr[0], f1, w1) && field_is(arr[0], f2, w2) {
        Some(arr[0])
    } else {
        spec_find2(arr.drop_first(), f1, w1, f2, w2)
    }
}

/// Whether an element's string field equals the wanted bytes.
fn entry_field_is(v: &JsonValue, field: &str, want: &[u8]) -> (r: bool)
    ensures
        r == field_is(*v, field.spec_bytes(), want@),
{
    match v.get(field) {
        Some(x) => {
            match x.as_str() {
                Some(s) => crate::codec::bytes_eq(s.as_str().as_bytes(), want),
                None => false,
            }
        },
        None => false,
    }
}

/// Find the first element of an array whose string `field` equals `want`.
pub fn find_by_field<'a>(arr: &'a Vec<JsonValue>, field: &str, want: &[u8]) -> (r: Option<
    &'a JsonValue,
>)
    ensures
        r matches Some(x) ==> spec_find(arr@, field.spec_bytes(), want@) == Some(*x),
        r is None ==> spec_find(arr@, field.spec_bytes(), want@) is None,
{
    let n = arr.len();
    let mut i: usize = 0;
    proof {
        assert(arr@.skip(0) =~= arr@);
    }
    while i < n
        invariant
            0 <= i <= n == arr@.len(),
            spec_find(arr@, field.spec_bytes(), want@) == spec_find(
                arr@.skip(i as int),
                field.spec_bytes(),
                want@,
            ),
        decreases n - i,
    {
        proof {
            assert(arr@.skip(i as int)[0] == arr@[i as int]);
            assert(arr@.skip(i as int).drop_first() =~= arr@.skip(i as int + 1));
        }
        if entry_field_is(&arr[i], field, want) {
            return Some(&arr[i]);
        }
        i = i + 1;
    }
    proof {
        assert(arr@.skip(n as int) =~= Seq::<JsonValue>::empty());
    }
    None
}

/// Find the first element matching two string-field conditions at once.
pub fn find_by_field2<'a>(
    arr: &'a Vec<JsonValue>,
    f1: &str,
    w1: &[u8],
    f2: &str,
    w2: &[u8],
) -> (r: Option<&'a JsonValue>)
    ensures
        r matches Some(x) ==> spec_find2(arr@, f1.spec_bytes(), w1@, f2.spec_bytes(), w2@) == Some(
            *x,
        ),
        r is None ==> spec_find2(arr@, f1.spec_bytes(), w1@, f2.spec_bytes(), w2@) is None,
{
    let n = arr.len();
    let mut i: usize = 0;
    proof {
        assert(arr@.skip(0) =~= arr@);
    }
    while i < n
        invariant
            0 <= i <= n == arr@.len(),
            spec_find2(arr@, f1.spec_bytes(), w1@, f2.spec_bytes(), w2@) == spec_find2(
                arr@.skip(i as int),
                f1.spec_bytes(),
                w1@,
                f2.spec_bytes(),
                w2@,
            ),
        decreases n - i,
    {
        proof {
            assert(arr@.skip(i as int)[0] == arr@[i as int]);
            assert(arr@.skip(i as int).drop_first() =~= arr@.skip(i as int + 1));
        }
        if entry_field_is(&arr[i], f1, w1) && entry_field_is(&arr[i], f2, w2) {
            return Some(&arr[i]);
        }
        i = i + 1;
    }
    proof {
        assert(arr@.skip(n as int) =~= Seq::<JsonValue>::empty());
    }
    None
}

} // verus!
