//! YAML values, as `serde_yaml_ng` holds them.

use serde_yaml_ng::{Mapping, Value};
use vstd::prelude::*;

verus! {

/// A YAML mapping of `serde_yaml_ng`.
#[verifier::external_type_specification]
#[verifier::external_body]
pub struct ExMapping(Mapping);

/// A YAML value of `serde_yaml_ng`.
#[verifier::external_type_specification]
#[verifier::external_body]
pub struct ExValue(Value);

/// What a mapping holds under its string keys.
pub uninterp spec fn yaml_entries(m: Mapping) -> Map<Seq<char>, Value>;

/// The mapping that a value is, tags aside: what `Value::as_mapping` returns.
pub uninterp spec fn yaml_mapping(v: Value) -> Option<Mapping>;

/// The boolean that a value is, tags aside: what `Value::as_bool` returns.
pub uninterp spec fn yaml_bool(v: Value) -> Option<bool>;

/// The text that a value is, tags aside: what `Value::as_str` returns.
pub uninterp spec fn yaml_text(v: Value) -> Option<Seq<char>>;

/// Whether two mappings are equal: what `==` on `Mapping` returns.
pub uninterp spec fn yaml_equal(a: Mapping, b: Mapping) -> bool;

/// Trusted: `Mapping::get` with a string finds the value under that string
/// key, if there is one.
#[verifier::external_body]
pub(crate) fn mapping_get<'a>(m: &'a Mapping, key: &str) -> (r: Option<&'a Value>)
    ensures
        r is Some <==> yaml_entries(*m).contains_key(key@),
        r is Some ==> *(r->0) == yaml_entries(*m)[key@],
{
    m.get(key)
}

/// Trusted: `Value::as_mapping` returns the mapping that the value is.
#[verifier::external_body]
pub(crate) fn value_as_mapping(v: &Value) -> (r: Option<&Mapping>)
    ensures
        r is Some <==> yaml_mapping(*v) is Some,
        r is Some ==> *(r->0) == yaml_mapping(*v)->0,
{
    v.as_mapping()
}

/// Trusted: `Value::as_bool` returns the boolean that the value is.
#[verifier::external_body]
pub(crate) fn value_as_bool(v: &Value) -> (r: Option<bool>)
    ensures
        r == yaml_bool(*v),
{
    v.as_bool()
}

/// Trusted: `Value::as_str` returns the text that the value is.
#[verifier::external_body]
pub(crate) fn value_as_str(v: &Value) -> (r: Option<&str>)
    ensures
        r is Some <==> yaml_text(*v) is Some,
        r is Some ==> r->0@ == yaml_text(*v)->0,
{
    v.as_str()
}

/// Trusted: `==` on `Mapping`. It compares the contents: a mapping equals
/// itself, and equal mappings have the same string keys, under each of which
/// they hold the same boolean, the same text, or neither.
#[verifier::external_body]
pub(crate) fn mapping_equal(a: &Mapping, b: &Mapping) -> (r: bool)
    ensures
        r == yaml_equal(*a, *b),
        *a == *b ==> r,
        r ==> yaml_entries(*a).dom() == yaml_entries(*b).dom(),
        r ==> forall|k: Seq<char>| #[trigger]
            yaml_entries(*a).contains_key(k) ==> yaml_bool(yaml_entries(*a)[k]) == yaml_bool(
                yaml_entries(*b)[k],
            ) && yaml_text(yaml_entries(*a)[k]) == yaml_text(yaml_entries(*b)[k]),
{
    a == b
}

/// Trusted: `Clone` of `Mapping` makes a mapping of the same contents.
#[verifier::external_body]
pub(crate) fn mapping_clone(m: &Mapping) -> (r: Mapping)
    ensures
        r == *m,
{
    m.clone()
}

/// Trusted: `Mapping::new` makes a mapping that holds nothing.
#[verifier::external_body]
pub(crate) fn mapping_new() -> (r: Mapping)
    ensures
        forall|k: Seq<char>| !(#[trigger] yaml_entries(r).contains_key(k)),
{
    Mapping::new()
}

/// Trusted: `Mapping::insert` under a string key (made by `Value::from`) puts
/// the value under that key and leaves the other entries alone.
#[verifier::external_body]
pub(crate) fn mapping_insert(m: &mut Mapping, key: &str, value: Value)
    ensures
        yaml_entries(*final(m)) == yaml_entries(*old(m)).insert(key@, value),
{
    m.insert(Value::from(key), value);
}

/// Trusted: `Value::from` a mapping is the value that is this mapping, and
/// neither a boolean nor a text.
#[verifier::external_body]
pub(crate) fn value_from_mapping(m: Mapping) -> (r: Value)
    ensures
        yaml_mapping(r) == Some(m),
        yaml_bool(r) is None,
        yaml_text(r) is None,
{
    Value::from(m)
}

} // verus!
