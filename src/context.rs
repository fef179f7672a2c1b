//! Context resolution: the destination table named by an invocation's configuration.
use serde_json::Value;
use vstd::prelude::*;

verus! {

broadcast use vstd::string::to_string_from_display_ensures_for_str;

#[verifier::external_type_specification]
#[verifier::external_body]
pub struct ExValue(Value);

/// The member named `name` of a JSON value, as serde_json's `Value::get` finds it.
pub uninterp spec fn json_member_of(v: Value, name: Seq<char>) -> Option<Value>;

/// The text of a JSON value, as serde_json's `Value::as_str` gives it.
pub uninterp spec fn json_text_of(v: Value) -> Option<Seq<char>>;

/// Relies on serde_json's `Value::get` with a string index: the member of that name of an
/// object, `None` for a missing member or a value that is no object. The result depends
/// on the value and the name alone.
#[verifier::external_body]
fn json_member<'a>(v: &'a Value, name: &str) -> (r: Option<&'a Value>)
    ensures
        r is Some <==> json_member_of(*v, name@) is Some,
        r matches Some(m) ==> json_member_of(*v, name@) == Some(*m),
{
    v.get(name)
}

/// Relies on serde_json's `Value::as_str`: the text of a string value, `None` for any other.
/// The result depends on the value alone.
#[verifier::external_body]
fn json_text<'a>(v: &'a Value) -> (r: Option<&'a str>)
    ensures
        r is Some <==> json_text_of(*v) is Some,
        r matches Some(t) ==> json_text_of(*v) == Some(t@),
{
    v.as_str()
}

/// Whether a configuration holds a string `table_name` member.
pub open spec fn has_table_name(config: Value) -> bool {
    json_member_of(config, "table_name"@) matches Some(m) && json_text_of(m) is Some
}

/// The text of a configuration's `table_name` member, where it has a string one.
pub open spec fn table_name_text(config: Value) -> Seq<char> {
    json_text_of(json_member_of(config, "table_name"@)->0)->0
}

/// The `table_name` member of an invocation's configuration when it is a string; `None`
/// when it is missing, of another type, or the configuration is no object.
pub fn table_name_of(config: &Value) -> (r: Option<String>)
    ensures
        r is Some <==> has_table_name(*config),
        r matches Some(n) ==> n@ == table_name_text(*config),
{
    match json_member(config, "table_name") {
        Some(member) => match json_text(member) {
            Some(name) => Some(name.to_string()),
            None => None,
        },
        None => None,
    }
}

} // verus!
