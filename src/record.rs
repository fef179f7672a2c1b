//! Record enrichment: the system-managed fields that every stored record carries.
use crate::text::{decimal_text, i128_text};
use aws_sdk_dynamodb::model::AttributeValue;
use std::collections::HashMap;
use vstd::prelude::*;

verus! {

broadcast use vstd::string::to_string_from_display_ensures_for_str;

/// A stored item: field names mapped to attribute values of aws-sdk-dynamodb.
pub type Item = HashMap<String, AttributeValue>;

#[verifier::external_type_specification]
#[verifier::external_body]
pub struct ExAttributeValue(AttributeValue);

/// The fields of an item, each under the characters of its name.
pub uninterp spec fn item_fields(item: HashMap<String, AttributeValue>) -> Map<
    Seq<char>,
    AttributeValue,
>;

/// The string attribute (`AttributeValue::S`) holding the given text.
pub uninterp spec fn string_attribute(s: Seq<char>) -> AttributeValue;

/// The number attribute (`AttributeValue::N`) holding the given decimal text.
pub uninterp spec fn number_attribute(s: Seq<char>) -> AttributeValue;

/// The null attribute (`AttributeValue::Null`) with the given flag.
pub uninterp spec fn null_attribute(b: bool) -> AttributeValue;

/// Relies on the `S` variant of aws-sdk-dynamodb's `AttributeValue`.
#[verifier::external_body]
fn string_attr(s: String) -> (r: AttributeValue)
    ensures
        r == string_attribute(s@),
{
    AttributeValue::S(s)
}

/// Relies on the `N` variant of aws-sdk-dynamodb's `AttributeValue`.
#[verifier::external_body]
fn number_attr(s: String) -> (r: AttributeValue)
    ensures
        r == number_attribute(s@),
{
    AttributeValue::N(s)
}

/// Relies on the `Null` variant of aws-sdk-dynamodb's `AttributeValue`.
#[verifier::external_body]
fn null_attr(b: bool) -> (r: AttributeValue)
    ensures
        r == null_attribute(b),
{
    AttributeValue::Null(b)
}

/// Relies on std's `HashMap::insert`: afterwards the key, compared by its characters, maps
/// to the value, and every other entry is as it was. (vstd states `insert` only for key
/// types with a hashing model, which `String` does not have.)
#[verifier::external_body]
fn put_field(item: &mut HashMap<String, AttributeValue>, key: String, value: AttributeValue)
    ensures
        item_fields(*final(item)) == item_fields(*old(item)).insert(key@, value),
{
    item.insert(key, value);
}

/// Name of the field holding the record's identifier.
pub open spec fn id_field() -> Seq<char> {
    seq!['i', 'd']
}

/// Name of the field holding the creation time.
pub open spec fn created_at_field() -> Seq<char> {
    seq!['c', 'r', 'e', 'a', 't', 'e', 'd', '_', 'a', 't']
}

/// Name of the field holding the time of the last update.
pub open spec fn updated_at_field() -> Seq<char> {
    seq!['u', 'p', 'd', 'a', 't', 'e', 'd', '_', 'a', 't']
}

/// Name of the field that marks a deleted record.
pub open spec fn deleted_at_field() -> Seq<char> {
    seq!['d', 'e', 'l', 'e', 't', 'e', 'd', '_', 'a', 't']
}

/// Whether a field name is one that this library manages.
pub open spec fn is_system_field(k: Seq<char>) -> bool {
    k == id_field() || k == created_at_field() || k == updated_at_field() || k
        == deleted_at_field()
}

/// The fields of a record after enrichment: the payload's fields, then the identifier as
/// a string, both timestamps as the decimal nanoseconds `now`, and an explicit null
/// deletion marker, each overwriting a payload field of the same name.
pub open spec fn with_system_fields(
    fields: Map<Seq<char>, AttributeValue>,
    id: Seq<char>,
    now: int,
) -> Map<Seq<char>, AttributeValue> {
    fields.insert(id_field(), string_attribute(id)).insert(
        created_at_field(),
        number_attribute(decimal_text(now)),
    ).insert(updated_at_field(), number_attribute(decimal_text(now))).insert(
        deleted_at_field(),
        null_attribute(true),
    )
}

/// Adds the system-managed fields to `item`: `id` as a string attribute, `created_at` and
/// `updated_at` as the number attribute of `now_nanos` (one clock reading serves both), and
/// `deleted_at` as an explicit null.
pub fn add_system_fields(item: &mut Item, id: String, now_nanos: i128)
    ensures
        item_fields(*final(item)) == with_system_fields(
            item_fields(*old(item)),
            id@,
            now_nanos as int,
        ),
{
    proof {
        reveal_strlit("id");
        reveal_strlit("created_at");
        reveal_strlit("updated_at");
        reveal_strlit("deleted_at");
        assert("id"@ =~= id_field());
        assert("created_at"@ =~= created_at_field());
        assert("updated_at"@ =~= updated_at_field());
        assert("deleted_at"@ =~= deleted_at_field());
    }
    put_field(item, "id".to_string(), string_attr(id));
    put_field(item, "created_at".to_string(), number_attr(i128_text(now_nanos)));
    put_field(item, "updated_at".to_string(), number_attr(i128_text(now_nanos)));
    put_field(item, "deleted_at".to_string(), null_attr(true));
}

/// Enrichment keeps the payload: every payload field is still present, and one that the
/// library does not manage keeps its value. The four managed fields are all present: the
/// identifier as a string, the creation and update times as the same number (so the update
/// time is never before the creation time), and the deletion marker as null.
pub proof fn lemma_enrichment_keeps_payload(
    fields: Map<Seq<char>, AttributeValue>,
    id: Seq<char>,
    now: int,
)
    ensures
        fields.dom().subset_of(with_system_fields(fields, id, now).dom()),
        forall|k: Seq<char>|
            fields.dom().contains(k) && !is_system_field(k) ==> #[trigger] with_system_fields(
                fields,
                id,
                now,
            )[k] == fields[k],
        with_system_fields(fields, id, now).dom() == fields.dom().insert(id_field()).insert(
            created_at_field(),
        ).insert(updated_at_field()).insert(deleted_at_field()),
        with_system_fields(fields, id, now)[id_field()] == string_attribute(id),
        with_system_fields(fields, id, now)[created_at_field()] == number_attribute(
            decimal_text(now),
        ),
        with_system_fields(fields, id, now)[updated_at_field()] == with_system_fields(
            fields,
            id,
            now,
        )[created_at_field()],
        with_system_fields(fields, id, now)[deleted_at_field()] == null_attribute(true),
{
    assert(id_field()[0] != created_at_field()[0]);
    assert(id_field()[0] != updated_at_field()[0]);
    assert(id_field()[0] != deleted_at_field()[0]);
    assert(created_at_field()[0] != updated_at_field()[0]);
    assert(created_at_field()[0] != deleted_at_field()[0]);
    assert(updated_at_field()[0] != deleted_at_field()[0]);
}

} // verus!
