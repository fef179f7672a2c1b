//! One creation request: the payload becomes an enriched item, the configuration names the
//! table, and the caller gets a confirmation that carries the new identifier.
use crate::context::{has_table_name, table_name_of, table_name_text};
use crate::record::{
    add_system_fields, created_at_field, deleted_at_field, id_field, item_fields,
    lemma_enrichment_keeps_payload, null_attribute, number_attribute, string_attribute,
    updated_at_field, with_system_fields, Item,
};
use crate::text::{decimal_text, is_uuid_v4_text, new_record_id};
use aws_sdk_dynamodb::model::AttributeValue;
use serde_json::Value;
use vstd::prelude::*;

verus! {

broadcast use vstd::string::to_string_from_display_ensures_for_str;

#[verifier::external_type_specification]
#[verifier::external_body]
pub struct ExSerdeDynamoError(serde_dynamo::Error);

/// Why a creation request failed.
#[derive(Debug, Clone, PartialEq, Eq)]
pub enum CreateError {
    /// The payload cannot be converted into the store's attribute model.
    Serialization,
    /// The configuration holds no string `table_name`.
    Config,
    /// The store refused or failed the write; the store's own description.
    Storage(String),
}

/// The confirmation returned to the caller.
#[derive(Debug, Clone, PartialEq, Eq)]
pub struct Confirmation {
    pub message: String,
    pub id: String,
}

/// An unconditional put of an item into a table.
#[derive(Debug)]
pub struct PutRequest {
    pub table_name: String,
    pub item: Item,
}

/// What a creation request asks of the store, and what it answers once that is done.
#[derive(Debug)]
pub struct Creation {
    /// The write to perform; `None` when no store is configured.
    pub put: Option<PutRequest>,
    pub confirmation: Confirmation,
}

/// The message of a successful creation.
pub open spec fn confirmation_message() -> Seq<char> {
    "function created successfully"@
}

/// The fields of a payload converted into aws-sdk-dynamodb attributes by serde_dynamo's
/// `to_item`; `None` where the conversion fails.
pub uninterp spec fn converted_fields(input: Value) -> Option<Map<Seq<char>, AttributeValue>>;

/// Relies on serde_dynamo's `aws_sdk_dynamodb_0_17::to_item`: the payload serialised as an
/// item of aws-sdk-dynamodb attributes, or the error of a payload that is no map. The
/// result depends on the payload alone.
#[verifier::external_body]
fn payload_item(input: Value) -> (r: Result<Item, serde_dynamo::Error>)
    ensures
        r is Ok <==> converted_fields(input) is Some,
        r matches Ok(item) ==> converted_fields(input) == Some(item_fields(item)),
{
    serde_dynamo::aws_sdk_dynamodb_0_17::to_item(input)
}

/// Relies on `SystemTime::now` of std, read through aws-sdk-dynamodb's `DateTime::from`
/// and `DateTime::as_nanos`: nanoseconds since the Unix epoch. The clock decides the value.
#[verifier::external_body]
fn clock_nanos() -> (r: i128) {
    aws_sdk_dynamodb::types::DateTime::from(std::time::SystemTime::now()).as_nanos()
}

/// The confirmation for a record with identifier `id`.
pub fn confirmation(id: String) -> (r: Confirmation)
    ensures
        r.message@ == confirmation_message(),
        r.id@ == id@,
{
    Confirmation { message: "function created successfully".to_string(), id }
}

/// Decides a creation request from the converted payload, whether a store is configured,
/// the configured table name, a fresh identifier and the current time in nanoseconds.
///
/// A payload that could not be converted fails with `Serialization`. Without a store,
/// nothing is written and the identifier is confirmed all the same. With a store, a missing
/// table name fails with `Config`; otherwise the put targets that table with the payload's
/// fields plus the system-managed ones.
pub fn plan_creation(
    payload: Result<Item, serde_dynamo::Error>,
    storage_configured: bool,
    table_name: Option<String>,
    id: String,
    now_nanos: i128,
) -> (r: Result<Creation, CreateError>)
    ensures
        payload is Err ==> r matches Err(CreateError::Serialization),
        payload is Ok && storage_configured && table_name is None ==> r matches Err(
            CreateError::Config,
        ),
        r is Ok <==> payload is Ok && (!storage_configured || table_name is Some),
        r matches Ok(c) ==> {
            &&& c.confirmation.message@ == confirmation_message()
            &&& c.confirmation.id@ == id@
            &&& (c.put is Some <==> storage_configured)
        },
        r matches Ok(c) ==> (c.put matches Some(p) ==> {
            &&& p.table_name@ == table_name->0@
            &&& item_fields(p.item) == with_system_fields(
                item_fields(payload->Ok_0),
                id@,
                now_nanos as int,
            )
        }),
{
    let mut item = match payload {
        Ok(item) => item,
        Err(_) => {
            return Err(CreateError::Serialization);
        },
    };
    if !storage_configured {
        return Ok(Creation { put: None, confirmation: confirmation(id) });
    }
    let table_name = match table_name {
        Some(name) => name,
        None => {
            return Err(CreateError::Config);
        },
    };
    add_system_fields(&mut item, id.clone(), now_nanos);
    Ok(Creation { put: Some(PutRequest { table_name, item }), confirmation: confirmation(id) })
}

/// Prepares a creation request: converts `input` into an item, draws a fresh identifier,
/// and, when a store is configured, reads the clock once for both timestamps and takes the
/// table from `config`'s `table_name`.
///
/// It succeeds exactly when the payload converts and, with a store configured, the
/// configuration holds a string `table_name`. A payload that does not convert fails with
/// `Serialization`; after that, a missing table name fails with `Config`.
///
/// On success the confirmation carries a random UUID in canonical text, and the put (present
/// exactly when a store is configured) targets the configured table with the payload's
/// fields plus the system-managed ones: that identifier, a creation time that is the number
/// attribute of some decimal time, an equal update time, and a null deletion marker.
pub fn prepare_creation(input: Value, config: &Value, storage_configured: bool) -> (r: Result<
    Creation,
    CreateError,
>)
    ensures
        r matches Ok(c) ==> {
            &&& c.confirmation.message@ == confirmation_message()
            &&& is_uuid_v4_text(c.confirmation.id@)
            &&& (c.put is Some <==> storage_configured)
        },
        r matches Ok(c) ==> (c.put matches Some(p) ==> {
            &&& item_fields(p.item)[id_field()] == string_attribute(c.confirmation.id@)
            &&& exists|t: int|
                item_fields(p.item)[created_at_field()] == #[trigger] number_attribute(
                    decimal_text(t),
                )
            &&& item_fields(p.item)[updated_at_field()] == item_fields(
                p.item,
            )[created_at_field()]
            &&& item_fields(p.item)[deleted_at_field()] == null_attribute(true)
        }),
        r is Ok <==> converted_fields(input) is Some && (!storage_configured || has_table_name(
            *config,
        )),
        converted_fields(input) is None ==> r matches Err(CreateError::Serialization),
        converted_fields(input) is Some && storage_configured && !has_table_name(*config)
            ==> r matches Err(CreateError::Config),
        r matches Ok(c) ==> (c.put matches Some(p) ==> {
            &&& p.table_name@ == table_name_text(*config)
            &&& exists|t: int|
                item_fields(p.item) == #[trigger] with_system_fields(
                    converted_fields(input)->0,
                    c.confirmation.id@,
                    t,
                )
        }),
{
    let payload = payload_item(input);
    let id = new_record_id();
    if !storage_configured {
        return plan_creation(payload, false, None, id, 0);
    }
    let now_nanos = clock_nanos();
    let table_name = table_name_of(config);
    let ghost fields = if payload is Ok {
        item_fields(payload->Ok_0)
    } else {
        Map::empty()
    };
    let ghost id_view = id@;
    proof {
        lemma_enrichment_keeps_payload(fields, id_view, now_nanos as int);
    }
    let r = plan_creation(payload, true, table_name, id, now_nanos);
    proof {
        if r is Ok && r->Ok_0.put is Some {
            assert(item_fields(r->Ok_0.put->0.item) == with_system_fields(
                converted_fields(input)->0,
                r->Ok_0.confirmation.id@,
                now_nanos as int,
            ));
        }
    }
    r
}

/// The answer to a creation once the store has replied: the confirmation after a
/// successful write, and `Storage` with the store's description after a failed one.
pub fn settle_creation(confirmation: Confirmation, write: Result<(), String>) -> (r: Result<
    Confirmation,
    CreateError,
>)
    ensures
        write is Ok ==> r == Ok::<Confirmation, CreateError>(confirmation),
        write matches Err(detail) ==> r matches Err(CreateError::Storage(d)) && d == detail,
{
    match write {
        Ok(()) => Ok(confirmation),
        Err(detail) => Err(CreateError::Storage(detail)),
    }
}

} // verus!
