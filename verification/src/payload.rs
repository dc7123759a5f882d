//! The key and the body of the messages that producers send.

use crate::text::{decimal_digits, numbered};
use base64::Engine;
use vstd::prelude::*;

verus! {

/// `serde_json::Map`, carried as an opaque value: what it holds is spoken
/// of through `json_members` alone.
#[verifier::external_type_specification]
#[verifier::external_body]
#[verifier::reject_recursive_types(K)]
#[verifier::reject_recursive_types(V)]
pub struct ExJsonMap<K, V>(serde_json::Map<K, V>);

/// `serde_json::Value`, the type of the values in such a map; opaque.
#[verifier::external_type_specification]
#[verifier::external_body]
pub struct ExJsonValue(serde_json::Value);

/// One member of a message body: a text or a number.
pub enum JsonMember {
    Text(Seq<char>),
    Number(nat),
}

/// The members of a JSON object, by key.
pub uninterp spec fn json_members(object: serde_json::Map<String, serde_json::Value>) -> Map<
    Seq<char>,
    JsonMember,
>;

/// The compact JSON text of an object with the given members.
pub uninterp spec fn json_text(members: Map<Seq<char>, JsonMember>) -> Seq<char>;

/// The text of `bytes` in base64, standard alphabet, with padding.
pub uninterp spec fn base64_text(bytes: Seq<u8>) -> Seq<char>;

/// An object without members.
pub open spec fn no_members() -> Map<Seq<char>, JsonMember> {
    Map::empty()
}

/// The length of the padded base64 text of `n` bytes.
pub open spec fn base64_len(n: nat) -> nat {
    (n + 2) / 3 * 4
}

/// `serde_json::Map::new`: an object without members.
#[verifier::external_body]
fn new_json_object() -> (object: serde_json::Map<String, serde_json::Value>)
    ensures
        json_members(object) == no_members(),
{
    serde_json::Map::new()
}

/// `serde_json::Map::insert` of a string value: the member `key` is the
/// text `value`, whatever it was before; the other members stay.
#[verifier::external_body]
fn insert_text(object: &mut serde_json::Map<String, serde_json::Value>, key: &str, value: &str)
    ensures
        json_members(*final(object)) == json_members(*old(object)).insert(
            key@,
            JsonMember::Text(value@),
        ),
{
    object.insert(key.to_owned(), serde_json::Value::String(value.to_owned()));
}

/// `serde_json::Map::insert` of an unsigned number: the member `key` is the
/// number `value`, whatever it was before; the other members stay.
#[verifier::external_body]
fn insert_number(object: &mut serde_json::Map<String, serde_json::Value>, key: &str, value: usize)
    ensures
        json_members(*final(object)) == json_members(*old(object)).insert(
            key@,
            JsonMember::Number(value as nat),
        ),
{
    object.insert(key.to_owned(), serde_json::Value::from(value));
}

/// `to_string` of a `serde_json::Value::Object`: the compact text of the
/// object. The map is the crate's default one, ordered by key, so the text
/// depends on the members alone and not on the order of the inserts.
#[verifier::external_body]
fn render_object(object: serde_json::Map<String, serde_json::Value>) -> (text: String)
    ensures
        text@ == json_text(json_members(object)),
{
    serde_json::Value::Object(object).to_string()
}

/// `Engine::encode` of `base64::engine::general_purpose::STANDARD`. The
/// call fails when the length of the text does not fit a `usize`, so such
/// inputs are left out.
#[verifier::external_body]
fn base64_standard(bytes: &[u8]) -> (text: String)
    requires
        base64_len(bytes@.len()) <= usize::MAX,
    ensures
        text@ == base64_text(bytes@),
{
    base64::engine::general_purpose::STANDARD.encode(bytes)
}

/// `Utc::now().to_rfc3339()`: the current time as text. Nothing is claimed
/// of the text, which differs from call to call. The call relies on a
/// system clock that stands at or after 1970; with a clock set before
/// that, `Utc::now` gives up.
#[verifier::external_body]
fn utc_now_rfc3339() -> String {
    chrono::Utc::now().to_rfc3339()
}

/// The key of every message of producer `id`.
pub open spec fn message_key_text(id: usize) -> Seq<char> {
    "producer-"@ + decimal_digits(id as nat)
}

/// The key under which producer `id` sends.
pub fn message_key(id: usize) -> (key: String)
    ensures
        key@ == message_key_text(id),
{
    numbered("producer-", id)
}

/// `size` zero bytes.
pub open spec fn zero_bytes(size: usize) -> Seq<u8> {
    Seq::new(size as nat, |i: int| 0u8)
}

/// The padding of a message: `size` zero bytes in base64. `None` when the
/// text would be longer than a `usize` can say.
pub fn padding_text(size: usize) -> (padding: Option<String>)
    ensures
        base64_len(size as nat) <= usize::MAX ==> padding.is_some() && padding.unwrap()@
            == base64_text(zero_bytes(size)),
        base64_len(size as nat) > usize::MAX ==> padding.is_none(),
{
    if size > usize::MAX / 4 * 3 {
        return None;
    }
    let bytes = vec![0u8; size];
    assert(bytes@ =~= zero_bytes(size));
    Some(base64_standard(bytes.as_slice()))
}

/// The members of a message body: the time of sending, the producer's
/// number and the padding.
pub open spec fn message_members(ts: Seq<char>, producer_id: usize, padding: Seq<char>) -> Map<
    Seq<char>,
    JsonMember,
> {
    no_members().insert("ts"@, JsonMember::Text(ts)).insert(
        "producer_id"@,
        JsonMember::Number(producer_id as nat),
    ).insert("payload"@, JsonMember::Text(padding))
}

/// The body of a message as JSON text.
pub fn encode_message(ts: &str, producer_id: usize, padding: &str) -> (body: String)
    ensures
        body@ == json_text(message_members(ts@, producer_id, padding@)),
{
    let mut object = new_json_object();
    insert_text(&mut object, "ts", ts);
    insert_number(&mut object, "producer_id", producer_id);
    insert_text(&mut object, "payload", padding);
    render_object(object)
}

/// The body of a message sent now. The time is read from the clock, so the
/// body is that of `encode_message` for some time text.
pub fn stamped_message(producer_id: usize, padding: &str) -> (body: String)
    ensures
        exists|ts: Seq<char>| body@ == json_text(message_members(ts, producer_id, padding@)),
{
    let now = utc_now_rfc3339();
    let body = encode_message(now.as_str(), producer_id, padding);
    assert(body@ == json_text(message_members(now@, producer_id, padding@)));
    body
}

} // verus!
