//! Evaluation of filter expressions against a message payload.

use vstd::prelude::*;
use vstd::utf8::{decode_utf8, encode_utf8, encode_utf8_decode_utf8, encode_utf8_valid_utf8, valid_utf8};

use crate::decimal::{decimal_i32, decimal_text, lemma_decimal_text_roundtrip, parse_i32};
use crate::error::{result_model, Error, ErrorModel};
use crate::text::str_equals;

verus! {

/// The one filter expression that is understood: the payload is a
/// decimal id, and the message passes when that id is below 100.
pub open spec fn supported_expression() -> Seq<char> {
    "int(json(payload).id) < 100"@
}

/// What evaluating `expression` against the payload `value` gives.
pub open spec fn filter_verdict(expression: Seq<char>, value: Seq<u8>) -> Result<bool, ErrorModel> {
    if expression != supported_expression() {
        Err(ErrorModel::Transformer("Unsupported expression"@))
    } else if !valid_utf8(value) {
        Err(ErrorModel::Transformer("Invalid UTF-8"@))
    } else {
        match decimal_i32(decode_utf8(value)) {
            None => Err(ErrorModel::Transformer("Failed to parse ID"@)),
            Some(id) => Ok(id < 100),
        }
    }
}

/// Decodes `bytes` as UTF-8 text, by `std::str::from_utf8`, which gives a
/// string exactly when the bytes are valid UTF-8, and then the string
/// that they encode.
#[verifier::external_body]
fn utf8_str(bytes: &[u8]) -> (r: Option<&str>)
    ensures
        r is Some <==> valid_utf8(bytes@),
        r matches Some(s) ==> s@ == decode_utf8(bytes@),
{
    std::str::from_utf8(bytes).ok()
}

/// Evaluates the boolean filter `expression` against the payload `value`.
pub fn eval_bool(expression: &str, value: &[u8]) -> (r: Result<bool, Error>)
    ensures
        result_model(r) == filter_verdict(expression@, value@),
{
    if str_equals(expression, "int(json(payload).id) < 100") {
        match utf8_str(value) {
            None => Err(Error::Transformer(String::from_str("Invalid UTF-8"))),
            Some(text) => match parse_i32(text) {
                None => Err(Error::Transformer(String::from_str("Failed to parse ID"))),
                Some(id) => Ok(id < 100),
            },
        }
    } else {
        Err(Error::Transformer(String::from_str("Unsupported expression")))
    }
}

/// On the supported expression, the verdict on any payload that is valid
/// UTF-8 text of an `i32` (with or without sign, leading zeros allowed) is
/// whether that number is below 100: it depends on the number alone.
pub proof fn lemma_filter_verdict_is_id_below_100(value: Seq<u8>, id: i32)
    requires
        valid_utf8(value),
        decimal_i32(decode_utf8(value)) == Some(id),
    ensures
        filter_verdict("int(json(payload).id) < 100"@, value) == Ok::<bool, ErrorModel>(id < 100),
{
}

/// Two payloads whose texts spell the same `i32` get the same verdict.
pub proof fn lemma_filter_verdict_same_id(v1: Seq<u8>, v2: Seq<u8>, id: i32)
    requires
        valid_utf8(v1),
        valid_utf8(v2),
        decimal_i32(decode_utf8(v1)) == Some(id),
        decimal_i32(decode_utf8(v2)) == Some(id),
    ensures
        filter_verdict(supported_expression(), v1) == filter_verdict(supported_expression(), v2),
{
}

/// A payload that is the UTF-8 text of an `i32` in base ten passes the
/// supported filter exactly when that number is below 100.
pub proof fn lemma_filter_keeps_ids_below_100(id: i32)
    ensures
        filter_verdict(supported_expression(), encode_utf8(decimal_text(id as int))) == Ok::<bool, ErrorModel>(id < 100),
{
    let t = decimal_text(id as int);
    encode_utf8_valid_utf8(t);
    encode_utf8_decode_utf8(t);
    lemma_decimal_text_roundtrip(id);
}

} // verus!
