//! Replies as they come over the wire: reading their text as JSON, and what they
//! bring or report.

use vstd::prelude::*;

use crate::api;
use crate::api::graphql;
use crate::api::graphql::{graphql_data, jwt_in, rejected_status};
use crate::api::json;
use crate::api::json::{Json, JsonField};
use crate::api::DeezerError;
use crate::text::{joined, push_text, same_text};

verus! {

/// A value of `serde_json`.
#[verifier::external_type_specification]
#[verifier::external_body]
pub struct ExValue(serde_json::Value);

/// What `serde_json` reads in a text: a value, or what is wrong with the text.
pub uninterp spec fn parsed(text: Seq<char>) -> Result<Json, Seq<char>>;

/// A value of `serde_json` as one of this library's: variant by variant, the
/// fields of an object in the order in which its map hands them out. Numbers that
/// neither `as_u64` nor `as_i64` gives are fractions.
#[verifier::external_body]
fn plain(value: serde_json::Value) -> (r: Json) {
    match value {
        serde_json::Value::Null => Json::Null,
        serde_json::Value::Bool(b) => Json::Bool(b),
        serde_json::Value::Number(n) => match (n.as_u64(), n.as_i64()) {
            (Some(u), _) => Json::UInt(u),
            (None, Some(i)) => Json::Int(i),
            (None, None) => Json::Fraction(n.to_string()),
        },
        serde_json::Value::String(s) => Json::Str(s),
        serde_json::Value::Array(a) => Json::Array(a.into_iter().map(plain).collect()),
        serde_json::Value::Object(m) => Json::Object(
            m.into_iter().map(|(key, v)| JsonField { key, value: plain(v) }).collect()),
    }
}

/// Reads a text with `serde_json::from_str`. Claimed is only that the same text
/// gives the same value, or the same words of complaint; what a text's value is
/// is left to `serde_json`.
#[verifier::external_body]
fn parse(text: &str) -> (r: Result<Json, String>)
    ensures
        match r {
            Ok(j) => parsed(text@) == Ok::<Json, Seq<char>>(j),
            Err(words) => parsed(text@) == Err::<Json, Seq<char>>(words@),
        },
{
    match serde_json::from_str::<serde_json::Value>(text) {
        Ok(value) => Ok(plain(value)),
        Err(e) => Err(e.to_string()),
    }
}

/// What `serde_json` writes for a value.
pub uninterp spec fn rendered(j: Json) -> Seq<char>;

/// A value of this library as one of `serde_json`: variant by variant. Its map
/// keeps the last of several fields with the same key, and a fraction that it
/// cannot read becomes null; neither comes out of [`parse`].
#[verifier::external_body]
fn outside(j: &Json) -> (r: serde_json::Value) {
    match j {
        Json::Null => serde_json::Value::Null,
        Json::Bool(b) => serde_json::Value::Bool(*b),
        Json::UInt(n) => serde_json::Value::from(*n),
        Json::Int(n) => serde_json::Value::from(*n),
        Json::Fraction(s) => serde_json::from_str(s).unwrap_or_default(),
        Json::Str(s) => serde_json::Value::String(s.clone()),
        Json::Array(a) => serde_json::Value::Array(a.iter().map(outside).collect()),
        Json::Object(m) => serde_json::Value::Object(
            m.iter().map(|f| (f.key.clone(), outside(&f.value))).collect()),
    }
}

/// Writes a value with `serde_json::Value::to_string`. Claimed is only that the
/// same value gives the same text; what the text is is left to `serde_json`.
#[verifier::external_body]
pub(crate) fn render(j: &Json) -> (r: String)
    ensures
        r@ == rendered(*j),
{
    outside(j).to_string()
}

/// Takes the first field with this key out of a value.
pub fn take_field(j: Json, key: &str) -> (r: Option<Json>)
    ensures
        r == json::at(j, key@),
{
    match j {
        Json::Object(fields) => {
            let mut fields: Vec<JsonField> = fields;
            let n: usize = fields.len();
            let mut i: usize = 0;
            proof {
                assert(fields@.skip(0) =~= fields@);
            }
            while i < n
                invariant
                    i <= n,
                    n == fields@.len(),
                    json::field_of(fields@, key@) == json::field_of(fields@.skip(i as int), key@),
                    json::at(j, key@) == json::field_of(fields@, key@),
                decreases n - i,
            {
                proof {
                    assert(fields@.skip(i as int)[0] == fields@[i as int]);
                    assert(fields@.skip(i as int).skip(1) =~= fields@.skip(i + 1));
                }
                if same_text(&fields[i].key, key) {
                    let found: JsonField = fields.swap_remove(i);
                    return Some(found.value);
                }
                i = i + 1;
            }
            None
        },
        _ => None,
    }
}

/// What the reply to a request for a token brings: the token. `status` is the
/// reply's status in words.
pub fn jwt_reply(text: &str, status: &str) -> (r: Result<String, DeezerError>)
    ensures
        match parsed(text@) {
            Ok(body) => match r {
                Ok(jwt) => json::as_text(json::at(body, "jwt"@)) == Some(jwt@),
                Err(e) => json::as_text(json::at(body, "jwt"@)) is None && api::is_auth(
                    e,
                    "Missing 'jwt' in auth response (status="@ + status@ + ")"@,
                ),
            },
            Err(words) => r is Err && api::is_http(r->Err_0, "JWT response not JSON: "@ + words),
        },
{
    match parse(text) {
        Ok(body) => jwt_in(&body, status),
        Err(words) => Err(DeezerError::Http(joined("JWT response not JSON: ", &words))),
    }
}

/// What the answer to a query brings, where it is JSON.
pub open spec fn answers(body: Json, r: Result<Json, DeezerError>) -> bool {
    match r {
        Ok(v) => graphql::errors_in(body).len() == 0 && json::at(body, "data"@) == Some(v),
        Err(e) => if graphql::errors_in(body).len() > 0 {
            exists|messages: Seq<String>| #[trigger]
                json::read_from::<graphql::ErrorMessage>(graphql::errors_in(body), messages)
                    && api::is_api(
                    e,
                    "GraphQL error: "@ + graphql::with_between(messages, "; "@),
                )
        } else {
            json::at(body, "data"@) is None && api::is_api(
                e,
                "Missing 'data' in GraphQL response"@,
            )
        },
    }
}

/// What the reply to a query brings. A status that rejects the token is looked at
/// before the text, which then need not be JSON.
pub fn graphql_reply(code: u16, status: &str, text: &str) -> (r: Result<Json, DeezerError>)
    ensures
        if graphql::rejects_token(code) {
            r is Err && api::is_auth(
                r->Err_0,
                "GraphQL rejected the JWT (status="@ + status@ + ")"@,
            )
        } else {
            match parsed(text@) {
                Ok(body) => answers(body, r),
                Err(words) => r is Err && api::is_http(
                    r->Err_0,
                    "Non-JSON response: "@ + words + " body="@ + text@,
                ),
            }
        },
{
    match rejected_status(code, status) {
        Some(e) => {
            return Err(e);
        },
        None => {},
    }
    match parse(text) {
        Ok(body) => graphql_answer(body),
        Err(words) => {
            let mut msg: String = joined("Non-JSON response: ", &words);
            push_text(&mut msg, " body=");
            push_text(&mut msg, text);
            Err(DeezerError::Http(msg))
        },
    }
}

/// What an answer brings, or what it reports.
pub fn graphql_answer(body: Json) -> (r: Result<Json, DeezerError>)
    ensures
        answers(body, r),
{
    match graphql_data(&body) {
        Ok(_) => {},
        Err(e) => {
            return Err(e);
        },
    }
    match take_field(body, "data") {
        Some(v) => Ok(v),
        None => Err(api::api_error("Missing 'data' in GraphQL response")),
    }
}

} // verus!
