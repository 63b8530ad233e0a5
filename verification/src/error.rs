//! Errors of the client, and how a non-2xx reply of the API becomes one.
use vstd::prelude::*;
use crate::text::{opt_view, view_or};

verus! {

/// `reqwest::Error`, carried through unchanged.
#[verifier::external_type_specification]
#[verifier::external_body]
pub struct ExReqwestError(reqwest::Error);

/// `std::io::Error`, carried through unchanged.
#[verifier::external_type_specification]
#[verifier::external_body]
pub struct ExIoError(std::io::Error);

/// `serde_json::Error`, carried through unchanged.
#[verifier::external_type_specification]
#[verifier::external_body]
pub struct ExJsonError(serde_json::Error);

/// Errors returned by the AgentGen client.
#[derive(Debug)]
pub enum AgentGenError {
    /// The API returned a non-2xx response (other than 402).
    Api { status: u16, message: String, detail: Option<String> },
    /// The account has insufficient tokens for the requested operation (HTTP 402).
    InsufficientTokens { balance: i64, required: i64, buy_more_url: String },
    /// An underlying HTTP transport error.
    Http(reqwest::Error),
    /// An I/O error (e.g. reading a file for upload).
    Io(std::io::Error),
    /// A serialization error while building the request body.
    Json(serde_json::Error),
}

/// Whether an HTTP status code is in the success class 200–299.
pub open spec fn spec_is_success(status: u16) -> bool {
    200 <= status <= 299
}

/// Whether `status` is a success status (`StatusCode::is_success`).
pub fn is_success_status(status: u16) -> (r: bool)
    ensures
        r == spec_is_success(status),
{
    200 <= status && status <= 299
}

/// Whether `serde_json::from_slice::<serde_json::Value>` accepts the bytes.
pub uninterp spec fn json_accepts(body: Seq<u8>) -> bool;

/// `value[key].as_str()` for the value that `serde_json::from_slice` reads
/// from `body`: the member `key` of a top-level object when it is a string.
pub uninterp spec fn json_str_member(body: Seq<u8>, key: Seq<char>) -> Option<Seq<char>>;

/// `value[key].as_i64()` for the value that `serde_json::from_slice` reads
/// from `body`: the member `key` of a top-level object when it is an integer
/// that fits in an `i64`.
pub uninterp spec fn json_i64_member(body: Seq<u8>, key: Seq<char>) -> Option<i64>;

/// `serde_json::from_slice::<serde_json::Value>(body).is_ok()`: claims that
/// the result is `json_accepts` of the bytes, and that where `from_slice`
/// refuses the bytes, every member lookup below (which parses the same bytes
/// the same way) finds nothing. The JSON grammar is left unsaid.
#[verifier::external_body]
fn json_is_valid(body: &[u8]) -> (r: bool)
    ensures
        r == json_accepts(body@),
        !r ==> forall|key: Seq<char>| #[trigger] json_str_member(body@, key) is None,
        !r ==> forall|key: Seq<char>| #[trigger] json_i64_member(body@, key) is None,
{
    serde_json::from_slice::<serde_json::Value>(body).is_ok()
}

/// `serde_json::from_slice::<serde_json::Value>` then `value[key].as_str()`,
/// with `None` where the bytes are not JSON. Claims that the result is the
/// same function of the bytes and the key on every call, and `None` for bytes
/// that `from_slice` refuses; the JSON grammar is left unsaid.
#[verifier::external_body]
fn json_member_text(body: &[u8], key: &str) -> (r: Option<String>)
    ensures
        opt_view(r) == json_str_member(body@, key@),
{
    match serde_json::from_slice::<serde_json::Value>(body) {
        Ok(v) => v[key].as_str().map(|s| s.to_string()),
        Err(_) => None,
    }
}

/// `serde_json::from_slice::<serde_json::Value>` then `value[key].as_i64()`,
/// with `None` where the bytes are not JSON. Claims that the result is the
/// same function of the bytes and the key on every call, and `None` for bytes
/// that `from_slice` refuses; the JSON grammar is left unsaid.
#[verifier::external_body]
fn json_member_int(body: &[u8], key: &str) -> (r: Option<i64>)
    ensures
        r == json_i64_member(body@, key@),
{
    match serde_json::from_slice::<serde_json::Value>(body) {
        Ok(v) => v[key].as_i64(),
        Err(_) => None,
    }
}

/// The number inside `o`, or `d` when there is none.
pub open spec fn int_or(o: Option<i64>, d: i64) -> i64 {
    match o {
        Some(v) => v,
        None => d,
    }
}

/// The error that a reply with a non-2xx `status` stands for, given the
/// fields its body holds: 402 is `InsufficientTokens` (missing numbers read
/// as 0, a missing link as empty), any other status is `Api` with that
/// status, the `error` text (`"Unknown error"` when absent) and the `detail`.
pub open spec fn spec_error_from_fields(
    status: u16,
    error: Option<Seq<char>>,
    detail: Option<Seq<char>>,
    balance: Option<i64>,
    required: Option<i64>,
    buy_more_url: Option<Seq<char>>,
    e: AgentGenError,
) -> bool {
    if status == 402 {
        match e {
            AgentGenError::InsufficientTokens { balance: b, required: r, buy_more_url: u } => {
                &&& b == int_or(balance, 0)
                &&& r == int_or(required, 0)
                &&& u@ == view_or(buy_more_url, ""@)
            },
            _ => false,
        }
    } else {
        match e {
            AgentGenError::Api { status: s, message, detail: d } => {
                &&& s == status
                &&& message@ == view_or(error, "Unknown error"@)
                &&& opt_view(d) == detail
            },
            _ => false,
        }
    }
}

/// The error that a reply with a non-2xx `status` and body `body` stands
/// for: the fields are the body's JSON members (none when it is not JSON).
pub open spec fn spec_reply_error(status: u16, body: Seq<u8>, e: AgentGenError) -> bool {
    spec_error_from_fields(
        status,
        json_str_member(body, "error"@),
        json_str_member(body, "detail"@),
        json_i64_member(body, "balance"@),
        json_i64_member(body, "required"@),
        json_str_member(body, "buy_more_url"@),
        e,
    )
}

/// Law: a refused request is answered by `InsufficientTokens` exactly when
/// the status is 402, and otherwise by `Api` carrying the reply's status.
pub proof fn lemma_reply_error_kind(status: u16, body: Seq<u8>, e: AgentGenError)
    requires
        spec_reply_error(status, body, e),
    ensures
        e is InsufficientTokens <==> status == 402,
        e is Api <==> status != 402,
        e matches AgentGenError::Api { status: s, .. } ==> s == status,
        !(e is Http) && !(e is Io) && !(e is Json),
{
}

/// Law: success is exactly a status from 200 to 299; a missing number reads
/// as the default.
pub proof fn lemma_success_statuses(status: u16, o: Option<i64>, d: i64)
    ensures
        spec_is_success(status) <==> (200 <= status && status < 300),
        o matches Some(x) ==> int_or(o, d) == x,
        o is None ==> int_or(o, d) == d,
{
}

/// Law: the error for given reply fields. With status 402 it is
/// `InsufficientTokens` carrying the given balance, required count and link,
/// or 0, 0 and the empty text for those not given. With any other status it
/// is `Api` with that status, the given `error` text as message (or
/// `Unknown error` when none is given), whatever the other fields, and the
/// given `detail` as is.
pub proof fn lemma_error_fields(
    status: u16,
    error: Option<Seq<char>>,
    detail: Option<Seq<char>>,
    balance: Option<i64>,
    required: Option<i64>,
    buy_more_url: Option<Seq<char>>,
    e: AgentGenError,
)
    requires
        spec_error_from_fields(status, error, detail, balance, required, buy_more_url, e),
    ensures
        status == 402 ==> match e {
            AgentGenError::InsufficientTokens { balance: b, required: r, buy_more_url: u } => {
                &&& (match balance {
                    Some(x) => b == x,
                    None => b == 0,
                })
                &&& (match required {
                    Some(x) => r == x,
                    None => r == 0,
                })
                &&& (match buy_more_url {
                    Some(x) => u@ == x,
                    None => u@ == ""@,
                })
            },
            _ => false,
        },
        status != 402 ==> match e {
            AgentGenError::Api { status: s, message, detail: d } => {
                &&& s == status
                &&& (match error {
                    Some(m) => message@ == m,
                    None => message@ == "Unknown error"@,
                })
                &&& (match (detail, d) {
                    (Some(x), Some(y)) => y@ == x,
                    (None, None) => true,
                    _ => false,
                })
            },
            _ => false,
        },
{
}

/// Law: for a refused request other than 402 whose body has a string member
/// `error`, the answer is `Api` with the reply's status and that text as its
/// message, whatever else the body holds; a 402 answer carries the body's
/// `balance` and `required` numbers whenever it has them.
pub proof fn lemma_reply_error_fields(status: u16, body: Seq<u8>, e: AgentGenError)
    requires
        spec_reply_error(status, body, e),
    ensures
        status != 402 ==> (json_str_member(body, "error"@) matches Some(m) ==> (
        e matches AgentGenError::Api { status: s, message, .. } && s == status && message@ == m)),
        status != 402 ==> (json_str_member(body, "detail"@) matches Some(x) ==> (
        e matches AgentGenError::Api { detail: Some(d), .. } && d@ == x)),
        status == 402 ==> (json_i64_member(body, "balance"@) matches Some(x) ==> (
        e matches AgentGenError::InsufficientTokens { balance: b, .. } && b == x)),
        status == 402 ==> (json_i64_member(body, "required"@) matches Some(x) ==> (
        e matches AgentGenError::InsufficientTokens { required: r, .. } && r == x)),
        status == 402 ==> (json_str_member(body, "buy_more_url"@) matches Some(x) ==> (
        e matches AgentGenError::InsufficientTokens { buy_more_url: u, .. } && u@ == x)),
{
    lemma_error_fields(
        status,
        json_str_member(body, "error"@),
        json_str_member(body, "detail"@),
        json_i64_member(body, "balance"@),
        json_i64_member(body, "required"@),
        json_str_member(body, "buy_more_url"@),
        e,
    );
}

/// The client's error for a refused request whose body holds these fields.
pub fn error_from_fields(
    status: u16,
    error: Option<String>,
    detail: Option<String>,
    balance: Option<i64>,
    required: Option<i64>,
    buy_more_url: Option<String>,
) -> (e: AgentGenError)
    ensures
        spec_error_from_fields(
            status,
            opt_view(error),
            opt_view(detail),
            balance,
            required,
            opt_view(buy_more_url),
            e,
        ),
{
    let message = match error {
        Some(m) => m,
        None => String::from_str("Unknown error"),
    };
    if status == 402 {
        let balance = match balance {
            Some(b) => b,
            None => 0,
        };
        let required = match required {
            Some(r) => r,
            None => 0,
        };
        let buy_more_url = match buy_more_url {
            Some(u) => u,
            None => String::from_str(""),
        };
        AgentGenError::InsufficientTokens { balance, required, buy_more_url }
    } else {
        AgentGenError::Api { status, message, detail }
    }
}

/// Turns the reply to a refused request into the client's error: HTTP 402
/// becomes `InsufficientTokens` (missing numbers read as 0, a missing link
/// as empty), any other status becomes `Api` with that status, the body's
/// `error` text (`"Unknown error"` when absent) and its optional `detail`.
/// A body that is not JSON holds none of these fields.
pub fn error_from_response(status: u16, body: &[u8]) -> (e: AgentGenError)
    ensures
        spec_reply_error(status, body@, e),
        !json_accepts(body@) ==> spec_error_from_fields(status, None, None, None, None, None, e),
{
    if json_is_valid(body) {
        error_from_fields(
            status,
            json_member_text(body, "error"),
            json_member_text(body, "detail"),
            json_member_int(body, "balance"),
            json_member_int(body, "required"),
            json_member_text(body, "buy_more_url"),
        )
    } else {
        proof {
            assert(json_str_member(body@, "error"@) is None);
            assert(json_str_member(body@, "detail"@) is None);
            assert(json_i64_member(body@, "balance"@) is None);
            assert(json_i64_member(body@, "required"@) is None);
            assert(json_str_member(body@, "buy_more_url"@) is None);
        }
        error_from_fields(status, None, None, None, None, None)
    }
}

} // verus!
