//! HTTP response formatting: reason phrases, log categories, and the JSON
//! reply envelope every route answers with.

use vstd::prelude::*;
use crate::num::{dec_str, u64_to_dec};
use vstd::utf8::encode_utf8;

verus! {

/// The reason phrase attached to a status code.
pub open spec fn status_text_spec(status: int) -> Seq<char> {
    if status == 200 {
        "OK"@
    } else if status == 400 {
        "Bad Request"@
    } else if status == 404 {
        "Not Found"@
    } else if status == 500 {
        "Internal Server Error"@
    } else {
        "Unknown"@
    }
}

/// Reason phrase for a status code.
pub fn get_status_text(status_code: u16) -> (r: &'static str)
    ensures
        r@ == status_text_spec(status_code as int),
{
    match status_code {
        200 => "OK",
        400 => "Bad Request",
        404 => "Not Found",
        500 => "Internal Server Error",
        _ => "Unknown",
    }
}

/// The log category derived from a status code: SUCCESS for the 200s,
/// WARNING for the 400s, ERROR for the 500s.
pub open spec fn status_category_spec(status: int) -> Seq<char> {
    if 200 <= status <= 299 {
        "SUCCESS"@
    } else if 400 <= status <= 499 {
        "WARNING"@
    } else if 500 <= status <= 599 {
        "ERROR"@
    } else {
        "UNKNOWN"@
    }
}

/// Log category for a status code.
pub fn status_category(status_code: u16) -> (r: &'static str)
    ensures
        r@ == status_category_spec(status_code as int),
{
    if 200 <= status_code && status_code <= 299 {
        "SUCCESS"
    } else if 400 <= status_code && status_code <= 499 {
        "WARNING"
    } else if 500 <= status_code && status_code <= 599 {
        "ERROR"
    } else {
        "UNKNOWN"
    }
}

/// The complete response for a status code and JSON body: status line, the
/// three fixed headers with a Content-Length that counts the body's UTF-8
/// bytes, a blank line, and the body.
pub open spec fn response_text(status: int, body: Seq<char>) -> Seq<char> {
    "HTTP/1.1 "@ + dec_str(status as nat) + " "@ + status_text_spec(status)
        + "\r\nContent-Type: application/json\r\nContent-Length: "@ + dec_str(
        (encode_utf8(body).len() as usize) as nat,
    ) + "\r\nAccess-Control-Allow-Origin: *\r\n\r\n"@ + body
}

/// Wraps a JSON body in the response envelope for the given status code.
pub fn create_json_response(status_code: u16, json_body: &str) -> (r: String)
    ensures
        r@ == response_text(status_code as int, json_body@),
{
    let mut r = String::from_str("HTTP/1.1 ");
    let num = u64_to_dec(status_code as u64);
    r.append(num.as_str());
    r.append(" ");
    r.append(get_status_text(status_code));
    r.append("\r\nContent-Type: application/json\r\nContent-Length: ");
    let blen = json_body.len();
    let blstr = u64_to_dec(blen as u64);
    r.append(blstr.as_str());
    r.append("\r\nAccess-Control-Allow-Origin: *\r\n\r\n");
    r.append(json_body);
    proof {
        assert(r@ =~= response_text(status_code as int, json_body@));
    }
    r
}

} // verus!
