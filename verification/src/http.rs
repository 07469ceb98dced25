use std::io::Read;

use ureq::Response as UreqResponse;

use vstd::prelude::*;
use vstd::utf8::decode_utf8;
use vstd::utf8::valid_utf8;

use crate::VERSION;

verus! {

/// Cap on a notifier response body, in bytes: a body this long or longer is
/// rejected, so a misbehaving endpoint cannot make the helper buffer an
/// unbounded stream.
pub const MAX_RESPONSE_SIZE: usize = 64 * 1024;

/// Seconds before an unanswered GET is abandoned.
pub const HTTP_TIMEOUT_SECS: u64 = 10;

#[verifier::external_type_specification]
#[verifier::external_body]
pub struct ExUreqResponse(UreqResponse);

/// Relies on ureq::get, Request::set, Request::timeout and Request::call:
/// one blocking GET to the given URL with the identifying header and the
/// timeout attached; any transport or HTTP-status failure comes back as the
/// error's message. Nothing can be promised of the outcome: it is the
/// network's.
#[verifier::external_body]
fn send_get(url: &str, appkey: &str) -> (r: Result<UreqResponse, String>) {
    ureq::get(url)
        .set("X-Myjd-Appkey", appkey)
        .timeout(std::time::Duration::from_secs(HTTP_TIMEOUT_SECS))
        .call()
        .map_err(|e| e.to_string())
}

/// Relies on ureq::Response::into_reader for the body stream, and on
/// std::io::Read::take and read_to_end to pull at most `limit` bytes of it
/// into memory; `take` is what keeps a longer stream from ever being
/// buffered whole.
#[verifier::external_body]
fn read_body(resp: UreqResponse, limit: u64) -> (r: Result<Vec<u8>, String>)
    ensures
        r matches Ok(body) ==> body@.len() <= limit,
{
    let mut buf: Vec<u8> = Vec::new();
    match resp.into_reader().take(limit).read_to_end(&mut buf) {
        Ok(_) => Ok(buf),
        Err(e) => Err(e.to_string()),
    }
}

/// Relies on String::from_utf8: it succeeds exactly on valid UTF-8 input and
/// returns the string those bytes encode.
#[verifier::external_body]
fn bytes_to_utf8(bytes: Vec<u8>) -> (r: Result<String, String>)
    ensures
        r is Ok <==> valid_utf8(bytes@),
        r matches Ok(s) ==> s@ == decode_utf8(bytes@),
{
    String::from_utf8(bytes).map_err(|e| e.to_string())
}

/// Turns the bytes pulled from a notifier response into the final result: a
/// body that reached the 64 KiB cap fails with the size error, anything
/// shorter must be UTF-8 text and is returned decoded.
pub fn finish_body(body: Vec<u8>) -> (r: Result<String, String>)
    ensures
        body@.len() >= MAX_RESPONSE_SIZE ==> (r matches Err(e) && e@
            == "Response too large (max 64KB)"@),
        body@.len() < MAX_RESPONSE_SIZE ==> {
            &&& r is Ok <==> valid_utf8(body@)
            &&& (r matches Ok(s) ==> s@ == decode_utf8(body@))
            &&& (r matches Err(e) ==> exists|d: Seq<char>| e@ == "UTF-8 error: "@ + d)
        },
{
    if body.len() >= MAX_RESPONSE_SIZE {
        return Err(String::from_str("Response too large (max 64KB)"));
    }
    match bytes_to_utf8(body) {
        Ok(s) => Ok(s),
        Err(detail) => {
            let mut msg = String::from_str("UTF-8 error: ");
            msg.append(detail.as_str());
            proof {
                assert(msg@ == "UTF-8 error: "@ + detail@);
            }
            Err(msg)
        },
    }
}

/// One bounded notification GET: a single attempt, never retried, with a
/// 10-second deadline and the response body capped at 64 KiB. Whatever the
/// network did, a returned body is UTF-8 text that stayed under the cap.
pub fn http_get(url: &str) -> (r: Result<String, String>)
    ensures
        r matches Ok(s) ==> exists|b: Seq<u8>|
            b.len() < MAX_RESPONSE_SIZE && valid_utf8(b) && s@ == decode_utf8(b),
{
    let mut appkey = String::from_str("myjd-captcha-helper-");
    appkey.append(VERSION);
    let resp = match send_get(url, appkey.as_str()) {
        Ok(resp) => resp,
        Err(detail) => {
            let mut msg = String::from_str("HTTP error: ");
            msg.append(detail.as_str());
            return Err(msg);
        },
    };
    let body = match read_body(resp, MAX_RESPONSE_SIZE as u64) {
        Ok(b) => b,
        Err(detail) => {
            let mut msg = String::from_str("Read error: ");
            msg.append(detail.as_str());
            return Err(msg);
        },
    };
    finish_body(body)
}

} // verus!
