use vstd::prelude::*;

use crate::http::http_get;
use crate::strutil::opt_str_or_empty;
use crate::strutil::opt_str_view;
use crate::strutil::str_eq;
use crate::validation::callback_url_error_msg;
use crate::validation::is_valid_callback_url;
use crate::validation::is_valid_site_key;
use crate::validation::normalized_skip_type;
use crate::validation::site_key_error_msg;
use crate::validation::validate_callback_url;
use crate::validation::validate_site_key;
use crate::validation::validate_skip_type;
use crate::VERSION;

verus! {

/// Seconds a job may wait for the human's outcome before it degrades to an
/// automatic skip.
pub const JOB_TIMEOUT_SECS: u64 = 300;

/// One decoded request from the extension. Every field beyond `action` is
/// optional and untrusted until a validator has passed it.
#[derive(Debug)]
pub struct Request {
    pub action: String,
    pub site_key: Option<String>,
    pub site_key_type: Option<String>,
    pub challenge_type: Option<String>,
    pub callback_url: Option<String>,
    pub captcha_id: Option<String>,
    pub hoster: Option<String>,
    pub v3action: Option<String>,
    pub enterprise: Option<bool>,
    pub site_url: Option<String>,
    pub site_domain: Option<String>,
    pub skip_type: Option<String>,
    pub test: Option<bool>,
}

/// One validated challenge, immutable once built: the site key has passed
/// the character and length checks and the callback URL the loopback check.
#[derive(Debug, Clone)]
pub struct CaptchaJob {
    pub site_key: String,
    pub site_key_type: Option<String>,
    pub challenge_type: Option<String>,
    pub callback_url: String,
    pub hoster: Option<String>,
    pub v3action: Option<String>,
    pub enterprise: Option<bool>,
    pub test: bool,
}

/// One reply to the extension. Optional fields that are absent are left out
/// of the serialized form entirely.
#[derive(Debug)]
pub struct Response {
    pub status: String,
    pub token: Option<String>,
    pub version: Option<String>,
    pub error: Option<String>,
    pub skip_type: Option<String>,
}

/// The terminal outcome the presenter delivers for one job, at most once.
#[derive(Debug, Clone)]
pub enum CaptchaResult {
    Solved(String),
    Skipped(String),
    Cancelled,
    Timeout,
}

/// What the dispatcher decided for one request: either a finished reply, or
/// a validated job that a presenter must now run.
pub enum Dispatch {
    Respond(Response),
    RunJob(CaptchaJob),
}

/// The error envelope every recoverable failure is reported in.
pub open spec fn resp_error(r: Response, msg: Seq<char>) -> bool {
    &&& r.status@ == "error"@
    &&& r.token is None
    &&& r.version is None
    &&& r.error matches Some(e) && e@ == msg
    &&& r.skip_type is None
}

/// The reply to a status probe: ok, plus the build version and nothing else.
pub open spec fn is_status_response(r: Response) -> bool {
    &&& r.status@ == "ok"@
    &&& r.token is None
    &&& r.version matches Some(v) && v@ == VERSION@
    &&& r.error is None
    &&& r.skip_type is None
}

/// The reply owed for an explicit skip or cancel with the given scope: the
/// notifier's own success or failure becomes the status, and a notifier
/// failure is reported with its message behind "Skip failed: ".
pub open spec fn is_skip_outcome_response(r: Response, skip_type: Seq<char>) -> bool {
    ||| {
        &&& r.status@ == "ok"@
        &&& r.token is None
        &&& r.version is None
        &&& r.error is None
        &&& r.skip_type matches Some(st) && st@ == skip_type
    }
    ||| exists|d: Seq<char>| resp_error(r, "Skip failed: "@ + d)
}

/// The reply owed when a job's wait ends in a timeout, explicit or elapsed.
pub open spec fn is_timeout_response(r: Response) -> bool {
    &&& r.status@ == "timeout"@
    &&& r.token is None
    &&& r.version is None
    &&& r.error matches Some(e) && e@ == "CAPTCHA timed out after 5 minutes"@
    &&& r.skip_type matches Some(st) && st@ == "hoster"@
}

/// The reply owed for each terminal outcome of a job; `None` is the deadline
/// passing with nothing delivered, which is treated exactly like an explicit
/// timeout message.
pub open spec fn is_outcome_response(r: Response, outcome: Option<CaptchaResult>) -> bool {
    match outcome {
        Some(CaptchaResult::Solved(t)) => {
            &&& r.status@ == "solved"@
            &&& r.token matches Some(tok) && tok@ == t@
            &&& r.version is None
            &&& r.error is None
            &&& r.skip_type is None
        },
        Some(CaptchaResult::Skipped(k)) => {
            &&& r.status@ == "skipped"@
            &&& r.token is None
            &&& r.version is None
            &&& r.error is None
            &&& r.skip_type matches Some(st) && st@ == k@
        },
        Some(CaptchaResult::Cancelled) => {
            &&& r.status@ == "cancelled"@
            &&& r.token is None
            &&& r.version is None
            &&& r.error is None
            &&& r.skip_type is None
        },
        Some(CaptchaResult::Timeout) => is_timeout_response(r),
        None => is_timeout_response(r),
    }
}

/// The job the dispatcher builds for a valid challenge request: the
/// validated fields unchanged, the rest carried over, absence of the test
/// flag read as false.
pub open spec fn job_from_request(job: CaptchaJob, req: Request) -> bool {
    &&& job.site_key@ == opt_str_or_empty(req.site_key)
    &&& opt_str_view(job.site_key_type) == opt_str_view(req.site_key_type)
    &&& opt_str_view(job.challenge_type) == opt_str_view(req.challenge_type)
    &&& job.callback_url@ == opt_str_or_empty(req.callback_url)
    &&& opt_str_view(job.hoster) == opt_str_view(req.hoster)
    &&& opt_str_view(job.v3action) == opt_str_view(req.v3action)
    &&& job.enterprise == req.enterprise
    &&& job.test == (match req.test {
        Some(b) => b,
        None => false,
    })
}

/// The skip scope a request asked for, with absence read as "single".
pub open spec fn requested_skip_type(o: Option<String>) -> Seq<char> {
    match o {
        Some(s) => s@,
        None => "single"@,
    }
}

/// A challenge request the dispatcher hands to a presenter rather than
/// answering directly: both its site key and its callback URL are valid.
pub open spec fn spec_wants_job(req: Request) -> bool {
    &&& req.action@ == "captcha_new"@
    &&& is_valid_site_key(opt_str_or_empty(req.site_key))
    &&& is_valid_callback_url(opt_str_or_empty(req.callback_url))
}

/// The reply a challenge request gets without reaching a presenter: its
/// site key is checked first, then its callback URL, and the first failure
/// is the one reported.
pub open spec fn captcha_new_direct_response(req: Request, r: Response) -> bool {
    let sk = opt_str_or_empty(req.site_key);
    let cb = opt_str_or_empty(req.callback_url);
    if !is_valid_site_key(sk) {
        resp_error(r, site_key_error_msg(sk))
    } else {
        &&& !is_valid_callback_url(cb)
        &&& resp_error(r, callback_url_error_msg(cb))
    }
}

/// The reply owed for every request the dispatcher answers itself, keyed by
/// the action: a status probe, an invalid challenge request, a skip, a
/// cancel, or an unrecognized action.
pub open spec fn is_direct_response(req: Request, r: Response) -> bool {
    if req.action@ == "status"@ {
        is_status_response(r)
    } else if req.action@ == "captcha_new"@ {
        captcha_new_direct_response(req, r)
    } else if req.action@ == "skip"@ {
        let cb = opt_str_or_empty(req.callback_url);
        if is_valid_callback_url(cb) {
            is_skip_outcome_response(r, normalized_skip_type(requested_skip_type(req.skip_type)))
        } else {
            resp_error(r, callback_url_error_msg(cb))
        }
    } else if req.action@ == "cancel"@ {
        let cb = opt_str_or_empty(req.callback_url);
        if is_valid_callback_url(cb) {
            is_skip_outcome_response(r, "single"@)
        } else {
            resp_error(r, callback_url_error_msg(cb))
        }
    } else {
        resp_error(r, "Unknown action: "@ + req.action@)
    }
}

/// Wraps a failure message in the error envelope.
pub fn error_response(message: String) -> (r: Response)
    ensures
        resp_error(r, message@),
{
    Response {
        status: String::from_str("error"),
        token: None,
        version: None,
        error: Some(message),
        skip_type: None,
    }
}

/// The URL a notification GET contacts: the callback with the skip action
/// and scope appended as query parameters.
pub open spec fn spec_skip_url(callback: Seq<char>, skip_type: Seq<char>) -> Seq<char> {
    callback + "&do=skip&skiptype="@ + skip_type
}

/// Builds the notification URL for a callback and a skip scope.
pub fn skip_url(callback_url: &str, skip_type: &str) -> (r: String)
    ensures
        r@ == spec_skip_url(callback_url@, skip_type@),
{
    let mut url = callback_url.to_owned();
    url.append("&do=skip&skiptype=");
    url.append(skip_type);
    url
}

/// Turns the notifier's result into the reply for an explicit skip or
/// cancel: success is reported as ok with the scope, failure with the
/// notifier's message behind "Skip failed: ".
pub fn skip_response(skip_type: &str, outcome: Result<String, String>) -> (r: Response)
    ensures
        outcome is Ok ==> {
            &&& r.status@ == "ok"@
            &&& r.token is None
            &&& r.version is None
            &&& r.error is None
            &&& r.skip_type matches Some(st) && st@ == skip_type@
        },
        outcome matches Err(e) ==> resp_error(r, "Skip failed: "@ + e@),
{
    match outcome {
        Ok(_) => Response {
            status: String::from_str("ok"),
            token: None,
            version: None,
            error: None,
            skip_type: Some(skip_type.to_owned()),
        },
        Err(e) => {
            let mut msg = String::from_str("Skip failed: ");
            msg.append(e.as_str());
            error_response(msg)
        },
    }
}

/// Reports a skip or cancel to the callback with one notification GET and
/// returns the notifier's own success or failure as the reply.
pub fn handle_skip(callback_url: &str, skip_type: &str) -> (r: Response)
    ensures
        is_skip_outcome_response(r, skip_type@),
{
    let url = skip_url(callback_url, skip_type);
    let outcome = http_get(url.as_str());
    skip_response(skip_type, outcome)
}

/// Notifies the callback with scope "hoster" — best effort, the notifier's
/// own failure ignored — and reports the timeout, so an abandoned challenge
/// degrades to an automatic skip instead of blocking the download queue.
fn timeout_fallback(callback_url: &str) -> (r: Response)
    ensures
        is_timeout_response(r),
{
    let url = skip_url(callback_url, "hoster");
    let _ = http_get(url.as_str());
    Response {
        status: String::from_str("timeout"),
        token: None,
        version: None,
        error: Some(String::from_str("CAPTCHA timed out after 5 minutes")),
        skip_type: Some(String::from_str("hoster")),
    }
}

/// Resolves what a job's wait produced into its terminal reply. A timeout —
/// whether the presenter said so or the deadline simply passed — first
/// triggers the one best-effort notification with scope "hoster".
pub fn resolve_captcha_wait(callback_url: &str, outcome: Option<CaptchaResult>) -> (r: Response)
    ensures
        is_outcome_response(r, outcome),
{
    match outcome {
        Some(CaptchaResult::Solved(token)) => Response {
            status: String::from_str("solved"),
            token: Some(token),
            version: None,
            error: None,
            skip_type: None,
        },
        Some(CaptchaResult::Skipped(kind)) => Response {
            status: String::from_str("skipped"),
            token: None,
            version: None,
            error: None,
            skip_type: Some(kind),
        },
        Some(CaptchaResult::Cancelled) => Response {
            status: String::from_str("cancelled"),
            token: None,
            version: None,
            error: None,
            skip_type: None,
        },
        Some(CaptchaResult::Timeout) => timeout_fallback(callback_url),
        None => timeout_fallback(callback_url),
    }
}

#[verifier::external_type_specification]
#[verifier::external_body]
#[verifier::reject_recursive_types(T)]
pub struct ExReceiver<T>(crossbeam::channel::Receiver<T>);

/// Relies on crossbeam::channel::Receiver::recv_timeout: it blocks until a
/// message arrives, every sender is gone, or the deadline passes; the two
/// failure cases both mean no outcome was delivered in time. Which case
/// happens depends on the presenter and the clock, so nothing is promised
/// of the result.
#[verifier::external_body]
fn recv_outcome(rx: &crossbeam::channel::Receiver<CaptchaResult>, secs: u64) -> (r: Option<
    CaptchaResult,
>) {
    match rx.recv_timeout(std::time::Duration::from_secs(secs)) {
        Ok(v) => Some(v),
        Err(_) => None,
    }
}

/// Blocks on a job's outcome channel with the 300-second deadline — the one
/// suspension point in the system — and resolves whatever it produced.
/// Whatever the presenter did, the reply is the one owed for some outcome.
pub fn await_outcome(rx: &crossbeam::channel::Receiver<CaptchaResult>, callback_url: &str) -> (r:
    Response)
    ensures
        exists|o: Option<CaptchaResult>| is_outcome_response(r, o),
{
    let outcome = recv_outcome(rx, JOB_TIMEOUT_SECS);
    let r = resolve_captcha_wait(callback_url, outcome);
    proof {
        assert(is_outcome_response(r, outcome));
    }
    r
}

/// Runs one job. The presenter is window-system code outside this library,
/// available only in the helper's Windows build: here starting it always
/// fails, so the job is considered never started and gets the immediate
/// error, exactly as the helper answers on every other platform. A host
/// with a presenter hands the job off itself and resolves the wait through
/// `await_outcome`.
pub fn handle_captcha(job: CaptchaJob) -> (r: Response)
    ensures
        resp_error(r, "CAPTCHA solving only supported on Windows"@),
{
    error_response(String::from_str("CAPTCHA solving only supported on Windows"))
}

/// Routes one request: answers status probes, invalid challenge requests,
/// skips, cancels and unknown actions itself, and hands back the validated
/// job for a challenge request both of whose fields passed validation.
pub fn dispatch_request(request: Request) -> (r: Dispatch)
    ensures
        !spec_wants_job(request) ==> (r matches Dispatch::Respond(resp) && is_direct_response(
            request,
            resp,
        )),
        spec_wants_job(request) ==> (r matches Dispatch::RunJob(job) && job_from_request(
            job,
            request,
        )),
{
    proof {
        reveal_strlit("status");
        reveal_strlit("captcha_new");
        reveal_strlit("skip");
        reveal_strlit("cancel");
    }
    if str_eq(request.action.as_str(), "status") {
        proof {
            assert("status"@.len() != "captcha_new"@.len());
        }
        Dispatch::Respond(
            Response {
                status: String::from_str("ok"),
                token: None,
                version: Some(String::from_str(VERSION)),
                error: None,
                skip_type: None,
            },
        )
    } else if str_eq(request.action.as_str(), "captcha_new") {
        let sk_input = match request.site_key {
            Some(s) => s,
            None => String::new(),
        };
        let site_key = match validate_site_key(sk_input.as_str()) {
            Ok(k) => k,
            Err(e) => {
                return Dispatch::Respond(error_response(e));
            },
        };
        let cb_input = match request.callback_url {
            Some(s) => s,
            None => String::new(),
        };
        let callback_url = match validate_callback_url(cb_input.as_str()) {
            Ok(u) => u,
            Err(e) => {
                return Dispatch::Respond(error_response(e));
            },
        };
        Dispatch::RunJob(
            CaptchaJob {
                site_key,
                site_key_type: request.site_key_type,
                challenge_type: request.challenge_type,
                callback_url,
                hoster: request.hoster,
                v3action: request.v3action,
                enterprise: request.enterprise,
                test: match request.test {
                    Some(b) => b,
                    None => false,
                },
            },
        )
    } else if str_eq(request.action.as_str(), "skip") {
        let cb_input = match request.callback_url {
            Some(s) => s,
            None => String::new(),
        };
        let callback_url = match validate_callback_url(cb_input.as_str()) {
            Ok(u) => u,
            Err(e) => {
                return Dispatch::Respond(error_response(e));
            },
        };
        let requested = match request.skip_type {
            Some(s) => s,
            None => String::from_str("single"),
        };
        let skip_type = validate_skip_type(requested.as_str());
        Dispatch::Respond(handle_skip(callback_url.as_str(), skip_type.as_str()))
    } else if str_eq(request.action.as_str(), "cancel") {
        let cb_input = match request.callback_url {
            Some(s) => s,
            None => String::new(),
        };
        let callback_url = match validate_callback_url(cb_input.as_str()) {
            Ok(u) => u,
            Err(e) => {
                return Dispatch::Respond(error_response(e));
            },
        };
        Dispatch::Respond(handle_skip(callback_url.as_str(), "single"))
    } else {
        let mut msg = String::from_str("Unknown action: ");
        msg.append(request.action.as_str());
        Dispatch::Respond(error_response(msg))
    }
}

/// Handles one request end to end: everything the dispatcher can answer is
/// answered, and a fully valid challenge request goes to `handle_captcha`,
/// whose presenter cannot start here.
pub fn handle_request(request: Request) -> (r: Response)
    ensures
        !spec_wants_job(request) ==> is_direct_response(request, r),
        spec_wants_job(request) ==> resp_error(r, "CAPTCHA solving only supported on Windows"@),
{
    match dispatch_request(request) {
        Dispatch::Respond(resp) => resp,
        Dispatch::RunJob(job) => handle_captcha(job),
    }
}

} // verus!
