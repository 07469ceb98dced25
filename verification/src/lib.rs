mod captcha;
mod escape;
mod framing;
mod html;
mod http;
mod strutil;
mod validation;

pub use captcha::{await_outcome, dispatch_request, error_response, handle_captcha, handle_request,
    handle_skip, resolve_captcha_wait, skip_response, skip_url, CaptchaJob, CaptchaResult, Dispatch,
    Request, Response, JOB_TIMEOUT_SECS};
pub use escape::{escape_html, escape_js};
pub use framing::{decode_frame_len, encode_frame, MAX_MESSAGE_SIZE};
pub use html::{generate_captcha_html, generate_test_captcha_html};
pub use http::{finish_body, http_get, MAX_RESPONSE_SIZE};
pub use validation::{validate_callback_url, validate_site_key, validate_skip_type};

use vstd::prelude::*;

verus! {

/// The helper's build version, reported on status requests and attached to
/// outbound notification calls.
pub const VERSION: &'static str = "0.1.0";

} // verus!
