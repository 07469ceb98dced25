use vstd::prelude::*;

use crate::strutil::opt_str_view;
use crate::strutil::str_eq;
use crate::strutil::str_starts_with;

verus! {

/// What url::Url::parse accepts: whether the string parses as an absolute URL.
pub uninterp spec fn url_parse_ok(s: Seq<char>) -> bool;

/// The scheme of a string that parses as an absolute URL.
pub uninterp spec fn url_scheme(s: Seq<char>) -> Seq<char>;

/// The host of a string that parses as an absolute URL, if it has one.
pub uninterp spec fn url_host(s: Seq<char>) -> Option<Seq<char>>;

/// The message the URL parser gives for a string it rejects.
pub uninterp spec fn url_parse_err(s: Seq<char>) -> Seq<char>;

/// The scheme and host of a parsed URL, as plain values.
pub(crate) struct UrlParts {
    pub scheme: String,
    pub host: Option<String>,
}

/// Relies on url::Url::parse, which parses a string as an absolute URL and
/// is a function of the string alone; on Url::scheme, which returns the
/// parsed scheme; on Url::host_str, which returns the parsed host if the URL
/// has one; and on url::ParseError's Display, a fixed message per variant.
#[verifier::external_body]
fn parse_url_parts(s: &str) -> (r: Result<UrlParts, String>)
    ensures
        r is Ok <==> url_parse_ok(s@),
        r matches Ok(p) ==> p.scheme@ == url_scheme(s@) && opt_str_view(p.host) == url_host(s@),
        r matches Err(e) ==> e@ == url_parse_err(s@),
{
    match url::Url::parse(s) {
        Ok(u) => Ok(UrlParts {
            scheme: u.scheme().to_string(),
            host: u.host_str().map(|h| h.to_string()),
        }),
        Err(e) => Err(e.to_string()),
    }
}

/// Longest site key accepted, counted in code points.
pub const MAX_SITE_KEY_LENGTH: usize = 256;

/// A site key may hold ASCII letters, digits, `-` and `_` only.
pub open spec fn is_site_key_char(c: char) -> bool {
    let u = c as u32;
    (48 <= u <= 57) || (65 <= u <= 90) || (97 <= u <= 122) || u == 45 || u == 95
}

/// A well-formed site key: non-empty, at most 256 code points, over the
/// allowed character set.
pub open spec fn is_valid_site_key(s: Seq<char>) -> bool {
    &&& 1 <= s.len() <= MAX_SITE_KEY_LENGTH
    &&& forall|i: int| 0 <= i < s.len() ==> is_site_key_char(#[trigger] s[i])
}

/// The schemes a callback URL may use.
pub open spec fn is_allowed_scheme(s: Seq<char>) -> bool {
    s == "http"@ || s == "https"@
}

/// Loopback-equivalent hosts: the only hosts a callback may point at, so the
/// helper cannot be used as an open relay to arbitrary machines.
pub open spec fn is_loopback_host(h: Seq<char>) -> bool {
    ||| h == "localhost"@
    ||| h == "127.0.0.1"@
    ||| (h.len() >= 4 && h.subrange(0, 4) == "127."@)
    ||| h == "[::1]"@
}

/// A callback URL the helper may contact: absolute, http or https, and
/// pointing at a loopback-equivalent host.
pub open spec fn is_valid_callback_url(s: Seq<char>) -> bool {
    &&& url_parse_ok(s)
    &&& is_allowed_scheme(url_scheme(s))
    &&& url_host(s) matches Some(h) && is_loopback_host(h)
}

/// Is this host loopback-equivalent?
pub fn host_is_loopback(host: &str) -> (r: bool)
    ensures
        r == is_loopback_host(host@),
{
    proof {
        reveal_strlit("127.");
    }
    str_eq(host, "localhost") || str_eq(host, "127.0.0.1") || str_starts_with(host, "127.")
        || str_eq(host, "[::1]")
}

/// The message a rejected callback URL is reported with.
pub open spec fn callback_url_error_msg(s: Seq<char>) -> Seq<char> {
    if !url_parse_ok(s) {
        "Invalid URL: "@ + url_parse_err(s)
    } else if !is_allowed_scheme(url_scheme(s)) {
        "Only http/https schemes allowed"@
    } else if url_host(s) is None {
        "Missing host"@
    } else {
        "Only localhost callbacks allowed"@
    }
}

/// Checks an untrusted callback URL: it must parse as an absolute URL, use
/// http or https, and point at a loopback-equivalent host; returned unchanged
/// when it passes.
pub fn validate_callback_url(url: &str) -> (r: Result<String, String>)
    ensures
        r is Ok <==> is_valid_callback_url(url@),
        r matches Ok(u) ==> u@ == url@,
        r matches Err(e) ==> e@ == callback_url_error_msg(url@),
{
    let parts = match parse_url_parts(url) {
        Ok(p) => p,
        Err(detail) => {
            let mut msg = String::from_str("Invalid URL: ");
            msg.append(detail.as_str());
            return Err(msg);
        },
    };
    if !(str_eq(parts.scheme.as_str(), "http") || str_eq(parts.scheme.as_str(), "https")) {
        return Err(String::from_str("Only http/https schemes allowed"));
    }
    let host = match parts.host {
        Some(h) => h,
        None => {
            return Err(String::from_str("Missing host"));
        },
    };
    if !host_is_loopback(host.as_str()) {
        return Err(String::from_str("Only localhost callbacks allowed"));
    }
    Ok(url.to_owned())
}

/// The closed set of skip scopes a caller may request.
pub open spec fn is_allowed_skip_type(s: Seq<char>) -> bool {
    s == "hoster"@ || s == "package"@ || s == "all"@ || s == "single"@
}

/// Every input maps into the closed set: an allowed literal stays as it is,
/// anything else becomes "single", the safe default scope.
pub open spec fn normalized_skip_type(s: Seq<char>) -> Seq<char> {
    if is_allowed_skip_type(s) {
        s
    } else {
        "single"@
    }
}

/// Maps an untrusted skip type into the closed set of allowed scopes;
/// never fails, since skipping a single download is always safe.
pub fn validate_skip_type(skip_type: &str) -> (r: String)
    ensures
        r@ == normalized_skip_type(skip_type@),
{
    if str_eq(skip_type, "hoster") || str_eq(skip_type, "package") || str_eq(skip_type, "all")
        || str_eq(skip_type, "single") {
        skip_type.to_owned()
    } else {
        String::from_str("single")
    }
}

/// Normalization is total into the closed set: whatever the input, the
/// result is one of the four allowed literals.
pub proof fn lemma_skip_type_normalization_total(s: Seq<char>)
    ensures
        is_allowed_skip_type(normalized_skip_type(s)),
{
}

/// Normalizing a skip type is idempotent: each of the four allowed literals
/// maps to itself, and every other input maps to "single", which is itself
/// an allowed literal.
pub proof fn lemma_skip_type_normalization_idempotent(s: Seq<char>)
    ensures
        normalized_skip_type(normalized_skip_type(s)) == normalized_skip_type(s),
{
}

/// The message a rejected site key is reported with.
pub open spec fn site_key_error_msg(s: Seq<char>) -> Seq<char> {
    if s.len() == 0 {
        "Site key cannot be empty"@
    } else if s.len() > MAX_SITE_KEY_LENGTH {
        "Site key too long (max 256 chars)"@
    } else {
        "Invalid site key format"@
    }
}

/// Checks an untrusted site key against the allowed character set and
/// length bound, returning it unchanged when it passes.
pub fn validate_site_key(key: &str) -> (r: Result<String, String>)
    ensures
        r is Ok <==> is_valid_site_key(key@),
        r matches Ok(k) ==> k@ == key@,
        r matches Err(e) ==> e@ == site_key_error_msg(key@),
{
    let n = key.unicode_len();
    if n == 0 {
        return Err(String::from_str("Site key cannot be empty"));
    }
    if n > MAX_SITE_KEY_LENGTH {
        return Err(String::from_str("Site key too long (max 256 chars)"));
    }
    let mut i: usize = 0;
    while i < n
        invariant
            n == key@.len(),
            1 <= n <= MAX_SITE_KEY_LENGTH,
            0 <= i <= n,
            forall|j: int| 0 <= j < i ==> is_site_key_char(#[trigger] key@[j]),
        decreases n - i,
    {
        let c = key.get_char(i);
        let u = c as u32;
        let allowed = (48 <= u && u <= 57) || (65 <= u && u <= 90) || (97 <= u && u <= 122) || u
            == 45 || u == 95;
        if !allowed {
            return Err(String::from_str("Invalid site key format"));
        }
        i += 1;
    }
    Ok(key.to_owned())
}

} // verus!
