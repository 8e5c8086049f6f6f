//! The Access Guard: every state-mutating, staff-facing request passes a
//! constant-time credential check and, for mutating methods, an origin-based
//! cross-site check. Both are pure functions of the request and the immutable
//! configuration, so they run before the Lifecycle Engine is reached and
//! short-circuit the request on failure.

use vstd::prelude::*;
use vstd::string::StrSliceExecFns;
use vstd::string::StringExecFns;

verus! {

/// What base64 (standard alphabet, with padding) makes of a string's UTF-8
/// bytes; a function of the characters alone.
pub uninterp spec fn base64_std(s: Seq<char>) -> Seq<char>;

/// Relies on base64's STANDARD engine: standard-alphabet, padded base64 of
/// the string's UTF-8 bytes, determined by the characters alone.
#[verifier::external_body]
fn base64_encode(s: &str) -> (r: String)
    ensures
        r@ == base64_std(s@),
{
    base64::Engine::encode(&base64::engine::general_purpose::STANDARD, s.as_bytes())
}

/// Relies on constant_time_eq::constant_time_eq: true exactly when the two
/// byte strings are equal, in time that does not vary with the position of
/// the first differing byte. Two strings are equal exactly when their UTF-8
/// bytes are.
#[verifier::external_body]
fn constant_time_str_eq(a: &str, b: &str) -> (r: bool)
    ensures
        r == (a@ == b@),
{
    constant_time_eq::constant_time_eq(a.as_bytes(), b.as_bytes())
}

/// The HTTP methods the guard distinguishes: anything beyond the mutating
/// three and the common read methods lands on `Other`.
#[derive(Clone, Copy, PartialEq, Eq, Structural, Debug)]
pub enum Method {
    Get,
    Head,
    Post,
    Put,
    Delete,
    Other,
}

impl Method {
    /// Only state-changing methods face the origin check; a GET never does.
    pub open spec fn is_mutating_spec(self) -> bool {
        self == Method::Post || self == Method::Put || self == Method::Delete
    }

    pub fn is_mutating(&self) -> (r: bool)
        ensures
            r == self.is_mutating_spec(),
    {
        match self {
            Method::Post => true,
            Method::Put => true,
            Method::Delete => true,
            _ => false,
        }
    }
}

/// How the guard answers a request: pass it on, challenge the credential,
/// or refuse the origin. The two failures carry distinct user-facing
/// messages and never say which part of the credential was wrong.
#[derive(Clone, Copy, PartialEq, Eq, Structural, Debug)]
pub enum GuardOutcome {
    Allow,
    Unauthorized,
    Forbidden,
}

impl GuardOutcome {
    /// The HTTP status the outcome is rendered with.
    pub fn status_code(&self) -> (r: u16)
        ensures
            self == GuardOutcome::Allow ==> r == 200,
            self == GuardOutcome::Unauthorized ==> r == 401,
            self == GuardOutcome::Forbidden ==> r == 403,
    {
        match self {
            GuardOutcome::Allow => 200,
            GuardOutcome::Unauthorized => 401,
            GuardOutcome::Forbidden => 403,
        }
    }

    /// The user-facing message of a failure; empty when the request passes.
    pub fn message(&self) -> (r: &'static str)
        ensures
            self == GuardOutcome::Allow ==> r@ == ""@,
            self == GuardOutcome::Unauthorized ==> r@ == "Unauthorized: Access Denied"@,
            self == GuardOutcome::Forbidden ==> r@ == "Forbidden: CSRF Check Failed (Invalid Origin)"@,
    {
        match self {
            GuardOutcome::Allow => "",
            GuardOutcome::Unauthorized => "Unauthorized: Access Denied",
            GuardOutcome::Forbidden => "Forbidden: CSRF Check Failed (Invalid Origin)",
        }
    }
}

/// The authentication challenge sent with an `Unauthorized` outcome, as the
/// value of a `WWW-Authenticate` header.
pub fn auth_challenge() -> (r: &'static str)
    ensures
        r@ == "Basic realm=\"Admin Area\""@,
{
    "Basic realm=\"Admin Area\""
}

/// The immutable configuration the guard closes over: the deployment's base
/// URL and the pre-computed expected value of the authentication header.
pub struct GuardConfig {
    pub base_url: String,
    pub expected_auth: String,
}

/// The expected authentication header: the scheme word, then the base64 of
/// `admin:{password}`.
pub open spec fn expected_auth_of(password: Seq<char>) -> Seq<char> {
    "Basic "@ + base64_std("admin:"@ + password)
}

impl GuardConfig {
    /// Builds the configuration once at startup from the externally supplied
    /// base URL and admin password.
    pub fn new(base_url: String, admin_password: &str) -> (r: GuardConfig)
        ensures
            r.base_url@ == base_url@,
            r.expected_auth@ == expected_auth_of(admin_password@),
    {
        let mut creds = String::from_str("admin:");
        creds.append(admin_password);
        let encoded = base64_encode(creds.as_str());
        let mut expected = String::from_str("Basic ");
        expected.append(encoded.as_str());
        GuardConfig { base_url, expected_auth: expected }
    }
}

/// The characters of an optional header value.
pub open spec fn opt_view(s: Option<&str>) -> Option<Seq<char>> {
    match s {
        Some(x) => Some(x@),
        None => None,
    }
}

/// A missing credential is a mismatch, not a separate code path.
pub open spec fn credential_ok(auth: Option<Seq<char>>, expected: Seq<char>) -> bool {
    auth == Some(expected)
}

/// The `Origin` header, falling back to `Referer`, must prefix-match the
/// configured base URL; a mutating request with neither header fails.
pub open spec fn origin_ok(
    origin: Option<Seq<char>>,
    referer: Option<Seq<char>>,
    base: Seq<char>,
) -> bool {
    match origin {
        Some(o) => base.is_prefix_of(o),
        None => match referer {
            Some(rf) => base.is_prefix_of(rf),
            None => false,
        },
    }
}

/// The guard's whole decision on one request.
pub open spec fn guard_spec(
    method: Method,
    auth: Option<Seq<char>>,
    origin: Option<Seq<char>>,
    referer: Option<Seq<char>>,
    base: Seq<char>,
    expected: Seq<char>,
) -> GuardOutcome {
    if !credential_ok(auth, expected) {
        GuardOutcome::Unauthorized
    } else if method.is_mutating_spec() && !origin_ok(origin, referer, base) {
        GuardOutcome::Forbidden
    } else {
        GuardOutcome::Allow
    }
}

/// Whether `s` begins with the characters of `prefix`.
pub fn starts_with(s: &str, prefix: &str) -> (r: bool)
    ensures
        r == prefix@.is_prefix_of(s@),
{
    let n = prefix.unicode_len();
    let m = s.unicode_len();
    if m < n {
        return false;
    }
    for i in 0..n
        invariant
            n == prefix@.len(),
            m == s@.len(),
            n <= m,
            forall|j: int| 0 <= j < i ==> s@[j] == prefix@[j],
    {
        if s.get_char(i) != prefix.get_char(i) {
            proof {
                assert(s@.subrange(0, n as int)[i as int] == s@[i as int]);
            }
            return false;
        }
    }
    proof {
        assert(prefix@ =~= s@.subrange(0, n as int));
    }
    true
}

/// Decides one inbound request: challenge a wrong or missing credential,
/// refuse a mutating request whose origin does not match the deployment,
/// pass everything else on to the engine.
pub fn check_request(
    config: &GuardConfig,
    method: Method,
    auth: Option<&str>,
    origin: Option<&str>,
    referer: Option<&str>,
) -> (r: GuardOutcome)
    ensures
        r == guard_spec(
            method,
            opt_view(auth),
            opt_view(origin),
            opt_view(referer),
            config.base_url@,
            config.expected_auth@,
        ),
{
    let credential = match auth {
        Some(a) => constant_time_str_eq(a, config.expected_auth.as_str()),
        None => false,
    };
    if !credential {
        return GuardOutcome::Unauthorized;
    }
    if method.is_mutating() {
        let origin_valid = match origin {
            Some(o) => starts_with(o, config.base_url.as_str()),
            None => match referer {
                Some(rf) => starts_with(rf, config.base_url.as_str()),
                None => false,
            },
        };
        if !origin_valid {
            return GuardOutcome::Forbidden;
        }
    }
    GuardOutcome::Allow
}

} // verus!
