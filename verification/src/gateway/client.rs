//! Gateway addressing and per-request identity: the validated gateway URL,
//! URL construction under `/api/v1` or the unversioned root, the
//! `Authorization` a request carries, and the file name of a downloaded
//! artifact.
//!
//! The client holds no session. Every authorized request carries an
//! `Authorization` resolved per call: the inbound caller's header when
//! present, otherwise a `Basic` header built from configured gvmd
//! credentials. The gateway (backed by gvmd) authorizes each request.

use vstd::prelude::*;
use vstd::utf8::encode_utf8;
use crate::config::Config;
use crate::gateway::auth::{authorization_spec, basic_auth, basic_auth_spec, current_authorization, opt_str_view, opt_string_view};
use crate::json::str_views;
use crate::mcp::tools::common::{owned_views, AuthSpec, CallAuth, ToolCall};
use crate::text::{owned, str_equal};

verus! {

/// What `url::Url::parse` makes of a text: its scheme, its host and its
/// serialization, or the message of the parse error.
pub uninterp spec fn url_parse(input: Seq<char>) -> Result<(Seq<char>, Option<Seq<char>>, Seq<char>), Seq<char>>;

/// The views of a parse outcome.
pub open spec fn parsed_views(r: Result<(String, Option<String>, String), String>) -> Result<
    (Seq<char>, Option<Seq<char>>, Seq<char>),
    Seq<char>,
> {
    match r {
        Ok((scheme, host, serialization)) => Ok(
            (
                scheme@,
                match host {
                    Some(h) => Some(h@),
                    None => None,
                },
                serialization@,
            ),
        ),
        Err(message) => Err(message@),
    }
}

/// Parses a URL with `url::Url::parse` and reads back its scheme
/// (`Url::scheme`), host (`Url::host_str`) and serialization
/// (`Url::as_str`); a parse error is rendered with its `Display`. Claimed:
/// the outcome is `url_parse(input)`.
#[verifier::external_body]
fn parse_url(input: &str) -> (r: Result<(String, Option<String>, String), String>)
    ensures
        parsed_views(r) == url_parse(input@),
{
    match url::Url::parse(input) {
        Ok(url) => Ok((url.scheme().to_owned(), url.host_str().map(str::to_owned), url.as_str().to_owned())),
        Err(err) => Err(err.to_string()),
    }
}

/// `input` parses as an `http` or `https` URL with a host.
pub open spec fn is_http_url(input: Seq<char>) -> bool {
    match url_parse(input) {
        Ok((scheme, host, _)) => (scheme == "http"@ || scheme == "https"@) && host is Some,
        Err(_) => false,
    }
}

/// The serialization `url::Url` gives the URL parsed from `base` after its
/// path is extended: a trailing empty segment is dropped
/// (`PathSegmentsMut::pop_if_empty`), then each segment is appended
/// percent-encoded (`PathSegmentsMut::extend`). `None` when `base` does not
/// parse or cannot be a base.
pub uninterp spec fn url_with_segments(base: Seq<char>, segments: Seq<Seq<char>>) -> Option<Seq<char>>;

/// The size of a list of path segments: their characters plus one
/// separator each.
pub open spec fn segments_size(segments: Seq<Seq<char>>) -> nat
    decreases segments.len(),
{
    if segments.len() == 0 {
        0
    } else {
        segments_size(segments.drop_last()) + segments.last().len() + 1
    }
}

/// Longest URL text handled, in characters: `url` panics on serializations
/// of 4 GiB or more, and a character can take up to 12 bytes once
/// percent-encoded.
pub const MAX_URL_CHARS: usize = 0x1000_0000;

/// Appends path segments to the URL parsed from `base` with `url`:
/// `Url::parse`, `Url::path_segments_mut`, `PathSegmentsMut::pop_if_empty`,
/// `PathSegmentsMut::extend`, then `Url::as_str`. Claimed: the outcome is
/// `url_with_segments(base, segments)`, and an `http(s)` base with a host
/// always takes segments (special-scheme URLs are never cannot-be-a-base).
/// `url` panics when the serialization outgrows `u32`; `requires` keeps
/// inputs far below that.
#[verifier::external_body]
fn append_segments(base: &str, segments: &[&str]) -> (r: Option<String>)
    requires
        base@.len() + segments_size(str_views(segments@)) <= MAX_URL_CHARS,
    ensures
        match r {
            Some(s) => url_with_segments(base@, str_views(segments@)) == Some(s@),
            None => url_with_segments(base@, str_views(segments@)) is None,
        },
        is_http_url(base@) ==> r is Some,
{
    let mut url = match url::Url::parse(base) {
        Ok(url) => url,
        Err(_) => return None,
    };
    match url.path_segments_mut() {
        Ok(mut path) => {
            path.pop_if_empty().extend(segments);
        },
        Err(()) => return None,
    }
    Some(url.as_str().to_owned())
}

/// Why a gateway URL was refused.
#[derive(Debug)]
pub enum GatewayUrlError {
    /// The text is not a URL: the text and the parser's message.
    Invalid { input: String, reason: String },
    /// The scheme is not `http` or `https`; holds the serialized URL.
    NotHttp { url: String },
    /// The URL has no host; holds the serialized URL.
    NoHost { url: String },
}

/// The validated base URL of the gateway: `http` or `https`, with a host.
#[derive(Debug)]
pub struct GatewayUrl {
    input: String,
    serialization: String,
}

impl View for GatewayUrl {
    type V = Seq<char>;

    /// The serialized URL.
    closed spec fn view(&self) -> Seq<char> {
        self.serialization@
    }
}

impl GatewayUrl {
    /// The text the URL was parsed from.
    pub closed spec fn source(&self) -> Seq<char> {
        self.input@
    }

    /// The URL parses from its source as an `http(s)` URL with a host, and
    /// its view is that parse's serialization.
    #[verifier::type_invariant]
    pub closed spec fn wf(&self) -> bool {
        &&& is_http_url(self.input@)
        &&& url_parse(self.input@) matches Ok((_, _, s)) && s == self.serialization@
        &&& self.input@.len() <= MAX_URL_CHARS / 2
    }

    /// Parse and validate a gateway base URL: it must parse, use `http` or
    /// `https`, and have a host.
    pub fn parse(input: &str) -> (r: Result<GatewayUrl, GatewayUrlError>)
        requires
            input@.len() <= MAX_URL_CHARS / 2,
        ensures
            match url_parse(input@) {
                Ok((scheme, host, serialization)) => if !(scheme == "http"@ || scheme == "https"@) {
                    r matches Err(GatewayUrlError::NotHttp { url }) && url@ == serialization
                } else if host is None {
                    r matches Err(GatewayUrlError::NoHost { url }) && url@ == serialization
                } else {
                    r matches Ok(u) && u@ == serialization && u.source() == input@
                },
                Err(reason) => r matches Err(GatewayUrlError::Invalid { input: i, reason: m })
                    && i@ == input@ && m@ == reason,
            },
    {
        match parse_url(input) {
            Ok((scheme, host, serialization)) => {
                if !str_equal(scheme.as_str(), "http") && !str_equal(scheme.as_str(), "https") {
                    return Err(GatewayUrlError::NotHttp { url: serialization });
                }
                match host {
                    None => Err(GatewayUrlError::NoHost { url: serialization }),
                    Some(_) => Ok(GatewayUrl { input: owned(input), serialization }),
                }
            },
            Err(reason) => Err(GatewayUrlError::Invalid { input: owned(input), reason }),
        }
    }

    /// The serialized URL.
    pub fn as_str(&self) -> (r: &str)
        ensures
            r@ == self@,
    {
        self.serialization.as_str()
    }
}

impl Clone for GatewayUrl {
    fn clone(&self) -> (r: Self)
        ensures
            r@ == self@,
            r.source() == self.source(),
    {
        proof {
            use_type_invariant(self);
        }
        GatewayUrl { input: self.input.clone(), serialization: self.serialization.clone() }
    }
}

/// The URL `base` with `segments` appended to its path, keeping any base
/// path prefix (e.g. a gateway mounted behind a reverse proxy at `/gvm`).
pub fn join_url(base: &GatewayUrl, segments: &[&str]) -> (r: String)
    requires
        segments_size(str_views(segments@)) <= MAX_URL_CHARS / 2,
    ensures
        url_with_segments(base.source(), str_views(segments@)) == Some(r@),
{
    proof {
        use_type_invariant(base);
    }
    match append_segments(base.input.as_str(), segments) {
        Some(url) => url,
        None => {
            assert(false);
            String::new()
        },
    }
}

/// The versioned API surface lives under `/api/v1`; liveness and readiness
/// probes live at the unversioned root.
pub open spec fn api_prefix() -> Seq<Seq<char>> {
    seq!["api"@, "v1"@]
}

/// Borrowed views of owned segments, after `prefix`.
fn segment_slices<'a>(prefix: &[&'a str], segments: &'a [String]) -> (r: Vec<&'a str>)
    ensures
        str_views(r@) == str_views(prefix@) + owned_views(segments@),
{
    let mut r: Vec<&'a str> = Vec::new();
    let mut i: usize = 0;
    while i < prefix.len()
        invariant
            i <= prefix@.len(),
            str_views(r@) == str_views(prefix@).take(i as int),
        decreases prefix@.len() - i,
    {
        let ghost before = r@;
        r.push(prefix[i]);
        assert(str_views(r@) =~= str_views(before).push(prefix@[i as int]@));
        assert(str_views(prefix@).take(i + 1) =~= str_views(prefix@).take(i as int).push(prefix@[i as int]@));
        i = i + 1;
    }
    assert(str_views(prefix@).take(prefix@.len() as int) =~= str_views(prefix@));
    let mut j: usize = 0;
    while j < segments.len()
        invariant
            j <= segments@.len(),
            str_views(r@) == str_views(prefix@) + owned_views(segments@).take(j as int),
        decreases segments@.len() - j,
    {
        let ghost before = r@;
        r.push(segments[j].as_str());
        assert(str_views(r@) =~= str_views(before).push(segments@[j as int]@));
        assert(owned_views(segments@).take(j + 1) =~= owned_views(segments@).take(j as int).push(
            segments@[j as int]@,
        ));
        j = j + 1;
    }
    assert(owned_views(segments@).take(segments@.len() as int) =~= owned_views(segments@));
    r
}

/// What the server needs to address the gateway: its base URL and the
/// `Authorization` used when a caller forwards none.
#[derive(Debug)]
pub struct GatewayClient {
    base_url: GatewayUrl,
    /// `Authorization` used when the caller forwards none (stdio, or an HTTP
    /// caller that sent no credentials), built once from the configured
    /// gvmd credentials.
    fallback_auth: Option<String>,
}

impl GatewayClient {
    /// The gateway's base URL.
    pub closed spec fn base(&self) -> GatewayUrl {
        self.base_url
    }

    /// The fallback `Authorization`.
    pub closed spec fn fallback(&self) -> Option<Seq<char>> {
        opt_string_view(self.fallback_auth)
    }

    /// A client for the configured gateway whose fallback identity is a
    /// `Basic` header of the configured credentials.
    pub fn new(config: &Config) -> (r: GatewayClient)
        requires
            encode_utf8(config.username@ + ":"@ + config.password@).len() <= usize::MAX / 2,
        ensures
            r.base()@ == config.gateway_url@,
            r.base().source() == config.gateway_url.source(),
            r.fallback() == Some(basic_auth_spec(config.username@, config.password@)),
    {
        GatewayClient {
            base_url: config.gateway_url.clone(),
            fallback_auth: Some(basic_auth(config.username.as_str(), config.password.as_str())),
        }
    }

    /// The fallback `Authorization`, if any.
    pub fn fallback_auth(&self) -> (r: Option<&str>)
        ensures
            opt_str_view(r) == self.fallback(),
    {
        match &self.fallback_auth {
            Some(a) => Some(a.as_str()),
            None => None,
        }
    }

    /// URL under `/api/v1`.
    pub fn api_url(&self, segments: &[String]) -> (r: String)
        requires
            segments_size(api_prefix() + owned_views(segments@)) <= MAX_URL_CHARS / 2,
        ensures
            url_with_segments(self.base().source(), api_prefix() + owned_views(segments@)) == Some(r@),
    {
        let prefix: [&str; 2] = ["api", "v1"];
        let all = segment_slices(&prefix, segments);
        assert(str_views(prefix@) =~= api_prefix());
        join_url(&self.base_url, all.as_slice())
    }

    /// URL at the unversioned root (health/readiness probes).
    pub fn root_url(&self, segments: &[String]) -> (r: String)
        requires
            segments_size(owned_views(segments@)) <= MAX_URL_CHARS / 2,
        ensures
            url_with_segments(self.base().source(), owned_views(segments@)) == Some(r@),
    {
        let prefix: [&str; 0] = [];
        let all = segment_slices(&prefix, segments);
        assert(str_views(prefix@) + owned_views(segments@) =~= owned_views(segments@));
        join_url(&self.base_url, all.as_slice())
    }

    /// The URL a tool call goes to: under `/api/v1`, or at the root for the
    /// unversioned probes.
    pub fn call_url(&self, call: &ToolCall) -> (r: String)
        requires
            segments_size(api_prefix() + owned_views(call.segments@)) <= MAX_URL_CHARS / 2,
        ensures
            url_with_segments(
                self.base().source(),
                if call.root {
                    owned_views(call.segments@)
                } else {
                    api_prefix() + owned_views(call.segments@)
                },
            ) == Some(r@),
    {
        if call.root {
            proof {
                lemma_segments_size_append(api_prefix(), owned_views(call.segments@));
            }
            self.root_url(call.segments.as_slice())
        } else {
            self.api_url(call.segments.as_slice())
        }
    }

    /// The `Authorization` a tool call carries: none for the unauthenticated
    /// probes; for a forwarded call the caller's header if any, else the
    /// fallback; the fallback for a session login; `Bearer <token>` for a
    /// session's own requests.
    pub fn authorization(&self, call: &ToolCall, caller: Option<String>) -> (r: Option<String>)
        ensures
            opt_string_view(r) == call_authorization(call.auth.spec(), opt_string_view(caller), self.fallback()),
    {
        match &call.auth {
            CallAuth::Anonymous => None,
            CallAuth::Forwarded => current_authorization(caller, self.fallback_auth()),
            CallAuth::Configured => match &self.fallback_auth {
                Some(a) => Some(a.clone()),
                None => None,
            },
            CallAuth::Bearer(token) => {
                let mut r = String::from_str("Bearer ");
                r.append(token.as_str());
                Some(r)
            },
        }
    }
}

/// The `Authorization` of a call with identity `auth`, given the caller's
/// forwarded header and the configured fallback.
pub open spec fn call_authorization(auth: AuthSpec, caller: Option<Seq<char>>, fallback: Option<Seq<char>>) -> Option<Seq<char>> {
    match auth {
        AuthSpec::Anonymous => None,
        AuthSpec::Forwarded => authorization_spec(caller, fallback),
        AuthSpec::Configured => fallback,
        AuthSpec::Bearer(token) => Some("Bearer "@ + token),
    }
}

proof fn lemma_segments_size_append(a: Seq<Seq<char>>, b: Seq<Seq<char>>)
    ensures
        segments_size(a + b) == segments_size(a) + segments_size(b),
    decreases b.len(),
{
    if b.len() == 0 {
        assert(a + b =~= a);
    } else {
        lemma_segments_size_append(a, b.drop_last());
        assert((a + b).drop_last() =~= a + b.drop_last());
    }
}

/// `pat` occurs in `s` at index `i`.
pub open spec fn matches_at(s: Seq<char>, pat: Seq<char>, i: int) -> bool {
    0 <= i && i + pat.len() <= s.len() && s.subrange(i, i + pat.len()) == pat
}

/// The first index at or after `from` where `pat` occurs in `s`.
pub open spec fn find_from(s: Seq<char>, pat: Seq<char>, from: int) -> Option<int>
    recommends
        pat.len() > 0,
    decreases s.len() - from,
{
    if from < 0 || from + pat.len() > s.len() {
        None
    } else if matches_at(s, pat, from) {
        Some(from)
    } else if pat.len() == 0 {
        None
    } else {
        find_from(s, pat, from + 1)
    }
}

/// `s` without its leading `c` characters.
pub open spec fn trim_start_char(s: Seq<char>, c: char) -> Seq<char>
    decreases s.len(),
{
    if s.len() > 0 && s[0] == c {
        trim_start_char(s.drop_first(), c)
    } else {
        s
    }
}

/// `s` without its trailing `c` characters.
pub open spec fn trim_end_char(s: Seq<char>, c: char) -> Seq<char>
    decreases s.len(),
{
    if s.len() > 0 && s.last() == c {
        trim_end_char(s.drop_last(), c)
    } else {
        s
    }
}

/// The file name a `Content-Disposition` value gives: the text after the
/// first `filename=` up to the next `filename=` (or the end), without
/// surrounding double quotes. `None` when there is no `filename=`.
pub open spec fn disposition_filename(value: Seq<char>) -> Option<Seq<char>> {
    match find_from(value, "filename="@, 0) {
        None => None,
        Some(i) => {
            let start = i + "filename="@.len();
            let end = match find_from(value, "filename="@, start) {
                Some(j) => j,
                None => value.len() as int,
            };
            Some(trim_end_char(trim_start_char(value.subrange(start, end), '"'), '"'))
        },
    }
}

fn matches_here(s: &str, n: usize, pat: &str, m: usize, i: usize) -> (r: bool)
    requires
        n == s@.len(),
        m == pat@.len(),
        i + m <= n,
    ensures
        r == matches_at(s@, pat@, i as int),
{
    let mut j: usize = 0;
    while j < m
        invariant
            n == s@.len(),
            m == pat@.len(),
            i + m <= n,
            j <= m,
            forall|k: int| 0 <= k < j ==> s@[i + k] == pat@[k],
        decreases m - j,
    {
        if s.get_char(i + j) != pat.get_char(j) {
            assert(s@.subrange(i as int, i + m)[j as int] != pat@[j as int]);
            return false;
        }
        j = j + 1;
    }
    assert(s@.subrange(i as int, i + m) =~= pat@);
    true
}

fn find_in(s: &str, n: usize, pat: &str, m: usize, from: usize) -> (r: Option<usize>)
    requires
        n == s@.len(),
        m == pat@.len(),
        m > 0,
        from <= n,
    ensures
        match r {
            Some(i) => find_from(s@, pat@, from as int) == Some(i as int),
            None => find_from(s@, pat@, from as int) is None,
        },
{
    if m > n {
        return None;
    }
    let mut i: usize = from;
    while i <= n - m
        invariant
            n == s@.len(),
            m == pat@.len(),
            0 < m <= n,
            from <= i,
            find_from(s@, pat@, from as int) == find_from(s@, pat@, i as int),
        decreases n - i,
    {
        if matches_here(s, n, pat, m, i) {
            return Some(i);
        }
        i = i + 1;
    }
    None
}

/// `s` without surrounding double quotes (std `trim_matches('"')`).
fn trim_quotes(s: &str) -> (r: String)
    ensures
        r@ == trim_end_char(trim_start_char(s@, '"'), '"'),
{
    let n = s.unicode_len();
    let mut a: usize = 0;
    assert(s@.subrange(0, n as int) =~= s@);
    while a < n && s.get_char(a) == '"'
        invariant
            a <= n,
            n == s@.len(),
            trim_start_char(s@.subrange(a as int, n as int), '"') == trim_start_char(s@, '"'),
        decreases n - a,
    {
        assert(s@.subrange(a as int, n as int).drop_first() =~= s@.subrange(a + 1, n as int));
        a = a + 1;
    }
    let ghost front = s@.subrange(a as int, n as int);
    assert(trim_start_char(front, '"') == front);
    let mut b: usize = n;
    assert(front.subrange(0, (b - a) as int) =~= front);
    while b > a && s.get_char(b - 1) == '"'
        invariant
            a <= b <= n,
            n == s@.len(),
            front == s@.subrange(a as int, n as int),
            trim_end_char(s@.subrange(a as int, b as int), '"') == trim_end_char(front, '"'),
        decreases b - a,
    {
        assert(s@.subrange(a as int, b as int).drop_last() =~= s@.subrange(a as int, b - 1));
        b = b - 1;
    }
    owned(s.substring_char(a, b))
}

/// The file name in a `Content-Disposition` header value: what follows
/// `filename=`, unquoted (`attachment; filename="report.pdf"` gives
/// `report.pdf`).
pub fn content_disposition_filename(value: &str) -> (r: Option<String>)
    ensures
        match r {
            Some(f) => disposition_filename(value@) == Some(f@),
            None => disposition_filename(value@) is None,
        },
{
    let pat = "filename=";
    proof {
        reveal_strlit("filename=");
    }
    let n = value.unicode_len();
    let m = pat.unicode_len();
    match find_in(value, n, pat, m, 0) {
        None => None,
        Some(i) => {
            assert(i + m <= n) by {
                lemma_find_from_bounds(value@, pat@, 0, i as int);
            }
            let start = i + m;
            let end = match find_in(value, n, pat, m, start) {
                Some(j) => {
                    proof {
                        lemma_find_from_bounds(value@, pat@, start as int, j as int);
                    }
                    j
                },
                None => n,
            };
            let piece = value.substring_char(start, end);
            Some(trim_quotes(piece))
        },
    }
}

proof fn lemma_find_from_bounds(s: Seq<char>, pat: Seq<char>, from: int, i: int)
    requires
        find_from(s, pat, from) == Some(i),
    ensures
        from <= i,
        i + pat.len() <= s.len(),
    decreases s.len() - from,
{
    if from < 0 || from + pat.len() > s.len() {
    } else if matches_at(s, pat, from) {
    } else if pat.len() == 0 {
    } else {
        lemma_find_from_bounds(s, pat, from + 1, i);
    }
}

} // verus!
