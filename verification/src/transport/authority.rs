//! The endpoint an HTTP transport may talk to, and the check that every
//! request URL stays on it.
use crate::error::{HostError, HostErrorCode};
use crate::text::{byte_len, str_eq, utf8};
use crate::session::opt_chars;
use crate::transport::PrivateResolutionPolicy;
use reqwest::Url;
use vstd::prelude::*;

verus! {

#[verifier::external_type_specification]
#[verifier::external_body]
pub struct ExUrl(reqwest::Url);

/// A URL as the `url` crate reports it: scheme, host, port (the one given,
/// or the scheme's default), path, and the whole serialization.
pub struct UrlParts {
    pub scheme: String,
    pub host: Option<String>,
    pub port: Option<u16>,
    pub path: String,
    pub text: String,
}

/// The parts of a URL as plain values, in the order of `UrlParts`.
pub open spec fn url_model(p: UrlParts) -> (Seq<char>, Option<Seq<char>>, Option<u16>, Seq<char>, Seq<char>) {
    (p.scheme@, opt_chars(p.host), p.port, p.path@, p.text@)
}

/// What `Url::parse` makes of `raw`, read back through `scheme`,
/// `host_str`, `port_or_known_default`, `path` and `as_str`; `None` when
/// `raw` is not an absolute URL.
pub uninterp spec fn parsed_url_parts(raw: Seq<char>) -> Option<(Seq<char>, Option<Seq<char>>, Option<u16>, Seq<char>, Seq<char>)>;

/// What `Url::join` makes of `input` against the URL that `base` parses
/// to, read back as for `parsed_url_parts`; `None` when `base` does not
/// parse or the join fails.
pub uninterp spec fn joined_url_parts(base: Seq<char>, input: Seq<char>) -> Option<(Seq<char>, Option<Seq<char>>, Option<u16>, Seq<char>, Seq<char>)>;

/// The serialization (`Url::as_str`) of the URL that `raw` parses to, once
/// `set_fragment(None)`, `set_query(None)` and `set_path(path)` have been
/// applied to it.
pub uninterp spec fn rebased_url_text(raw: Seq<char>, path: Seq<char>) -> Seq<char>;

/// The serialization of a URL (`Url::as_str`).
pub uninterp spec fn url_serialization(url: Url) -> Seq<char>;

/// `Url::parse`, and the parts of the parsed URL; on failure, the parse
/// error's text. Trusted: the parts are `parsed_url_parts(raw)`, and a
/// failure comes exactly where that is `None`; the URL's serialization is
/// the text among the parts.
#[verifier::external_body]
fn url_parse(raw: &str) -> (parsed: Result<(Url, UrlParts), String>)
    ensures
        match parsed {
            Ok((u, p)) => parsed_url_parts(raw@) == Some(url_model(p)) && url_serialization(u)
                == p.text@,
            Err(_) => parsed_url_parts(raw@) is None,
        },
{
    match Url::parse(raw) {
        Ok(url) => {
            let (scheme, host, port) = (url.scheme().to_owned(), url.host_str().map(str::to_owned), url.port_or_known_default());
            let parts = UrlParts { scheme, host, port, path: url.path().to_owned(), text: url.as_str().to_owned() };
            Ok((url, parts))
        },
        Err(error) => Err(error.to_string()),
    }
}

/// `Url::join` of `input` against the URL that `base` parses to, and the
/// parts of the result; on failure, the error's text. Trusted: the parts
/// are `joined_url_parts(base, input)`, and a failure comes exactly where
/// that is `None`; the joined URL's serialization is the text among the
/// parts. A URL is its serialization (`Url` compares by it, and
/// the crate checks that parsing a serialization gives it back), so
/// joining against the re-parsed text is joining against the URL itself.
#[verifier::external_body]
fn url_join(base: &str, input: &str) -> (joined: Result<(Url, UrlParts), String>)
    ensures
        match joined {
            Ok((u, p)) => joined_url_parts(base@, input@) == Some(url_model(p)) && url_serialization(u)
                == p.text@,
            Err(_) => joined_url_parts(base@, input@) is None,
        },
{
    let joined = match Url::parse(base) {
        Ok(base) => base.join(input),
        Err(error) => Err(error),
    };
    match joined {
        Ok(url) => {
            let (scheme, host, port) = (url.scheme().to_owned(), url.host_str().map(str::to_owned), url.port_or_known_default());
            let parts = UrlParts { scheme, host, port, path: url.path().to_owned(), text: url.as_str().to_owned() };
            Ok((url, parts))
        },
        Err(error) => Err(error.to_string()),
    }
}

/// `Url::parse(raw)` followed by `set_fragment(None)`, `set_query(None)`,
/// `set_path(path)` and `as_str`. Trusted: the text is
/// `rebased_url_text(raw, path)`. `raw` must parse, and the new
/// serialization must keep within the `u32` byte offsets the `url` crate
/// keeps (`set_path` unwraps that conversion): it is at most the parsed
/// serialization, a leading `/`, and the path with each byte
/// percent-encoded into at most three.
#[verifier::external_body]
fn url_rebased_text(raw: &str, path: &str) -> (text: String)
    requires
        parsed_url_parts(raw@) is Some,
        rebase_fits(raw@, path@),
    ensures
        text@ == rebased_url_text(raw@, path@),
{
    match Url::parse(raw) {
        Ok(mut url) => {
            url.set_fragment(None);
            url.set_query(None);
            url.set_path(path);
            url.as_str().to_owned()
        },
        Err(_) => String::new(),
    }
}

/// ASCII letters in lower case, every other character unchanged.
pub open spec fn ascii_lower(s: Seq<char>) -> Seq<char> {
    Seq::new(
        s.len(),
        |i: int|
            if 'A' <= s[i] <= 'Z' {
                ((s[i] as u32) + 32) as char
            } else {
                s[i]
            },
    )
}

/// `str::to_ascii_lowercase`, which std documents as mapping `'A'..='Z'`
/// to `'a'..='z'` and leaving every other character unchanged.
#[verifier::external_body]
fn to_ascii_lowercase(s: &str) -> (lower: String)
    ensures
        lower@ == ascii_lower(s@),
{
    s.to_ascii_lowercase()
}

/// Why a base URL is refused.
pub enum BaseUrlFault {
    Scheme,
    MissingHost,
    MissingPort,
}

/// Whether a parsed base URL can be an endpoint: an `http` or `https`
/// scheme, a host, and a port.
pub open spec fn base_url_fault(scheme: Seq<char>, host: Option<Seq<char>>, port: Option<u16>) -> Option<BaseUrlFault> {
    if scheme != "http"@ && scheme != "https"@ {
        Some(BaseUrlFault::Scheme)
    } else if host is None {
        Some(BaseUrlFault::MissingHost)
    } else if port is None {
        Some(BaseUrlFault::MissingPort)
    } else {
        None
    }
}

/// Whether the URL `raw` parses to can take `path` as its path within the
/// `u32` byte offsets of the `url` crate.
pub open spec fn rebase_fits(raw: Seq<char>, path: Seq<char>) -> bool {
    let m = parsed_url_parts(raw)->0;
    utf8(m.4).len() + 3 * utf8(path).len() + 1 <= u32::MAX
}

/// Whether `raw` can be the base URL of an authority: it parses, its parts
/// name an endpoint, and its directory path fits the `url` crate's offsets.
pub open spec fn base_url_accepted(raw: Seq<char>) -> bool {
    parsed_url_parts(raw) matches Some(m) && base_url_fault(m.0, m.1, m.2) is None && rebase_fits(
        raw,
        directory_path(m.3),
    )
}

/// The message of the error that refuses `raw` as a base URL.
pub open spec fn base_url_refusal(raw: Seq<char>) -> Seq<char> {
    match parsed_url_parts(raw) {
        None => "invalid HTTP base URL"@,
        Some(m) => match base_url_fault(m.0, m.1, m.2) {
            Some(BaseUrlFault::Scheme) => "HTTP transport endpoint must use http or https"@,
            Some(BaseUrlFault::MissingHost) => "HTTP base URL is missing a host"@,
            Some(BaseUrlFault::MissingPort) => "HTTP base URL is missing a port"@,
            None => "invalid HTTP base URL"@,
        },
    }
}

/// A path that names a directory: it ends with `/`.
pub open spec fn directory_path(path: Seq<char>) -> Seq<char> {
    if path.len() > 0 && path.last() == '/' {
        path
    } else {
        path + "/"@
    }
}

/// The endpoint of an accepted base URL: its scheme, its host in lower
/// case, and its port.
pub open spec fn endpoint_from(raw: Seq<char>) -> (Seq<char>, Seq<char>, u16) {
    let m = parsed_url_parts(raw)->0;
    (m.0, ascii_lower(m.1->0), m.2->0)
}

/// The base text of an accepted base URL: no fragment, no query, and a
/// directory path.
pub open spec fn base_text_from(raw: Seq<char>) -> Seq<char> {
    let m = parsed_url_parts(raw)->0;
    rebased_url_text(raw, directory_path(m.3))
}

/// The number of `/` at the start of `s`.
pub open spec fn leading_slashes(s: Seq<char>) -> nat
    decreases s.len(),
{
    if s.len() > 0 && s[0] == '/' {
        1 + leading_slashes(s.skip(1))
    } else {
        0
    }
}

/// `s` without the `/` it starts with.
pub open spec fn trim_leading_slashes(s: Seq<char>) -> Seq<char> {
    s.skip(leading_slashes(s) as int)
}

proof fn lemma_leading_slashes(s: Seq<char>, i: int)
    requires
        0 <= i <= s.len(),
        forall|j: int| 0 <= j < i ==> s[j] == '/',
        i == s.len() || s[i] != '/',
    ensures
        leading_slashes(s) == i,
    decreases i,
{
    if i > 0 {
        let t = s.skip(1);
        assert forall|j: int| 0 <= j < i - 1 implies t[j] == '/' by {
            assert(t[j] == s[j + 1]);
        }
        if i < s.len() {
            assert(t[i - 1] == s[i]);
        }
        lemma_leading_slashes(t, i - 1);
    }
}

/// `path` without its leading slashes (`str::trim_start_matches('/')`).
fn without_leading_slashes(path: &str) -> (trimmed: &str)
    ensures
        trimmed@ == trim_leading_slashes(path@),
{
    let n = path.unicode_len();
    let mut i: usize = 0;
    while i < n && path.get_char(i) == '/'
        invariant
            n == path@.len(),
            i <= n,
            forall|j: int| 0 <= j < i ==> path@[j] == '/',
        decreases n - i,
    {
        i = i + 1;
    }
    proof {
        lemma_leading_slashes(path@, i as int);
        assert(path@.subrange(i as int, n as int) =~= path@.skip(i as int));
    }
    path.substring_char(i, n)
}

/// Whether `path` ends with `/`.
fn ends_with_slash(path: &str) -> (ends: bool)
    ensures
        ends == (path@.len() > 0 && path@.last() == '/'),
{
    let n = path.unicode_len();
    n > 0 && path.get_char(n - 1) == '/'
}

/// `path` made a directory: a `/` is added unless it ends with one.
fn as_directory(path: &str) -> (directory: String)
    ensures
        directory@ == directory_path(path@),
{
    let mut directory = path.to_owned();
    if !ends_with_slash(path) {
        directory.append("/");
    }
    directory
}

/// The endpoint `(scheme, lowercase host, port)` of a parsed base URL, or
/// the error that refuses it.
pub fn endpoint_of(parts: &UrlParts) -> (endpoint: Result<(String, String, u16), HostError>)
    ensures
        match base_url_fault(parts.scheme@, opt_chars(parts.host), parts.port) {
            None => endpoint matches Ok((s, h, p)) && s@ == parts.scheme@ && h@ == ascii_lower(
                parts.host->0@,
            ) && p == parts.port->0,
            Some(BaseUrlFault::Scheme) => endpoint matches Err(e) && e.code
                == HostErrorCode::InvalidRequest && e.message@
                == "HTTP transport endpoint must use http or https"@ && e.details@.len() == 1
                && e.details@[0].0@ == "scheme"@ && e.details@[0].1@ == parts.scheme@,
            Some(BaseUrlFault::MissingHost) => endpoint matches Err(e) && e.code
                == HostErrorCode::InvalidRequest && e.message@ == "HTTP base URL is missing a host"@,
            Some(BaseUrlFault::MissingPort) => endpoint matches Err(e) && e.code
                == HostErrorCode::InvalidRequest && e.message@ == "HTTP base URL is missing a port"@,
        },
{
    if !str_eq(parts.scheme.as_str(), "http") && !str_eq(parts.scheme.as_str(), "https") {
        return Err(
            HostError::new(
                HostErrorCode::InvalidRequest,
                "HTTP transport endpoint must use http or https",
            ).with_detail("scheme", parts.scheme.clone()),
        );
    }
    let host = match &parts.host {
        Some(host) => to_ascii_lowercase(host.as_str()),
        None => return Err(HostError::new(HostErrorCode::InvalidRequest, "HTTP base URL is missing a host")),
    };
    let port = match parts.port {
        Some(port) => port,
        None => return Err(HostError::new(HostErrorCode::InvalidRequest, "HTTP base URL is missing a port")),
    };
    Ok((parts.scheme.clone(), host, port))
}

/// Whether a request URL, as the `url` crate reported its parts, is on
/// the endpoint: same scheme, same host ignoring ASCII case, same port.
pub open spec fn on_endpoint(scheme: Seq<char>, host: Option<Seq<char>>, port: Option<u16>, endpoint: (Seq<char>, Seq<char>, u16)) -> bool {
    &&& scheme == endpoint.0
    &&& host matches Some(h) && ascii_lower(h) == endpoint.1
    &&& port == Some(endpoint.2)
}

/// The URL parsed and, lower-cased, its host is exactly `host`.
pub open spec fn accepted_host(parts: Option<(Seq<char>, Option<Seq<char>>, Option<u16>, Seq<char>, Seq<char>)>, host: Seq<char>) -> bool {
    match parts {
        Some((_, Some(h), _, _, _)) => ascii_lower(h) == host,
        _ => false,
    }
}

/// The URL parsed, but it has no host or, lower-cased, another host than
/// `host`.
pub open spec fn refused_host(parts: Option<(Seq<char>, Option<Seq<char>>, Option<u16>, Seq<char>, Seq<char>)>, host: Seq<char>) -> bool {
    match parts {
        Some((_, None, _, _, _)) => true,
        Some((_, Some(h), _, _, _)) => ascii_lower(h) != host,
        None => false,
    }
}

/// Two URLs that one endpoint accepts name the same host, up to ASCII
/// case, and that host is the endpoint's.
pub proof fn lemma_accepted_urls_share_the_host(a: Option<Seq<char>>, b: Option<Seq<char>>, scheme_a: Seq<char>, scheme_b: Seq<char>, port_a: Option<u16>, port_b: Option<u16>, endpoint: (Seq<char>, Seq<char>, u16))
    requires
        on_endpoint(scheme_a, a, port_a, endpoint),
        on_endpoint(scheme_b, b, port_b, endpoint),
    ensures
        a is Some && b is Some,
        ascii_lower(a->0) == endpoint.1,
        ascii_lower(a->0) == ascii_lower(b->0),
        scheme_a == scheme_b && port_a == port_b,
{
}

pub fn endpoint_admits(endpoint_scheme: &str, endpoint_host: &str, endpoint_port: u16, parts: &UrlParts) -> (admitted: bool)
    ensures
        admitted == on_endpoint(
            parts.scheme@,
            opt_chars(parts.host),
            parts.port,
            (endpoint_scheme@, endpoint_host@, endpoint_port),
        ),
        admitted ==> parts.host is Some && ascii_lower(parts.host->0@) == endpoint_host@,
        admitted ==> parts.scheme@ == endpoint_scheme@ && parts.port == Some(endpoint_port),
        (parts.host is None || ascii_lower(parts.host->0@) != endpoint_host@) ==> !admitted,
{
    if !str_eq(parts.scheme.as_str(), endpoint_scheme) {
        return false;
    }
    let host_matches = match &parts.host {
        Some(host) => str_eq(to_ascii_lowercase(host.as_str()).as_str(), endpoint_host),
        None => false,
    };
    host_matches && match parts.port {
        Some(port) => port == endpoint_port,
        None => false,
    }
}

/// The base URL and endpoint of one HTTP transport, and whether the
/// endpoint may resolve to private addresses.
#[derive(Debug, PartialEq, Eq)]
pub struct TransportEndpointAuthority {
    base_text: String,
    scheme: String,
    host: String,
    port: u16,
    private_resolution: PrivateResolutionPolicy,
}

impl Clone for TransportEndpointAuthority {
    fn clone(&self) -> (copy: TransportEndpointAuthority)
        ensures
            copy.endpoint_view() == self.endpoint_view(),
            copy.base_view() == self.base_view(),
            copy.policy() == self.policy(),
    {
        TransportEndpointAuthority {
            base_text: self.base_text.clone(),
            scheme: self.scheme.clone(),
            host: self.host.clone(),
            port: self.port,
            private_resolution: self.private_resolution,
        }
    }
}

impl TransportEndpointAuthority {
    pub closed spec fn endpoint_view(&self) -> (Seq<char>, Seq<char>, u16) {
        (self.scheme@, self.host@, self.port)
    }

    pub closed spec fn base_view(&self) -> Seq<char> {
        self.base_text@
    }

    pub closed spec fn policy(&self) -> PrivateResolutionPolicy {
        self.private_resolution
    }

    /// This authority is the one made from base URL `raw` under `policy`.
    pub open spec fn made_from(&self, raw: Seq<char>, policy: PrivateResolutionPolicy) -> bool {
        &&& self.endpoint_view() == endpoint_from(raw)
        &&& self.base_view() == base_text_from(raw)
        &&& self.policy() == policy
    }

    /// The authority of a base URL: it must parse, use `http` or `https`,
    /// and name a host and a port; its fragment and query are dropped and
    /// its path made a directory.
    pub fn try_new(base_url: &str, private_resolution: PrivateResolutionPolicy) -> (authority: Result<TransportEndpointAuthority, HostError>)
        ensures
            match authority {
                Ok(a) => base_url_accepted(base_url@) && a.made_from(base_url@, private_resolution),
                Err(e) => !base_url_accepted(base_url@) && e.code == HostErrorCode::InvalidRequest
                    && e.message@ == base_url_refusal(base_url@),
            },
            parsed_url_parts(base_url@) is None ==> (authority matches Err(e) && e.details@.len() == 2
                && e.details@[0].0@ == "url"@ && e.details@[0].1@ == base_url@ && e.details@[1].0@
                == "error"@),
            match parsed_url_parts(base_url@) {
                Some(m) => base_url_fault(m.0, m.1, m.2) matches Some(BaseUrlFault::Scheme) ==> (
                authority matches Err(e) && e.details@.len() == 1 && e.details@[0].0@ == "scheme"@
                    && e.details@[0].1@ == m.0),
                None => true,
            },
    {
        let (_url, parts) = match url_parse(base_url) {
            Ok(parsed) => parsed,
            Err(reason) => return Err(
                HostError::new(HostErrorCode::InvalidRequest, "invalid HTTP base URL").with_detail(
                    "url",
                    base_url.to_owned(),
                ).with_detail("error", reason),
            ),
        };
        let (scheme, host, port) = match endpoint_of(&parts) {
            Ok(endpoint) => endpoint,
            Err(error) => return Err(error),
        };
        let directory = as_directory(parts.path.as_str());
        let text_len = byte_len(parts.text.as_str()) as u64;
        let directory_len = byte_len(directory.as_str()) as u64;
        let fits = match directory_len.checked_mul(3) {
            Some(encoded) => match encoded.checked_add(text_len) {
                Some(total) => total < 0xffff_ffff,
                None => false,
            },
            None => false,
        };
        if !fits {
            return Err(
                HostError::new(HostErrorCode::InvalidRequest, "invalid HTTP base URL").with_detail(
                    "url",
                    base_url.to_owned(),
                ).with_detail("error", "base URL exceeds the URL length limit".to_owned()),
            );
        }
        let base_text = url_rebased_text(base_url, directory.as_str());
        Ok(TransportEndpointAuthority { base_text, scheme, host, port, private_resolution })
    }

    pub fn base_url(&self) -> (base: &str)
        ensures
            base@ == self.base_view(),
    {
        self.base_text.as_str()
    }

    pub fn private_resolution(&self) -> (policy: PrivateResolutionPolicy)
        ensures
            policy == self.policy(),
    {
        self.private_resolution
    }

    /// Scheme, lowercase host and port of the endpoint.
    pub fn endpoint(&self) -> (endpoint: (&str, &str, u16))
        ensures
            (endpoint.0@, endpoint.1@, endpoint.2) == self.endpoint_view(),
    {
        (self.scheme.as_str(), self.host.as_str(), self.port)
    }

    /// Accepts exactly the URLs whose parts are on this endpoint.
    fn authorize(&self, parts: &UrlParts) -> (authorized: Result<(), HostError>)
        ensures
            match authorized {
                Ok(()) => on_endpoint(parts.scheme@, opt_chars(parts.host), parts.port, self.endpoint_view()),
                Err(e) => !on_endpoint(parts.scheme@, opt_chars(parts.host), parts.port, self.endpoint_view())
                    && self.outside_endpoint_error(e, parts.text@),
            },
    {
        if !endpoint_admits(self.scheme.as_str(), self.host.as_str(), self.port, parts) {
            return Err(
                HostError::new(
                    HostErrorCode::AuthorityDenied,
                    "HTTP request is outside the configured transport endpoint",
                ).with_detail("url", parts.text.clone()).with_detail("authority", self.base_text.clone()),
            );
        }
        Ok(())
    }

    /// The error that refuses URL `url` as outside this endpoint.
    pub open spec fn outside_endpoint_error(&self, e: HostError, url: Seq<char>) -> bool {
        &&& e.code == HostErrorCode::AuthorityDenied
        &&& e.message@ == "HTTP request is outside the configured transport endpoint"@
        &&& e.details@.len() == 2
        &&& e.details@[0].0@ == "url"@
        &&& e.details@[0].1@ == url
        &&& e.details@[1].0@ == "authority"@
        &&& e.details@[1].1@ == self.base_view()
    }

    /// `path`, without its leading slashes, resolved below the base URL; it
    /// must stay on the endpoint.
    pub fn join(&self, path: &str) -> (joined: Result<Url, HostError>)
        ensures
            match joined_url_parts(self.base_view(), trim_leading_slashes(path@)) {
                None => joined matches Err(e) && e.code == HostErrorCode::InvalidRequest && e.message@
                    == "invalid HTTP endpoint URL"@ && e.details@.len() == 2 && e.details@[0].0@
                    == "path"@ && e.details@[0].1@ == path@ && e.details@[1].0@ == "error"@,
                Some(m) => if on_endpoint(m.0, m.1, m.2, self.endpoint_view()) {
                    joined matches Ok(u) && url_serialization(u) == m.4
                } else {
                    joined matches Err(e) && self.outside_endpoint_error(e, m.4)
                },
            },
            joined is Ok ==> accepted_host(
                joined_url_parts(self.base_view(), trim_leading_slashes(path@)),
                self.endpoint_view().1,
            ),
            refused_host(
                joined_url_parts(self.base_view(), trim_leading_slashes(path@)),
                self.endpoint_view().1,
            ) ==> joined is Err,
    {
        let trimmed = without_leading_slashes(path);
        let (url, parts) = match url_join(self.base_text.as_str(), trimmed) {
            Ok(joined) => joined,
            Err(reason) => return Err(
                HostError::new(HostErrorCode::InvalidRequest, "invalid HTTP endpoint URL").with_detail(
                    "path",
                    path.to_owned(),
                ).with_detail("error", reason),
            ),
        };
        match self.authorize(&parts) {
            Ok(()) => Ok(url),
            Err(error) => Err(error),
        }
    }

    /// An absolute URL, which must parse and stay on the endpoint.
    pub fn parse_and_authorize(&self, url: &str) -> (parsed: Result<Url, HostError>)
        ensures
            match parsed_url_parts(url@) {
                None => parsed matches Err(e) && e.code == HostErrorCode::InvalidRequest && e.message@
                    == "invalid HTTP endpoint URL"@ && e.details@.len() == 2 && e.details@[0].0@
                    == "url"@ && e.details@[0].1@ == url@ && e.details@[1].0@ == "error"@,
                Some(m) => if on_endpoint(m.0, m.1, m.2, self.endpoint_view()) {
                    parsed matches Ok(u) && url_serialization(u) == m.4
                } else {
                    parsed matches Err(e) && self.outside_endpoint_error(e, m.4)
                },
            },
            parsed is Ok ==> accepted_host(parsed_url_parts(url@), self.endpoint_view().1),
            refused_host(parsed_url_parts(url@), self.endpoint_view().1) ==> parsed is Err,
    {
        let (parsed, parts) = match url_parse(url) {
            Ok(parsed) => parsed,
            Err(reason) => return Err(
                HostError::new(HostErrorCode::InvalidRequest, "invalid HTTP endpoint URL").with_detail(
                    "url",
                    url.to_owned(),
                ).with_detail("error", reason),
            ),
        };
        match self.authorize(&parts) {
            Ok(()) => Ok(parsed),
            Err(error) => Err(error),
        }
    }
}

} // verus!
