use crate::error::Error;
use vstd::prelude::*;

verus! {

#[verifier::external_type_specification]
#[verifier::external_body]
pub struct ExUri(http::Uri);

#[verifier::external_type_specification]
#[verifier::external_body]
pub struct ExInvalidUri(http::uri::InvalidUri);

/// Timeout of a request unless the factory or the request says otherwise: 10 s.
pub const DEFAULT_TIMEOUT_MS: u64 = 10_000;

/// Whether `http::Uri::from_str` accepts the text.
pub uninterp spec fn uri_accepts(s: Seq<char>) -> bool;

/// The host part of the URI that `http::Uri::from_str` parses from the text.
pub uninterp spec fn uri_host(s: Seq<char>) -> Option<Seq<char>>;

/// Relies on http's `Uri::from_str`, which accepts exactly the texts of
/// `uri_accepts`, and on `Uri::host` of the parsed value, which gives `uri_host`.
#[verifier::external_body]
pub(crate) fn parse_uri(s: &str) -> (r: Result<(http::Uri, Option<String>), http::uri::InvalidUri>)
    ensures
        r is Ok <==> uri_accepts(s@),
        r matches Ok((_, host)) ==> opt_view(host) == uri_host(s@),
{
    match <http::Uri as std::str::FromStr>::from_str(s) {
        Ok(uri) => {
            let host = uri.host().map(String::from);
            Ok((uri, host))
        },
        Err(e) => Err(e),
    }
}

/// A character that a header value may hold: http checks each byte of the
/// text, and the bytes of a character from 128 up are all accepted.
pub open spec fn header_char_ok(c: char) -> bool {
    (c as u32 >= 32 && c as u32 != 127) || c == '\t'
}

pub open spec fn header_value_ok(s: Seq<char>) -> bool {
    forall|i: int| 0 <= i < s.len() ==> header_char_ok(#[trigger] s[i])
}

/// Relies on http's `HeaderValue::from_str`, which fails exactly when a byte
/// is below 32 (but for the tab) or is 127.
#[verifier::external_body]
pub(crate) fn is_valid_header_value(s: &str) -> (r: bool)
    ensures
        r == header_value_ok(s@),
{
    http::header::HeaderValue::from_str(s).is_ok()
}

pub open spec fn opt_view(s: Option<String>) -> Option<Seq<char>> {
    match s {
        Some(v) => Some(v@),
        None => None,
    }
}

/// The methods the backend API is called with.
#[derive(Debug, Clone, Copy, PartialEq, Eq, Structural)]
pub enum Method {
    Get,
    Post,
    Put,
    Delete,
    Patch,
    Head,
    Options,
}

/// The headers a request carries.
#[derive(Debug, Clone, Copy, PartialEq, Eq, Structural)]
pub enum HeaderName {
    Accept,
    Host,
    ContentLength,
    ContentType,
    Authorization,
}

/// The media type of request and response bodies.
pub open spec fn json_media_type() -> Seq<char> {
    "application/json"@
}

pub open spec fn digit_char(d: nat) -> char {
    if d == 0 {
        '0'
    } else if d == 1 {
        '1'
    } else if d == 2 {
        '2'
    } else if d == 3 {
        '3'
    } else if d == 4 {
        '4'
    } else if d == 5 {
        '5'
    } else if d == 6 {
        '6'
    } else if d == 7 {
        '7'
    } else if d == 8 {
        '8'
    } else {
        '9'
    }
}

/// The decimal text of `n`, without leading zeros.
pub open spec fn decimal(n: nat) -> Seq<char>
    decreases n,
{
    if n < 10 {
        seq![digit_char(n)]
    } else {
        decimal(n / 10) + seq![digit_char(n % 10)]
    }
}

fn digit_text(d: usize) -> (r: &'static str)
    requires
        d < 10,
    ensures
        r@ == seq![digit_char(d as nat)],
{
    proof {
        reveal_strlit("0");
        reveal_strlit("1");
        reveal_strlit("2");
        reveal_strlit("3");
        reveal_strlit("4");
        reveal_strlit("5");
        reveal_strlit("6");
        reveal_strlit("7");
        reveal_strlit("8");
        reveal_strlit("9");
    }
    let r = if d == 0 {
        "0"
    } else if d == 1 {
        "1"
    } else if d == 2 {
        "2"
    } else if d == 3 {
        "3"
    } else if d == 4 {
        "4"
    } else if d == 5 {
        "5"
    } else if d == 6 {
        "6"
    } else if d == 7 {
        "7"
    } else if d == 8 {
        "8"
    } else {
        "9"
    };
    assert(r@ =~= seq![digit_char(d as nat)]);
    r
}

/// Appends the decimal text of `n`.
fn append_decimal(s: &mut String, n: usize)
    ensures
        final(s)@ == old(s)@ + decimal(n as nat),
    decreases n,
{
    if n >= 10 {
        append_decimal(s, n / 10);
    }
    s.append(digit_text(n % 10));
    proof {
        if n >= 10 {
            assert(old(s)@ + decimal((n / 10) as nat) + seq![digit_char((n % 10) as nat)] =~= old(
                s,
            )@ + decimal(n as nat));
        }
    }
}

/// One header as the contracts see it.
pub open spec fn header_view(h: (HeaderName, String)) -> (HeaderName, Seq<char>) {
    (h.0, h.1@)
}

pub open spec fn optional_header(name: HeaderName, value: Option<Seq<char>>) -> Seq<(HeaderName, Seq<char>)> {
    match value {
        Some(v) => seq![(name, v)],
        None => Seq::empty(),
    }
}

/// A REST request that is handed to the request service to be executed.
/// Every request accepts `application/json`; one with a JSON body also
/// declares its type and exact length.
pub struct RestRequest {
    method: Method,
    uri: http::Uri,
    uri_text: String,
    host: Option<String>,
    json_body: Option<Vec<u8>>,
    timeout: u64,
    auth: Option<String>,
}

pub open spec fn auth_header_value(token: Seq<char>) -> Seq<char> {
    "Token "@ + token
}

impl RestRequest {
    pub closed spec fn spec_method(&self) -> Method {
        self.method
    }

    /// The text the request's URI was parsed from.
    pub closed spec fn spec_uri_text(&self) -> Seq<char> {
        self.uri_text@
    }

    /// The value of the `Host` header, if the request has one.
    pub closed spec fn spec_host(&self) -> Option<Seq<char>> {
        opt_view(self.host)
    }

    /// The JSON body, if the request has one.
    pub closed spec fn spec_json_body(&self) -> Option<Seq<u8>> {
        match self.json_body {
            Some(b) => Some(b@),
            None => None,
        }
    }

    /// The timeout in milliseconds.
    pub closed spec fn spec_timeout(&self) -> u64 {
        self.timeout
    }

    /// The value of the `Authorization` header, if any.
    pub closed spec fn spec_auth(&self) -> Option<Seq<char>> {
        opt_view(self.auth)
    }

    /// The headers of the request, in order: `Accept: application/json`,
    /// the `Host` header if any, `Content-Length` (the exact byte count) and
    /// `Content-Type: application/json` for a JSON body, and the
    /// `Authorization` header if any.
    pub open spec fn spec_headers(&self) -> Seq<(HeaderName, Seq<char>)> {
        seq![(HeaderName::Accept, json_media_type())] + optional_header(
            HeaderName::Host,
            self.spec_host(),
        ) + match self.spec_json_body() {
            Some(b) => seq![
                (HeaderName::ContentLength, decimal(b.len())),
                (HeaderName::ContentType, json_media_type()),
            ],
            None => Seq::empty(),
        } + optional_header(HeaderName::Authorization, self.spec_auth())
    }

    /// The headers to send, as `spec_headers` lists them.
    pub fn headers(&self) -> (r: Vec<(HeaderName, String)>)
        ensures
            r@.map_values(|h: (HeaderName, String)| header_view(h)) == self.spec_headers(),
    {
        let mut r: Vec<(HeaderName, String)> = Vec::new();
        r.push((HeaderName::Accept, "application/json".to_string()));
        let ghost s1 = seq![(HeaderName::Accept, json_media_type())];
        assert(r@.map_values(|h: (HeaderName, String)| header_view(h)) =~= s1);
        if let Some(h) = &self.host {
            r.push((HeaderName::Host, h.clone()));
        }
        let ghost s2 = s1 + optional_header(HeaderName::Host, self.spec_host());
        assert(r@.map_values(|h: (HeaderName, String)| header_view(h)) =~= s2);
        if let Some(b) = &self.json_body {
            let mut length = String::new();
            append_decimal(&mut length, b.len());
            r.push((HeaderName::ContentLength, length));
            r.push((HeaderName::ContentType, "application/json".to_string()));
        }
        let ghost s3 = s2 + match self.spec_json_body() {
            Some(b) => seq![
                (HeaderName::ContentLength, decimal(b.len())),
                (HeaderName::ContentType, json_media_type()),
            ],
            None => Seq::<(HeaderName, Seq<char>)>::empty(),
        };
        assert(r@.map_values(|h: (HeaderName, String)| header_view(h)) =~= s3);
        if let Some(a) = &self.auth {
            r.push((HeaderName::Authorization, a.clone()));
        }
        assert(r@.map_values(|h: (HeaderName, String)| header_view(h)) =~= self.spec_headers());
        r
    }

    pub(crate) fn assemble(
        method: Method,
        uri: http::Uri,
        uri_text: String,
        host: Option<String>,
        json_body: Option<Vec<u8>>,
    ) -> (r: RestRequest)
        ensures
            r.spec_method() == method,
            r.spec_uri_text() == uri_text@,
            r.spec_host() == opt_view(host),
            r.spec_json_body() == (match json_body {
                Some(b) => Some(b@),
                None => None::<Seq<u8>>,
            }),
            r.spec_timeout() == DEFAULT_TIMEOUT_MS,
            r.spec_auth() is None,
    {
        RestRequest { method, uri, uri_text, host, json_body, timeout: DEFAULT_TIMEOUT_MS, auth: None }
    }

    /// Constructs a GET request for the given URI, with the URI's host as the
    /// `Host` header.
    pub fn get(uri: &str) -> (r: Result<RestRequest, Error>)
        ensures
            !uri_accepts(uri@) ==> r == Err::<RestRequest, Error>(Error::UriError),
            uri_accepts(uri@) ==> match uri_host(uri@) {
                Some(h) if !header_value_ok(h) => r == Err::<RestRequest, Error>(
                    Error::InvalidHeaderError,
                ),
                _ => r matches Ok(req) && {
                    &&& req.spec_method() == Method::Get
                    &&& req.spec_uri_text() == uri@
                    &&& req.spec_host() == uri_host(uri@)
                    &&& req.spec_json_body() is None
                    &&& req.spec_timeout() == DEFAULT_TIMEOUT_MS
                    &&& req.spec_auth() is None
                },
            },
    {
        match parse_uri(uri) {
            Err(_) => Err(Error::UriError),
            Ok((parsed, host)) => {
                if let Some(h) = &host {
                    if !is_valid_header_value(h.as_str()) {
                        return Err(Error::InvalidHeaderError);
                    }
                }
                Ok(RestRequest::assemble(Method::Get, parsed, uri.to_string(), host, None))
            },
        }
    }
    /// Sets the `Authorization` header to `Token <auth>`, or removes it for
    /// `None`. A token that cannot stand in a header leaves the request as it
    /// was and gives `InvalidHeaderError`.
    pub fn set_auth(&mut self, auth: Option<String>) -> (r: Result<(), Error>)
        ensures
            match auth {
                Some(token) => if header_value_ok(auth_header_value(token@)) {
                    &&& r is Ok
                    &&& final(self).spec_auth() == Some(auth_header_value(token@))
                } else {
                    &&& r == Err::<(), Error>(Error::InvalidHeaderError)
                    &&& final(self).spec_auth() == old(self).spec_auth()
                },
                None => r is Ok && final(self).spec_auth() is None,
            },
            final(self).spec_method() == old(self).spec_method(),
            final(self).spec_uri_text() == old(self).spec_uri_text(),
            final(self).spec_host() == old(self).spec_host(),
            final(self).spec_json_body() == old(self).spec_json_body(),
            final(self).spec_timeout() == old(self).spec_timeout(),
    {
        match auth {
            Some(token) => {
                let value = "Token ".to_string().concat(token.as_str());
                if !is_valid_header_value(value.as_str()) {
                    return Err(Error::InvalidHeaderError);
                }
                self.auth = Some(value);
            },
            None => {
                self.auth = None;
            },
        }
        Ok(())
    }

    /// Sets the timeout of the request, in milliseconds.
    pub fn set_timeout(&mut self, timeout: u64)
        ensures
            final(self).spec_timeout() == timeout,
            final(self).spec_auth() == old(self).spec_auth(),
            final(self).spec_method() == old(self).spec_method(),
            final(self).spec_uri_text() == old(self).spec_uri_text(),
            final(self).spec_host() == old(self).spec_host(),
            final(self).spec_json_body() == old(self).spec_json_body(),
    {
        self.timeout = timeout;
    }

    /// The timeout of the request, in milliseconds.
    pub fn timeout(&self) -> (r: u64)
        ensures
            r == self.spec_timeout(),
    {
        self.timeout
    }

    /// The URI of the request.
    pub fn uri(&self) -> &http::Uri {
        &self.uri
    }

    /// The text the URI was parsed from.
    pub fn uri_text(&self) -> (r: &str)
        ensures
            r@ == self.spec_uri_text(),
    {
        self.uri_text.as_str()
    }

    pub fn method(&self) -> (r: Method)
        ensures
            r == self.spec_method(),
    {
        self.method
    }

    /// The value of the `Host` header, if any.
    pub fn host(&self) -> (r: Option<&str>)
        ensures
            match r {
                Some(h) => self.spec_host() == Some(h@),
                None => self.spec_host() is None,
            },
    {
        match &self.host {
            Some(h) => Some(h.as_str()),
            None => None,
        }
    }

    /// The JSON body, if any.
    pub fn json_body(&self) -> (r: Option<&[u8]>)
        ensures
            match r {
                Some(b) => self.spec_json_body() == Some(b@),
                None => self.spec_json_body() is None,
            },
    {
        match &self.json_body {
            Some(b) => Some(b.as_slice()),
            None => None,
        }
    }

    /// The value of the `Authorization` header, if any.
    pub fn auth(&self) -> (r: Option<&str>)
        ensures
            match r {
                Some(a) => self.spec_auth() == Some(a@),
                None => self.spec_auth() is None,
            },
    {
        match &self.auth {
            Some(a) => Some(a.as_str()),
            None => None,
        }
    }
}

} // verus!
