use crate::error::Error;
use crate::request::{
    auth_header_value, header_value_ok, is_valid_header_value, parse_uri, uri_accepts, Method, RestRequest,
    DEFAULT_TIMEOUT_MS,
};
use vstd::prelude::*;

verus! {

/// Where requests are sent: a literal address, a cached one, a static host.
pub trait AddressProvider: Sized {
    /// Must return a string that represents either a host or a host with port.
    fn get_address(&self) -> String;

    /// An independently owned copy, to hand to another owner.
    fn clone_box(&self) -> Self;
}

/// The URI text of a request for `path`: `https://<address>/<prefix><path>`.
pub open spec fn request_uri(address: Seq<char>, prefix: Seq<char>, path: Seq<char>) -> Seq<char> {
    "https://"@ + address + "/"@ + prefix + path
}

/// Builds the requests of the API: every one goes over HTTPS to the address
/// the provider gives, below an optional path prefix, with the logical
/// hostname as its `Host` header.
#[derive(Clone)]
pub struct RequestFactory<P: AddressProvider> {
    hostname: String,
    address_provider: P,
    path_prefix: Option<String>,
    /// Timeout in milliseconds of the requests the factory builds.
    pub timeout: u64,
}

impl<P: AddressProvider> RequestFactory<P> {
    /// The timeout in milliseconds of the requests the factory builds.
    pub closed spec fn spec_timeout(&self) -> u64 {
        self.timeout
    }

    /// The provider of the address requests are sent to.
    pub closed spec fn spec_provider(&self) -> P {
        self.address_provider
    }

    pub closed spec fn spec_hostname(&self) -> Seq<char> {
        self.hostname@
    }

    /// The path prefix, the empty text where there is none.
    pub closed spec fn spec_prefix(&self) -> Seq<char> {
        match self.path_prefix {
            Some(p) => p@,
            None => Seq::empty(),
        }
    }

    /// A request just built by this factory for `address`: the method, the
    /// URI, the `Host` header and the timeout, no body and no auth.
    pub open spec fn built(
        &self,
        r: RestRequest,
        address: Seq<char>,
        path: Seq<char>,
        method: Method,
        timeout: u64,
    ) -> bool {
        &&& r.spec_method() == method
        &&& r.spec_uri_text() == request_uri(address, self.spec_prefix(), path)
        &&& r.spec_host() == Some(self.spec_hostname())
        &&& r.spec_json_body() is None
        &&& r.spec_timeout() == timeout
        &&& r.spec_auth() is None
    }

    /// What building a request for `address` and `path` gives: `UriError`
    /// where the URI text does not parse, `HttpError` where the hostname
    /// cannot stand in a header, else the request.
    pub open spec fn outcome_ok(
        &self,
        r: Result<RestRequest, Error>,
        address: Seq<char>,
        path: Seq<char>,
        method: Method,
        timeout: u64,
    ) -> bool {
        if !uri_accepts(request_uri(address, self.spec_prefix(), path)) {
            r == Err::<RestRequest, Error>(Error::UriError)
        } else if !header_value_ok(self.spec_hostname()) {
            r == Err::<RestRequest, Error>(Error::HttpError)
        } else {
            r matches Ok(req) && self.built(req, address, path, method, timeout)
        }
    }

    /// What building a JSON POST request for `address` and `path` gives.
    pub open spec fn json_outcome_ok(
        &self,
        r: Result<RestRequest, Error>,
        address: Seq<char>,
        path: Seq<char>,
        body: Seq<u8>,
        timeout: u64,
    ) -> bool {
        let uri = request_uri(address, self.spec_prefix(), path);
        if !uri_accepts(uri) {
            r == Err::<RestRequest, Error>(Error::UriError)
        } else if !header_value_ok(self.spec_hostname()) {
            r == Err::<RestRequest, Error>(Error::HttpError)
        } else {
            r matches Ok(req) && {
                &&& req.spec_method() == Method::Post
                &&& req.spec_uri_text() == uri
                &&& req.spec_host() == Some(self.spec_hostname())
                &&& req.spec_json_body() == Some(body)
                &&& req.spec_timeout() == timeout
                &&& req.spec_auth() is None
            }
        }
    }

    pub fn new(hostname: String, address_provider: P, path_prefix: Option<String>) -> (r: Self)
        ensures
            r.spec_hostname() == hostname@,
            r.spec_provider() == address_provider,
            r.spec_prefix() == (match path_prefix {
                Some(p) => p@,
                None => Seq::<char>::empty(),
            }),
            r.spec_timeout() == DEFAULT_TIMEOUT_MS,
    {
        RequestFactory { hostname, address_provider, path_prefix, timeout: DEFAULT_TIMEOUT_MS }
    }

    /// The URI text for `path` at `address`.
    pub fn uri_for(&self, address: &str, path: &str) -> (r: String)
        ensures
            r@ == request_uri(address@, self.spec_prefix(), path@),
    {
        let mut uri = "https://".to_string();
        uri.append(address);
        uri.append("/");
        match &self.path_prefix {
            Some(prefix) => uri.append(prefix.as_str()),
            None => {},
        }
        uri.append(path);
        uri
    }

    /// Builds a request for `path` sent to `address`, with the factory's
    /// timeout.
    pub fn request_at(&self, address: &str, path: &str, method: Method) -> (r: Result<
        RestRequest,
        Error,
    >)
        ensures
            self.outcome_ok(r, address@, path@, method, self.spec_timeout()),
    {
        let built = self.assemble_at(address, path, method, None);
        self.with_timeout(built)
    }

    /// Builds a POST request for `path` sent to `address`, carrying the
    /// serialized JSON `body`, with the factory's timeout.
    pub fn post_json_at(&self, address: &str, path: &str, body: Vec<u8>) -> (r: Result<
        RestRequest,
        Error,
    >)
        ensures
            self.json_outcome_ok(r, address@, path@, body@, self.spec_timeout()),
    {
        let built = self.assemble_at(address, path, Method::Post, Some(body));
        self.with_timeout(built)
    }

    fn assemble_at(&self, address: &str, path: &str, method: Method, body: Option<Vec<u8>>) -> (r:
        Result<RestRequest, Error>)
        ensures
            !uri_accepts(request_uri(address@, self.spec_prefix(), path@)) ==> r == Err::<
                RestRequest,
                Error,
            >(Error::UriError),
            uri_accepts(request_uri(address@, self.spec_prefix(), path@)) && !header_value_ok(
                self.spec_hostname(),
            ) ==> r == Err::<RestRequest, Error>(Error::HttpError),
            uri_accepts(request_uri(address@, self.spec_prefix(), path@)) && header_value_ok(
                self.spec_hostname(),
            ) ==> (r matches Ok(req) && {
                &&& req.spec_method() == method
                &&& req.spec_uri_text() == request_uri(address@, self.spec_prefix(), path@)
                &&& req.spec_host() == Some(self.spec_hostname())
                &&& req.spec_json_body() == (match body {
                    Some(b) => Some(b@),
                    None => None::<Seq<u8>>,
                })
                &&& req.spec_auth() is None
            }),
    {
        let uri_text = self.uri_for(address, path);
        match parse_uri(uri_text.as_str()) {
            Err(_) => Err(Error::UriError),
            Ok((uri, _)) => {
                if !is_valid_header_value(self.hostname.as_str()) {
                    return Err(Error::HttpError);
                }
                Ok(RestRequest::assemble(method, uri, uri_text, Some(self.hostname.clone()), body))
            },
        }
    }

    /// Builds a request for `path` at the provider's current address.
    pub fn request(&self, path: &str, method: Method) -> (r: Result<RestRequest, Error>)
        ensures
            exists|address: Seq<char>| self.outcome_ok(r, address, path@, method, self.spec_timeout()),
    {
        let address = self.address_provider.get_address();
        let out = self.request_at(address.as_str(), path, method);
        assert(self.outcome_ok(out, address@, path@, method, self.spec_timeout()));
        out
    }

    /// A GET request for `path`.
    pub fn get(&self, path: &str) -> (r: Result<RestRequest, Error>)
        ensures
            exists|address: Seq<char>| self.outcome_ok(r, address, path@, Method::Get, self.spec_timeout()),
    {
        self.request(path, Method::Get)
    }

    /// A POST request for `path` without a body.
    pub fn post(&self, path: &str) -> (r: Result<RestRequest, Error>)
        ensures
            exists|address: Seq<char>| self.outcome_ok(r, address, path@, Method::Post, self.spec_timeout()),
    {
        self.request(path, Method::Post)
    }

    /// A DELETE request for `path`.
    pub fn delete(&self, path: &str) -> (r: Result<RestRequest, Error>)
        ensures
            exists|address: Seq<char>| self.outcome_ok(r, address, path@, Method::Delete, self.spec_timeout()),
    {
        self.request(path, Method::Delete)
    }

    /// A POST request for `path` carrying the serialized JSON `body`, at the
    /// provider's current address.
    pub fn post_json(&self, path: &str, body: Vec<u8>) -> (r: Result<RestRequest, Error>)
        ensures
            exists|address: Seq<char>| self.json_outcome_ok(r, address, path@, body@, self.spec_timeout()),
    {
        let address = self.address_provider.get_address();
        let ghost body_view = body@;
        let out = self.post_json_at(address.as_str(), path, body);
        assert(self.json_outcome_ok(out, address@, path@, body_view, self.spec_timeout()));
        out
    }

    fn with_timeout(&self, r: Result<RestRequest, Error>) -> (out: Result<RestRequest, Error>)
        ensures
            match r {
                Ok(req) => out matches Ok(o) && {
                    &&& o.spec_timeout() == self.spec_timeout()
                    &&& o.spec_method() == req.spec_method()
                    &&& o.spec_uri_text() == req.spec_uri_text()
                    &&& o.spec_host() == req.spec_host()
                    &&& o.spec_json_body() == req.spec_json_body()
                    &&& o.spec_auth() == req.spec_auth()
                },
                Err(e) => out == Err::<RestRequest, Error>(e),
            },
    {
        match r {
            Ok(mut req) => {
                req.set_timeout(self.timeout);
                Ok(req)
            },
            Err(e) => Err(e),
        }
    }
}

/// `r` is `built` with the token `auth` attached: the `Authorization`
/// header is `Token <auth>`, or absent for `None`; a token that cannot stand
/// in a header gives `InvalidHeaderError`.
pub open spec fn authenticated(built: RestRequest, auth: Option<String>, r: Result<RestRequest, Error>) -> bool {
    match auth {
        Some(token) if !header_value_ok(auth_header_value(token@)) => r == Err::<RestRequest, Error>(
            Error::InvalidHeaderError,
        ),
        _ => r matches Ok(req) && {
            &&& req.spec_method() == built.spec_method()
            &&& req.spec_uri_text() == built.spec_uri_text()
            &&& req.spec_host() == built.spec_host()
            &&& req.spec_json_body() == built.spec_json_body()
            &&& req.spec_timeout() == built.spec_timeout()
            &&& req.spec_auth() == match auth {
                Some(token) => Some(auth_header_value(token@)),
                None => None,
            }
        },
    }
}

/// Attaches the token to a request the factory built, as the request
/// functions of the API do right before the request is submitted.
pub fn authorize(request: Result<RestRequest, Error>, auth: Option<String>) -> (r: Result<RestRequest, Error>)
    ensures
        match request {
            Err(e) => r == Err::<RestRequest, Error>(e),
            Ok(built) => authenticated(built, auth, r),
        },
{
    match request {
        Err(e) => Err(e),
        Ok(mut req) => {
            match req.set_auth(auth) {
                Ok(()) => Ok(req),
                Err(e) => Err(e),
            }
        },
    }
}

} // verus!
