use mullvad_rpc::error::Error;
use mullvad_rpc::factory::{authorize, AddressProvider, RequestFactory};
use mullvad_rpc::request::{HeaderName, Method, RestRequest, DEFAULT_TIMEOUT_MS};

#[derive(Clone)]
struct Literal(&'static str);

impl AddressProvider for Literal {
    fn get_address(&self) -> String {
        self.0.to_string()
    }

    fn clone_box(&self) -> Self {
        Literal(self.0)
    }
}

fn factory(prefix: Option<&str>) -> RequestFactory<Literal> {
    RequestFactory::new(
        "api.mullvad.net".to_string(),
        Literal("1.2.3.4"),
        prefix.map(|p| p.to_string()),
    )
}

#[test]
fn factory_uri_joins_address_prefix_and_path() {
    let request = factory(Some("app/v1/")).get("foo").unwrap();
    assert_eq!(request.uri_text(), "https://1.2.3.4/app/v1/foo");
    assert_eq!(request.uri().to_string(), "https://1.2.3.4/app/v1/foo");
    assert_eq!(request.method(), Method::Get);
    assert_eq!(request.host(), Some("api.mullvad.net"));
    assert_eq!(request.auth(), None);
    assert_eq!(request.json_body(), None);
}

#[test]
fn factory_path_is_appended_after_prefix() {
    let request = factory(Some("app/v1/")).get("/app/v1/foo").unwrap();
    assert_eq!(request.uri_text(), "https://1.2.3.4/app/v1//app/v1/foo");
}

#[test]
fn factory_without_prefix() {
    let request = factory(None).post("accounts").unwrap();
    assert_eq!(request.uri_text(), "https://1.2.3.4/accounts");
    assert_eq!(request.method(), Method::Post);
}

#[test]
fn factory_timeout_applies_to_get() {
    let mut f = factory(None);
    assert_eq!(f.timeout, DEFAULT_TIMEOUT_MS);
    f.timeout = 2_500;
    assert_eq!(f.get("relays").unwrap().timeout(), 2_500);
    assert_eq!(f.request("relays", Method::Put).unwrap().timeout(), 2_500);
    assert_eq!(f.delete("device").unwrap().timeout(), 2_500);
    assert_eq!(f.post_json("x", b"{}".to_vec()).unwrap().timeout(), 2_500);
}

#[test]
fn default_timeout_is_ten_seconds() {
    assert_eq!(DEFAULT_TIMEOUT_MS, 10_000);
    assert_eq!(RestRequest::get("https://example.com/").unwrap().timeout(), 10_000);
}

#[test]
fn post_json_carries_body() {
    let body = br#"{"account":"1234"}"#.to_vec();
    let request = factory(Some("app/v1/")).post_json("submit", body.clone()).unwrap();
    assert_eq!(request.method(), Method::Post);
    assert_eq!(request.json_body(), Some(&body[..]));
    assert_eq!(request.uri_text(), "https://1.2.3.4/app/v1/submit");
}

#[test]
fn factory_bad_uri_is_uri_error() {
    let result = factory(None).get("a b");
    assert_eq!(result.err(), Some(Error::UriError));
}

#[test]
fn factory_bad_hostname_is_http_error() {
    let f = RequestFactory::new("bad\nhost".to_string(), Literal("1.2.3.4"), None);
    assert_eq!(f.get("x").err(), Some(Error::HttpError));
}

#[test]
fn request_at_uses_given_address() {
    let request = factory(None).request_at("10.0.0.1:8443", "x", Method::Delete).unwrap();
    assert_eq!(request.uri_text(), "https://10.0.0.1:8443/x");
    assert_eq!(factory(None).uri_for("h", "p"), "https://h/p");
}

#[test]
fn get_uses_uri_host() {
    let request = RestRequest::get("https://api.mullvad.net:443/app/v1/relays").unwrap();
    assert_eq!(request.host(), Some("api.mullvad.net"));
    assert_eq!(request.method(), Method::Get);
    assert_eq!(request.uri_text(), "https://api.mullvad.net:443/app/v1/relays");
}

#[test]
fn get_rejects_invalid_uri() {
    assert_eq!(RestRequest::get("http://[::1").err(), Some(Error::UriError));
}

#[test]
fn get_without_host_has_no_host_header() {
    let request = RestRequest::get("/relative/path").unwrap();
    assert_eq!(request.host(), None);
}

#[test]
fn set_auth_adds_token_header() {
    let mut request = RestRequest::get("https://example.com/").unwrap();
    assert_eq!(request.set_auth(Some("abc123".to_string())), Ok(()));
    assert_eq!(request.auth(), Some("Token abc123"));
    assert_eq!(request.set_auth(None), Ok(()));
    assert_eq!(request.auth(), None);
}

#[test]
fn set_auth_rejects_control_characters() {
    let mut request = RestRequest::get("https://example.com/").unwrap();
    request.set_auth(Some("ok".to_string())).unwrap();
    assert_eq!(
        request.set_auth(Some("bad\ntoken".to_string())),
        Err(Error::InvalidHeaderError)
    );
    assert_eq!(request.auth(), Some("Token ok"));
}

#[test]
fn set_timeout_overrides() {
    let mut request = RestRequest::get("https://example.com/").unwrap();
    request.set_timeout(1);
    assert_eq!(request.timeout(), 1);
}

#[test]
fn authorize_attaches_token_or_passes_error() {
    let built = factory(None).get("me");
    let request = authorize(built, Some("t0k".to_string())).unwrap();
    assert_eq!(request.auth(), Some("Token t0k"));
    assert_eq!(
        authorize(Err(Error::UriError), Some("t".to_string())).err(),
        Some(Error::UriError)
    );
    let built = factory(None).get("me");
    assert_eq!(
        authorize(built, Some("\u{7f}".to_string())).err(),
        Some(Error::InvalidHeaderError)
    );
}

#[test]
fn provider_clone_box_keeps_address() {
    let p = Literal("5.6.7.8");
    assert_eq!(p.clone_box().get_address(), "5.6.7.8");
}

fn header_list(request: &RestRequest) -> Vec<(HeaderName, String)> {
    request.headers()
}

#[test]
fn get_request_headers() {
    let request = factory(None).get("relays").unwrap();
    assert_eq!(
        header_list(&request),
        vec![
            (HeaderName::Accept, "application/json".to_string()),
            (HeaderName::Host, "api.mullvad.net".to_string()),
        ]
    );
}

#[test]
fn json_post_headers_with_auth() {
    let body = vec![b'x'; 1234];
    let request = authorize(factory(None).post_json("submit", body), Some("t".to_string())).unwrap();
    assert_eq!(
        header_list(&request),
        vec![
            (HeaderName::Accept, "application/json".to_string()),
            (HeaderName::Host, "api.mullvad.net".to_string()),
            (HeaderName::ContentLength, "1234".to_string()),
            (HeaderName::ContentType, "application/json".to_string()),
            (HeaderName::Authorization, "Token t".to_string()),
        ]
    );
}

#[test]
fn empty_json_body_has_zero_length() {
    let request = factory(None).post_json("submit", Vec::new()).unwrap();
    assert!(header_list(&request).contains(&(HeaderName::ContentLength, "0".to_string())));
}

#[test]
fn post_json_at_uses_given_address() {
    let request = factory(Some("v1/")).post_json_at("9.9.9.9", "x", b"[]".to_vec()).unwrap();
    assert_eq!(request.uri_text(), "https://9.9.9.9/v1/x");
    assert_eq!(request.json_body(), Some(&b"[]"[..]));
}

#[test]
fn factory_clone_builds_same_requests() {
    let f = factory(Some("app/v1/"));
    let g = f.clone();
    assert_eq!(g.get("foo").unwrap().uri_text(), "https://1.2.3.4/app/v1/foo");
}
