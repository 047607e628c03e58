use pterodactyl_api_client_rust::application::{Client, ClientBuilder, RateLimits};
use pterodactyl_api_client_rust::http::{
    EmptyBody, ErrorHandler, Header, Method, NullErrorHandler, Outcome, RequestBody, Response,
    ResponseBody,
};
use pterodactyl_api_client_rust::Error;

fn client() -> Client {
    ClientBuilder::new("https://panel.example/", "abc").build()
}

fn reply(status: u16, headers: &[(&str, &str)], body: &[u8]) -> Outcome {
    Outcome::Replied(Response {
        status,
        headers: headers.iter().map(|(n, v)| Header::new(n, v)).collect(),
        body: body.to_vec(),
    })
}

/// A classifier that reads the body as the name of the failure.
struct BodyAsError;

impl ErrorHandler for BodyAsError {
    fn get_error(response: Response) -> Option<Error> {
        if response.body.is_empty() {
            None
        } else {
            Some(Error::Operation(String::from_utf8_lossy(&response.body).into_owned()))
        }
    }
}

/// The names of the resources in a list envelope, in document order.
#[derive(Debug, PartialEq)]
struct Names(Vec<String>);

impl ResponseBody for Names {
    fn decode(response: Response) -> Result<Self, Error> {
        let document: serde_json::Value =
            serde_json::from_slice(&response.body).map_err(|_| Error::Decoding)?;
        let data = document.get("data").and_then(|d| d.as_array()).ok_or(Error::Decoding)?;
        let mut names = Vec::new();
        for entry in data {
            let name = entry
                .get("attributes")
                .and_then(|a| a.get("name"))
                .and_then(|n| n.as_str())
                .ok_or(Error::Decoding)?;
            names.push(name.to_string());
        }
        Ok(Names(names))
    }
}

/// A payload that is already encoded, or that cannot be.
struct Raw(Option<Vec<u8>>);

impl RequestBody for Raw {
    fn encode(&self) -> Result<Option<Vec<u8>>, Error> {
        match &self.0 {
            Some(bytes) => Ok(Some(bytes.clone())),
            None => Err(Error::Encoding),
        }
    }
}

#[test]
fn request_targets_base_and_endpoint_with_bearer_token() {
    let request = client().request(Method::Get, "servers");
    assert_eq!(request.method, Method::Get);
    assert_eq!(request.url, "https://panel.example/api/application/servers");
    assert_eq!(
        request.headers,
        vec![
            Header { name: "Accept".to_string(), value: b"application/json".to_vec() },
            Header { name: "Content-Type".to_string(), value: b"application/json".to_vec() },
            Header { name: "Authorization".to_string(), value: b"Bearer abc".to_vec() },
        ]
    );
    assert_eq!(request.body, None);
}

#[test]
fn base_url_gets_one_separator_and_the_api_path() {
    assert_eq!(ClientBuilder::new("https://panel.example", "k").build().url(), "https://panel.example/api/application/");
    assert_eq!(ClientBuilder::new("https://panel.example/", "k").build().url(), "https://panel.example/api/application/");
    assert_eq!(ClientBuilder::new("https://panel.example//", "k").build().url(), "https://panel.example//api/application/");
    assert_eq!(ClientBuilder::new("", "k").build().url(), "/api/application/");
    assert_eq!(
        ClientBuilder::new("https://panel.example/api/application/", "k").build().url(),
        "https://panel.example/api/application/api/application/"
    );
    assert_eq!(ClientBuilder::new("https://p.example/é", "k").build().url(), "https://p.example/é/api/application/");
}

#[test]
fn built_client_keeps_credential_and_has_no_quota() {
    let c = ClientBuilder::new("https://panel.example", "s3cr3t").build();
    assert_eq!(c.api_key(), "s3cr3t");
    assert_eq!(c.get_rate_limits(), None);
}

#[test]
fn status_500_with_unparseable_body_is_http_500_and_keeps_quota() {
    let mut c = client();
    let r = c.get_response::<NullErrorHandler>(reply(500, &[], b"\xff\xfe not json"));
    assert_eq!(r, Err(Error::Http(500)));
    assert_eq!(c.get_rate_limits(), None);
    let r = c.receive::<Names>(reply(500, &[], b"\xff\xfe not json"));
    assert_eq!(r, Err(Error::Http(500)));
    assert_eq!(c.get_rate_limits(), None);
}

#[test]
fn list_envelope_is_decoded_in_order_and_quota_recorded() {
    let mut c = client();
    let body = br#"{"object":"list","data":[{"object":"nest","attributes":{"name":"first"}},{"object":"nest","attributes":{"name":"second"}}]}"#;
    let r = c.receive::<Names>(reply(
        200,
        &[("x-ratelimit-limit", "240"), ("x-ratelimit-remaining", "239")],
        body,
    ));
    assert_eq!(r, Ok(Names(vec!["first".to_string(), "second".to_string()])));
    assert_eq!(c.get_rate_limits(), Some(RateLimits { limit: 240, limit_remaining: 239 }));
}

#[test]
fn status_table_without_classifier() {
    for body in [&b""[..], &b"{\"errors\":[]}"[..], &b"\x00\x01"[..]] {
        let mut c = client();
        assert_eq!(c.get_response::<NullErrorHandler>(reply(403, &[], body)), Err(Error::PermissionError));
        assert_eq!(c.get_response::<NullErrorHandler>(reply(404, &[], body)), Err(Error::ResourceNotFound));
        assert_eq!(c.get_response::<NullErrorHandler>(reply(429, &[], body)), Err(Error::RateLimit));
        assert_eq!(c.receive::<EmptyBody>(reply(403, &[], body)), Err(Error::PermissionError));
        assert_eq!(c.receive::<EmptyBody>(reply(404, &[], body)), Err(Error::ResourceNotFound));
        assert_eq!(c.receive::<EmptyBody>(reply(429, &[], body)), Err(Error::RateLimit));
    }
}

#[test]
fn translate_error_table() {
    assert_eq!(Client::translate_error(403), Error::PermissionError);
    assert_eq!(Client::translate_error(404), Error::ResourceNotFound);
    assert_eq!(Client::translate_error(429), Error::RateLimit);
    assert_eq!(Client::translate_error(500), Error::Http(500));
    assert_eq!(Client::translate_error(302), Error::Http(302));
    assert_eq!(Client::translate_error(199), Error::Http(199));
    assert_eq!(Client::translate_error(300), Error::Http(300));
    assert_eq!(Client::translate_error(0), Error::Http(0));
}

#[test]
fn resolve_failure_prefers_the_classifier() {
    assert_eq!(Client::resolve_failure(404, None), Error::ResourceNotFound);
    assert_eq!(
        Client::resolve_failure(404, Some(Error::Operation("gone".to_string()))),
        Error::Operation("gone".to_string())
    );
    assert_eq!(Client::resolve_failure(502, Some(Error::RateLimit)), Error::RateLimit);
}

#[test]
fn classifier_overrides_the_status_table() {
    let mut c = client();
    let r = c.get_response::<BodyAsError>(reply(403, &[], b"suspended"));
    assert_eq!(r, Err(Error::Operation("suspended".to_string())));
    let r = c.get_response::<BodyAsError>(reply(403, &[], b""));
    assert_eq!(r, Err(Error::PermissionError));
    let r = c.get_response::<BodyAsError>(reply(422, &[], b""));
    assert_eq!(r, Err(Error::Http(422)));
}

#[test]
fn classifier_is_not_asked_about_a_success() {
    let mut c = client();
    let r = c.get_response::<BodyAsError>(reply(204, &[], b"not an error"));
    assert_eq!(
        r,
        Ok(Response { status: 204, headers: vec![], body: b"not an error".to_vec() })
    );
}

#[test]
fn transport_failure_is_a_network_error() {
    let mut c = client();
    c.record(&vec![Header::new("x-ratelimit-limit", "10"), Header::new("x-ratelimit-remaining", "9")]);
    assert_eq!(c.get_response::<NullErrorHandler>(Outcome::TransportFailed), Err(Error::Network));
    assert_eq!(c.receive::<EmptyBody>(Outcome::TransportFailed), Err(Error::Network));
    assert_eq!(c.get_rate_limits(), Some(RateLimits { limit: 10, limit_remaining: 9 }));
}

#[test]
fn success_range_is_200_to_299() {
    let mut c = client();
    assert!(c.get_response::<NullErrorHandler>(reply(200, &[], b"")).is_ok());
    assert!(c.get_response::<NullErrorHandler>(reply(299, &[], b"")).is_ok());
    assert_eq!(c.get_response::<NullErrorHandler>(reply(199, &[], b"")), Err(Error::Http(199)));
    assert_eq!(c.get_response::<NullErrorHandler>(reply(300, &[], b"")), Err(Error::Http(300)));
}

#[test]
fn failed_reply_with_quota_headers_leaves_quota_alone() {
    let mut c = client();
    let r = c.get_response::<NullErrorHandler>(reply(
        429,
        &[("x-ratelimit-limit", "240"), ("x-ratelimit-remaining", "0")],
        b"",
    ));
    assert_eq!(r, Err(Error::RateLimit));
    assert_eq!(c.get_rate_limits(), None);
}

#[test]
fn quota_is_overwritten_not_merged() {
    let mut c = client();
    c.receive::<EmptyBody>(reply(200, &[("x-ratelimit-limit", "240"), ("x-ratelimit-remaining", "239")], b"")).unwrap();
    c.receive::<EmptyBody>(reply(200, &[("x-ratelimit-limit", "60"), ("x-ratelimit-remaining", "12")], b"")).unwrap();
    assert_eq!(c.get_rate_limits(), Some(RateLimits { limit: 60, limit_remaining: 12 }));
}

#[test]
fn quota_is_unchanged_when_a_header_is_missing_or_unreadable() {
    let mut c = client();
    c.receive::<EmptyBody>(reply(200, &[("x-ratelimit-limit", "240"), ("x-ratelimit-remaining", "239")], b"")).unwrap();
    let before = c.get_rate_limits();
    let cases: Vec<Vec<(&str, &str)>> = vec![
        vec![],
        vec![("x-ratelimit-limit", "100")],
        vec![("x-ratelimit-remaining", "99")],
        vec![("x-ratelimit-limit", "100"), ("x-ratelimit-remaining", "")],
        vec![("x-ratelimit-limit", "100"), ("x-ratelimit-remaining", "-1")],
        vec![("x-ratelimit-limit", "1e2"), ("x-ratelimit-remaining", "99")],
        vec![("x-ratelimit-limit", " 100"), ("x-ratelimit-remaining", "99")],
        vec![("x-ratelimit-limit", "100"), ("x-ratelimit-remaining", "99 ")],
        vec![("x-ratelimit-limit", "4294967296"), ("x-ratelimit-remaining", "99")],
        vec![("x-ratelimit-limit", "abc"), ("x-ratelimit-limit", "100"), ("x-ratelimit-remaining", "99")],
    ];
    for headers in cases {
        assert!(c.receive::<EmptyBody>(reply(200, &headers, b"")).is_ok());
        assert_eq!(c.get_rate_limits(), before);
    }
}

#[test]
fn the_same_headers_twice_are_as_good_as_once() {
    let headers = [("x-ratelimit-limit", "240"), ("x-ratelimit-remaining", "239")];
    let mut once = client();
    once.receive::<EmptyBody>(reply(200, &headers, b"")).unwrap();
    let mut twice = client();
    twice.receive::<EmptyBody>(reply(200, &headers, b"")).unwrap();
    twice.receive::<EmptyBody>(reply(200, &headers, b"")).unwrap();
    assert_eq!(once.get_rate_limits(), twice.get_rate_limits());
    assert_eq!(twice.get_rate_limits(), Some(RateLimits { limit: 240, limit_remaining: 239 }));
}

#[test]
fn quota_headers_are_found_whatever_their_case() {
    let mut c = client();
    c.receive::<EmptyBody>(reply(200, &[("X-RateLimit-Limit", "+7"), ("X-RATELIMIT-REMAINING", "007")], b"")).unwrap();
    assert_eq!(c.get_rate_limits(), Some(RateLimits { limit: 7, limit_remaining: 7 }));
}

#[test]
fn quota_from_headers_reads_the_first_value_of_each_name() {
    let headers = vec![
        Header::new("content-type", "application/json"),
        Header::new("x-ratelimit-limit", "240"),
        Header::new("x-ratelimit-limit", "1"),
        Header::new("x-ratelimit-remaining", "4294967295"),
    ];
    assert_eq!(
        RateLimits::from_headers(&headers),
        Some(RateLimits { limit: 240, limit_remaining: 4294967295 })
    );
    assert_eq!(RateLimits::from_headers(&vec![]), None);
    let binary = vec![
        Header { name: "x-ratelimit-limit".to_string(), value: vec![0xff, 0x31] },
        Header::new("x-ratelimit-remaining", "1"),
    ];
    assert_eq!(RateLimits::from_headers(&binary), None);
}

#[test]
fn empty_body_is_read_from_any_successful_reply() {
    let mut c = client();
    assert_eq!(c.receive::<EmptyBody>(reply(204, &[], b"")), Ok(EmptyBody));
    assert_eq!(c.receive::<EmptyBody>(reply(200, &[], b"{\"object\":\"x\"}")), Ok(EmptyBody));
    assert_eq!(c.receive::<EmptyBody>(reply(200, &[], b"\xff\x00 garbage")), Ok(EmptyBody));
    assert_eq!(
        EmptyBody::decode(Response { status: 200, headers: vec![], body: vec![] }),
        Ok(EmptyBody)
    );
}

#[test]
fn empty_body_round_trip() {
    let encoded = EmptyBody.encode().unwrap();
    assert_eq!(encoded, None);
    let back = EmptyBody::decode(Response {
        status: 200,
        headers: vec![],
        body: encoded.unwrap_or_default(),
    });
    assert_eq!(back, Ok(EmptyBody));
}

#[test]
fn undecodable_success_is_a_decoding_error_and_still_records_quota() {
    let mut c = client();
    let r = c.receive::<Names>(reply(
        200,
        &[("x-ratelimit-limit", "5"), ("x-ratelimit-remaining", "4")],
        b"{\"object\":\"list\"}",
    ));
    assert_eq!(r, Err(Error::Decoding));
    assert_eq!(c.get_rate_limits(), Some(RateLimits { limit: 5, limit_remaining: 4 }));
}

#[test]
fn request_with_body_carries_the_encoded_payload() {
    let r = client().request_with_body(Method::Post, "nodes", &Raw(Some(b"{\"name\":\"n\"}".to_vec())));
    let request = r.unwrap();
    assert_eq!(request.method, Method::Post);
    assert_eq!(request.url, "https://panel.example/api/application/nodes");
    assert_eq!(request.body, Some(b"{\"name\":\"n\"}".to_vec()));
    assert_eq!(request.headers.len(), 3);
    assert_eq!(request.headers[2], Header::new("Authorization", "Bearer abc"));
}

#[test]
fn request_with_unencodable_body_is_not_prepared() {
    assert_eq!(client().request_with_body(Method::Post, "nodes", &Raw(None)), Err(Error::Encoding));
}

#[test]
fn request_with_empty_body_has_no_body() {
    let request = client().request_with_body(Method::Delete, "nodes/1", &EmptyBody).unwrap();
    assert_eq!(request, client().request(Method::Delete, "nodes/1"));
    assert_eq!(request.body, None);
}

#[test]
fn method_names() {
    assert_eq!(Method::Get.as_str(), "GET");
    assert_eq!(Method::Post.as_str(), "POST");
    assert_eq!(Method::Put.as_str(), "PUT");
    assert_eq!(Method::Patch.as_str(), "PATCH");
    assert_eq!(Method::Delete.as_str(), "DELETE");
}
