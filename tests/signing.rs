use eventbridge_component::apis::put_events_api::put_events_body::PutEventsBody;
use eventbridge_component::apis::put_events_api::put_events_headers::PutEventsHeaders;
use eventbridge_component::apis::utils::settings::Settings;
use eventbridge_component::request::Event;
use eventbridge_component::sigv4::{auth_list, check_signing_output, is_https_url, list_contains, sign, SigningError};

const GOLDEN_SECRET: &str = "wJalrXUtnFEMI/K7MDENG+bPxRfiCYEXAMPLEKEY";
const GOLDEN_TIME: u64 = 1440938160;

fn header<'a>(h: &'a [(String, String)], name: &str) -> Option<&'a str> {
    h.iter().rev().find(|(k, _)| k == name).map(|(_, v)| v.as_str())
}

fn settings(token: Option<&str>) -> Settings {
    let mut c: Vec<(String, String)> = vec![
        ("api_variant".to_string(), "PublishEvent".to_string()),
        ("region".to_string(), "us-west-2".to_string()),
        ("access_key".to_string(), "AKIDEXAMPLE".to_string()),
        ("secret_key".to_string(), "secret".to_string()),
    ];
    if let Some(t) = token {
        c.push(("security_token".to_string(), t.to_string()));
    }
    Settings::new(&c).unwrap()
}

#[test]
fn sign_matches_post_vanilla_vector() {
    let h = sign("POST", "https://example.amazonaws.com/", "", "AKIDEXAMPLE", GOLDEN_SECRET, &None, "us-east-1", "service", GOLDEN_TIME).unwrap();
    assert_eq!(header(&h, "x-amz-date"), Some("20150830T123600Z"));
    assert_eq!(
        header(&h, "authorization"),
        Some("AWS4-HMAC-SHA256 Credential=AKIDEXAMPLE/20150830/us-east-1/service/aws4_request, SignedHeaders=host;x-amz-date, Signature=5da7c1a2acd57cee7505fc6676e4e544621c30862966e37dddb68e92efbe5d6b")
    );
    assert_eq!(header(&h, "x-amz-security-token"), None);
}

#[test]
fn sign_matches_session_token_vector() {
    let token = "6e86291e8372ff2a2260956d9b8aae1d763fbf315fa00fa31553b73ebf194267".to_string();
    let h = sign("GET", "https://example.amazonaws.com/", "", "AKIDEXAMPLE", GOLDEN_SECRET, &Some(token.clone()), "us-east-1", "service", GOLDEN_TIME).unwrap();
    assert_eq!(header(&h, "x-amz-security-token"), Some(token.as_str()));
    assert_eq!(
        header(&h, "authorization"),
        Some("AWS4-HMAC-SHA256 Credential=AKIDEXAMPLE/20150830/us-east-1/service/aws4_request, SignedHeaders=host;x-amz-date;x-amz-security-token, Signature=07ec1639c89043aa0e3e2de82b96708f198cceab042d4a97044c66dd9f74e7f8")
    );
}

#[test]
fn sign_is_reproducible() {
    let a = sign("POST", "https://events.us-west-2.amazonaws.com", "{}", "AK", "SK", &None, "us-west-2", "event-bridge", GOLDEN_TIME).unwrap();
    let b = sign("POST", "https://events.us-west-2.amazonaws.com", "{}", "AK", "SK", &None, "us-west-2", "event-bridge", GOLDEN_TIME).unwrap();
    assert_eq!(a, b);
    let c = sign("POST", "https://events.us-west-2.amazonaws.com", "{ }", "AK", "SK", &None, "us-west-2", "event-bridge", GOLDEN_TIME).unwrap();
    assert_ne!(header(&a, "authorization"), header(&c, "authorization"));
}

#[test]
fn sign_rejects_non_https_url() {
    let r = sign("POST", "http://example.amazonaws.com/", "", "AK", "SK", &None, "us-east-1", "service", GOLDEN_TIME);
    assert_eq!(r, Err(SigningError::UnsupportedUrl));
    assert!(!is_https_url("example.com"));
    assert!(is_https_url("https://example.com"));
}

#[test]
fn sign_rejects_time_past_year_9999() {
    let r = sign("POST", "https://example.amazonaws.com/", "", "AK", "SK", &None, "us-east-1", "service", 253402300800);
    assert_eq!(r, Err(SigningError::TimeOutOfRange));
    assert!(sign("POST", "https://example.amazonaws.com/", "", "AK", "SK", &None, "us-east-1", "service", 253402300799).is_ok());
}

#[test]
fn sign_rejects_bad_token_value() {
    let r = sign("POST", "https://example.amazonaws.com/", "", "AK", "SK", &Some("bad\ntoken".to_string()), "us-east-1", "service", GOLDEN_TIME);
    assert_eq!(r, Err(SigningError::Rejected));
}

fn sig() -> String {
    "0123456789abcdef".repeat(4)
}

fn auth_value(signed: &str) -> String {
    format!("AWS4-HMAC-SHA256 Credential=AK/20150830/us-east-1/service/aws4_request, SignedHeaders={}, Signature={}", signed, sig())
}

fn signer_output(signed: &str, token: Option<&str>) -> Vec<(String, String)> {
    let mut h = vec![
        ("x-amz-date".to_string(), "20150830T123600Z".to_string()),
        ("authorization".to_string(), auth_value(signed)),
    ];
    if let Some(t) = token {
        h.push(("x-amz-security-token".to_string(), t.to_string()));
    }
    h
}

fn check(h: Vec<(String, String)>, token: Option<&str>) -> Result<Vec<(String, String)>, SigningError> {
    check_signing_output(h, "AK", &token.map(|t| t.to_string()), "us-east-1", "service")
}

#[test]
fn signing_output_check() {
    let good = signer_output("host;x-amz-date;x-amz-security-token", Some("tok"));
    assert_eq!(check(good.clone(), Some("tok")), Ok(good.clone()));
    assert_eq!(check(good, None), Err(SigningError::IncompleteSignature));
    let plain = signer_output("host;x-amz-date", None);
    assert_eq!(check(plain.clone(), None), Ok(plain));
    let unsigned = signer_output("host;x-amz-date", Some("tok"));
    assert_eq!(check(unsigned, Some("tok")), Err(SigningError::IncompleteSignature));
    let listed_without_token = signer_output("host;x-amz-date;x-amz-security-token", None);
    assert_eq!(check(listed_without_token, None), Err(SigningError::IncompleteSignature));
    let missing = vec![("x-amz-date".to_string(), "20150830T123600Z".to_string())];
    assert_eq!(check(missing, None), Err(SigningError::IncompleteSignature));
}

#[test]
fn signing_output_needs_date_and_distinct_names() {
    let no_date = vec![("authorization".to_string(), auth_value("host;x-amz-date"))];
    assert_eq!(check(no_date, None), Err(SigningError::IncompleteSignature));
    let bad_date = vec![
        ("x-amz-date".to_string(), "2015-08-30T1236Z".to_string()),
        ("authorization".to_string(), auth_value("host;x-amz-date")),
    ];
    assert_eq!(check(bad_date, None), Err(SigningError::IncompleteSignature));
    let mut twice = signer_output("host;x-amz-date", None);
    twice.push(("x-amz-date".to_string(), "20150830T123600Z".to_string()));
    assert_eq!(check(twice, None), Err(SigningError::IncompleteSignature));
    let mut upper = signer_output("host;x-amz-date", None);
    upper.push(("X-Amz-Security-Token".to_string(), "tok".to_string()));
    assert_eq!(check(upper, None), Err(SigningError::IncompleteSignature));
}

#[test]
fn signing_output_needs_full_authorization_form() {
    let other_key = vec![
        ("x-amz-date".to_string(), "20150830T123600Z".to_string()),
        ("authorization".to_string(), auth_value("host;x-amz-date").replace("Credential=AK/", "Credential=BK/")),
    ];
    assert_eq!(check(other_key, None), Err(SigningError::IncompleteSignature));
    let other_date = vec![
        ("x-amz-date".to_string(), "20150831T123600Z".to_string()),
        ("authorization".to_string(), auth_value("host;x-amz-date")),
    ];
    assert_eq!(check(other_date, None), Err(SigningError::IncompleteSignature));
    let short_sig = vec![
        ("x-amz-date".to_string(), "20150830T123600Z".to_string()),
        ("authorization".to_string(), auth_value("host;x-amz-date")[..auth_value("host;x-amz-date").len() - 1].to_string()),
    ];
    assert_eq!(check(short_sig, None), Err(SigningError::IncompleteSignature));
    let upper_hex = vec![
        ("x-amz-date".to_string(), "20150830T123600Z".to_string()),
        ("authorization".to_string(), auth_value("host;x-amz-date").replace("abcdef", "ABCDEF")),
    ];
    assert_eq!(check(upper_hex, None), Err(SigningError::IncompleteSignature));
}

#[test]
fn signed_headers_list_parsing() {
    let list: Vec<char> = "host;x-amz-date".chars().collect();
    assert!(list_contains(&list, "host"));
    assert!(list_contains(&list, "x-amz-date"));
    assert!(!list_contains(&list, "x-amz"));
    assert!(!list_contains(&list, "x-amz-security-token"));
    let prefix: Vec<char> = "AWS4-HMAC-SHA256 Credential=AK/20150830/us-east-1/service/aws4_request, SignedHeaders=".chars().collect();
    let auth: Vec<char> = auth_value("host;x-amz-date").chars().collect();
    assert_eq!(auth_list(&auth, &prefix), Some(list));
    let broken: Vec<char> = auth_value("host,x-amz-date").chars().collect();
    assert_eq!(auth_list(&broken, &prefix), None);
}

fn signed_list_of(auth: &str) -> Vec<char> {
    let start = auth.find("SignedHeaders=").unwrap() + "SignedHeaders=".len();
    let end = auth.find(", Signature=").unwrap();
    auth[start..end].chars().collect()
}

#[test]
fn put_events_headers_test_put_events_request_new() {
    assert_eq!(true, true);
    let h = PutEventsHeaders::new(&settings(None));
    assert_eq!(h.get_headers_host(), "https://events.us-west-2.amazonaws.com");
    assert_eq!(h.get_host_name(), "events.us-west-2.amazonaws.com");
    let headers = h.get_headers(&"{}".to_string(), GOLDEN_TIME).unwrap();
    assert_eq!(header(&headers, "host"), Some("events.us-west-2.amazonaws.com"));
    assert_eq!(header(&headers, "content-type"), Some("application/x-amz-json-1.1"));
    assert!(header(&headers, "authorization").unwrap().starts_with("AWS4-HMAC-SHA256 Credential=AKIDEXAMPLE/20150830/us-west-2/event-bridge/aws4_request"));
}

#[test]
fn token_header_is_signed_when_present() {
    let h = PutEventsHeaders::new(&settings(Some("session"))).get_headers(&"{}".to_string(), GOLDEN_TIME).unwrap();
    assert_eq!(header(&h, "x-amz-security-token"), Some("session"));
    assert!(list_contains(&signed_list_of(header(&h, "authorization").unwrap()), "x-amz-security-token"));
    assert_eq!(h.iter().filter(|(k, _)| k.eq_ignore_ascii_case("x-amz-security-token")).count(), 1);
    let h = PutEventsHeaders::new(&settings(None)).get_headers(&"{}".to_string(), GOLDEN_TIME).unwrap();
    assert_eq!(h.iter().filter(|(k, _)| k.eq_ignore_ascii_case("x-amz-security-token")).count(), 0);
    assert!(!list_contains(&signed_list_of(header(&h, "authorization").unwrap()), "x-amz-security-token"));
    for name in ["authorization", "x-amz-date", "host", "content-type"] {
        assert_eq!(h.iter().filter(|(k, _)| k.eq_ignore_ascii_case(name)).count(), 1);
    }
}

#[test]
fn put_events_body_test_put_events_request_new() {
    assert_eq!(true, true);
    let e = Event::from_json("{\"a\":1}".to_string());
    let b = PutEventsBody::new(&e);
    assert_eq!(b.body, "{\"a\":1}");
    assert!(!b.fallback);
    assert_eq!(PutEventsBody::get_body(&e), PutEventsBody::get_body(&e));
    assert_eq!(PutEventsBody::get_body(&e), ("{\"a\":1}".to_string(), false));
    assert_eq!(PutEventsBody::get_body(&Event::unrenderable()), (String::new(), true));
    let b = PutEventsBody::new(&Event::unrenderable());
    assert_eq!(b.body, "");
    assert!(b.fallback);
}
