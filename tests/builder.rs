use eventbridge_component::apis::utils::settings::ConfigError;
use eventbridge_component::apis::{ApiRequestBuilder, BuildError};
use eventbridge_component::put_events_api::PutEventsRequestBuilder;
use eventbridge_component::request::{Event, HttpMethod};
use eventbridge_component::send_to_event_bridge;

const NOW: u64 = 1440938160;

fn dict(pairs: &[(&str, &str)]) -> Vec<(String, String)> {
    pairs.iter().map(|(k, v)| (k.to_string(), v.to_string())).collect()
}

fn scenario_config() -> Vec<(String, String)> {
    dict(&[
        ("api_variant", "PublishEvent"),
        ("region", "us-west-2"),
        ("access_key", "AKIDEXAMPLE"),
        ("secret_key", "secret"),
        ("domain", "amazonaws.com"),
    ])
}

fn header<'a>(h: &'a [(String, String)], name: &str) -> Option<&'a str> {
    h.iter().rev().find(|(k, _)| k == name).map(|(_, v)| v.as_str())
}

#[test]
fn end_to_end_publish_request() {
    let event = Event::from_json("{\"type\":\"page\"}".to_string());
    let q = ApiRequestBuilder::new().settings(&scenario_config()).event(&event).build_at(NOW).unwrap();
    assert_eq!(q.url, "https://events.us-west-2.amazonaws.com");
    assert_eq!(q.method, HttpMethod::Post);
    assert!(!q.forward_client_headers);
    assert!(header(&q.headers, "authorization").unwrap().starts_with("AWS4-HMAC-SHA256"));
    assert_eq!(q.body, "{\"type\":\"page\"}");
    assert!(!q.body_fallback);
}

#[test]
fn builder_stages_in_either_order() {
    let event = Event::from_json("{}".to_string());
    let a = ApiRequestBuilder::new().settings(&scenario_config()).event(&event).build_at(NOW).unwrap();
    let b = ApiRequestBuilder::new().event(&event).settings(&scenario_config()).build_at(NOW).unwrap();
    assert_eq!(a.headers, b.headers);
    assert!(ApiRequestBuilder::new().settings(&scenario_config()).event(&event).build().is_ok());
}

#[test]
fn unknown_variant_fails_build() {
    let c = dict(&[("api_variant", "Bogus"), ("region", "us-west-2"), ("access_key", "AK"), ("secret_key", "SK")]);
    let r = ApiRequestBuilder::new().settings(&c).event(&Event::from_json("{}".to_string())).build_at(NOW);
    assert_eq!(r.unwrap_err(), BuildError::Config(ConfigError::UnknownVariant("Bogus".to_string())));
}

#[test]
fn build_without_event_is_incomplete() {
    let r = ApiRequestBuilder::new().settings(&scenario_config()).build_at(NOW);
    assert_eq!(r.unwrap_err(), BuildError::IncompleteBuilder);
    let r = ApiRequestBuilder::new().event(&Event::from_json("{}".to_string())).build_at(NOW);
    assert_eq!(r.unwrap_err(), BuildError::IncompleteBuilder);
}

#[test]
fn unrenderable_event_sends_empty_body() {
    let q = ApiRequestBuilder::new().settings(&scenario_config()).event(&Event::unrenderable()).build_at(NOW).unwrap();
    assert_eq!(q.body, "");
    assert!(q.body_fallback);
}

#[test]
fn signing_failure_surfaces_from_build() {
    let mut c = scenario_config();
    c.push(("security_token".to_string(), "bad\ntoken".to_string()));
    let r = ApiRequestBuilder::new().settings(&c).event(&Event::from_json("{}".to_string())).build_at(NOW);
    assert_eq!(r.unwrap_err(), BuildError::Signing(eventbridge_component::sigv4::SigningError::Rejected));
}

#[test]
fn put_events_request_test_put_events_request_new() {
    assert_eq!(true, true);
    let q = send_to_event_bridge(&Event::from_json("{}".to_string()), &scenario_config(), NOW).unwrap();
    assert_eq!(q.url, "https://events.us-west-2.amazonaws.com");
    assert_eq!(header(&q.headers, "x-amz-date"), Some("20150830T123600Z"));
}

#[test]
fn publish_builder_needs_no_variant() {
    let c = dict(&[("region", "us-west-2"), ("access_key", "AKIDEXAMPLE"), ("secret_key", "secret")]);
    let event = Event::from_json("{}".to_string());
    let q = PutEventsRequestBuilder::new().settings(&c).event(&event).build_at(NOW).unwrap();
    let full = ApiRequestBuilder::new().settings(&scenario_config()).event(&event).build_at(NOW).unwrap();
    assert_eq!(q.url, full.url);
    assert_eq!(q.headers, full.headers);
    let r = PutEventsRequestBuilder::new().settings(&c).build_at(NOW);
    assert_eq!(r.unwrap_err(), BuildError::IncompleteBuilder);
}
