use eventbridge_component::apis::utils::settings::{ConfigError, Settings};
use eventbridge_component::apis::ApiVariant;
use eventbridge_component::apis::put_events_api::PutEventsApi;
use eventbridge_component::dict::lookup_value;
use eventbridge_component::put_events_api::Settings as PublishSettings;

fn dict(pairs: &[(&str, &str)]) -> Vec<(String, String)> {
    pairs.iter().map(|(k, v)| (k.to_string(), v.to_string())).collect()
}

fn full_config() -> Vec<(String, String)> {
    dict(&[
        ("api_variant", "PublishEvent"),
        ("region", "us-west-2"),
        ("access_key", "AKIDEXAMPLE"),
        ("secret_key", "secret"),
    ])
}

#[test]
fn settings_test_settings() {
    assert_eq!(true, true);
    let s = Settings::new(&full_config()).unwrap();
    assert_eq!(s.api_variant, ApiVariant::PutEvents(PutEventsApi));
    assert_eq!(s.region, "us-west-2");
    assert_eq!(s.access_key, "AKIDEXAMPLE");
    assert_eq!(s.secret_key, "secret");
    let c = dict(&[("region", "us-west-2"), ("access_key", "AKIDEXAMPLE"), ("secret_key", "secret")]);
    let p = PublishSettings::new(&c).unwrap();
    assert_eq!(p.region, "us-west-2");
    assert_eq!(p.access_key, "AKIDEXAMPLE");
    assert_eq!(p.secret_key, "secret");
    assert_eq!(p.domain, "amazonaws.com");
    assert_eq!(p.security_token, None);
}

#[test]
fn resolve_defaults_domain_and_token() {
    let s = Settings::new(&full_config()).unwrap();
    assert_eq!(s.domain, "amazonaws.com");
    assert_eq!(s.security_token, None);
}

#[test]
fn resolve_keeps_optional_keys() {
    let mut c = full_config();
    c.push(("domain".to_string(), "amazon.com".to_string()));
    c.push(("security_token".to_string(), "tok".to_string()));
    let s = Settings::new(&c).unwrap();
    assert_eq!(s.domain, "amazon.com");
    assert_eq!(s.security_token, Some("tok".to_string()));
}

#[test]
fn resolve_reports_each_missing_key() {
    for key in ["api_variant", "region", "access_key", "secret_key"] {
        let c: Vec<(String, String)> = full_config().into_iter().filter(|(k, _)| k != key).collect();
        assert_eq!(Settings::new(&c).unwrap_err(), ConfigError::MissingField(key.to_string()));
    }
}

#[test]
fn resolve_treats_empty_value_as_missing() {
    let mut c = full_config();
    c.push(("region".to_string(), String::new()));
    assert_eq!(Settings::new(&c).unwrap_err(), ConfigError::MissingField("region".to_string()));
}

#[test]
fn resolve_rejects_unknown_variant() {
    let c = dict(&[
        ("api_variant", "Bogus"),
        ("region", "us-west-2"),
        ("access_key", "AKIDEXAMPLE"),
        ("secret_key", "secret"),
    ]);
    assert_eq!(Settings::new(&c).unwrap_err(), ConfigError::UnknownVariant("Bogus".to_string()));
}

#[test]
fn resolve_reports_missing_key_before_unknown_variant() {
    let c = dict(&[("api_variant", "Bogus")]);
    assert_eq!(Settings::new(&c).unwrap_err(), ConfigError::MissingField("region".to_string()));
    let c = dict(&[("api_variant", "Bogus"), ("region", "us-west-2"), ("access_key", "AK")]);
    assert_eq!(Settings::new(&c).unwrap_err(), ConfigError::MissingField("secret_key".to_string()));
    let c = dict(&[("region", "us-west-2")]);
    assert_eq!(Settings::new(&c).unwrap_err(), ConfigError::MissingField("api_variant".to_string()));
}

#[test]
fn resolve_keeps_present_empty_optional_values() {
    let mut c = full_config();
    c.push(("domain".to_string(), String::new()));
    c.push(("security_token".to_string(), String::new()));
    let s = Settings::new(&c).unwrap();
    assert_eq!(s.domain, "");
    assert_eq!(s.security_token, Some(String::new()));
}

#[test]
fn lookup_last_pair_wins() {
    let c = dict(&[("region", "a"), ("other", "x"), ("region", "b")]);
    assert_eq!(lookup_value(&c, &"region".to_string()), Some("b".to_string()));
    assert_eq!(lookup_value(&c, &"missing".to_string()), None);
}

#[test]
fn publish_settings_ignore_variant() {
    let c = dict(&[("region", "eu-west-1"), ("access_key", "AK"), ("secret_key", "SK")]);
    let s = PublishSettings::new(&c).unwrap();
    assert_eq!(s.region, "eu-west-1");
    assert_eq!(s.domain, "amazonaws.com");
    let c = dict(&[("region", "eu-west-1"), ("secret_key", "SK")]);
    assert_eq!(PublishSettings::new(&c).unwrap_err(), ConfigError::MissingField("access_key".to_string()));
}
