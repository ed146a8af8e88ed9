//! The settings resolver: turns an untyped configuration map into validated settings.
use crate::apis::put_events_api::PutEventsApi;
use crate::apis::ApiVariant;
use crate::dict::{lookup, lookup_value, opt_view, pairs_view, setting, setting_value, Dict};
use vstd::prelude::*;

verus! {

/// Configuration key naming the API variant.
pub const API_VARIANT_KEY: &'static str = "api_variant";
/// Configuration key of the AWS region.
pub const REGION_KEY: &'static str = "region";
/// Configuration key of the endpoint domain.
pub const DOMAIN_KEY: &'static str = "domain";
/// Configuration key of the access key id.
pub const ACCESS_KEY_KEY: &'static str = "access_key";
/// Configuration key of the secret access key.
pub const SECRET_KEY_KEY: &'static str = "secret_key";
/// Configuration key of the optional session token.
pub const SECURITY_TOKEN_KEY: &'static str = "security_token";
/// Domain used when the configuration names none.
pub const DEFAULT_DOMAIN: &'static str = "amazonaws.com";
/// Identifier that selects the publish-one-event operation.
pub const PUBLISH_EVENT_ID: &'static str = "PublishEvent";

/// Why a configuration map could not be resolved.
#[derive(Debug, Clone, PartialEq, Eq)]
pub enum ConfigError {
    /// A required key is absent or empty; holds the key.
    MissingField(String),
    /// `api_variant` names no known operation; holds the given identifier.
    UnknownVariant(String),
}

/// Mathematical model of a [`ConfigError`].
pub enum ConfigErrorModel {
    MissingField(Seq<char>),
    UnknownVariant(Seq<char>),
}

impl View for ConfigError {
    type V = ConfigErrorModel;

    open spec fn view(&self) -> ConfigErrorModel {
        match self {
            ConfigError::MissingField(k) => ConfigErrorModel::MissingField(k@),
            ConfigError::UnknownVariant(v) => ConfigErrorModel::UnknownVariant(v@),
        }
    }
}

impl ConfigError {
    /// A copy of this error.
    pub fn duplicate(&self) -> (r: ConfigError)
        ensures
            r@ == self@,
    {
        match self {
            ConfigError::MissingField(k) => ConfigError::MissingField(k.clone()),
            ConfigError::UnknownVariant(v) => ConfigError::UnknownVariant(v.clone()),
        }
    }
}

/// Validated settings. The resolver guarantees `wf` of what it builds; code
/// that fills the public fields by hand must keep it.
#[derive(Debug, Clone)]
pub struct Settings {
    /// The API variant/operation to be performed.
    pub api_variant: ApiVariant,
    /// The AWS service domain (defaults to "amazonaws.com").
    pub domain: String,
    /// AWS region where the service is accessed.
    pub region: String,
    /// AWS access key id.
    pub access_key: String,
    /// AWS secret access key, used only to derive the signing key.
    pub secret_key: String,
    /// Session token of temporary credentials.
    pub security_token: Option<String>,
}

/// Mathematical model of [`Settings`].
pub struct SettingsModel {
    pub api_variant: ApiVariant,
    pub domain: Seq<char>,
    pub region: Seq<char>,
    pub access_key: Seq<char>,
    pub secret_key: Seq<char>,
    pub security_token: Option<Seq<char>>,
}

impl View for Settings {
    type V = SettingsModel;

    open spec fn view(&self) -> SettingsModel {
        SettingsModel {
            api_variant: self.api_variant,
            domain: self.domain@,
            region: self.region@,
            access_key: self.access_key@,
            secret_key: self.secret_key@,
            security_token: opt_view(self.security_token),
        }
    }
}

impl SettingsModel {
    /// Required values are non-empty.
    pub open spec fn wf(self) -> bool {
        &&& self.region.len() > 0
        &&& self.access_key.len() > 0
        &&& self.secret_key.len() > 0
    }
}

/// The variant that an identifier selects.
pub open spec fn variant_spec(id: Seq<char>) -> Option<ApiVariant> {
    if id == PUBLISH_EVENT_ID@ {
        Some(ApiVariant::PutEvents(PutEventsApi))
    } else {
        None
    }
}

/// A required key's value, or the error naming the key.
pub open spec fn required_spec(d: Seq<(String, String)>, key: Seq<char>) -> Result<Seq<char>, ConfigErrorModel> {
    match setting(d, key) {
        Some(v) => Ok(v),
        None => Err(ConfigErrorModel::MissingField(key)),
    }
}

/// An optional key's value: present whenever the key is, even if empty.
pub open spec fn optional_spec(d: Seq<(String, String)>, key: Seq<char>) -> Option<Seq<char>> {
    lookup(pairs_view(d), key)
}

/// The domain: as configured when the key is present, else the provider default.
pub open spec fn domain_spec(d: Seq<(String, String)>) -> Seq<char> {
    match optional_spec(d, DOMAIN_KEY@) {
        Some(v) => v,
        None => DEFAULT_DOMAIN@,
    }
}

/// What resolving `d` yields. The required keys are checked first, in the
/// order `api_variant`, `region`, `access_key`, `secret_key`, and the first one
/// unset is reported; only then must `api_variant` name a known variant.
pub open spec fn resolve_spec(d: Seq<(String, String)>) -> Result<SettingsModel, ConfigErrorModel> {
    match required_spec(d, API_VARIANT_KEY@) {
        Err(e) => Err(e),
        Ok(id) => match required_spec(d, REGION_KEY@) {
            Err(e) => Err(e),
            Ok(region) => match required_spec(d, ACCESS_KEY_KEY@) {
                Err(e) => Err(e),
                Ok(access_key) => match required_spec(d, SECRET_KEY_KEY@) {
                    Err(e) => Err(e),
                    Ok(secret_key) => match variant_spec(id) {
                        None => Err(ConfigErrorModel::UnknownVariant(id)),
                        Some(api_variant) => Ok(SettingsModel {
                            api_variant,
                            domain: domain_spec(d),
                            region,
                            access_key,
                            secret_key,
                            security_token: optional_spec(d, SECURITY_TOKEN_KEY@),
                        }),
                    },
                },
            },
        },
    }
}

/// A map that sets the four required keys, naming a known variant, resolves
/// to well-formed settings; an absent domain becomes the provider's default,
/// an absent session token stays absent, and present optional values are kept.
pub proof fn lemma_resolve_complete_map(d: Seq<(String, String)>)
    requires
        setting(d, API_VARIANT_KEY@) matches Some(id) && variant_spec(id) is Some,
        setting(d, REGION_KEY@) is Some,
        setting(d, ACCESS_KEY_KEY@) is Some,
        setting(d, SECRET_KEY_KEY@) is Some,
    ensures
        resolve_spec(d) is Ok,
        resolve_spec(d) matches Ok(s) ==> {
            &&& s.wf()
            &&& optional_spec(d, DOMAIN_KEY@) is None ==> s.domain == DEFAULT_DOMAIN@
            &&& optional_spec(d, SECURITY_TOKEN_KEY@) is None ==> s.security_token is None
            &&& optional_spec(d, DOMAIN_KEY@) matches Some(v) ==> s.domain == v
            &&& s.security_token == optional_spec(d, SECURITY_TOKEN_KEY@)
        },
{
    reveal_strlit("amazonaws.com");
}

/// A map that leaves a required key unset fails with `MissingField` naming
/// an unset required key, whatever `api_variant` says; where that key is the
/// only required key unset, the error names it.
pub proof fn lemma_resolve_missing_key(d: Seq<(String, String)>, key: Seq<char>)
    requires
        key == API_VARIANT_KEY@ || key == REGION_KEY@ || key == ACCESS_KEY_KEY@ || key == SECRET_KEY_KEY@,
        setting(d, key) is None,
    ensures
        resolve_spec(d) matches Err(ConfigErrorModel::MissingField(m)) && setting(d, m) is None
            && (m == API_VARIANT_KEY@ || m == REGION_KEY@ || m == ACCESS_KEY_KEY@ || m == SECRET_KEY_KEY@),
        (key == API_VARIANT_KEY@ || setting(d, API_VARIANT_KEY@) is Some)
            && (key == REGION_KEY@ || setting(d, REGION_KEY@) is Some)
            && (key == ACCESS_KEY_KEY@ || setting(d, ACCESS_KEY_KEY@) is Some)
            && (key == SECRET_KEY_KEY@ || setting(d, SECRET_KEY_KEY@) is Some)
            ==> resolve_spec(d) == Err::<SettingsModel, ConfigErrorModel>(ConfigErrorModel::MissingField(key)),
{
    reveal_strlit("api_variant");
    reveal_strlit("region");
    reveal_strlit("access_key");
    reveal_strlit("secret_key");
    assert(API_VARIANT_KEY@.len() == 11 && REGION_KEY@.len() == 6);
    assert(ACCESS_KEY_KEY@.len() == 10 && SECRET_KEY_KEY@.len() == 10);
    assert(ACCESS_KEY_KEY@ != SECRET_KEY_KEY@) by {
        assert(ACCESS_KEY_KEY@[0] != SECRET_KEY_KEY@[0]);
    }
}

/// The model of a resolver result.
pub open spec fn resolved_view(r: Result<Settings, ConfigError>) -> Result<SettingsModel, ConfigErrorModel> {
    match r {
        Ok(s) => Ok(s@),
        Err(e) => Err(e@),
    }
}

/// Reads a required key, failing with `MissingField(key)`.
pub fn required(d: &Dict, key: &str) -> (r: Result<String, ConfigError>)
    ensures
        match r {
            Ok(v) => required_spec(d@, key@) == Ok::<Seq<char>, ConfigErrorModel>(v@),
            Err(e) => required_spec(d@, key@) == Err::<Seq<char>, ConfigErrorModel>(e@),
        },
{
    let k = String::from_str(key);
    match setting_value(d, &k) {
        Some(v) => Ok(v),
        None => Err(ConfigError::MissingField(k)),
    }
}

/// Reads an optional key: its value whenever it is present.
pub fn optional(d: &Dict, key: &str) -> (r: Option<String>)
    ensures
        opt_view(r) == optional_spec(d@, key@),
{
    let k = String::from_str(key);
    lookup_value(d, &k)
}

/// Reads the domain, defaulting to the provider's.
pub fn domain_of(d: &Dict) -> (r: String)
    ensures
        r@ == domain_spec(d@),
{
    match optional(d, DOMAIN_KEY) {
        Some(v) => v,
        None => String::from_str(DEFAULT_DOMAIN),
    }
}

impl Settings {
    /// Resolves a configuration map into settings.
    pub fn new(settings_dict: &Dict) -> (r: Result<Settings, ConfigError>)
        ensures
            resolved_view(r) == resolve_spec(settings_dict@),
            r matches Ok(s) ==> s@.wf(),
    {
        let id = match required(settings_dict, API_VARIANT_KEY) {
            Ok(v) => v,
            Err(e) => return Err(e),
        };
        let region = match required(settings_dict, REGION_KEY) {
            Ok(v) => v,
            Err(e) => return Err(e),
        };
        let access_key = match required(settings_dict, ACCESS_KEY_KEY) {
            Ok(v) => v,
            Err(e) => return Err(e),
        };
        let secret_key = match required(settings_dict, SECRET_KEY_KEY) {
            Ok(v) => v,
            Err(e) => return Err(e),
        };
        let api_variant = match Self::get_api_variant_from_string(id.clone()) {
            Some(v) => v,
            None => return Err(ConfigError::UnknownVariant(id)),
        };
        let domain = domain_of(settings_dict);
        let security_token = optional(settings_dict, SECURITY_TOKEN_KEY);
        Ok(Settings { api_variant, domain, region, access_key, secret_key, security_token })
    }

    /// The variant that an identifier selects, if any.
    pub fn get_api_variant_from_string(api_variant_string: String) -> (r: Option<ApiVariant>)
        ensures
            r == variant_spec(api_variant_string@),
    {
        if api_variant_string == String::from_str(PUBLISH_EVENT_ID) {
            Some(ApiVariant::PutEvents(PutEventsApi))
        } else {
            None
        }
    }
}

} // verus!
