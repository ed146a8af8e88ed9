//! Settings of the publish-only builder: endpoint and credentials, no variant.
use crate::apis::put_events_api::PutEventsApi;
use crate::apis::utils::settings::{
    domain_of, domain_spec, optional, optional_spec, required, required_spec, ConfigError, ConfigErrorModel,
    ACCESS_KEY_KEY, REGION_KEY, SECRET_KEY_KEY, SECURITY_TOKEN_KEY,
};
use crate::apis::utils::settings::Settings as VariantSettings;
use crate::apis::ApiVariant;
use crate::apis::put_events_api::put_events_headers::HeadersModel;
use crate::dict::{clone_opt, opt_view, Dict};
use vstd::prelude::*;

verus! {

/// Endpoint and credentials for the publish operation.
#[derive(Debug, Clone)]
pub struct Settings {
    /// The AWS service domain (defaults to "amazonaws.com").
    pub domain: String,
    /// AWS region where the service is accessed.
    pub region: String,
    /// AWS access key id.
    pub access_key: String,
    /// AWS secret access key.
    pub secret_key: String,
    /// Session token of temporary credentials.
    pub security_token: Option<String>,
}

impl View for Settings {
    type V = HeadersModel;

    open spec fn view(&self) -> HeadersModel {
        HeadersModel {
            domain: self.domain@,
            region: self.region@,
            access_key: self.access_key@,
            secret_key: self.secret_key@,
            security_token: opt_view(self.security_token),
        }
    }
}

/// What resolving `d` yields: `region`, `access_key` and `secret_key` are
/// required, in that order; `domain` defaults; `api_variant` is not read.
pub open spec fn credentials_spec(d: Seq<(String, String)>) -> Result<HeadersModel, ConfigErrorModel> {
    match required_spec(d, REGION_KEY@) {
        Err(e) => Err(e),
        Ok(region) => match required_spec(d, ACCESS_KEY_KEY@) {
            Err(e) => Err(e),
            Ok(access_key) => match required_spec(d, SECRET_KEY_KEY@) {
                Err(e) => Err(e),
                Ok(secret_key) => Ok(HeadersModel {
                    domain: domain_spec(d),
                    region,
                    access_key,
                    secret_key,
                    security_token: optional_spec(d, SECURITY_TOKEN_KEY@),
                }),
            },
        },
    }
}

/// The model of a resolver result.
pub open spec fn credentials_view(r: Result<Settings, ConfigError>) -> Result<HeadersModel, ConfigErrorModel> {
    match r {
        Ok(s) => Ok(s@),
        Err(e) => Err(e@),
    }
}

impl Settings {
    /// Resolves a configuration map into publish settings.
    pub fn new(settings_dict: &Dict) -> (r: Result<Settings, ConfigError>)
        ensures
            credentials_view(r) == credentials_spec(settings_dict@),
    {
        let region = match required(settings_dict, REGION_KEY) {
            Ok(v) => v,
            Err(e) => return Err(e),
        };
        let access_key = match required(settings_dict, ACCESS_KEY_KEY) {
            Ok(v) => v,
            Err(e) => return Err(e),
        };
        let secret_key = match required(settings_dict, SECRET_KEY_KEY) {
            Ok(v) => v,
            Err(e) => return Err(e),
        };
        let domain = domain_of(settings_dict);
        let security_token = optional(settings_dict, SECURITY_TOKEN_KEY);
        Ok(Settings { domain, region, access_key, secret_key, security_token })
    }

    /// These settings with the publish variant selected.
    pub fn with_publish_variant(&self) -> (r: VariantSettings)
        ensures
            r@.api_variant == ApiVariant::PutEvents(PutEventsApi),
            r@.domain == self@.domain,
            r@.region == self@.region,
            r@.access_key == self@.access_key,
            r@.secret_key == self@.secret_key,
            r@.security_token == self@.security_token,
    {
        VariantSettings {
            api_variant: ApiVariant::PutEvents(PutEventsApi),
            domain: self.domain.clone(),
            region: self.region.clone(),
            access_key: self.access_key.clone(),
            secret_key: self.secret_key.clone(),
            security_token: clone_opt(&self.security_token),
        }
    }
}

} // verus!
