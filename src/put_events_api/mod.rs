//! A builder fixed to the publish-one-event operation.
//!
//! It reads endpoint and credentials only; the operation is not looked up.
mod settings;

pub use self::settings::{credentials_spec, credentials_view, Settings};

use crate::apis::put_events_api::put_events_headers::HeadersModel;
use crate::apis::put_events_api::{publish_request_spec, PutEventsApi as PublishStrategy};
use crate::apis::utils::api_request::{request_view, ApiRequest};
use crate::apis::utils::settings::{ConfigError, ConfigErrorModel, SettingsModel};
use crate::apis::{build_view, BuildError, BuildErrorModel};
use crate::apis::ApiVariant;
use crate::clock::now_secs;
use crate::dict::Dict;
use crate::request::{Event, OutboundRequest, RequestModel};
use crate::sigv4::SigningError;
use vstd::prelude::*;

verus! {

/// Settings of the publish variant with the given endpoint and credentials.
pub open spec fn publish_settings(h: HeadersModel) -> SettingsModel {
    SettingsModel {
        api_variant: ApiVariant::PutEvents(PublishStrategy),
        domain: h.domain,
        region: h.region,
        access_key: h.access_key,
        secret_key: h.secret_key,
        security_token: h.security_token,
    }
}

/// Builds publish requests.
#[derive(Debug)]
pub struct PutEventsApi;

impl PutEventsApi {
    /// The signed publish request for `event` under `settings_map`, signed at `now_secs`.
    pub fn get_edgee_request(settings_map: &Settings, event: &Event, now_secs: u64) -> (r: Result<OutboundRequest, SigningError>)
        ensures
            request_view(r) == publish_request_spec(publish_settings(settings_map@), event@, now_secs),
    {
        let full = settings_map.with_publish_variant();
        assert(full@ == publish_settings(settings_map@));
        PublishStrategy.get_edgee_request(&full, event, now_secs)
    }
}

/// What the publish builder holds.
pub struct PublishBuilderModel {
    pub settings: Option<Result<HeadersModel, ConfigErrorModel>>,
    pub event: Option<Option<Seq<char>>>,
}

/// What `build` yields: an incomplete builder fails first, then a
/// configuration error; otherwise the publish request.
pub open spec fn publish_build_spec(b: PublishBuilderModel, now_secs: u64) -> Result<RequestModel, BuildErrorModel> {
    match (b.settings, b.event) {
        (Some(Ok(h)), Some(e)) => match publish_request_spec(publish_settings(h), e, now_secs) {
            Ok(q) => Ok(q),
            Err(se) => Err(BuildErrorModel::Signing(se)),
        },
        (Some(Err(ce)), Some(_)) => Err(BuildErrorModel::Config(ce)),
        _ => Err(BuildErrorModel::IncompleteBuilder),
    }
}

/// Staged builder of one publish request.
pub struct PutEventsRequestBuilder {
    settings_map: Option<Result<Settings, ConfigError>>,
    event: Option<Event>,
}

impl View for PutEventsRequestBuilder {
    type V = PublishBuilderModel;

    closed spec fn view(&self) -> PublishBuilderModel {
        PublishBuilderModel {
            settings: match self.settings_map {
                Some(r) => Some(credentials_view(r)),
                None => None,
            },
            event: match self.event {
                Some(e) => Some(e@),
                None => None,
            },
        }
    }
}

impl PutEventsRequestBuilder {
    /// An empty builder.
    pub fn new() -> (r: PutEventsRequestBuilder)
        ensures
            r@ == (PublishBuilderModel { settings: None, event: None }),
    {
        PutEventsRequestBuilder { settings_map: None, event: None }
    }

    /// Resolves `settings_dict` and keeps the outcome; a failure surfaces at `build`.
    pub fn settings(self, settings_dict: &Dict) -> (r: PutEventsRequestBuilder)
        ensures
            r@ == (PublishBuilderModel { settings: Some(credentials_spec(settings_dict@)), event: self@.event }),
    {
        PutEventsRequestBuilder { settings_map: Some(Settings::new(settings_dict)), event: self.event }
    }

    /// Keeps a copy of `event`.
    pub fn event(self, event: &Event) -> (r: PutEventsRequestBuilder)
        ensures
            r@ == (PublishBuilderModel { settings: self@.settings, event: Some(event@) }),
    {
        PutEventsRequestBuilder { settings_map: self.settings_map, event: Some(event.duplicate()) }
    }

    /// Builds the request, signing at `now_secs` (seconds since the Unix epoch).
    pub fn build_at(self, now_secs: u64) -> (r: Result<OutboundRequest, BuildError>)
        ensures
            build_view(r) == publish_build_spec(self@, now_secs),
    {
        let event = match &self.event {
            Some(e) => e,
            None => return Err(BuildError::IncompleteBuilder),
        };
        match &self.settings_map {
            None => Err(BuildError::IncompleteBuilder),
            Some(Err(e)) => Err(BuildError::Config(e.duplicate())),
            Some(Ok(s)) => match PutEventsApi::get_edgee_request(s, event, now_secs) {
                Ok(q) => Ok(q),
                Err(e) => Err(BuildError::Signing(e)),
            },
        }
    }

    /// Builds the request, signing at the current time.
    pub fn build(self) -> (r: Result<OutboundRequest, BuildError>)
        ensures
            exists|t: u64| build_view(r) == publish_build_spec(self@, t),
    {
        let ghost model = self@;
        let now = now_secs();
        let r = self.build_at(now);
        assert(build_view(r) == publish_build_spec(model, now));
        r
    }
}

} // verus!
