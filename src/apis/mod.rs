//! Request building for the supported API variants.
use crate::apis::put_events_api::PutEventsApi;
use crate::apis::utils::api_request::{request_view, ApiRequest};
use crate::apis::utils::settings::{ConfigError, ConfigErrorModel, Settings, SettingsModel, resolve_spec, resolved_view};
use crate::clock::now_secs;
use crate::dict::Dict;
use crate::request::{Event, OutboundRequest, RequestModel};
use crate::sigv4::SigningError;
use vstd::prelude::*;

pub mod put_events_api;
pub mod utils;

verus! {

/// The supported API operations; each has one strategy.
#[derive(Debug, Clone, Copy, PartialEq, Eq, Structural)]
pub enum ApiVariant {
    /// Publish one event to an event bus.
    PutEvents(PutEventsApi),
}

impl ApiVariant {
    /// The request that this variant's strategy builds.
    pub open spec fn request_spec(self, settings: SettingsModel, event: Option<Seq<char>>, now_secs: u64) -> Result<RequestModel, SigningError> {
        match self {
            ApiVariant::PutEvents(api) => api.request_spec(settings, event, now_secs),
        }
    }

    /// Builds the request through this variant's strategy.
    pub fn get_edgee_request(&self, settings_map: &Settings, event: &Event, now_secs: u64) -> (r: Result<OutboundRequest, SigningError>)
        ensures
            request_view(r) == self.request_spec(settings_map@, event@, now_secs),
    {
        match self {
            ApiVariant::PutEvents(api) => api.get_edgee_request(settings_map, event, now_secs),
        }
    }
}

/// Why a build failed.
#[derive(Debug, Clone, PartialEq, Eq)]
pub enum BuildError {
    /// The configuration could not be resolved.
    Config(ConfigError),
    /// Settings or event were never supplied.
    IncompleteBuilder,
    /// The request could not be signed.
    Signing(SigningError),
}

/// Mathematical model of a [`BuildError`].
pub enum BuildErrorModel {
    Config(ConfigErrorModel),
    IncompleteBuilder,
    Signing(SigningError),
}

/// The model of a build result.
pub open spec fn build_view(r: Result<OutboundRequest, BuildError>) -> Result<RequestModel, BuildErrorModel> {
    match r {
        Ok(q) => Ok(q@),
        Err(BuildError::Config(e)) => Err(BuildErrorModel::Config(e@)),
        Err(BuildError::IncompleteBuilder) => Err(BuildErrorModel::IncompleteBuilder),
        Err(BuildError::Signing(e)) => Err(BuildErrorModel::Signing(e)),
    }
}

/// What the builder holds: the outcome of resolving the last settings given,
/// and the last event given.
pub struct BuilderModel {
    pub settings: Option<Result<SettingsModel, ConfigErrorModel>>,
    pub event: Option<Option<Seq<char>>>,
}

/// Building with resolved settings: the variant's request, signing errors wrapped.
pub open spec fn dispatch_spec(s: SettingsModel, event: Option<Seq<char>>, now_secs: u64) -> Result<RequestModel, BuildErrorModel> {
    match s.api_variant.request_spec(s, event, now_secs) {
        Ok(q) => Ok(q),
        Err(e) => Err(BuildErrorModel::Signing(e)),
    }
}

/// What `build` yields: an incomplete builder fails first, then a
/// configuration error; otherwise the variant's request.
pub open spec fn build_spec(b: BuilderModel, now_secs: u64) -> Result<RequestModel, BuildErrorModel> {
    match (b.settings, b.event) {
        (Some(Ok(s)), Some(e)) => dispatch_spec(s, e, now_secs),
        (Some(Err(ce)), Some(_)) => Err(BuildErrorModel::Config(ce)),
        _ => Err(BuildErrorModel::IncompleteBuilder),
    }
}

/// Staged builder of one outbound request.
pub struct ApiRequestBuilder {
    settings_map: Option<Result<Settings, ConfigError>>,
    event: Option<Event>,
}

impl View for ApiRequestBuilder {
    type V = BuilderModel;

    closed spec fn view(&self) -> BuilderModel {
        BuilderModel {
            settings: match self.settings_map {
                Some(r) => Some(resolved_view(r)),
                None => None,
            },
            event: match self.event {
                Some(e) => Some(e@),
                None => None,
            },
        }
    }
}

impl ApiRequestBuilder {
    /// An empty builder.
    pub fn new() -> (r: ApiRequestBuilder)
        ensures
            r@ == (BuilderModel { settings: None, event: None }),
    {
        ApiRequestBuilder { settings_map: None, event: None }
    }

    /// Resolves `settings_dict` and keeps the outcome; a failure surfaces at `build`.
    pub fn settings(self, settings_dict: &Dict) -> (r: ApiRequestBuilder)
        ensures
            r@ == (BuilderModel { settings: Some(resolve_spec(settings_dict@)), event: self@.event }),
    {
        ApiRequestBuilder { settings_map: Some(Settings::new(settings_dict)), event: self.event }
    }

    /// Keeps a copy of `event`.
    pub fn event(self, event: &Event) -> (r: ApiRequestBuilder)
        ensures
            r@ == (BuilderModel { settings: self@.settings, event: Some(event@) }),
    {
        ApiRequestBuilder { settings_map: self.settings_map, event: Some(event.duplicate()) }
    }

    /// The variant that the resolved settings select.
    fn get_api_from_api_variant(&self) -> (r: Result<ApiVariant, BuildError>)
        ensures
            match self@.settings {
                Some(Ok(s)) => r == Ok::<ApiVariant, BuildError>(s.api_variant),
                Some(Err(ce)) => r matches Err(BuildError::Config(e)) && e@ == ce,
                None => r == Err::<ApiVariant, BuildError>(BuildError::IncompleteBuilder),
            },
    {
        match &self.settings_map {
            Some(Ok(s)) => Ok(s.api_variant),
            Some(Err(e)) => Err(BuildError::Config(e.duplicate())),
            None => Err(BuildError::IncompleteBuilder),
        }
    }

    /// Builds the request, signing at `now_secs` (seconds since the Unix epoch).
    pub fn build_at(self, now_secs: u64) -> (r: Result<OutboundRequest, BuildError>)
        ensures
            build_view(r) == build_spec(self@, now_secs),
    {
        let event = match &self.event {
            Some(e) => e,
            None => return Err(BuildError::IncompleteBuilder),
        };
        let api = match self.get_api_from_api_variant() {
            Ok(a) => a,
            Err(e) => return Err(e),
        };
        let settings = match &self.settings_map {
            Some(Ok(s)) => s,
            _ => return Err(BuildError::IncompleteBuilder),
        };
        match api.get_edgee_request(settings, event, now_secs) {
            Ok(q) => Ok(q),
            Err(e) => Err(BuildError::Signing(e)),
        }
    }

    /// Builds the request, signing at the current time.
    pub fn build(self) -> (r: Result<OutboundRequest, BuildError>)
        ensures
            exists|t: u64| build_view(r) == build_spec(self@, t),
    {
        let ghost model = self@;
        let now = now_secs();
        let r = self.build_at(now);
        assert(build_view(r) == build_spec(model, now));
        r
    }
}

} // verus!
