//! Signed request builder for publishing analytics events to an AWS event bus.
//!
//! Configuration is resolved into validated settings, the event body is
//! rendered, and the request is signed with AWS Signature Version 4.
use crate::apis::{build_spec, build_view, ApiRequestBuilder, BuildError, BuilderModel, BuildErrorModel};
use crate::apis::utils::settings::resolve_spec;
use crate::dict::Dict;
use crate::request::{Event, OutboundRequest, RequestModel};
use vstd::prelude::*;

pub mod apis;
pub mod clock;
pub mod dict;
pub mod put_events_api;
pub mod request;
pub mod sigv4;
pub mod text;

verus! {

/// What one invocation yields for a configuration map and an event at `now_secs`.
pub open spec fn request_for(settings_dict: Seq<(String, String)>, event: Option<Seq<char>>, now_secs: u64) -> Result<RequestModel, BuildErrorModel> {
    build_spec(BuilderModel { settings: Some(resolve_spec(settings_dict)), event: Some(event) }, now_secs)
}

/// Builds the signed request for one event and one configuration map,
/// signing at `now_secs` (seconds since the Unix epoch).
pub fn send_to_event_bridge(edgee_event: &Event, settings_dict: &Dict, now_secs: u64) -> (r: Result<OutboundRequest, BuildError>)
    ensures
        build_view(r) == request_for(settings_dict@, edgee_event@, now_secs),
{
    ApiRequestBuilder::new().settings(settings_dict).event(edgee_event).build_at(now_secs)
}

} // verus!
