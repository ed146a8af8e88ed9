//! The strategy interface that each API variant implements.
use crate::apis::utils::settings::{Settings, SettingsModel};
use crate::request::{Event, OutboundRequest, RequestModel};
use crate::sigv4::SigningError;
use vstd::prelude::*;

verus! {

/// The model of a request or a signing error.
pub open spec fn request_view(r: Result<OutboundRequest, SigningError>) -> Result<RequestModel, SigningError> {
    match r {
        Ok(q) => Ok(q@),
        Err(e) => Err(e),
    }
}

/// One external operation: builds its signed request from settings and an event.
pub trait ApiRequest {
    /// The request this operation builds for `event` under `settings` at `now_secs`.
    spec fn request_spec(&self, settings: SettingsModel, event: Option<Seq<char>>, now_secs: u64) -> Result<RequestModel, SigningError>;

    /// Builds the signed request, signing at `now_secs` (seconds since the Unix epoch).
    fn get_edgee_request(&self, settings_map: &Settings, event: &Event, now_secs: u64) -> (r: Result<OutboundRequest, SigningError>)
        ensures
            request_view(r) == self.request_spec(settings_map@, event@, now_secs),
    ;
}

} // verus!
