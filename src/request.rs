//! The values exchanged with the host: the event in, the outbound request out.
use crate::dict::{clone_opt, opt_view, pairs_view, Dict};
use vstd::prelude::*;

verus! {

/// An analytics event, as the host rendered it to JSON text; `rendered` is
/// `None` when the host could not render it.
#[derive(Debug, Clone)]
pub struct Event {
    pub rendered: Option<String>,
}

impl View for Event {
    type V = Option<Seq<char>>;

    open spec fn view(&self) -> Option<Seq<char>> {
        opt_view(self.rendered)
    }
}

impl Event {
    /// An event rendered as `text`.
    pub fn from_json(text: String) -> (r: Event)
        ensures
            r@ == Some(text@),
    {
        Event { rendered: Some(text) }
    }

    /// An event that could not be rendered.
    pub fn unrenderable() -> (r: Event)
        ensures
            r@ is None,
    {
        Event { rendered: None }
    }

    /// A copy of this event.
    pub fn duplicate(&self) -> (r: Event)
        ensures
            r@ == self@,
    {
        Event { rendered: clone_opt(&self.rendered) }
    }
}

/// HTTP methods of an outbound request.
#[derive(Debug, Clone, Copy, PartialEq, Eq, Structural)]
pub enum HttpMethod {
    Get,
    Put,
    Post,
    Delete,
}

/// The request handed back to the host for sending.
#[derive(Debug, Clone)]
pub struct OutboundRequest {
    pub method: HttpMethod,
    pub url: String,
    /// Ordered header pairs.
    pub headers: Dict,
    pub body: String,
    /// Whether the host should forward the client's own headers.
    pub forward_client_headers: bool,
    /// Set when the event could not be rendered and the body fell back to empty.
    pub body_fallback: bool,
}

/// Mathematical model of an [`OutboundRequest`].
pub struct RequestModel {
    pub method: HttpMethod,
    pub url: Seq<char>,
    pub headers: Seq<(Seq<char>, Seq<char>)>,
    pub body: Seq<char>,
    pub forward_client_headers: bool,
    pub body_fallback: bool,
}

impl View for OutboundRequest {
    type V = RequestModel;

    open spec fn view(&self) -> RequestModel {
        RequestModel {
            method: self.method,
            url: self.url@,
            headers: pairs_view(self.headers@),
            body: self.body@,
            forward_client_headers: self.forward_client_headers,
            body_fallback: self.body_fallback,
        }
    }
}

} // verus!
