//! The request body codec of the publish operation.
use crate::request::Event;
use vstd::prelude::*;

verus! {

/// The body sent for an event: its rendered text, or empty when it could not be rendered.
pub open spec fn body_text(event: Option<Seq<char>>) -> Seq<char> {
    match event {
        Some(t) => t,
        None => Seq::empty(),
    }
}

/// A rendered body, with a flag that tells whether it fell back to empty.
#[derive(Debug, Clone)]
pub struct PutEventsBody {
    pub body: String,
    pub fallback: bool,
}

impl PutEventsBody {
    /// Renders the body of `edgee_event`; an unrenderable event gives an empty
    /// body and sets `fallback`.
    pub fn new(edgee_event: &Event) -> (r: PutEventsBody)
        ensures
            r.body@ == body_text(edgee_event@),
            r.fallback == edgee_event@ is None,
    {
        match &edgee_event.rendered {
            Some(t) => PutEventsBody { body: t.clone(), fallback: false },
            None => PutEventsBody { body: String::new(), fallback: true },
        }
    }

    /// The body text of `edgee_event`, and whether it fell back to empty
    /// because the event could not be rendered.
    pub fn get_body(edgee_event: &Event) -> (r: (String, bool))
        ensures
            r.0@ == body_text(edgee_event@),
            r.1 == edgee_event@ is None,
    {
        let b = Self::new(edgee_event);
        (b.body, b.fallback)
    }
}

} // verus!
