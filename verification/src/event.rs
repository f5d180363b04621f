//! What a launch publishes on the application's event bus.
//!
//! A detected deep link is forwarded as one event, named by
//! [`DEEP_LINK_EVENT`], whose payload is the URL. A launch without a deep link
//! publishes nothing. Delivery itself is the caller's business.

use crate::detect::{detect, find_deep_link};
use vstd::prelude::*;

verus! {

/// Name under which a deep link is published.
pub const DEEP_LINK_EVENT: &'static str = "deep-link";

/// One event to publish: its name and its payload.
#[derive(Debug, PartialEq, Eq)]
pub struct Emission {
    pub event: String,
    pub payload: String,
}

/// The mathematical content of an [`Emission`].
pub struct EmissionView {
    pub event: Seq<char>,
    pub payload: Seq<char>,
}

impl View for Emission {
    type V = EmissionView;

    open spec fn view(&self) -> EmissionView {
        EmissionView { event: self.event@, payload: self.payload@ }
    }
}

/// The event that a launch with arguments `args` gives rise to: the detected
/// URL under the deep-link event name, or nothing.
pub open spec fn emission_for(args: Seq<Seq<char>>) -> Option<EmissionView> {
    match detect(args) {
        Some(url) => Some(EmissionView { event: DEEP_LINK_EVENT@, payload: url }),
        None => None,
    }
}

/// The event to publish for a launch with arguments `args`, if any.
pub fn deep_link_event(args: &Vec<String>) -> (emission: Option<Emission>)
    ensures
        match emission {
            Some(e) => emission_for(args.deep_view()) == Some(e@),
            None => emission_for(args.deep_view()) is None,
        },
{
    match find_deep_link(args) {
        Some(url) => Some(Emission { event: DEEP_LINK_EVENT.to_owned(), payload: url.clone() }),
        None => None,
    }
}

/// The event that the primary instance publishes when told of a second
/// launch with arguments `argv`, started in directory `cwd`. The directory
/// plays no part in the outcome.
pub fn second_instance_event(argv: &Vec<String>, cwd: &str) -> (emission: Option<Emission>)
    ensures
        match emission {
            Some(e) => emission_for(argv.deep_view()) == Some(e@),
            None => emission_for(argv.deep_view()) is None,
        },
{
    deep_link_event(argv)
}

} // verus!
