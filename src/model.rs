//! The records decoded from the event API's responses, and the client's errors.
use vstd::prelude::*;

verus! {

/// The body of the event search endpoint: the organizer's events, in the
/// order the API listed them.
pub struct LastRequest {
    pub events: Vec<Event>,
}

/// One event of a search result.
pub struct Event {
    pub id: String,
    pub start: Start,
}

/// When an event starts.
pub struct Start {
    pub utc: String,
}

/// One page of an event's attendee list.
pub struct EventDetail {
    pub pagination: Pagination,
    pub attendees: Vec<Attendee>,
}

/// Where a page sits in a paginated result.
#[derive(Clone, Copy, Debug, PartialEq, Eq, Structural)]
pub struct Pagination {
    pub page_number: i32,
    pub page_count: i32,
}

/// A person registered for an event.
#[derive(Debug)]
pub struct Attendee {
    pub id: String,
    pub profile: Profile,
}

/// The name an attendee registered with.
#[derive(Debug)]
pub struct Profile {
    pub first_name: String,
    pub last_name: String,
}

/// Why a remote call did not produce a value.
#[derive(Debug)]
pub enum ClientError {
    /// The request could not be completed, or its body could not be read.
    Transport(String),
    /// The body was not JSON of the expected shape.
    Decode(String),
    /// The event search returned no event.
    NotFound,
}

} // verus!
