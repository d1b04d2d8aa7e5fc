//! Client logic for collecting the attendees of an organizer's latest event,
//! and the fixed reply of the small HTTP listener that runs afterwards.
//!
//! Network access lives with the caller: this crate builds the request URLs,
//! decides what to fetch next from each decoded response, and says what the
//! listener answers on every connection.
pub mod collector;
pub mod model;
pub mod resolver;
pub mod server;
pub mod url;

pub use collector::AttendeeCollector;
pub use model::{Attendee, ClientError, Event, EventDetail, LastRequest, Pagination, Profile, Start};
