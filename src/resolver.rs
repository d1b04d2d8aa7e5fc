//! Picking the event whose attendees are collected.
use crate::model::{ClientError, LastRequest};
use vstd::prelude::*;

verus! {

/// The id of the event chosen from a search result: the last one listed.
///
/// The choice is by position in the list the API returned; no ordering by
/// date is applied. An empty list gives `NotFound`, and a failed search is
/// passed through unchanged.
pub fn last_event_id(found: Result<LastRequest, ClientError>) -> (r: Result<String, ClientError>)
    ensures
        match found {
            Ok(req) => if req.events@.len() > 0 {
                r == Ok::<String, ClientError>(req.events@.last().id)
            } else {
                r == Err::<String, ClientError>(ClientError::NotFound)
            },
            Err(e) => r == Err::<String, ClientError>(e),
        },
{
    match found {
        Ok(req) => {
            let mut events = req.events;
            match events.pop() {
                Some(event) => Ok(event.id),
                None => Err(ClientError::NotFound),
            }
        },
        Err(e) => Err(e),
    }
}

} // verus!
