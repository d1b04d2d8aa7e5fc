//! Walking an event's paginated attendee list.
//!
//! The collector decides which page to ask for next and folds each decoded
//! page into its running list; the caller performs the requests. Page 1 is
//! always requested, since the true page count is known only from a
//! response; after that, the count reported by the latest response decides
//! whether another page follows.
use crate::model::{Attendee, ClientError, EventDetail};
use crate::url::{attendees_url, attendees_url_spec};
use vstd::prelude::*;

verus! {

/// What the collector knows between two requests.
pub struct CollectorState {
    pub token: Seq<char>,
    pub event_id: Seq<char>,
    /// The page to request next, counting from 1.
    pub page: int,
    /// The page count reported by the latest response (1 before any).
    pub page_count: int,
    /// The attendees of the pages received so far, in page order.
    pub attendees: Seq<Attendee>,
}

impl CollectorState {
    /// The state before the first request.
    pub open spec fn initial(token: Seq<char>, event_id: Seq<char>) -> CollectorState {
        CollectorState { token, event_id, page: 1, page_count: 1, attendees: Seq::empty() }
    }

    /// Whether another page is to be requested.
    pub open spec fn has_next(self) -> bool {
        self.page <= self.page_count
    }

    /// The URL of the page to request next.
    pub open spec fn next_url(self) -> Seq<char> {
        attendees_url_spec(self.event_id, self.page as nat, self.token)
    }

    /// The state after the requested page arrived as `d`.
    pub open spec fn after_page(self, d: EventDetail) -> CollectorState {
        CollectorState {
            page: self.page + 1,
            page_count: d.pagination.page_count as int,
            attendees: self.attendees + d.attendees@,
            ..self
        }
    }

    /// Feeds `responses` in order for as long as another page is wanted;
    /// gives the state reached and how many responses were consumed, which is
    /// the number of requests made.
    pub open spec fn run(self, responses: Seq<EventDetail>) -> (CollectorState, nat)
        decreases responses.len(),
    {
        if self.has_next() && responses.len() > 0 {
            let next = self.after_page(responses[0]).run(responses.drop_first());
            (next.0, next.1 + 1)
        } else {
            (self, 0)
        }
    }
}

/// The attendees of `pages`, page after page.
pub open spec fn all_attendees(pages: Seq<EventDetail>) -> Seq<Attendee> {
    pages.map_values(|d: EventDetail| d.attendees@).flatten()
}

/// The number of attendees listed over all of `pages`.
pub open spec fn total_count(pages: Seq<EventDetail>) -> nat
    decreases pages.len(),
{
    if pages.len() == 0 {
        0
    } else {
        pages[0].attendees@.len() + total_count(pages.drop_first())
    }
}

/// Collects the attendees of one event, one page per request.
pub struct AttendeeCollector {
    token: String,
    event_id: String,
    page: u32,
    page_count: i32,
    attendees: Vec<Attendee>,
}

impl View for AttendeeCollector {
    type V = CollectorState;

    closed spec fn view(&self) -> CollectorState {
        CollectorState {
            token: self.token@,
            event_id: self.event_id@,
            page: self.page as int,
            page_count: self.page_count as int,
            attendees: self.attendees@,
        }
    }
}

impl AttendeeCollector {
    /// The page number stays in range: it only grows past a page that a
    /// response reported, and reported counts fit in an `i32`.
    pub closed spec fn wf(&self) -> bool {
        1 <= self.page <= i32::MAX as int + 1
    }

    /// A collector for the attendees of `event_id`, with requests authorized by `token`.
    pub fn new(token: &str, event_id: &str) -> (r: AttendeeCollector)
        ensures
            r.wf(),
            r@ == CollectorState::initial(token@, event_id@),
    {
        AttendeeCollector {
            token: String::from_str(token),
            event_id: String::from_str(event_id),
            page: 1,
            page_count: 1,
            attendees: Vec::new(),
        }
    }

    /// The URL to fetch next, or `None` once every page has been received.
    pub fn next_url(&self) -> (r: Option<String>)
        requires
            self.wf(),
        ensures
            r is Some <==> self@.has_next(),
            r matches Some(u) ==> u@ == self@.next_url(),
    {
        if self.page as i64 <= self.page_count as i64 {
            Some(attendees_url(self.event_id.as_str(), self.page, self.token.as_str()))
        } else {
            None
        }
    }

    /// Takes the outcome of fetching the page that `next_url` named.
    ///
    /// A decoded page is appended and its page count becomes the authority
    /// on whether more follow. A failed fetch ends the collection: its error
    /// is returned and the attendees gathered so far are dropped.
    pub fn receive(self, outcome: Result<EventDetail, ClientError>) -> (r: Result<AttendeeCollector, ClientError>)
        requires
            self.wf(),
            self@.has_next(),
        ensures
            match outcome {
                Ok(d) => r matches Ok(c) && c.wf() && c@ == self@.after_page(d),
                Err(e) => r == Err::<AttendeeCollector, ClientError>(e),
            },
    {
        match outcome {
            Ok(detail) => {
                let mut c = self;
                let mut d = detail;
                let ghost before = d.attendees@;
                c.attendees.append(&mut d.attendees);
                c.page_count = d.pagination.page_count;
                c.page = c.page + 1;
                assert(c@.attendees =~= self@.attendees + before);
                Ok(c)
            },
            Err(e) => Err(e),
        }
    }

    /// The attendees received so far, in page order.
    pub fn into_attendees(self) -> (r: Vec<Attendee>)
        ensures
            r@ == self@.attendees,
    {
        self.attendees
    }
}

/// The attendee count of the concatenated pages is the sum of the pages' counts.
pub proof fn lemma_all_attendees_len(pages: Seq<EventDetail>)
    ensures
        all_attendees(pages).len() == total_count(pages),
    decreases pages.len(),
{
    if pages.len() > 0 {
        let rest = pages.drop_first();
        assert(pages.map_values(|d: EventDetail| d.attendees@).drop_first() =~= rest.map_values(
            |d: EventDetail| d.attendees@,
        ));
        lemma_all_attendees_len(rest);
    }
}

proof fn lemma_run_to_last_page(s: CollectorState, rest: Seq<EventDetail>, p: int)
    requires
        1 <= s.page,
        s.has_next(),
        rest.len() >= 1,
        s.page + rest.len() == p + 1,
        forall|i: int| 0 <= i < rest.len() ==> #[trigger] rest[i].pagination.page_count == p,
    ensures
        s.run(rest).1 == rest.len(),
        !s.run(rest).0.has_next(),
        s.run(rest).0.attendees == s.attendees + all_attendees(rest),
    decreases rest.len(),
{
    let next = s.after_page(rest[0]);
    let tail = rest.drop_first();
    assert(rest.map_values(|d: EventDetail| d.attendees@).drop_first() =~= tail.map_values(
        |d: EventDetail| d.attendees@,
    ));
    if rest.len() == 1 {
        assert(tail.map_values(|d: EventDetail| d.attendees@) =~= Seq::<Seq<Attendee>>::empty());
        assert(next.attendees =~= s.attendees + all_attendees(rest));
    } else {
        assert forall|i: int| 0 <= i < tail.len() implies #[trigger] tail[i].pagination.page_count
            == p by {
            assert(tail[i] == rest[i + 1]);
        }
        lemma_run_to_last_page(next, tail, p);
        assert(next.run(tail).0.attendees =~= s.attendees + all_attendees(rest));
    }
}

/// Walking a list of `P` pages, each of which reports `P` as the page count:
/// exactly `P` requests are made, nothing more is wanted afterwards, and the
/// attendees are those of all pages concatenated in page order, as many as
/// the pages hold together.
pub proof fn lemma_collects_every_page(token: Seq<char>, event_id: Seq<char>, pages: Seq<EventDetail>)
    requires
        1 <= pages.len() <= i32::MAX,
        forall|i: int| 0 <= i < pages.len() ==> #[trigger] pages[i].pagination.page_count == pages.len(),
    ensures
        CollectorState::initial(token, event_id).run(pages).1 == pages.len(),
        !CollectorState::initial(token, event_id).run(pages).0.has_next(),
        CollectorState::initial(token, event_id).run(pages).0.attendees == all_attendees(pages),
        CollectorState::initial(token, event_id).run(pages).0.attendees.len() == total_count(pages),
{
    let s = CollectorState::initial(token, event_id);
    lemma_run_to_last_page(s, pages, pages.len() as int);
    assert(s.attendees + all_attendees(pages) =~= all_attendees(pages));
    lemma_all_attendees_len(pages);
}

/// When the first page reports a page count of one, or of zero, exactly one
/// request is made and the result is the attendees of that page.
pub proof fn lemma_single_request(token: Seq<char>, event_id: Seq<char>, pages: Seq<EventDetail>)
    requires
        pages.len() >= 1,
        pages[0].pagination.page_count <= 1,
    ensures
        CollectorState::initial(token, event_id).run(pages).1 == 1,
        !CollectorState::initial(token, event_id).run(pages).0.has_next(),
        CollectorState::initial(token, event_id).run(pages).0.attendees == pages[0].attendees@,
{
    let s = CollectorState::initial(token, event_id);
    let next = s.after_page(pages[0]);
    assert(!next.has_next());
    assert(next.run(pages.drop_first()) == (next, 0nat));
    assert(next.attendees =~= pages[0].attendees@);
}

} // verus!
