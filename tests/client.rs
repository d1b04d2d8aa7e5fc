use event_attendees::collector::AttendeeCollector;
use event_attendees::resolver::last_event_id;
use event_attendees::url::{attendees_url, push_decimal, search_url};
use event_attendees::{Attendee, ClientError, Event, EventDetail, LastRequest, Pagination, Profile, Start};

fn attendee(id: &str) -> Attendee {
    Attendee {
        id: id.to_string(),
        profile: Profile { first_name: format!("First{}", id), last_name: format!("Last{}", id) },
    }
}

fn page(number: i32, count: i32, ids: &[&str]) -> EventDetail {
    EventDetail {
        pagination: Pagination { page_number: number, page_count: count },
        attendees: ids.iter().map(|i| attendee(i)).collect(),
    }
}

fn event(id: &str) -> Event {
    Event { id: id.to_string(), start: Start { utc: "2017-05-01T18:00:00Z".to_string() } }
}

/// Drives a collector with scripted responses, one per request, and records
/// the URLs it asked for.
fn drive(
    responses: Vec<Result<EventDetail, ClientError>>,
) -> (Result<Vec<Attendee>, ClientError>, Vec<String>) {
    let mut responses = responses.into_iter();
    let mut urls = Vec::new();
    let mut c = AttendeeCollector::new("tok", "42");
    while let Some(url) = c.next_url() {
        urls.push(url);
        let outcome = responses.next().expect("collector asked for more pages than scripted");
        c = match c.receive(outcome) {
            Ok(c) => c,
            Err(e) => return (Err(e), urls),
        };
    }
    (Ok(c.into_attendees()), urls)
}

fn ids(v: &[Attendee]) -> Vec<String> {
    v.iter().map(|a| a.id.clone()).collect()
}

#[test]
fn search_url_embeds_token_and_organizer() {
    assert_eq!(
        search_url("abc"),
        "https://www.eventbriteapi.com/v3/events/search/?token=abc&organizer.id=1464915124"
    );
}

#[test]
fn attendees_url_embeds_event_page_and_token() {
    assert_eq!(
        attendees_url("123", 7, "abc"),
        "https://www.eventbriteapi.com/v3/events/123/attendees/?page=7&token=abc"
    );
    assert_eq!(
        attendees_url("9", 120, "t"),
        "https://www.eventbriteapi.com/v3/events/9/attendees/?page=120&token=t"
    );
}

#[test]
fn decimal_numerals() {
    for n in [0u32, 5, 10, 99, 1000, 2147483648, u32::MAX] {
        let mut s = String::from("p=");
        push_decimal(&mut s, n);
        assert_eq!(s, format!("p={}", n));
    }
}

#[test]
fn resolver_picks_last_event() {
    let r = last_event_id(Ok(LastRequest { events: vec![event("1"), event("2"), event("3")] }));
    assert_eq!(r.unwrap(), "3");
}

#[test]
fn resolver_single_event() {
    let r = last_event_id(Ok(LastRequest { events: vec![event("77")] }));
    assert_eq!(r.unwrap(), "77");
}

#[test]
fn resolver_empty_is_not_found() {
    let r = last_event_id(Ok(LastRequest { events: vec![] }));
    assert!(matches!(r, Err(ClientError::NotFound)));
}

#[test]
fn resolver_passes_decode_error_through() {
    let r = last_event_id(Err(ClientError::Decode("expected value".to_string())));
    assert!(matches!(r, Err(ClientError::Decode(m)) if m == "expected value"));
}

#[test]
fn resolver_passes_transport_error_through() {
    let r = last_event_id(Err(ClientError::Transport("refused".to_string())));
    assert!(matches!(r, Err(ClientError::Transport(m)) if m == "refused"));
}

#[test]
fn collector_first_request_is_page_one() {
    let c = AttendeeCollector::new("tok", "42");
    assert_eq!(
        c.next_url().unwrap(),
        "https://www.eventbriteapi.com/v3/events/42/attendees/?page=1&token=tok"
    );
}

#[test]
fn collector_walks_all_pages_in_order() {
    let (r, urls) = drive(vec![
        Ok(page(1, 3, &["a", "b"])),
        Ok(page(2, 3, &["c"])),
        Ok(page(3, 3, &["d", "e", "f"])),
    ]);
    let got = r.unwrap();
    assert_eq!(ids(&got), vec!["a", "b", "c", "d", "e", "f"]);
    assert_eq!(got.len(), 2 + 1 + 3);
    assert_eq!(got[3].profile.first_name, "Firstd");
    assert_eq!(got[3].profile.last_name, "Lastd");
    assert_eq!(urls.len(), 3);
    assert_eq!(urls[2], "https://www.eventbriteapi.com/v3/events/42/attendees/?page=3&token=tok");
}

#[test]
fn collector_one_page_one_fetch() {
    let (r, urls) = drive(vec![Ok(page(1, 1, &["a", "b"]))]);
    assert_eq!(ids(&r.unwrap()), vec!["a", "b"]);
    assert_eq!(urls.len(), 1);
}

#[test]
fn collector_zero_page_count_still_fetches_once() {
    let (r, urls) = drive(vec![Ok(page(1, 0, &[]))]);
    assert!(r.unwrap().is_empty());
    assert_eq!(urls.len(), 1);
}

#[test]
fn collector_zero_page_count_keeps_first_page() {
    let (r, urls) = drive(vec![Ok(page(1, 0, &["x"]))]);
    assert_eq!(ids(&r.unwrap()), vec!["x"]);
    assert_eq!(urls.len(), 1);
}

#[test]
fn collector_follows_latest_page_count() {
    let (r, urls) = drive(vec![Ok(page(1, 4, &["a"])), Ok(page(2, 2, &["b"]))]);
    assert_eq!(ids(&r.unwrap()), vec!["a", "b"]);
    assert_eq!(urls.len(), 2);
}

#[test]
fn collector_decode_error_returns_no_attendees() {
    let (r, urls) = drive(vec![
        Ok(page(1, 3, &["a"])),
        Err(ClientError::Decode("trailing characters".to_string())),
    ]);
    assert!(matches!(r, Err(ClientError::Decode(m)) if m == "trailing characters"));
    assert_eq!(urls.len(), 2);
}

#[test]
fn collector_transport_error_on_first_page() {
    let (r, urls) = drive(vec![Err(ClientError::Transport("timed out".to_string()))]);
    assert!(matches!(r, Err(ClientError::Transport(_))));
    assert_eq!(urls.len(), 1);
}
