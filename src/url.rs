//! The request URLs of the two endpoints the client calls.
use vstd::prelude::*;

verus! {

/// The character of a decimal digit.
pub open spec fn digit_char(d: nat) -> char {
    seq!['0', '1', '2', '3', '4', '5', '6', '7', '8', '9'][d as int]
}

/// The decimal numeral of `n`, without leading zeros.
pub open spec fn decimal(n: nat) -> Seq<char>
    decreases n,
{
    if n < 10 {
        seq![digit_char(n)]
    } else {
        decimal(n / 10) + seq![digit_char(n % 10)]
    }
}

/// The event search URL for the organizer whose events are collected.
pub open spec fn search_url_spec(token: Seq<char>) -> Seq<char> {
    "https://www.eventbriteapi.com/v3/events/search/?token="@ + token
        + "&organizer.id=1464915124"@
}

/// The URL of one page of an event's attendee list.
pub open spec fn attendees_url_spec(event_id: Seq<char>, page: nat, token: Seq<char>) -> Seq<char> {
    "https://www.eventbriteapi.com/v3/events/"@ + event_id + "/attendees/?page="@ + decimal(page)
        + "&token="@ + token
}

fn digit_str(d: u32) -> (r: &'static str)
    requires
        d < 10,
    ensures
        r@ == seq![digit_char(d as nat)],
{
    proof {
        reveal_strlit("0");
        reveal_strlit("1");
        reveal_strlit("2");
        reveal_strlit("3");
        reveal_strlit("4");
        reveal_strlit("5");
        reveal_strlit("6");
        reveal_strlit("7");
        reveal_strlit("8");
        reveal_strlit("9");
    }
    let r = match d {
        0 => "0",
        1 => "1",
        2 => "2",
        3 => "3",
        4 => "4",
        5 => "5",
        6 => "6",
        7 => "7",
        8 => "8",
        _ => "9",
    };
    assert(r@ =~= seq![digit_char(d as nat)]);
    r
}

/// Appends the decimal numeral of `n` to `s`.
pub fn push_decimal(s: &mut String, n: u32)
    ensures
        final(s)@ == old(s)@ + decimal(n as nat),
    decreases n,
{
    if n >= 10 {
        push_decimal(s, n / 10);
    }
    s.append(digit_str(n % 10));
    assert(final(s)@ =~= old(s)@ + decimal(n as nat));
}

/// The URL that lists the organizer's events, authorized by `token`.
pub fn search_url(token: &str) -> (r: String)
    ensures
        r@ == search_url_spec(token@),
{
    let mut r = String::from_str("https://www.eventbriteapi.com/v3/events/search/?token=");
    r.append(token);
    r.append("&organizer.id=1464915124");
    r
}

/// The URL of page `page` of the attendee list of `event_id`, authorized by `token`.
pub fn attendees_url(event_id: &str, page: u32, token: &str) -> (r: String)
    ensures
        r@ == attendees_url_spec(event_id@, page as nat, token@),
{
    let mut r = String::from_str("https://www.eventbriteapi.com/v3/events/");
    r.append(event_id);
    r.append("/attendees/?page=");
    push_decimal(&mut r, page);
    r.append("&token=");
    r.append(token);
    r
}

} // verus!
