//! The times of logged events, as the monitor shows them.

use vstd::prelude::*;

use crate::numbers;
use crate::numbers::digit_of;

use chrono::DateTime;

verus! {

/// A point in time: seconds since the beginning of 1970 in UTC and the
/// nanoseconds beyond; a thousand million and more of them mark a leap second.
#[derive(Debug, Clone, Copy, PartialEq, Eq, Structural)]
pub struct LogInstant {
    pub secs: i64,
    pub nanos: u32,
}

/// The point in time that an RFC 3339 text tells; none where it is no such
/// text.
pub uninterp spec fn rfc3339_instant(ts: Seq<char>) -> Option<(i64, u32)>;

/// `DateTime::parse_from_rfc3339`, read by `timestamp` and
/// `timestamp_subsec_nanos`: the point in time is determined by the text.
#[verifier::external_body]
fn parse_rfc3339(ts: &str) -> (r: Option<(i64, u32)>)
    ensures
        r == rfc3339_instant(ts@),
{
    DateTime::parse_from_rfc3339(ts).ok().map(|d| (d.timestamp(), d.timestamp_subsec_nanos()))
}

/// The point in time that a logged text tells.
pub fn parse_timestamp(ts: &str) -> (r: Option<LogInstant>)
    ensures
        match r {
            Some(t) => rfc3339_instant(ts@) == Some((t.secs, t.nanos)),
            None => rfc3339_instant(ts@) is None,
        },
{
    match parse_rfc3339(ts) {
        Some((secs, nanos)) => Some(LogInstant { secs, nanos }),
        None => None,
    }
}

/// The second of the day where clocks are `offset` seconds ahead of UTC.
pub open spec fn second_of_day(secs: int, offset: int) -> int {
    (secs + offset) % 86400
}

/// A number below a hundred in two digits.
pub open spec fn two_digits(n: int) -> Seq<char> {
    seq![numbers::digit(n / 10), numbers::digit(n % 10)]
}

/// Hours, minutes and seconds where clocks are `offset` seconds ahead of UTC;
/// a leap second counts as one more.
pub open spec fn clock(instant: (i64, u32), offset: int) -> Seq<char> {
    let day = second_of_day(instant.0 as int, offset);
    let leap = if instant.1 >= 1_000_000_000 {
        1int
    } else {
        0
    };
    two_digits(day / 3600) + seq![':'] + two_digits(day / 60 % 60) + seq![':'] + two_digits(
        day % 60 + leap,
    )
}

fn push_two(s: &mut String, n: i64)
    requires
        0 <= n < 100,
    ensures
        final(s)@ == old(s)@ + two_digits(n as int),
{
    s.push(digit_of((n / 10) as u8));
    s.push(digit_of((n % 10) as u8));
    assert(s@ == old(s)@ + two_digits(n as int));
}

/// Hours, minutes and seconds where clocks are `offset` seconds ahead of UTC.
pub fn clock_text(instant: LogInstant, offset: i32) -> (r: String)
    requires
        -86400 < offset < 86400,
    ensures
        r@ == clock((instant.secs, instant.nanos), offset as int),
{
    let base: i64 = match instant.secs.checked_rem_euclid(86400) {
        Some(n) => n,
        None => 0,
    };
    let shifted: i64 = base + offset as i64;
    let day: i64 = if shifted < 0 {
        shifted + 86400
    } else if shifted >= 86400 {
        shifted - 86400
    } else {
        shifted
    };
    let leap: i64 = if instant.nanos >= 1_000_000_000 {
        1
    } else {
        0
    };
    assert(day == second_of_day(instant.secs as int, offset as int));
    let mut s = String::new();
    push_two(&mut s, day / 3600);
    s.push(':');
    push_two(&mut s, day / 60 % 60);
    s.push(':');
    push_two(&mut s, day % 60 + leap);
    assert(s@ == clock((instant.secs, instant.nanos), offset as int));
    s
}

/// What is shown for a logged time: the time of day where clocks are `offset`
/// seconds ahead of UTC, or the text itself where it tells no time.
pub open spec fn shown_time(ts: Seq<char>, offset: int) -> Seq<char> {
    match rfc3339_instant(ts) {
        Some(t) => clock(t, offset),
        None => ts,
    }
}

/// What is shown for a logged time where clocks are `offset` seconds ahead of
/// UTC.
pub fn format_timestamp(ts: &str, offset: i32) -> (r: String)
    requires
        -86400 < offset < 86400,
    ensures
        r@ == shown_time(ts@, offset as int),
{
    match parse_timestamp(ts) {
        Some(t) => clock_text(t, offset),
        None => ts.to_owned(),
    }
}

// ---------------------------------------------------------------------------
// Laws
// ---------------------------------------------------------------------------

/// The digits of the clock tell hours, minutes and seconds that make up the
/// second of the day where clocks are `offset` seconds ahead of UTC; a leap
/// second counts as one more.
pub proof fn law_clock_tells_the_time(secs: i64, nanos: u32, offset: int)
    ensures
        ({
            let s = clock((secs, nanos), offset);
            let value = |i: int| s[i] as int - '0' as int;
            let hours = 10 * value(0) + value(1);
            let minutes = 10 * value(3) + value(4);
            let seconds = 10 * value(6) + value(7);
            let leap = if nanos >= 1_000_000_000 {
                1int
            } else {
                0
            };
            &&& s.len() == 8
            &&& s[2] == ':' && s[5] == ':'
            &&& forall|i: int| 0 <= i < 8 && i != 2 && i != 5 ==> '0' <= #[trigger] s[i] <= '9'
            &&& 0 <= hours < 24 && 0 <= minutes < 60 && 0 <= seconds - leap < 60
            &&& (3600 * hours + 60 * minutes + seconds - leap - secs - offset) % 86400 == 0
        }),
{
    let day = second_of_day(secs as int, offset);
    let leap = if nanos >= 1_000_000_000 {
        1int
    } else {
        0
    };
    let s = clock((secs, nanos), offset);
    let h = day / 3600;
    let m = day / 60 % 60;
    let z = day % 60 + leap;
    assert(0 <= h < 24 && 0 <= m < 60 && 0 <= z <= 60);
    lemma_two_digits(h);
    lemma_two_digits(m);
    lemma_two_digits(z);
    assert(s[0] == two_digits(h)[0] && s[1] == two_digits(h)[1]);
    assert(s[3] == two_digits(m)[0] && s[4] == two_digits(m)[1]);
    assert(s[6] == two_digits(z)[0] && s[7] == two_digits(z)[1]);
    assert(day == 3600 * h + 60 * m + day % 60);
}

proof fn lemma_two_digits(n: int)
    requires
        0 <= n < 100,
    ensures
        two_digits(n).len() == 2,
        '0' <= two_digits(n)[0] <= '9',
        '0' <= two_digits(n)[1] <= '9',
        10 * (two_digits(n)[0] as int - '0' as int) + (two_digits(n)[1] as int - '0' as int) == n,
{
    assert(two_digits(n)[0] == (48 + n / 10) as char);
    assert(two_digits(n)[1] == (48 + n % 10) as char);
}

/// What tells no time is shown as it is; what tells one is shown as the time of
/// day, so texts of one point in time look the same.
pub proof fn law_times_are_shown(a: Seq<char>, b: Seq<char>, offset: int)
    ensures
        rfc3339_instant(a) is None ==> shown_time(a, offset) == a,
        rfc3339_instant(a) is Some ==> shown_time(a, offset).len() == 8,
        rfc3339_instant(a) is Some && rfc3339_instant(a) == rfc3339_instant(b) ==> shown_time(
            a,
            offset,
        ) == shown_time(b, offset),
        rfc3339_instant(a) matches Some(t) ==> shown_time(a, offset) == clock(t, offset),
{
}

} // verus!
