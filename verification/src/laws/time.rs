//! How long ago something was.
use vstd::prelude::*;

use crate::moment::{epoch_moment, epoch_text, modified_text, FileRevision, Moment};
use crate::text::decimal;

verus! {

/// Some seconds, in nanoseconds.
pub open spec fn seconds(n: int) -> int {
    n * 1_000_000_000
}

/// Whether something is at least `n` of some unit old and less than one more.
pub open spec fn is_aged(at: Moment, now: Moment, n: nat, unit: int) -> bool {
    n * unit <= now.nanos - at.nanos < (n + 1) * unit
}

/// An age is told in the largest unit of which it holds a whole one, rounded down:
/// minutes below an hour, hours below a day, days below thirty, months of thirty
/// days below a year, and years of 365 days. What was less than a minute ago, or
/// lies ahead, is just now.
pub proof fn an_age_is_told_in_whole_units(at: Moment, now: Moment, n: nat)
    ensures
        now.nanos - at.nanos < seconds(60) ==> modified_text(Some(at), now) == "saved just now"@,
        is_aged(at, now, 1, seconds(60)) ==> modified_text(Some(at), now) == "saved 1 minute ago"@,
        2 <= n < 60 && is_aged(at, now, n, seconds(60)) ==> modified_text(Some(at), now)
            == "saved "@ + decimal(n) + " minutes ago"@,
        is_aged(at, now, 1, seconds(3600)) ==> modified_text(Some(at), now)
            == "saved an hour ago"@,
        2 <= n < 24 && is_aged(at, now, n, seconds(3600)) ==> modified_text(Some(at), now)
            == "saved "@ + decimal(n) + " hours ago"@,
        is_aged(at, now, 1, seconds(86_400)) ==> modified_text(Some(at), now)
            == "saved yesterday"@,
        2 <= n < 30 && is_aged(at, now, n, seconds(86_400)) ==> modified_text(Some(at), now)
            == "saved "@ + decimal(n) + " days ago"@,
        1 <= n && is_aged(at, now, n, seconds(2_592_000)) && now.nanos - at.nanos < seconds(
            31_536_000,
        ) ==> modified_text(Some(at), now) == "saved "@ + decimal(n) + " months ago"@,
        1 <= n && is_aged(at, now, n, seconds(31_536_000)) ==> modified_text(Some(at), now)
            == "saved "@ + decimal(n) + " years ago"@,
        modified_text(None, now) == "on this computer"@,
{
    let e: int = now.nanos - at.nanos;
    let whole: int = e / 1_000_000_000;
    if e >= 0 {
        assert(whole * 1_000_000_000 <= e < (whole + 1) * 1_000_000_000);
        let minutes: int = whole / 60;
        assert(minutes * 60 <= whole < (minutes + 1) * 60);
        let hours: int = minutes / 60;
        assert(hours * 60 <= minutes < (hours + 1) * 60);
        let days: int = hours / 24;
        assert(days * 24 <= hours < (days + 1) * 24);
        let months: int = days / 30;
        assert(months * 30 <= days < (months + 1) * 30);
        let years: int = days / 365;
        assert(years * 365 <= days < (years + 1) * 365);
        assert(is_aged(at, now, n, seconds(60)) ==> minutes == n);
        assert(is_aged(at, now, n, seconds(3600)) ==> hours == n);
        assert(is_aged(at, now, n, seconds(86_400)) ==> days == n);
        assert(is_aged(at, now, n, seconds(2_592_000)) ==> months == n);
        assert(is_aged(at, now, n, seconds(31_536_000)) ==> years == n);
        assert(is_aged(at, now, 1, seconds(60)) ==> minutes == 1);
        assert(is_aged(at, now, 1, seconds(3600)) ==> hours == 1);
        assert(is_aged(at, now, 1, seconds(86_400)) ==> days == 1);
        assert(e < seconds(60) ==> minutes == 0);
        assert(e < seconds(31_536_000) ==> days < 365);
    }
}

/// A time in seconds since the start of 1970 is that time, and one before it is
/// not known.
pub proof fn times_since_the_epoch_are_exact(timestamp: i64, now: Moment)
    ensures
        timestamp < 0 ==> epoch_moment(timestamp) is None && epoch_text(timestamp, now)
            == "date unknown"@,
        timestamp >= 0 ==> epoch_moment(timestamp) is Some && epoch_moment(timestamp)->0.nanos
            == seconds(timestamp as int) && epoch_text(timestamp, now) == modified_text(
            Some(epoch_moment(timestamp)->0),
            now,
        ),
{
}

/// A recorded revision is a time to the nanosecond, and none with a whole second
/// or more of nanoseconds is.
pub proof fn revisions_are_exact(revision: FileRevision)
    ensures
        revision.moment() is Some <==> revision.nanoseconds <= 999_999_999
            && revision.unix_seconds <= i64::MAX,
        revision.moment() matches Some(moment) ==> moment.nanos == seconds(
            revision.unix_seconds as int,
        ) + revision.nanoseconds,
{
}

/// Some seconds have passed between two times if they lie that far apart, and not
/// a nanosecond less.
pub proof fn seconds_pass_whole(earlier: Moment, later: Moment, n: nat)
    ensures
        later.is_past(earlier, n) <==> later.nanos - earlier.nanos >= seconds(n as int),
        later.is_past(earlier, n) && n > 0 ==> !earlier.is_past(later, 0),
{
}

} // verus!
