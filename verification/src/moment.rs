//! Moments in time, and how long ago they were.
use vstd::prelude::*;

use crate::text::{decimal, decimal_text};

verus! {

/// Nanoseconds in a second.
pub const NANOSECONDS: u32 = 1_000_000_000;

/// A moment, as the nanoseconds that had passed since the Unix epoch.
#[derive(Clone, Copy, PartialEq, Eq, Structural, Debug)]
pub struct Moment {
    pub nanos: i128,
}

impl Moment {
    /// The moment the given number of seconds after the epoch.
    pub fn at_seconds(seconds: i64) -> (r: Self)
        ensures
            r.nanos == seconds * 1_000_000_000,
    {
        Moment { nanos: seconds as i128 * 1_000_000_000 }
    }

    /// Whether at least `seconds` have passed from `earlier` to `self`.
    pub open spec fn is_past(self, earlier: Moment, seconds: nat) -> bool {
        self.nanos - earlier.nanos >= seconds * 1_000_000_000
    }

    /// Whether at least `seconds` have passed from `earlier` to `self`.
    pub fn past(self, earlier: Moment, seconds: u32) -> (r: bool)
        ensures
            r == self.is_past(earlier, seconds as nat),
    {
        let wanted: i128 = seconds as i128 * 1_000_000_000;
        match self.nanos.checked_sub(earlier.nanos) {
            Some(elapsed) => elapsed >= wanted,
            None => self.nanos > earlier.nanos,
        }
    }

    /// Whole seconds since the epoch, as far as they fit; nothing before it.
    pub fn unix_seconds(self) -> (r: Option<i64>)
        ensures
            r matches Some(seconds) ==> 0 <= self.nanos && seconds == self.nanos as int
                / 1_000_000_000,
            r is None <==> self.nanos < 0 || self.nanos as int / 1_000_000_000 > i64::MAX,
    {
        if self.nanos < 0 {
            return None;
        }
        let seconds: i128 = self.nanos / 1_000_000_000;
        if seconds > i64::MAX as i128 {
            None
        } else {
            Some(seconds as i64)
        }
    }
}

/// The modification time of a file, in the form the settings file keeps.
#[derive(Clone, Copy, PartialEq, Eq, Structural, Debug)]
pub struct FileRevision {
    pub unix_seconds: u64,
    pub nanoseconds: u32,
}

impl FileRevision {
    /// The moment a revision stands for, where it stands for one.
    pub open spec fn moment(self) -> Option<Moment> {
        if self.nanoseconds < NANOSECONDS && self.unix_seconds <= i64::MAX {
            Some(
                (Moment {
                    nanos: (self.unix_seconds * 1_000_000_000 + self.nanoseconds) as i128,
                }),
            )
        } else {
            None
        }
    }

    /// The revision of a moment. A moment before the epoch has none.
    pub fn from_system_time(time: Moment) -> (r: Option<Self>)
        ensures
            r is None <==> time.nanos < 0 || time.nanos as int / 1_000_000_000 > i64::MAX,
            r matches Some(revision) ==> revision.moment() == Some(time),
    {
        match time.unix_seconds() {
            None => None,
            Some(seconds) => {
                let nanoseconds: u32 = (time.nanos % 1_000_000_000) as u32;
                Some(FileRevision { unix_seconds: seconds as u64, nanoseconds })
            },
        }
    }

    /// The moment of a revision. One that no clock could have written, with a
    /// whole second or more in its fraction or with seconds out of range, has
    /// none.
    pub fn to_system_time(self) -> (r: Option<Moment>)
        ensures
            r == self.moment(),
    {
        if self.nanoseconds >= NANOSECONDS || self.unix_seconds > i64::MAX as u64 {
            return None;
        }
        Some(
            Moment {
                nanos: self.unix_seconds as i128 * 1_000_000_000 + self.nanoseconds as i128,
            },
        )
    }
}

/// A moment survives being kept as a revision, and no two revisions stand for
/// the same moment.
pub proof fn revisions_are_faithful(a: FileRevision, b: FileRevision)
    requires
        a.moment() is Some,
        a.moment() == b.moment(),
    ensures
        a == b,
{
}

/// Whole minutes in a number of nanoseconds.
pub open spec fn minutes_in(nanos: int) -> int {
    nanos / 1_000_000_000 / 60
}

/// How long ago a file was saved, in the words a person would use. A file
/// dated in the future is a clock problem, not a project one.
pub open spec fn modified_text(modified: Option<Moment>, now: Moment) -> Seq<char> {
    match modified {
        None => "on this computer"@,
        Some(at) => if at.nanos > now.nanos {
            "saved just now"@
        } else {
            age_text(minutes_in(now.nanos - at.nanos) as nat)
        },
    }
}

/// An age in minutes, in the words a person would use.
pub open spec fn age_text(minutes: nat) -> Seq<char> {
    let hours = minutes / 60;
    let days = hours / 24;
    if minutes == 0 {
        "saved just now"@
    } else if minutes == 1 {
        "saved 1 minute ago"@
    } else if hours == 0 {
        "saved "@ + decimal(minutes) + " minutes ago"@
    } else if hours == 1 {
        "saved an hour ago"@
    } else if days == 0 {
        "saved "@ + decimal(hours) + " hours ago"@
    } else if days == 1 {
        "saved yesterday"@
    } else if days < 30 {
        "saved "@ + decimal(days) + " days ago"@
    } else if days < 365 {
        "saved "@ + decimal(days / 30) + " months ago"@
    } else {
        "saved "@ + decimal(days / 365) + " years ago"@
    }
}

fn ago(amount: u128, unit: &str) -> (r: String)
    ensures
        r@ == "saved "@ + decimal(amount as nat) + unit@,
{
    let mut out = "saved ".to_owned();
    out.append(decimal_text(amount).as_str());
    out.append(unit);
    out
}

/// The nanoseconds from `earlier` to `later`.
fn nanos_between(earlier: Moment, later: Moment) -> (r: u128)
    requires
        earlier.nanos <= later.nanos,
    ensures
        r == later.nanos - earlier.nanos,
{
    if earlier.nanos >= 0 || later.nanos < 0 {
        (later.nanos - earlier.nanos) as u128
    } else {
        let before: u128 = (-(earlier.nanos + 1)) as u128;
        later.nanos as u128 + before + 1
    }
}

/// How long ago a file was saved, in the words a person would use.
pub fn describe_modified(modified: Option<Moment>, now: Moment) -> (r: String)
    ensures
        r@ == modified_text(modified, now),
{
    let at = match modified {
        None => {
            return "on this computer".to_owned();
        },
        Some(at) => at,
    };
    if at.nanos > now.nanos {
        return "saved just now".to_owned();
    }
    let minutes: u128 = nanos_between(at, now) / 1_000_000_000 / 60;
    let hours: u128 = minutes / 60;
    let days: u128 = hours / 24;
    if minutes == 0 {
        "saved just now".to_owned()
    } else if minutes == 1 {
        "saved 1 minute ago".to_owned()
    } else if hours == 0 {
        ago(minutes, " minutes ago")
    } else if hours == 1 {
        "saved an hour ago".to_owned()
    } else if days == 0 {
        ago(hours, " hours ago")
    } else if days == 1 {
        "saved yesterday".to_owned()
    } else if days < 30 {
        ago(days, " days ago")
    } else if days < 365 {
        ago(days / 30, " months ago")
    } else {
        ago(days / 365, " years ago")
    }
}

/// The moment a number of seconds after the epoch, where there is one.
pub open spec fn epoch_moment(timestamp: i64) -> Option<Moment> {
    if timestamp < 0 {
        None
    } else {
        Some(Moment { nanos: (timestamp * 1_000_000_000) as i128 })
    }
}

/// The moment a number of seconds after the epoch; nothing before it.
pub fn moment_of_epoch(timestamp: i64) -> (r: Option<Moment>)
    ensures
        r == epoch_moment(timestamp),
{
    if timestamp < 0 {
        None
    } else {
        Some(Moment::at_seconds(timestamp))
    }
}

/// How long ago a timestamp was.
pub open spec fn epoch_text(timestamp: i64, now: Moment) -> Seq<char> {
    if timestamp < 0 {
        "date unknown"@
    } else {
        modified_text(epoch_moment(timestamp), now)
    }
}

/// How long ago a timestamp was; a date before the epoch is unknown.
pub fn describe_epoch(timestamp: i64, now: Moment) -> (r: String)
    ensures
        r@ == epoch_text(timestamp, now),
{
    if timestamp < 0 {
        "date unknown".to_owned()
    } else {
        describe_modified(moment_of_epoch(timestamp), now)
    }
}

} // verus!
