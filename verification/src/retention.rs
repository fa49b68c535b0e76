//! How much version history is kept.
use vstd::prelude::*;

use crate::format::CommitId;
use crate::text::same;

verus! {

/// Which versions a provider is asked to keep.
#[derive(Clone, Copy, Debug, PartialEq, Eq, Structural)]
pub enum RetentionRule {
    Latest { count: usize },
    /// Versions from a time on, in Unix seconds.
    Since { timestamp: i64 },
}

/// What pruning did.
#[derive(Clone, Copy, Debug, PartialEq, Eq, Structural)]
pub struct RetentionReport {
    pub versions_removed: usize,
    pub bytes_freed: u64,
}

/// How much version history to keep after each successful backup.
#[derive(Clone, Copy, Debug, PartialEq, Eq, Structural)]
pub enum VersionRetention {
    Everything,
    LastYear,
    LastFifty,
}

/// Seconds in a year.
pub const YEAR_SECONDS: i64 = 31_536_000;

impl Default for VersionRetention {
    fn default() -> (r: Self)
        ensures
            r is Everything,
    {
        VersionRetention::Everything
    }
}

impl VersionRetention {
    pub const ALL: [VersionRetention; 3] = [
        VersionRetention::Everything,
        VersionRetention::LastYear,
        VersionRetention::LastFifty,
    ];

    pub open spec fn key_text(self) -> Seq<char> {
        match self {
            VersionRetention::Everything => "everything"@,
            VersionRetention::LastYear => "last-year"@,
            VersionRetention::LastFifty => "last-fifty"@,
        }
    }

    /// Stable key used as the dropdown's value.
    pub fn key(self) -> (r: &'static str)
        ensures
            r@ == self.key_text(),
    {
        match self {
            VersionRetention::Everything => "everything",
            VersionRetention::LastYear => "last-year",
            VersionRetention::LastFifty => "last-fifty",
        }
    }

    pub open spec fn label_text(self) -> Seq<char> {
        match self {
            VersionRetention::Everything => "Keep every version"@,
            VersionRetention::LastYear => "Keep the last year"@,
            VersionRetention::LastFifty => "Keep the last 50 versions"@,
        }
    }

    pub fn label(self) -> (r: &'static str)
        ensures
            r@ == self.label_text(),
    {
        match self {
            VersionRetention::Everything => "Keep every version",
            VersionRetention::LastYear => "Keep the last year",
            VersionRetention::LastFifty => "Keep the last 50 versions",
        }
    }

    /// The option a key stands for. History is not lost because a stored value
    /// was not understood: an unknown key keeps everything.
    pub open spec fn of_key(key: Seq<char>) -> VersionRetention {
        if key == VersionRetention::LastYear.key_text() {
            VersionRetention::LastYear
        } else if key == VersionRetention::LastFifty.key_text() {
            VersionRetention::LastFifty
        } else {
            VersionRetention::Everything
        }
    }

    pub fn from_key(key: &str) -> (r: Self)
        ensures
            r == Self::of_key(key@),
    {
        if same(key, VersionRetention::LastYear.key()) {
            VersionRetention::LastYear
        } else if same(key, VersionRetention::LastFifty.key()) {
            VersionRetention::LastFifty
        } else {
            VersionRetention::Everything
        }
    }

    pub open spec fn rule(self, now: i64) -> Option<RetentionRule> {
        match self {
            VersionRetention::Everything => None,
            VersionRetention::LastYear => Some(
                RetentionRule::Since {
                    timestamp: if now - YEAR_SECONDS < i64::MIN {
                        i64::MIN
                    } else {
                        (now - YEAR_SECONDS) as i64
                    },
                },
            ),
            VersionRetention::LastFifty => Some(RetentionRule::Latest { count: 50 }),
        }
    }

    /// The rule to ask a provider for, at a time in Unix seconds.
    pub fn rule_at(self, now: i64) -> (r: Option<RetentionRule>)
        ensures
            r == self.rule(now),
    {
        match self {
            VersionRetention::Everything => None,
            VersionRetention::LastYear => {
                let timestamp: i64 = if now < i64::MIN + YEAR_SECONDS {
                    i64::MIN
                } else {
                    now - YEAR_SECONDS
                };
                Some(RetentionRule::Since { timestamp })
            },
            VersionRetention::LastFifty => Some(RetentionRule::Latest { count: 50 }),
        }
    }
}

/// A chosen option is read back from its key as the option that was chosen.
pub proof fn retention_survives_its_key(option: VersionRetention)
    ensures
        VersionRetention::of_key(option.key_text()) == option,
{
    reveal_strlit("everything");
    reveal_strlit("last-year");
    reveal_strlit("last-fifty");
    assert("everything"@.len() == 10);
    assert("last-year"@.len() == 9);
    assert("last-fifty"@.len() == 10);
    assert("everything"@[0] != "last-fifty"@[0]);
}

/// No two options share a key.
pub proof fn retention_keys_are_distinct(a: VersionRetention, b: VersionRetention)
    requires
        a.key_text() == b.key_text(),
    ensures
        a == b,
{
    retention_survives_its_key(a);
    retention_survives_its_key(b);
}

/// Work a project has stashed while its conflict is not resolved.
#[derive(Debug)]
pub struct Stash {
    /// The blob of the stashed snapshot.
    pub snapshot: String,
    /// The blobs of the stashed resources.
    pub resources: Vec<String>,
}

/// What must not be pruned: versions that are still to be pushed, and the
/// blobs of stashed work.
#[derive(Debug)]
pub struct RetentionRoots {
    pub commits: Vec<CommitId>,
    pub blobs: Vec<String>,
}

/// The blobs of stashed work.
pub open spec fn stash_blobs(stash: Option<Stash>) -> Seq<String> {
    match stash {
        Some(stash) => seq![stash.snapshot] + stash.resources@,
        None => Seq::empty(),
    }
}

/// Everything a project still needs is protected from pruning.
pub fn retention_roots(pending_pushes: Vec<CommitId>, stash: Option<Stash>) -> (r: RetentionRoots)
    ensures
        r.commits == pending_pushes,
        r.blobs@ == stash_blobs(stash),
{
    let mut blobs: Vec<String> = Vec::new();
    if let Some(stash) = stash {
        let mut resources = stash.resources;
        blobs.push(stash.snapshot);
        blobs.append(&mut resources);
        assert(blobs@ =~= seq![stash.snapshot] + stash.resources@);
    }
    RetentionRoots { commits: pending_pushes, blobs }
}

} // verus!
