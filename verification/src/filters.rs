//! The tempo filter's inputs, and lists of labels.
use vstd::prelude::*;

use crate::text::{ascii_lowered, equal_ignoring_case, same_ignoring_case, trim, trimmed, views};

verus! {

/// The slowest tempo that can be filtered by, in beats per minute.
pub const MIN_FILTER_BPM: u16 = 1;

/// The fastest tempo that can be filtered by.
pub const MAX_FILTER_BPM: u16 = 300;

/// The tempo that an exact filter starts from.
pub const DEFAULT_EXACT_BPM: u16 = 120;

/// Whether to filter by a range of tempos or by one.
#[derive(Clone, Copy, Debug, PartialEq, Eq, Structural)]
pub enum BpmFilterMode {
    Range,
    Exact,
}

impl Default for BpmFilterMode {
    fn default() -> (r: Self)
        ensures
            r is Range,
    {
        BpmFilterMode::Range
    }
}

/// An end of a range of tempos.
#[derive(Clone, Copy, Debug, PartialEq, Eq, Structural)]
pub enum BpmRangeEndpoint {
    Min,
    Max,
}

/// The labels a person gives a project.
#[derive(Clone, Copy, Debug, PartialEq, Eq, Structural)]
pub enum MetadataBadgeField {
    Genre,
    Tag,
}

/// A range of tempos within what can be filtered by.
#[derive(Clone, Copy, Debug, PartialEq, Eq, Structural)]
pub struct BpmRange {
    pub min: u16,
    pub max: u16,
}

impl BpmRange {
    /// Whether the range lies within what can be filtered by, ends in order.
    pub open spec fn wf(self) -> bool {
        MIN_FILTER_BPM <= self.min <= self.max <= MAX_FILTER_BPM
    }

    /// Everything that can be filtered by.
    pub fn full() -> (r: Self)
        ensures
            r == (BpmRange { min: MIN_FILTER_BPM, max: MAX_FILTER_BPM }),
            r.wf(),
    {
        BpmRange { min: MIN_FILTER_BPM, max: MAX_FILTER_BPM }
    }
}

/// The nearest tempo that can be filtered by.
pub open spec fn supported(bpm: u16) -> u16 {
    if bpm < MIN_FILTER_BPM {
        MIN_FILTER_BPM
    } else if bpm > MAX_FILTER_BPM {
        MAX_FILTER_BPM
    } else {
        bpm
    }
}

/// The nearest tempo that can be filtered by.
pub fn supported_bpm(bpm: u16) -> (r: u16)
    ensures
        r == supported(bpm),
{
    if bpm < MIN_FILTER_BPM {
        MIN_FILTER_BPM
    } else if bpm > MAX_FILTER_BPM {
        MAX_FILTER_BPM
    } else {
        bpm
    }
}

/// The range between two tempos, whichever is the slower.
pub open spec fn between(a: u16, b: u16) -> BpmRange {
    if supported(a) <= supported(b) {
        BpmRange { min: supported(a), max: supported(b) }
    } else {
        BpmRange { min: supported(b), max: supported(a) }
    }
}

/// Two tempos as a range, whichever is the slower.
pub fn ordered_bpm_range(min: u16, max: u16) -> (r: BpmRange)
    ensures
        r.wf(),
        r == between(min, max),
{
    let a: u16 = supported_bpm(min);
    let b: u16 = supported_bpm(max);
    if a <= b {
        BpmRange { min: a, max: b }
    } else {
        BpmRange { min: b, max: a }
    }
}

/// A range with one end typed anew.
pub open spec fn with_end(
    current: BpmRange,
    endpoint: BpmRangeEndpoint,
    typed: Option<u16>,
) -> BpmRange {
    match (endpoint, typed) {
        (_, None) => current,
        (BpmRangeEndpoint::Min, Some(bpm)) => BpmRange {
            min: if supported(bpm) > current.max {
                current.max
            } else {
                supported(bpm)
            },
            max: current.max,
        },
        (BpmRangeEndpoint::Max, Some(bpm)) => BpmRange {
            min: current.min,
            max: if supported(bpm) < current.min {
                current.min
            } else {
                supported(bpm)
            },
        },
    }
}

/// A range with one end typed anew: it never passes the other end. What is no
/// number leaves the end where it was.
pub fn commit_bpm_range_endpoint(current: BpmRange, endpoint: BpmRangeEndpoint, typed: Option<u16>) -> (r:
    BpmRange)
    requires
        current.wf(),
    ensures
        r.wf(),
        r == with_end(current, endpoint, typed),
{
    match (endpoint, typed) {
        (_, None) => current,
        (BpmRangeEndpoint::Min, Some(bpm)) => {
            let bpm: u16 = supported_bpm(bpm);
            BpmRange { min: if bpm > current.max { current.max } else { bpm }, max: current.max }
        },
        (BpmRangeEndpoint::Max, Some(bpm)) => {
            let bpm: u16 = supported_bpm(bpm);
            BpmRange { min: current.min, max: if bpm < current.min { current.min } else { bpm } }
        },
    }
}

/// A range with both ends typed anew, in either order.
pub fn commit_bpm_range_inputs(current: BpmRange, min: Option<u16>, max: Option<u16>) -> (r: BpmRange)
    requires
        current.wf(),
    ensures
        r.wf(),
        r == between(
            if min is Some {
                min->0
            } else {
                current.min
            },
            if max is Some {
                max->0
            } else {
                current.max
            },
        ),
{
    let a: u16 = match min {
        Some(bpm) => bpm,
        None => current.min,
    };
    let b: u16 = match max {
        Some(bpm) => bpm,
        None => current.max,
    };
    ordered_bpm_range(a, b)
}

/// Whether a list has a label, in whatever case.
pub open spec fn has_label(labels: Seq<Seq<char>>, label: Seq<char>) -> bool {
    exists|i: int| 0 <= i < labels.len() && same_ignoring_case(#[trigger] labels[i], label)
}

/// A list with one more label, unless it says nothing or is there already.
pub open spec fn with_label(labels: Seq<Seq<char>>, label: Seq<char>) -> Seq<Seq<char>> {
    if trimmed(label).len() == 0 || has_label(labels, trimmed(label)) {
        labels
    } else {
        labels.push(trimmed(label))
    }
}

/// A list with more labels, one after the other.
pub open spec fn with_labels(labels: Seq<Seq<char>>, additions: Seq<Seq<char>>) -> Seq<Seq<char>>
    decreases additions.len(),
{
    if additions.len() == 0 {
        labels
    } else {
        with_label(with_labels(labels, additions.drop_last()), additions.last())
    }
}

fn labels_have(labels: &Vec<String>, label: &str) -> (r: bool)
    ensures
        r == has_label(views(labels@), label@),
{
    let mut i: usize = 0;
    while i < labels.len()
        invariant
            i <= labels@.len(),
            forall|j: int| 0 <= j < i ==> !same_ignoring_case(#[trigger] views(labels@)[j], label@),
        decreases labels@.len() - i,
    {
        assert(views(labels@)[i as int] == labels@[i as int]@);
        if equal_ignoring_case(labels[i].as_str(), label) {
            return true;
        }
        i = i + 1;
    }
    assert(views(labels@).len() == labels@.len());
    false
}

/// Add labels to a list, each once: a label that is there in another case is
/// there, and one that says nothing is none.
pub fn extend_unique_metadata_values(values: &mut Vec<String>, additions: &Vec<String>)
    ensures
        views(final(values)@) == with_labels(views(old(values)@), views(additions@)),
{
    let ghost before = views(values@);
    let ghost all = views(additions@);
    let mut i: usize = 0;
    assert(all.take(0) =~= Seq::<Seq<char>>::empty());
    assert(all.len() == additions@.len());
    while i < additions.len()
        invariant
            i <= additions@.len(),
            all == views(additions@),
            all.len() == additions@.len(),
            views(values@) == with_labels(before, all.take(i as int)),
        decreases additions@.len() - i,
    {
        let addition = trim(additions[i].as_str());
        assert(all.take(i + 1).drop_last() =~= all.take(i as int));
        assert(all.take(i + 1).last() == all[i as int]);
        let ghost now = views(values@);
        if !addition.as_str().is_empty() && !labels_have(values, addition.as_str()) {
            let ghost text = addition@;
            values.push(addition);
            assert(views(values@) =~= now.push(text));
        }
        i = i + 1;
    }
    assert(all.take(i as int) =~= all);
}

/// Adding a label twice is adding it once.
pub proof fn a_label_is_added_once(labels: Seq<Seq<char>>, label: Seq<char>)
    ensures
        with_label(with_label(labels, label), label) == with_label(labels, label),
{
    let after = with_label(labels, label);
    if trimmed(label).len() > 0 && !has_label(labels, trimmed(label)) {
        assert(after[after.len() - 1] == trimmed(label));
        assert(ascii_lowered(trimmed(label)) == ascii_lowered(trimmed(label)));
        assert(same_ignoring_case(after[after.len() - 1], trimmed(label)));
    }
}

/// The places, among the first `n`, of the items that were selected before.
pub open spec fn still_selected(items: Seq<Seq<char>>, selected: Seq<Seq<char>>, n: int) -> Seq<usize>
    decreases n,
{
    if n <= 0 {
        Seq::empty()
    } else {
        let before = still_selected(items, selected, n - 1);
        if has_label(selected, items[n - 1]) {
            before.push((n - 1) as usize)
        } else {
            before
        }
    }
}

/// The places of the items that stay selected when a filter gets new items.
pub fn kept_selection(items: &Vec<String>, selected: &Vec<String>) -> (r: Vec<usize>)
    ensures
        r@ == still_selected(views(items@), views(selected@), items@.len() as int),
{
    let mut out: Vec<usize> = Vec::new();
    let mut i: usize = 0;
    while i < items.len()
        invariant
            i <= items@.len(),
            out@ == still_selected(views(items@), views(selected@), i as int),
        decreases items@.len() - i,
    {
        assert(views(items@)[i as int] == items@[i as int]@);
        if labels_have(selected, items[i].as_str()) {
            out.push(i);
        }
        i = i + 1;
    }
    out
}

} // verus!
