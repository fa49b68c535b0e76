//! What is known of a project: its tracks, its plugins, its labels and its size.
use vstd::prelude::*;

use crate::detail::{absent, dashed, detail_of, part_if, plural_text, MissingPlugin, ProjectDetail,
    ProjectInfo, ResolvedPlugin};
use crate::filters::{between, has_label, still_selected, supported, with_end, with_labels,
    BpmRange, BpmRangeEndpoint};
use crate::laws::text::{ignoring_case_is_being_the_same_but_case, same_but_case};
use crate::sizes::{as_double, bytes_text, nearest_even, spacing, tenths_text, weight_text};
use crate::text::{decimal, joined, trimmed};

verus! {

// ---------------------------------------------------------------------------
// Facts
// ---------------------------------------------------------------------------

/// Nothing is known of a project exactly if no reader found anything. Facts of FL
/// Studio count first, then those of a DAWproject, then those of Ableton Live.
pub proof fn facts_are_taken_from_one_reader(info: ProjectInfo)
    ensures
        detail_of(info) is None <==> info.flstudio is None && info.dawproject is None
            && info.ableton is None,
        info.flstudio matches Some(facts) ==> {
            &&& detail_of(info)->0.tempo == facts.tempo
            &&& detail_of(info)->0.time_signature == facts.time_signature
            &&& detail_of(info)->0.tracks_total == facts.channels
            &&& detail_of(info)->0.clip_count == facts.patterns
            &&& detail_of(info)->0.live_version == facts.version
            &&& detail_of(info)->0.files_total == facts.assets_total
            &&& detail_of(info)->0.files_gathered == facts.assets_vendored
            &&& detail_of(info)->0.key is None && !detail_of(info)->0.in_key
        },
        info.flstudio is None ==> (info.dawproject matches Some(facts) ==> {
            &&& detail_of(info)->0.tempo == facts.tempo
            &&& detail_of(info)->0.time_signature == facts.time_signature
            &&& detail_of(info)->0.tracks_total == facts.tracks_total
            &&& detail_of(info)->0.clip_count == facts.clip_count
            &&& detail_of(info)->0.bars == facts.bars
            &&& detail_of(info)->0.live_version == facts.application
            &&& detail_of(info)->0.tracks_return == facts.tracks_effect
            &&& detail_of(info)->0.files_total == facts.assets_total
            &&& detail_of(info)->0.files_gathered == facts.assets_embedded
            &&& detail_of(info)->0.key is None && !detail_of(info)->0.in_key
        }),
        info.flstudio is None && info.dawproject is None ==> (info.ableton matches Some(facts) ==> {
            &&& detail_of(info)->0.tempo == facts.tempo
            &&& detail_of(info)->0.time_signature == facts.time_signature
            &&& detail_of(info)->0.key == facts.key
            &&& detail_of(info)->0.tracks_total == facts.tracks_total
            &&& detail_of(info)->0.tracks_midi == facts.tracks_midi
            &&& detail_of(info)->0.tracks_audio == facts.tracks_audio
            &&& detail_of(info)->0.tracks_return == facts.tracks_return
            &&& detail_of(info)->0.clip_count == facts.clip_count
            &&& detail_of(info)->0.bars == facts.bars
            &&& detail_of(info)->0.live_version == facts.live_version
            &&& detail_of(info)->0.files_total == facts.assets_total
            &&& detail_of(info)->0.files_gathered == facts.assets_vendorable
        }),
{
}

/// A track that holds notes and audio counts as both, and what is in key has a key.
pub proof fn hybrid_tracks_count_twice(info: ProjectInfo)
    requires
        info.counts_fit(),
    ensures
        info.flstudio is None ==> (info.dawproject matches Some(facts) ==> {
            &&& detail_of(info)->0.tracks_midi == facts.tracks_notes + facts.tracks_hybrid
            &&& detail_of(info)->0.tracks_audio == facts.tracks_audio + facts.tracks_hybrid
        }),
        detail_of(info) matches Some(detail) ==> (detail.in_key ==> detail.key is Some),
        info.flstudio is None && info.dawproject is None ==> (info.ableton matches Some(facts) ==> (
        detail_of(info)->0.in_key <==> facts.in_key && facts.key is Some)),
{
}

/// A count of one stands before one thing, and any other before several.
pub proof fn one_thing_is_not_several(count: nat, noun: Seq<char>)
    ensures
        count == 1 ==> plural_text(count, noun) == decimal(count) + " "@ + noun,
        count != 1 ==> plural_text(count, noun) == decimal(count) + " "@ + noun + "s"@,
{
}

/// A line of facts is a dash exactly where there are none to tell.
pub proof fn nothing_known_is_a_dash(detail: ProjectDetail)
    ensures
        detail.tempo_parts().len() == 0 <==> detail.tempo is None && detail.time_signature is None,
        detail.tracks_parts().len() == 0 <==> detail.tracks_total == 0,
        detail.length_parts().len() == 0 <==> detail.bars is None && detail.clip_count == 0,
        dashed(Seq::empty()) == "—"@,
        detail.files_total == 0 <==> detail.files_text() == "—"@,
        detail.key is None ==> detail.key_text() == "—"@,
        detail.key matches Some(key) ==> (!detail.in_key ==> detail.key_text() == key@),
        detail.key matches Some(key) ==> (detail.in_key ==> detail.key_text() == key@
            + " · in key"@),
{
    reveal_strlit("—");
    reveal_strlit("file");
    reveal_strlit(" ");
    if detail.files_total > 0 {
        let start = plural_text(detail.files_total as nat, "file"@);
        assert(start.len() > 1);
        assert(detail.files_text().len() > 1);
    }
}

/// Which parts a line of tracks has: the kinds of which there are any.
pub proof fn only_tracks_that_are_there_are_told(detail: ProjectDetail)
    ensures
        detail.tracks_total > 0 ==> ({
            let parts = detail.tracks_parts();
            &&& parts[0] == plural_text(detail.tracks_total as nat, "track"@)
            &&& parts.contains(decimal(detail.tracks_midi as nat) + " MIDI"@) || detail.tracks_midi
                == 0
            &&& parts.contains(decimal(detail.tracks_audio as nat) + " audio"@)
                || detail.tracks_audio == 0
            &&& parts.contains(decimal(detail.tracks_return as nat) + " returns"@)
                || detail.tracks_return == 0
            &&& parts.len() == 1 + (if detail.tracks_midi > 0 {
                1int
            } else {
                0
            }) + (if detail.tracks_audio > 0 {
                1int
            } else {
                0
            }) + (if detail.tracks_return > 0 {
                1int
            } else {
                0
            })
        }),
{
    if detail.tracks_total > 0 {
        let parts = detail.tracks_parts();
        let midi: int = if detail.tracks_midi > 0 {
            1
        } else {
            0
        };
        let audio: int = if detail.tracks_audio > 0 {
            1
        } else {
            0
        };
        if detail.tracks_midi > 0 {
            assert(parts[1] == decimal(detail.tracks_midi as nat) + " MIDI"@);
        }
        if detail.tracks_audio > 0 {
            assert(parts[1 + midi] == decimal(detail.tracks_audio as nat) + " audio"@);
        }
        if detail.tracks_return > 0 {
            assert(parts[1 + midi + audio] == decimal(detail.tracks_return as nat) + " returns"@);
        }
    }
}

// ---------------------------------------------------------------------------
// Plugins
// ---------------------------------------------------------------------------

/// A plugin is missed exactly if it is known not to be on this computer: one that
/// is there, comes with the program, or is not known about is not missed.
pub proof fn only_absent_plugins_are_missed(plugins: Seq<ResolvedPlugin>, i: int)
    requires
        0 <= i < plugins.len(),
    ensures
        absent(plugins).len() <= plugins.len(),
        plugins[i].availability is NotOnThisComputer ==> exists|k: int|
            0 <= k < absent(plugins).len() && (#[trigger] absent(plugins)[k]).name
                == plugins[i].name && absent(plugins)[k].vendor == plugins[i].vendor
                && absent(plugins)[k].format == plugins[i].format && absent(plugins)[k].instances
                == plugins[i].instances && absent(plugins)[k].link == plugins[i].link,
        forall|k: int|
            0 <= k < absent(plugins).len() ==> exists|j: int|
                0 <= j < plugins.len() && (#[trigger] plugins[j]).availability is NotOnThisComputer
                    && plugins[j].name == (#[trigger] absent(plugins)[k]).name,
    decreases plugins.len(),
{
    let before = plugins.drop_last();
    let rest = absent(before);
    let all = absent(plugins);
    assert(plugins[plugins.len() - 1] == plugins.last());
    assert(forall|k: int| 0 <= k < rest.len() ==> #[trigger] all[k] == rest[k]);
    if before.len() > 0 {
        let j = if i < before.len() {
            i
        } else {
            0
        };
        only_absent_plugins_are_missed(before, j);
        assert(before[j] == plugins[j]);
        if i < before.len() && plugins[i].availability is NotOnThisComputer {
            let k = choose|k: int|
                0 <= k < rest.len() && (#[trigger] rest[k]).name == plugins[i].name
                    && rest[k].vendor == plugins[i].vendor && rest[k].format == plugins[i].format
                    && rest[k].instances == plugins[i].instances && rest[k].link
                    == plugins[i].link;
            assert(all[k] == rest[k]);
        }
    }
    if plugins.last().availability is NotOnThisComputer {
        assert(all[rest.len() as int] == MissingPlugin::of(plugins.last()));
    }
    assert forall|k: int| 0 <= k < all.len() implies exists|j: int|
        0 <= j < plugins.len() && (#[trigger] plugins[j]).availability is NotOnThisComputer
            && plugins[j].name == (#[trigger] all[k]).name by {
        if k < rest.len() {
            assert(before.len() > 0);
            assert(rest[k] == all[k]);
            let j = choose|j: int|
                0 <= j < before.len() && (#[trigger] before[j]).availability is NotOnThisComputer
                    && before[j].name == rest[k].name;
            assert(plugins[j] == before[j]);
        } else {
            assert(all[k].name == plugins[plugins.len() - 1].name);
        }
    }
}

// ---------------------------------------------------------------------------
// Labels
// ---------------------------------------------------------------------------

/// Whether a label is there, whatever its case.
pub open spec fn is_there(labels: Seq<Seq<char>>, label: Seq<char>) -> bool {
    exists|i: int| 0 <= i < labels.len() && same_but_case(#[trigger] labels[i], label)
}

/// Whether no two labels differ in case alone.
pub open spec fn are_distinct(labels: Seq<Seq<char>>) -> bool {
    forall|i: int, j: int|
        #![trigger labels[i], labels[j]]
        0 <= i < j < labels.len() ==> !same_but_case(labels[i], labels[j])
}

proof fn having_is_being_there(labels: Seq<Seq<char>>, label: Seq<char>)
    ensures
        has_label(labels, label) == is_there(labels, label),
{
    assert forall|i: int| 0 <= i < labels.len() implies same_but_case(
        #[trigger] labels[i],
        label,
    ) == crate::text::same_ignoring_case(labels[i], label) by {
        ignoring_case_is_being_the_same_but_case(labels[i], label);
    }
    if has_label(labels, label) {
        let i = choose|i: int|
            0 <= i < labels.len() && crate::text::same_ignoring_case(#[trigger] labels[i], label);
        assert(same_but_case(labels[i], label));
    }
    if is_there(labels, label) {
        let i = choose|i: int| 0 <= i < labels.len() && same_but_case(#[trigger] labels[i], label);
        assert(crate::text::same_ignoring_case(labels[i], label));
    }
}

/// Labels that are added are there from then on, without white space at their ends;
/// those from before stay in their places. A label that differs from one only in
/// case is not added, nor is an empty one.
pub proof fn added_labels_are_there_once(
    labels: Seq<Seq<char>>,
    additions: Seq<Seq<char>>,
    k: int,
)
    requires
        0 <= k < additions.len(),
    ensures
        ({
            let after = with_labels(labels, additions);
            &&& trimmed(additions[k]).len() > 0 ==> is_there(after, trimmed(additions[k]))
            &&& labels.is_prefix_of(after)
            &&& are_distinct(labels) ==> are_distinct(after)
            &&& forall|i: int|
                labels.len() <= i < after.len() ==> (#[trigger] after[i]).len() > 0 && exists|j: int|
                    0 <= j < additions.len() && after[i] == trimmed(#[trigger] additions[j])
        }),
    decreases additions.len(),
{
    labels_are_added(labels, additions);
    let rest = additions.drop_last();
    let before = with_labels(labels, rest);
    let after = with_labels(labels, additions);
    let last = trimmed(additions.last());
    having_is_being_there(before, last);
    if k < rest.len() {
        added_labels_are_there_once(labels, rest, k);
        assert(rest[k] == additions[k]);
        if trimmed(additions[k]).len() > 0 {
            let i = choose|i: int|
                0 <= i < before.len() && same_but_case(#[trigger] before[i], trimmed(additions[k]));
            assert(after[i] == before[i]);
        }
    } else if last.len() > 0 && !is_there(before, last) {
        assert(after[before.len() as int] == last);
        assert(same_but_case(last, last));
    }
}

proof fn labels_are_added(labels: Seq<Seq<char>>, additions: Seq<Seq<char>>)
    ensures
        ({
            let after = with_labels(labels, additions);
            &&& labels.is_prefix_of(after)
            &&& are_distinct(labels) ==> are_distinct(after)
            &&& forall|i: int|
                labels.len() <= i < after.len() ==> (#[trigger] after[i]).len() > 0 && exists|j: int|
                    0 <= j < additions.len() && after[i] == trimmed(#[trigger] additions[j])
        }),
    decreases additions.len(),
{
    if additions.len() > 0 {
        let rest = additions.drop_last();
        let before = with_labels(labels, rest);
        let after = with_labels(labels, additions);
        let last = trimmed(additions.last());
        labels_are_added(labels, rest);
        having_is_being_there(before, last);
        assert(additions[additions.len() - 1] == additions.last());
        assert(forall|i: int| 0 <= i < before.len() ==> #[trigger] after[i] == before[i]);
        assert(labels =~= after.subrange(0, labels.len() as int));
        assert forall|i: int| labels.len() <= i < after.len() implies (#[trigger] after[i]).len()
            > 0 && exists|j: int|
            0 <= j < additions.len() && after[i] == trimmed(#[trigger] additions[j]) by {
            if i < before.len() {
                assert(after[i] == before[i]);
                let j = choose|j: int| 0 <= j < rest.len() && before[i] == trimmed(#[trigger] rest[j]);
                assert(additions[j] == rest[j]);
            } else {
                assert(after[i] == trimmed(additions[additions.len() - 1]));
            }
        }
        if are_distinct(labels) {
            assert forall|i: int, j: int|
                #![trigger after[i], after[j]]
                0 <= i < j < after.len() implies !same_but_case(after[i], after[j]) by {
                if j < before.len() {
                    assert(before[i] == after[i] && before[j] == after[j]);
                } else {
                    assert(before[i] == after[i]);
                    assert(after[j] == last);
                }
            }
        }
    }
}

/// What was selected stays selected as long as it is offered, whatever its case,
/// and nothing else becomes so.
pub proof fn selections_stay_while_offered(
    items: Seq<Seq<char>>,
    selected: Seq<Seq<char>>,
    n: int,
    at: int,
)
    requires
        0 <= n <= items.len() <= usize::MAX,
        0 <= at < n,
    ensures
        still_selected(items, selected, n).contains(at as usize) <==> is_there(selected, items[at]),
    decreases n,
{
    let rest = still_selected(items, selected, n - 1);
    let all = still_selected(items, selected, n);
    having_is_being_there(selected, items[n - 1]);
    selected_places_are_below(items, selected, n - 1);
    if at < n - 1 {
        selections_stay_while_offered(items, selected, n - 1, at);
        if rest.contains(at as usize) {
            let k = choose|k: int| 0 <= k < rest.len() && rest[k] == at as usize;
            assert(all[k] == at as usize);
        }
        if all.contains(at as usize) {
            let k = choose|k: int| 0 <= k < all.len() && all[k] == at as usize;
            assert(rest[k] == at as usize);
        }
    } else {
        if is_there(selected, items[at]) {
            assert(all[rest.len() as int] == at as usize);
        } else if all.contains(at as usize) {
            let k = choose|k: int| 0 <= k < all.len() && all[k] == at as usize;
            assert(rest[k] < n - 1);
        }
    }
}

proof fn selected_places_are_below(items: Seq<Seq<char>>, selected: Seq<Seq<char>>, n: int)
    requires
        0 <= n <= usize::MAX,
    ensures
        forall|k: int|
            0 <= k < still_selected(items, selected, n).len() ==> (#[trigger] still_selected(
                items,
                selected,
                n,
            )[k]) < n,
    decreases n,
{
    if n > 0 {
        selected_places_are_below(items, selected, n - 1);
        let rest = still_selected(items, selected, n - 1);
        let all = still_selected(items, selected, n);
        assert forall|k: int| 0 <= k < all.len() implies (#[trigger] all[k]) < n by {
            if k < rest.len() {
                assert(rest[k] == all[k]);
            }
        }
    }
}

/// A tempo to filter by lies between 1 and 300, and is the one that was asked for
/// where that does.
pub proof fn tempos_to_filter_by_are_bounded(bpm: u16)
    ensures
        1 <= supported(bpm) <= 300,
        1 <= bpm <= 300 ==> supported(bpm) == bpm,
        bpm == 0 ==> supported(bpm) == 1,
        bpm > 300 ==> supported(bpm) == 300,
{
}

// ---------------------------------------------------------------------------
// Sizes
// ---------------------------------------------------------------------------

/// A rounded number is as near as can be: no more than half a unit away, and of two
/// that are as near the even one.
pub proof fn rounding_is_to_the_nearest(n: nat, unit: nat)
    requires
        unit > 0,
    ensures
        ({
            let away = n - nearest_even(n, unit) * unit;
            &&& -(unit as int) <= 2 * away <= unit
            &&& 2 * away == unit || 2 * away == -unit ==> nearest_even(n, unit) % 2 == 0
        }),
{
    let quotient = n / unit;
    let rest = n % unit;
    vstd::arithmetic::div_mod::lemma_fundamental_div_mod(n as int, unit as int);
    assert(n == unit * quotient + rest);
    assert(quotient * unit == unit * quotient) by (nonlinear_arith);
    assert((quotient + 1) * unit == unit * quotient + unit) by (nonlinear_arith);
}

/// Sizes below eight petabytes are exact before they are rounded for reading.
pub proof fn ordinary_sizes_are_exact(bytes: nat)
    requires
        bytes < 0x20_0000_0000_0000,
    ensures
        as_double(bytes) == bytes,
{
    assert(spacing(bytes) == 1);
    assert(bytes % 1 == 0);
}

/// A size is told in the largest unit of which it holds a whole one: bytes, then
/// kilobytes and megabytes of 1024, to the nearest whole one, then gigabytes to the
/// nearest tenth.
pub proof fn a_size_is_told_in_its_unit(bytes: nat)
    requires
        bytes < 0x20_0000_0000_0000,
    ensures
        bytes < 1024 ==> bytes_text(bytes) == decimal(bytes) + " B"@,
        1024 <= bytes < 1_048_576 ==> bytes_text(bytes) == decimal(nearest_even(bytes, 1024))
            + " KB"@,
        1_048_576 <= bytes < 1_073_741_824 ==> bytes_text(bytes) == decimal(
            nearest_even(bytes, 1_048_576),
        ) + " MB"@,
        1_073_741_824 <= bytes ==> bytes_text(bytes) == tenths_text(
            nearest_even(bytes * 10, 1_073_741_824),
        ) + " GB"@,
        weight_text(bytes) == tenths_text(nearest_even(bytes * 10, 1_048_576)) + " MB project"@,
{
    ordinary_sizes_are_exact(bytes);
}

/// Tenths are told with one place behind the point.
pub proof fn tenths_have_one_place(whole: nat, tenth: nat)
    requires
        tenth < 10,
    ensures
        tenths_text(whole * 10 + tenth) == decimal(whole) + "."@ + decimal(tenth),
{
    assert((whole * 10 + tenth) / 10 == whole);
    assert((whole * 10 + tenth) % 10 == tenth);
}

/// Files are told with how many of them were gathered in, where any were.
pub proof fn gathered_files_are_told(detail: ProjectDetail)
    requires
        detail.files_total > 0,
    ensures
        detail.files_gathered == 0 ==> detail.files_text() == plural_text(
            detail.files_total as nat,
            "file"@,
        ),
        detail.files_gathered > 0 ==> detail.files_text() == plural_text(
            detail.files_total as nat,
            "file"@,
        ) + " · "@ + decimal(detail.files_gathered as nat) + " gathered in"@,
        detail.live_version matches Some(version) ==> detail.made_with_text() == version@,
{
}

/// A plugin's use is told with its maker, where that is known, and how often it is
/// used.
pub proof fn plugins_are_told_with_their_use(plugin: MissingPlugin)
    ensures
        plugin.vendor@.len() == 0 && plugin.instances == 1 ==> plugin.detail_text()
            == plugin.format@ + " · "@ + "used once"@,
        plugin.vendor@.len() == 0 && plugin.instances != 1 ==> plugin.detail_text()
            == plugin.format@ + " · "@ + ("used "@ + decimal(plugin.instances as nat)
            + " times"@),
        plugin.vendor@.len() > 0 && plugin.instances == 1 ==> plugin.detail_text()
            == plugin.vendor@ + " · "@ + plugin.format@ + " · "@ + "used once"@,
        plugin.vendor@.len() > 0 && plugin.instances != 1 ==> plugin.detail_text()
            == plugin.vendor@ + " · "@ + plugin.format@ + " · "@ + ("used "@ + decimal(
            plugin.instances as nat,
        ) + " times"@),
{
    let used = if plugin.instances == 1 {
        "used once"@
    } else {
        "used "@ + decimal(plugin.instances as nat) + " times"@
    };
    let tail = seq![plugin.format@, used];
    let parts = part_if(plugin.vendor@.len() > 0, plugin.vendor@) + tail;
    reveal_with_fuel(joined, 3);
    if plugin.vendor@.len() == 0 {
        assert(parts =~= tail);
        assert(tail.drop_last() =~= seq![plugin.format@]);
    } else {
        assert(parts =~= seq![plugin.vendor@, plugin.format@, used]);
        assert(parts.drop_last() =~= seq![plugin.vendor@, plugin.format@]);
        assert(parts.drop_last().drop_last() =~= seq![plugin.vendor@]);
    }
}

/// The range between two tempos holds both of them, in order, as far as tempos go.
pub proof fn a_range_is_in_order(a: u16, b: u16)
    ensures
        1 <= between(a, b).min <= between(a, b).max <= 300,
        between(a, b) == between(b, a),
        1 <= a <= b <= 300 ==> between(a, b).min == a && between(a, b).max == b,
{
}

/// An end that is typed anew never passes the other, which stays; what is no number
/// changes nothing.
pub proof fn an_end_never_passes_the_other(current: BpmRange, typed: u16)
    requires
        1 <= current.min <= current.max <= 300,
    ensures
        with_end(current, BpmRangeEndpoint::Min, None) == current,
        with_end(current, BpmRangeEndpoint::Max, None) == current,
        with_end(current, BpmRangeEndpoint::Min, Some(typed)).max == current.max,
        with_end(current, BpmRangeEndpoint::Max, Some(typed)).min == current.min,
        1 <= typed <= current.max ==> with_end(
            current,
            BpmRangeEndpoint::Min,
            Some(typed),
        ).min == typed,
        current.min <= typed <= 300 ==> with_end(
            current,
            BpmRangeEndpoint::Max,
            Some(typed),
        ).max == typed,
        typed > current.max ==> with_end(current, BpmRangeEndpoint::Min, Some(typed)).min
            == current.max,
        typed < current.min ==> with_end(current, BpmRangeEndpoint::Max, Some(typed)).max
            == current.min,
{
}

} // verus!
