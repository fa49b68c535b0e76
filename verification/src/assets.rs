//! The files that come with a project, and where a restore puts them.
use vstd::prelude::*;

use serde_json::Value;

use crate::json::{content_of, field_at, parse_document, parsed_json, read_field, same_but_numbers,
    write_document, write_text, written_json, Content, FieldValue, FieldView};
use crate::names::{asset_text, decimal_is_injective, safe_native_asset_file_name};
use crate::path::Platform;
use crate::restore::RestoreResult;
use crate::text::{count_text, decimal, views};
use crate::text_map::TextMap;

verus! {

// ---------------------------------------------------------------------------
// What was fetched
// ---------------------------------------------------------------------------

/// A file that a version lists.
#[derive(Debug)]
pub struct ManifestEntry {
    /// The path that the project records.
    pub path: String,
    pub hash: String,
    /// Where the file lay when it was captured.
    pub origin: Option<String>,
}

/// The places of restored files by the paths that the project records.
pub open spec fn places(map: Map<Seq<char>, String>) -> Map<Seq<char>, Seq<char>> {
    map.map_values(|place: String| place@)
}

/// Where a restored file lies beneath the restored folder.
pub open spec fn native_place(on: Platform, entry: ManifestEntry) -> Seq<char> {
    "Samples/"@ + asset_text(on, entry.path@, entry.hash@)
}

/// Where a restored file lies beneath the restored folder.
pub fn native_sample_place(on: Platform, entry: &ManifestEntry) -> (r: String)
    ensures
        r@ == native_place(on, *entry),
{
    let mut place = "Samples/".to_owned();
    place.append(
        safe_native_asset_file_name(on, entry.path.as_str(), entry.hash.as_str()).as_str(),
    );
    place
}

/// The files that the project refers to and that could be fetched, each with
/// its place. Where a path is listed twice, the last one counts.
pub open spec fn fetched_places(
    on: Platform,
    entries: Seq<ManifestEntry>,
    referenced: Set<Seq<char>>,
    fetched: Seq<bool>,
) -> Map<Seq<char>, Seq<char>>
    decreases entries.len(),
{
    if entries.len() == 0 {
        Map::empty()
    } else {
        let before = fetched_places(on, entries.drop_last(), referenced, fetched);
        if referenced.contains(entries.last().path@) && fetched[entries.len() - 1] {
            before.insert(entries.last().path@, native_place(on, entries.last()))
        } else {
            before
        }
    }
}

/// The files that the project refers to and that could be fetched, each with
/// its place.
pub fn fetched_assets(
    on: Platform,
    entries: &Vec<ManifestEntry>,
    referenced: &TextMap<()>,
    fetched: &Vec<bool>,
) -> (r: TextMap<String>)
    requires
        fetched@.len() == entries@.len(),
    ensures
        places(r@) == fetched_places(on, entries@, referenced@.dom(), fetched@),
{
    let mut out: TextMap<String> = TextMap::new();
    let mut i: usize = 0;
    assert(places(out@) =~= Map::<Seq<char>, Seq<char>>::empty());
    while i < entries.len()
        invariant
            i <= entries@.len(),
            fetched@.len() == entries@.len(),
            places(out@) == fetched_places(on, entries@.take(i as int), referenced@.dom(), fetched@),
        decreases entries@.len() - i,
    {
        let entry = &entries[i];
        assert(entries@.take(i + 1).drop_last() =~= entries@.take(i as int));
        if referenced.get(entry.path.as_str()).is_some() && fetched[i] {
            let ghost before = out@;
            let place = native_sample_place(on, entry);
            let ghost placed = place;
            out.insert(entry.path.as_str(), place);
            assert(places(before.insert(entry.path@, placed)) =~= places(before).insert(
                entry.path@,
                placed@,
            ));
        }
        i = i + 1;
    }
    assert(entries@.take(i as int) =~= entries@);
    out
}

/// A restored project whose files are not checked yet.
pub open spec fn unchecked(project_file: String, files_written: usize, unavailable: int) -> RestoreResult {
    RestoreResult {
        project_file,
        files_written,
        unavailable: unavailable as usize,
        verified_files: 0,
        previous_copy: None,
    }
}

/// How many of `all` are missing where there are `some`.
pub open spec fn missing_count(all: nat, some: nat) -> int {
    if all > some {
        all - some
    } else {
        0
    }
}

/// What restoring a native project came to: a file is missing for each path
/// that the project refers to and that was not restored.
pub fn restore_auru(project_file: String, referenced: &TextMap<()>, restored: &TextMap<String>) -> (r:
    RestoreResult)
    ensures
        r == unchecked(
            project_file,
            r.files_written,
            missing_count(referenced@.dom().len(), restored@.dom().len()),
        ),
        r.files_written == restored@.dom().len(),
{
    let files_written: usize = restored.len();
    let wanted: usize = referenced.len();
    let unavailable: usize = if wanted > files_written {
        wanted - files_written
    } else {
        0
    };
    RestoreResult { project_file, files_written, unavailable, verified_files: 0, previous_copy: None }
}

/// What restoring a DAWproject came to. A container that still holds its media
/// misses nothing; one whose media is stored apart misses what was not fetched.
pub fn restore_dawproject(
    project_file: String,
    resource_paths: &TextMap<()>,
    fetched: &TextMap<String>,
    requires_hydration: bool,
) -> (r: RestoreResult)
    ensures
        r == unchecked(
            project_file,
            r.files_written,
            if requires_hydration {
                missing_count(resource_paths@.dom().len(), fetched@.dom().len())
            } else {
                0
            },
        ),
        r.files_written == fetched@.dom().len(),
{
    let files_written: usize = fetched.len();
    let wanted: usize = resource_paths.len();
    let unavailable: usize = if requires_hydration && wanted > files_written {
        wanted - files_written
    } else {
        0
    };
    RestoreResult { project_file, files_written, unavailable, verified_files: 0, previous_copy: None }
}

/// What restoring a project that is one opaque file came to.
pub fn restore_opaque_project(project_file: String) -> (r: RestoreResult)
    ensures
        r == unchecked(project_file, 0, 0),
{
    RestoreResult {
        project_file,
        files_written: 0,
        unavailable: 0,
        verified_files: 0,
        previous_copy: None,
    }
}

/// Where each file lay that was captured and could be fetched, with the path it
/// is restored to. Where an origin is listed twice, the last one counts.
pub open spec fn captured_paths(entries: Seq<ManifestEntry>, fetched: Seq<bool>) -> Map<
    Seq<char>,
    Seq<char>,
>
    decreases entries.len(),
{
    if entries.len() == 0 {
        Map::empty()
    } else {
        let before = captured_paths(entries.drop_last(), fetched);
        match (entries.last().origin, fetched[entries.len() - 1]) {
            (Some(origin), true) => before.insert(origin@, entries.last().path@),
            _ => before,
        }
    }
}

/// How many files were fetched.
pub open spec fn count_fetched(fetched: Seq<bool>) -> nat {
    fetched.filter(|fetched: bool| fetched).len()
}

/// Where each file of an FL Studio project lay that was captured and could be
/// fetched, with the path it is restored to, and how many files were fetched.
pub fn captured_assets(entries: &Vec<ManifestEntry>, fetched: &Vec<bool>) -> (r: (
    TextMap<String>,
    usize,
))
    requires
        fetched@.len() == entries@.len(),
    ensures
        places(r.0@) == captured_paths(entries@, fetched@),
        r.1 == count_fetched(fetched@),
{
    let mut captured: TextMap<String> = TextMap::new();
    let mut written: usize = 0;
    let mut i: usize = 0;
    let ghost yes = |fetched: bool| fetched;
    assert(places(captured@) =~= Map::<Seq<char>, Seq<char>>::empty());
    proof {
        reveal(Seq::filter);
        assert(fetched@.take(0) =~= Seq::<bool>::empty());
    }
    while i < entries.len()
        invariant
            i <= entries@.len(),
            fetched@.len() == entries@.len(),
            yes == (|fetched: bool| fetched),
            places(captured@) == captured_paths(entries@.take(i as int), fetched@),
            written == fetched@.take(i as int).filter(yes).len(),
            written <= i,
        decreases entries@.len() - i,
    {
        let entry = &entries[i];
        proof {
            assert(entries@.take(i + 1).drop_last() =~= entries@.take(i as int));
            assert(fetched@.take(i + 1).drop_last() =~= fetched@.take(i as int));
            reveal(Seq::filter);
        }
        if fetched[i] {
            if let Some(origin) = &entry.origin {
                let ghost before = captured@;
                let path = entry.path.clone();
                let ghost kept = path;
                captured.insert(origin.as_str(), path);
                assert(places(before.insert(origin@, kept)) =~= places(before).insert(
                    origin@,
                    kept@,
                ));
            }
            written = written + 1;
        }
        i = i + 1;
    }
    proof {
        assert(entries@.take(i as int) =~= entries@);
        assert(fetched@.take(i as int) =~= fetched@);
    }
    (captured, written)
}

/// What restoring an FL Studio project came to. The references that lead
/// nowhere include those whose file could not be fetched.
pub fn restore_fl(project_file: String, files_written: usize, still_missing: &Vec<String>) -> (r:
    RestoreResult)
    ensures
        r == unchecked(project_file, files_written, still_missing@.len() as int),
{
    RestoreResult {
        project_file,
        files_written,
        unavailable: still_missing.len(),
        verified_files: 0,
        previous_copy: None,
    }
}

fn add_texts(map: &mut TextMap<()>, list: &Vec<String>)
    ensures
        final(map)@.dom() == old(map)@.dom().union(views(list@).to_set()),
{
    let ghost before = map@.dom();
    let ghost all = views(list@);
    let mut i: usize = 0;
    assert(before =~= before.union(all.take(0).to_set()));
    while i < list.len()
        invariant
            i <= list@.len(),
            all == views(list@),
            map@.dom() == before.union(all.take(i as int).to_set()),
        decreases list@.len() - i,
    {
        map.insert(list[i].as_str(), ());
        proof {
            let next = all.take(i + 1);
            assert(next.drop_last() =~= all.take(i as int));
            assert(next =~= all.take(i as int).push(all[i as int]));
            assert forall|text: Seq<char>| next.to_set().contains(text) == (all.take(
                i as int,
            ).to_set().contains(text) || text == all[i as int]) by {
                if text == all[i as int] {
                    assert(next[i as int] == text);
                }
                if all.take(i as int).contains(text) {
                    let k = choose|k: int| 0 <= k < i && all.take(i as int)[k] == text;
                    assert(next[k] == text);
                }
            }
            assert(map@.dom() =~= before.union(next.to_set()));
        }
        i = i + 1;
    }
    assert(all.take(i as int) =~= all);
}

/// What restoring an Ableton project came to: a file that could not be fetched
/// and a reference that leads nowhere count once where they are the same file.
pub fn restore_ableton(
    project_file: String,
    files_written: usize,
    unavailable: &Vec<String>,
    unresolved: &Vec<String>,
) -> (r: RestoreResult)
    ensures
        r == unchecked(
            project_file,
            files_written,
            views(unavailable@).to_set().union(views(unresolved@).to_set()).len() as int,
        ),
{
    let mut missing: TextMap<()> = TextMap::new();
    add_texts(&mut missing, unavailable);
    add_texts(&mut missing, unresolved);
    assert(missing@.dom() =~= views(unavailable@).to_set().union(views(unresolved@).to_set()));
    RestoreResult {
        project_file,
        files_written,
        unavailable: missing.len(),
        verified_files: 0,
        previous_copy: None,
    }
}

// ---------------------------------------------------------------------------
// The sample paths of a native project
// ---------------------------------------------------------------------------

/// Where the clips of a channel stand.
pub open spec fn clips_at(channel: nat) -> Seq<char> {
    "/channels/"@ + decimal(channel) + "/clips"@
}

/// Where the sample path of a clip stands.
pub open spec fn sample_at(channel: nat, clip: nat) -> Seq<char> {
    clips_at(channel) + "/"@ + decimal(clip) + "/data/Audio/file_path"@
}

/// How many items the list at a place has; none where there is no list.
pub open spec fn list_len(content: Content, pointer: Seq<char>) -> nat {
    match field_at(content, pointer) {
        Some(FieldView::List(count)) => count,
        _ => 0,
    }
}

/// Whether a clip has its sample path at a place.
pub open spec fn is_sample_path(content: Content, pointer: Seq<char>) -> bool {
    exists|channel: nat, clip: nat|
        channel < list_len(content, "/channels"@) && clip < list_len(content, clips_at(channel))
            && pointer == #[trigger] sample_at(channel, clip)
}

/// A sample path after a restore: where the sample was restored, its place.
pub open spec fn restored_field(field: FieldView, restored: Map<Seq<char>, Seq<char>>) -> FieldView {
    match field {
        FieldView::Text(path) => if restored.dom().contains(path) {
            FieldView::Text(restored[path])
        } else {
            field
        },
        _ => field,
    }
}

/// A native project whose clips refer to the restored samples.
pub open spec fn rewritten(content: Content, restored: Map<Seq<char>, Seq<char>>) -> Content {
    Map::new(
        |pointer: Seq<char>| content.dom().contains(pointer),
        |pointer: Seq<char>|
            if is_sample_path(content, pointer) {
                restored_field(content[pointer], restored)
            } else {
                content[pointer]
            },
    )
}

/// Whether a clip before the `clip`-th of the `channel`-th has its sample path
/// at a place.
spec fn is_earlier(content: Content, pointer: Seq<char>, channel: nat, clip: nat) -> bool {
    exists|a: nat, b: nat|
        a < list_len(content, "/channels"@) && b < list_len(content, clips_at(a)) && (a < channel || (
        a == channel && b < clip)) && pointer == #[trigger] sample_at(a, b)
}

/// A native project of which the clips before a place are rewritten.
spec fn rewritten_before(
    content: Content,
    restored: Map<Seq<char>, Seq<char>>,
    channel: nat,
    clip: nat,
) -> Content {
    Map::new(
        |pointer: Seq<char>| content.dom().contains(pointer),
        |pointer: Seq<char>|
            if is_earlier(content, pointer, channel, clip) {
                restored_field(content[pointer], restored)
            } else {
                content[pointer]
            },
    )
}

/// A number in decimal is digits only.
proof fn decimal_is_digits(n: nat)
    ensures
        decimal(n).len() > 0,
        forall|i: int| 0 <= i < decimal(n).len() ==> '0' <= #[trigger] decimal(n)[i] <= '9',
    decreases n,
{
    if n >= 10 {
        decimal_is_digits(n / 10);
    }
}

/// Where two numbers are each followed by a slash, the numbers are the same and
/// so is the rest.
proof fn number_before_slash(a: nat, x: Seq<char>, b: nat, y: Seq<char>)
    requires
        x.len() > 0,
        y.len() > 0,
        x[0] == '/',
        y[0] == '/',
        decimal(a) + x == decimal(b) + y,
    ensures
        a == b,
        x == y,
{
    decimal_is_digits(a);
    decimal_is_digits(b);
    let m = decimal(a).len() as int;
    let n = decimal(b).len() as int;
    assert((decimal(a) + x)[m] == '/');
    assert((decimal(b) + y)[n] == '/');
    if m < n {
        assert((decimal(b) + y)[m] == decimal(b)[m]);
    } else if n < m {
        assert((decimal(a) + x)[n] == decimal(a)[n]);
    }
    assert((decimal(a) + x).take(m) =~= decimal(a));
    assert((decimal(b) + y).take(m) =~= decimal(b));
    assert((decimal(a) + x).skip(m) =~= x);
    assert((decimal(b) + y).skip(m) =~= y);
    decimal_is_injective(a, b);
}

/// No two clips have their sample paths at one place.
proof fn sample_places_are_distinct(a: nat, b: nat, c: nat, d: nat)
    requires
        sample_at(a, b) == sample_at(c, d),
    ensures
        a == c,
        b == d,
{
    reveal_strlit("/channels/");
    reveal_strlit("/clips");
    reveal_strlit("/");
    reveal_strlit("/data/Audio/file_path");
    let head = "/channels/"@;
    let tail = "/data/Audio/file_path"@;
    let x = "/clips"@ + "/"@ + decimal(b) + tail;
    let y = "/clips"@ + "/"@ + decimal(d) + tail;
    assert(sample_at(a, b) =~= head + (decimal(a) + x));
    assert(sample_at(c, d) =~= head + (decimal(c) + y));
    assert((head + (decimal(a) + x)).skip(head.len() as int) =~= decimal(a) + x);
    assert((head + (decimal(c) + y)).skip(head.len() as int) =~= decimal(c) + y);
    number_before_slash(a, x, c, y);
    let step = "/clips"@ + "/"@;
    assert(x =~= step + (decimal(b) + tail));
    assert(y =~= step + (decimal(d) + tail));
    assert(x.skip(step.len() as int) =~= decimal(b) + tail);
    assert(y.skip(step.len() as int) =~= decimal(d) + tail);
    number_before_slash(b, tail, d, tail);
}

/// The place of a sample path has nothing to escape.
proof fn sample_place_is_plain(channel: nat, clip: nat)
    ensures
        !sample_at(channel, clip).contains('~'),
{
    reveal_strlit("/channels/");
    reveal_strlit("/clips");
    reveal_strlit("/");
    reveal_strlit("/data/Audio/file_path");
    decimal_is_digits(channel);
    decimal_is_digits(clip);
    let p = sample_at(channel, clip);
    assert forall|i: int| 0 <= i < p.len() implies p[i] != '~' by {
        let a = "/channels/"@;
        let b = a + decimal(channel);
        let c = b + "/clips"@;
        let d = c + "/"@;
        let e = d + decimal(clip);
        if i < a.len() {
            assert(p[i] == a[i]);
        } else if i < b.len() {
            assert(p[i] == decimal(channel)[i - a.len()]);
        } else if i < c.len() {
            assert(p[i] == "/clips"@[i - b.len()]);
        } else if i < d.len() {
            assert(p[i] == "/"@[i - c.len()]);
        } else if i < e.len() {
            assert(p[i] == decimal(clip)[i - d.len()]);
        } else {
            assert(p[i] == "/data/Audio/file_path"@[i - e.len()]);
        }
    }
}

fn clips_place(channel: usize) -> (r: String)
    ensures
        r@ == clips_at(channel as nat),
{
    let mut place = "/channels/".to_owned();
    place.append(count_text(channel).as_str());
    place.append("/clips");
    place
}

fn sample_place(channel: usize, clip: usize) -> (r: String)
    ensures
        r@ == sample_at(channel as nat, clip as nat),
{
    let mut place = clips_place(channel);
    place.append("/");
    place.append(count_text(clip).as_str());
    place.append("/data/Audio/file_path");
    place
}

fn count_items(project: &Value, pointer: &str) -> (r: usize)
    ensures
        r == list_len(content_of(*project), pointer@),
{
    match read_field(project, pointer) {
        Some(FieldValue::List(count)) => count,
        _ => 0,
    }
}

/// Rewriting texts leaves every list as long as it was.
proof fn lists_stay(
    content: Content,
    restored: Map<Seq<char>, Seq<char>>,
    channel: nat,
    clip: nat,
    pointer: Seq<char>,
)
    ensures
        list_len(rewritten_before(content, restored, channel, clip), pointer) == list_len(
            content,
            pointer,
        ),
{
}

/// One clip further, only the place of its sample path counts in addition.
proof fn one_clip_further(content: Content, channel: nat, clip: nat)
    requires
        channel < list_len(content, "/channels"@),
        clip < list_len(content, clips_at(channel)),
    ensures
        !is_earlier(content, sample_at(channel, clip), channel, clip),
        forall|pointer: Seq<char>|
            #![trigger is_earlier(content, pointer, channel, clip + 1)]
            is_earlier(content, pointer, channel, clip + 1) <==> (is_earlier(
                content,
                pointer,
                channel,
                clip,
            ) || pointer == sample_at(channel, clip)),
{
    let here = sample_at(channel, clip);
    if is_earlier(content, here, channel, clip) {
        let (a, b) = choose|a: nat, b: nat|
            a < list_len(content, "/channels"@) && b < list_len(content, clips_at(a)) && (a
                < channel || (a == channel && b < clip)) && here == #[trigger] sample_at(a, b);
        sample_places_are_distinct(channel, clip, a, b);
    }
    assert forall|pointer: Seq<char>|
        #![trigger is_earlier(content, pointer, channel, clip + 1)]
        is_earlier(content, pointer, channel, clip + 1) <==> (is_earlier(
            content,
            pointer,
            channel,
            clip,
        ) || pointer == here) by {
        if is_earlier(content, pointer, channel, clip + 1) {
            let (a, b) = choose|a: nat, b: nat|
                a < list_len(content, "/channels"@) && b < list_len(content, clips_at(a)) && (a
                    < channel || (a == channel && b < clip + 1)) && pointer == #[trigger] sample_at(
                    a,
                    b,
                );
            assert(pointer == sample_at(a, b));
        }
    }
}

/// Past the last clip of a channel, the next channel begins.
proof fn one_channel_further(content: Content, channel: nat)
    ensures
        forall|pointer: Seq<char>|
            #![trigger is_earlier(content, pointer, channel + 1, 0)]
            is_earlier(content, pointer, channel + 1, 0) <==> is_earlier(
                content,
                pointer,
                channel,
                list_len(content, clips_at(channel)),
            ),
{
    let last = list_len(content, clips_at(channel));
    assert forall|pointer: Seq<char>|
        #![trigger is_earlier(content, pointer, channel + 1, 0)]
        is_earlier(content, pointer, channel + 1, 0) <==> is_earlier(
            content,
            pointer,
            channel,
            last,
        ) by {
        if is_earlier(content, pointer, channel + 1, 0) {
            let (a, b) = choose|a: nat, b: nat|
                a < list_len(content, "/channels"@) && b < list_len(content, clips_at(a)) && (a
                    < channel + 1 || (a == channel + 1 && b < 0)) && pointer
                    == #[trigger] sample_at(a, b);
            assert(pointer == sample_at(a, b));
        }
        if is_earlier(content, pointer, channel, last) {
            let (a, b) = choose|a: nat, b: nat|
                a < list_len(content, "/channels"@) && b < list_len(content, clips_at(a)) && (a
                    < channel || (a == channel && b < last)) && pointer == #[trigger] sample_at(
                    a,
                    b,
                );
            assert(pointer == sample_at(a, b));
        }
    }
}

/// Let one clip refer to its restored sample, if it was restored.
fn rewrite_clip(
    project: &mut Value,
    restored: &TextMap<String>,
    channel: usize,
    clip: usize,
    before: Ghost<Content>,
)
    requires
        channel < list_len(before@, "/channels"@),
        clip < list_len(before@, clips_at(channel as nat)),
        content_of(*old(project)) == rewritten_before(
            before@,
            places(restored@),
            channel as nat,
            clip as nat,
        ),
    ensures
        content_of(*final(project)) == rewritten_before(
            before@,
            places(restored@),
            channel as nat,
            clip as nat + 1,
        ),
{
    let pointer = sample_place(channel, clip);
    proof {
        one_clip_further(before@, channel as nat, clip as nat);
        sample_place_is_plain(channel as nat, clip as nat);
    }
    if let Some(FieldValue::Text(path)) = read_field(project, pointer.as_str()) {
        if let Some(place) = restored.get(path.as_str()) {
            let place = place.clone();
            write_text(project, pointer.as_str(), place);
        }
    }
    assert(content_of(*project) =~= rewritten_before(
        before@,
        places(restored@),
        channel as nat,
        clip as nat + 1,
    ));
}

/// Let the clips of a native project refer to the samples that were restored.
pub fn rewrite_native_sample_paths(project: &mut Value, restored: &TextMap<String>)
    ensures
        content_of(*final(project)) == rewritten(content_of(*old(project)), places(restored@)),
{
    let ghost before = content_of(*project);
    let channels: usize = count_items(project, "/channels");
    let mut channel: usize = 0;
    assert(content_of(*project) =~= rewritten_before(before, places(restored@), 0, 0));
    while channel < channels
        invariant
            channel <= channels == list_len(before, "/channels"@),
            content_of(*project) == rewritten_before(
                before,
                places(restored@),
                channel as nat,
                0,
            ),
        decreases channels - channel,
    {
        let place = clips_place(channel);
        let clips: usize = count_items(project, place.as_str());
        proof {
            lists_stay(before, places(restored@), channel as nat, 0, place@);
        }
        let mut clip: usize = 0;
        while clip < clips
            invariant
                clip <= clips == list_len(before, clips_at(channel as nat)),
                channel < channels == list_len(before, "/channels"@),
                content_of(*project) == rewritten_before(
                    before,
                    places(restored@),
                    channel as nat,
                    clip as nat,
                ),
            decreases clips - clip,
        {
            rewrite_clip(project, restored, channel, clip, Ghost(before));
            clip = clip + 1;
        }
        proof {
            one_channel_further(before, channel as nat);
            assert(content_of(*project) =~= rewritten_before(
                before,
                places(restored@),
                channel as nat + 1,
                0,
            ));
        }
        channel = channel + 1;
    }
    proof {
        assert forall|pointer: Seq<char>| is_sample_path(before, pointer) == is_earlier(
            before,
            pointer,
            channel as nat,
            0,
        ) by {
            if is_sample_path(before, pointer) {
                let (a, b) = choose|a: nat, b: nat|
                    a < list_len(before, "/channels"@) && b < list_len(before, clips_at(a))
                        && pointer == #[trigger] sample_at(a, b);
                assert(pointer == sample_at(a, b));
            }
        }
        assert(content_of(*project) =~= rewritten(before, places(restored@)));
    }
}

/// A native project as it is restored: read, let refer to the restored samples,
/// and written again.
pub fn rewrite_native_project(bytes: &[u8], restored: &TextMap<String>) -> (r: Result<
    Vec<u8>,
    String,
>)
    ensures
        match parsed_json(bytes@) {
            Err(error) => r is Err && r->Err_0@ == "read native project: "@ + error,
            Ok(content) => {
                &&& r is Ok
                &&& r->Ok_0@ == written_json(rewritten(content, places(restored@)))
                &&& parsed_json(r->Ok_0@) matches Ok(read) ==> same_but_numbers(
                    rewritten(content, places(restored@)),
                    read,
                )
            },
        },
{
    let mut project = match parse_document(bytes) {
        Ok(project) => project,
        Err(error) => {
            let mut message = "read native project: ".to_owned();
            message.append(error.as_str());
            return Err(message);
        },
    };
    rewrite_native_sample_paths(&mut project, restored);
    match write_document(&project) {
        Ok(bytes) => Ok(bytes),
        Err(error) => {
            let mut message = "encode native project: ".to_owned();
            message.append(error.as_str());
            Err(message)
        },
    }
}

/// A clip whose sample was restored refers to the restored file; whatever else
/// a project says stays as it was.
pub proof fn only_restored_samples_move(
    content: Content,
    restored: Map<Seq<char>, Seq<char>>,
    pointer: Seq<char>,
)
    requires
        content.dom().contains(pointer),
    ensures
        rewritten(content, restored).dom() == content.dom(),
        (is_sample_path(content, pointer) && content[pointer] is Text
            && restored.dom().contains(content[pointer]->Text_0)) ==> rewritten(
            content,
            restored,
        )[pointer] == FieldView::Text(restored[content[pointer]->Text_0]),
        !(is_sample_path(content, pointer) && content[pointer] is Text
            && restored.dom().contains(content[pointer]->Text_0)) ==> rewritten(
            content,
            restored,
        )[pointer] == content[pointer],
{
    assert(rewritten(content, restored).dom() =~= content.dom());
}

} // verus!
