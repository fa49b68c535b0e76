//! Names for files and folders that are safe on every system, and free.
use vstd::prelude::*;

use crate::format::{ProjectFormat, ProjectLocation};
use crate::path::{components_of, file_name, file_stem, file_stem_of, is_absolute,
    is_name, is_plain, join_names, join_path, joined_names, joined_path, joining_adds_the_name,
    joining_adds_the_names, name_of, names, parent, parent_of, split_name, stems_are_beginnings,
    extension_of, Platform};
use crate::text::{after_prefix, ascii_alphanumeric, ascii_lower, ascii_lowered, blank, chars_of,
    control, decimal, decimal_text, digit, holds_text, is_ascii_alphanumeric, is_blank, is_control,
    list_holds, pieces, pieces_nonempty, prefix_of, first_chars, same, split, starts,
    to_ascii_lower, to_ascii_lowered, trim, trim_class, trim_end_of, trim_of, trim_start_of,
    trimmed, views, Class};

verus! {

// ---------------------------------------------------------------------------
// Components
// ---------------------------------------------------------------------------

/// The bytes a character takes in UTF-8.
pub open spec fn width(c: char) -> nat {
    let u = c as u32;
    if u < 0x80 {
        1
    } else if u < 0x800 {
        2
    } else if u < 0x10000 {
        3
    } else {
        4
    }
}

/// The bytes a text takes in UTF-8.
pub open spec fn text_width(s: Seq<char>) -> nat
    decreases s.len(),
{
    if s.len() == 0 {
        0
    } else {
        width(s[0]) + text_width(s.drop_first())
    }
}

/// The bytes a character takes in UTF-8.
pub fn utf8_width(c: char) -> (r: usize)
    ensures
        r == width(c),
{
    let u: u32 = c as u32;
    if u < 0x80 {
        1
    } else if u < 0x800 {
        2
    } else if u < 0x10000 {
        3
    } else {
        4
    }
}

/// Whether a character may stand in a file name on every system.
pub open spec fn is_safe(c: char) -> bool {
    !is_control(c) && c != '/' && c != '\\' && c != ':' && c != '*' && c != '?' && c != '"' && c
        != '<' && c != '>' && c != '|'
}

/// A character, or `_` in place of one that may not stand in a file name.
pub open spec fn safe_char(c: char) -> char {
    if is_safe(c) {
        c
    } else {
        '_'
    }
}

/// The longest start of a text, made safe, that takes at most `budget` bytes.
pub open spec fn fitting(s: Seq<char>, budget: int) -> Seq<char>
    decreases s.len(),
{
    if s.len() == 0 || width(safe_char(s[0])) > budget {
        Seq::empty()
    } else {
        seq![safe_char(s[0])] + fitting(s.drop_first(), budget - width(safe_char(s[0])))
    }
}

/// What is left of a text once it is made safe, cut to `max_bytes`, and freed
/// of white space and dots at its ends.
pub open spec fn sanitized(value: Seq<char>, max_bytes: nat) -> Seq<char> {
    trimmed(trim_of(Class::Dot, trimmed(fitting(value, max_bytes as int))))
}

/// A file name component, or the fallback where nothing is left of it.
pub open spec fn component_of(value: Seq<char>, fallback: Seq<char>, max_bytes: nat) -> Seq<char> {
    let safe = sanitized(value, max_bytes);
    if safe.len() == 0 {
        fallback
    } else {
        safe
    }
}

fn made_safe(c: char) -> (r: char)
    ensures
        r == safe_char(c),
{
    if control(c) || c == '/' || c == '\\' || c == ':' || c == '*' || c == '?' || c == '"' || c
        == '<' || c == '>' || c == '|' {
        '_'
    } else {
        c
    }
}

/// A text as a file name component of at most `max_bytes`; the fallback where
/// nothing usable is left of it.
pub fn safe_file_component(value: &str, fallback: &str, max_bytes: usize) -> (r: String)
    ensures
        r@ == component_of(value@, fallback@, max_bytes as nat),
{
    let chars = chars_of(value);
    let mut safe = String::new();
    let mut budget: usize = max_bytes;
    let mut i: usize = 0;
    assert(chars@.skip(0) =~= value@);
    assert(safe@ + fitting(value@, max_bytes as int) =~= fitting(value@, max_bytes as int));
    while i < chars.len()
        invariant_except_break
            i <= chars@.len(),
            fitting(value@, max_bytes as int) == safe@ + fitting(
                chars@.skip(i as int),
                budget as int,
            ),
        ensures
            safe@ == fitting(value@, max_bytes as int),
        decreases chars@.len() - i,
    {
        let c = made_safe(chars[i]);
        let w: usize = utf8_width(c);
        let ghost rest = chars@.skip(i as int);
        assert(rest[0] == chars@[i as int]);
        assert(rest.drop_first() =~= chars@.skip(i + 1));
        if w > budget {
            assert(safe@ + Seq::<char>::empty() =~= safe@);
            break;
        }
        let ghost before = safe@;
        safe.push(c);
        budget = budget - w;
        i = i + 1;
        assert(before + (seq![c] + fitting(chars@.skip(i as int), budget as int)) =~= safe@
            + fitting(chars@.skip(i as int), budget as int));
        assert(safe@ + Seq::<char>::empty() =~= safe@);
    }
    let inner = trim_class(Class::Dot, trim(safe.as_str()).as_str());
    let safe = trim(inner.as_str());
    if safe.as_str().is_empty() {
        fallback.to_owned()
    } else {
        safe
    }
}

proof fn trim_start_is_suffix(class: Class, s: Seq<char>)
    ensures
        exists|n: int| 0 <= n <= s.len() && trim_start_of(class, s) == #[trigger] s.skip(n),
    decreases s.len(),
{
    if s.len() > 0 && class.has(s[0]) {
        trim_start_is_suffix(class, s.drop_first());
        let n = choose|n: int|
            0 <= n <= s.drop_first().len() && trim_start_of(class, s.drop_first())
                == #[trigger] s.drop_first().skip(n);
        assert(s.drop_first().skip(n) =~= s.skip(n + 1));
    } else {
        assert(s.skip(0) =~= s);
    }
}

proof fn trim_end_is_prefix(class: Class, s: Seq<char>)
    ensures
        exists|n: int| 0 <= n <= s.len() && trim_end_of(class, s) == #[trigger] s.take(n),
    decreases s.len(),
{
    if s.len() > 0 && class.has(s.last()) {
        trim_end_is_prefix(class, s.drop_last());
        let n = choose|n: int|
            0 <= n <= s.drop_last().len() && trim_end_of(class, s.drop_last())
                == #[trigger] s.drop_last().take(n);
        assert(s.drop_last().take(n) =~= s.take(n));
    } else {
        assert(s.take(s.len() as int) =~= s);
    }
}

/// Trimming leaves a stretch of the text.
pub proof fn trimming_leaves_a_stretch(class: Class, s: Seq<char>) -> (ends: (int, int))
    ensures
        0 <= ends.0 <= ends.1 <= s.len(),
        trim_of(class, s) == s.subrange(ends.0, ends.1),
{
    trim_start_is_suffix(class, s);
    let from = choose|n: int| 0 <= n <= s.len() && trim_start_of(class, s) == #[trigger] s.skip(n);
    let rest = s.skip(from);
    trim_end_is_prefix(class, rest);
    let to = choose|n: int| 0 <= n <= rest.len() && trim_end_of(class, rest) == #[trigger] rest.take(n);
    assert(rest.take(to) =~= s.subrange(from, from + to));
    (from, from + to)
}

proof fn width_of_stretch(s: Seq<char>, from: int, to: int)
    requires
        0 <= from <= to <= s.len(),
    ensures
        text_width(s.subrange(from, to)) <= text_width(s),
    decreases s.len(),
{
    if s.len() > 0 {
        let rest = s.drop_first();
        if from > 0 {
            assert(s.subrange(from, to) =~= rest.subrange(from - 1, to - 1));
            width_of_stretch(rest, from - 1, to - 1);
        } else if to > 0 {
            assert(s.subrange(0, to).drop_first() =~= rest.subrange(0, to - 1));
            width_of_stretch(rest, 0, to - 1);
        } else {
            assert(s.subrange(0, 0).len() == 0);
        }
    } else {
        assert(s.subrange(from, to) =~= s);
    }
}

proof fn fitting_fits(s: Seq<char>, budget: int)
    requires
        0 <= budget,
    ensures
        text_width(fitting(s, budget)) <= budget,
        forall|i: int| 0 <= i < fitting(s, budget).len() ==> is_safe(#[trigger] fitting(s, budget)[i]),
    decreases s.len(),
{
    if s.len() > 0 && width(safe_char(s[0])) <= budget {
        let rest = fitting(s.drop_first(), budget - width(safe_char(s[0])));
        fitting_fits(s.drop_first(), budget - width(safe_char(s[0])));
        assert((seq![safe_char(s[0])] + rest).drop_first() =~= rest);
    }
}

/// Nothing of a component can lead out of a folder or upset a file system: it
/// holds no separator, no wildcard and no control character, keeps within its
/// bytes, and is not empty, unless it is the fallback.
pub proof fn components_are_safe(value: Seq<char>, fallback: Seq<char>, max_bytes: nat)
    ensures
        ({
            let r = component_of(value, fallback, max_bytes);
            r == fallback || (r.len() > 0 && text_width(r) <= max_bytes && forall|i: int|
                0 <= i < r.len() ==> is_safe(#[trigger] r[i]))
        }),
{
    let cut = fitting(value, max_bytes as int);
    fitting_fits(value, max_bytes as int);
    let (a, b) = trimming_leaves_a_stretch(Class::White, cut);
    let one = trimmed(cut);
    width_of_stretch(cut, a, b);
    let (c, d) = trimming_leaves_a_stretch(Class::Dot, one);
    let two = trim_of(Class::Dot, one);
    width_of_stretch(one, c, d);
    let (e, f) = trimming_leaves_a_stretch(Class::White, two);
    let three = trimmed(two);
    width_of_stretch(two, e, f);
    assert forall|i: int| 0 <= i < three.len() implies is_safe(#[trigger] three[i]) by {
        assert(three[i] == two[e + i]);
        assert(two[e + i] == one[c + e + i]);
        assert(one[c + e + i] == cut[a + c + e + i]);
    }
}

// ---------------------------------------------------------------------------
// Reserved names
// ---------------------------------------------------------------------------

/// Whether a name, up to its first dot, is that of a Windows device.
pub open spec fn is_device(name: Seq<char>) -> bool {
    let stem = ascii_lowered(pieces(name, Class::Dot)[0]);
    ||| stem == "con"@
    ||| stem == "prn"@
    ||| stem == "aux"@
    ||| stem == "nul"@
    ||| (stem.len() == 4 && (stem.take(3) == "com"@ || stem.take(3) == "lpt"@) && '1' <= stem[3]
        <= '9')
}

/// Whether Windows keeps a name for a device, whatever its extension and case.
pub fn is_windows_reserved_name(value: &str) -> (r: bool)
    ensures
        r == is_device(value@),
{
    let parts = split(value, Class::Dot);
    assert(views(parts@)[0] == parts@[0]@);
    let stem = to_ascii_lowered(parts[0].as_str());
    if same(stem.as_str(), "con") || same(stem.as_str(), "prn") || same(stem.as_str(), "aux")
        || same(stem.as_str(), "nul") {
        return true;
    }
    let chars = chars_of(stem.as_str());
    if chars.len() != 4 || chars[3] < '1' || chars[3] > '9' {
        return false;
    }
    let kind = crate::text::string_of_range(&chars, 0, 3);
    assert(kind@ =~= stem@.take(3));
    same(kind.as_str(), "com") || same(kind.as_str(), "lpt")
}

/// A name that no device has.
pub open spec fn free_of_devices(name: Seq<char>) -> Seq<char> {
    if is_device(name) {
        seq!['_'] + name
    } else {
        name
    }
}

fn avoid_devices(name: String) -> (r: String)
    ensures
        r@ == free_of_devices(name@),
{
    if is_windows_reserved_name(name.as_str()) {
        let mut out = String::new();
        out.push('_');
        out.append(name.as_str());
        assert(out@ =~= seq!['_'] + name@);
        out
    } else {
        name
    }
}

/// The name of a restored project file.
pub open spec fn project_file_text(display_name: Seq<char>, format: ProjectFormat) -> Seq<char> {
    free_of_devices(component_of(display_name, "Restored Project"@, 160)) + "."@
        + format.extension_text()
}

/// The name of a restored project file.
pub fn safe_project_file_name(display_name: &str, format: ProjectFormat) -> (r: String)
    ensures
        r@ == project_file_text(display_name@, format),
{
    let mut out = avoid_devices(safe_file_component(display_name, "Restored Project", 160));
    out.append(".");
    out.append(format.extension());
    out
}

// ---------------------------------------------------------------------------
// Names made from projects, versions and hashes
// ---------------------------------------------------------------------------

/// The name of a project: its file's stem, unless that is blank.
pub open spec fn project_name_text(on: Platform, project_path: Seq<char>) -> Seq<char> {
    match file_stem_of(on, project_path) {
        Some(stem) => if is_blank(stem) {
            "Untitled Project"@
        } else {
            stem
        },
        None => "Untitled Project"@,
    }
}

/// The name a project is registered under with a provider.
pub fn project_display_name(on: Platform, project_path: &str) -> (r: String)
    ensures
        r@ == project_name_text(on, project_path@),
{
    match file_stem(on, project_path) {
        Some(stem) => {
            if blank(stem.as_str()) {
                "Untitled Project".to_owned()
            } else {
                stem
            }
        },
        None => "Untitled Project".to_owned(),
    }
}

/// The digits of a hash, without the name of the algorithm.
pub open spec fn hash_digits(hash: Seq<char>) -> Seq<char> {
    if starts(hash, "blake3:"@) {
        hash.skip("blake3:"@.len() as int)
    } else {
        hash
    }
}

fn digits_of(hash: &str) -> (r: String)
    ensures
        r@ == hash_digits(hash@),
{
    match after_prefix(hash, "blake3:") {
        Some(digits) => digits,
        None => hash.to_owned(),
    }
}

/// A letter or digit made small, or `-` in place of anything else.
pub open spec fn slug_char(c: char) -> char {
    if is_ascii_alphanumeric(c) {
        ascii_lower(c)
    } else {
        '-'
    }
}

/// The handle of a project with a provider: its stem as a slug, and the start
/// of the hash of its path, which tells equal names apart.
pub open spec fn handle_text(
    on: Platform,
    project_path: Seq<char>,
    path_hash: Seq<char>,
) -> Seq<char> {
    let stem = match file_stem_of(on, project_path) {
        Some(stem) => stem,
        None => "project"@,
    };
    trim_of(Class::Dash, stem.map_values(|c: char| slug_char(c))) + "-"@ + first_chars(
        hash_digits(path_hash),
        12,
    )
}

fn slug(stem: &str) -> (r: String)
    ensures
        r@ == stem@.map_values(|c: char| slug_char(c)),
{
    let chars = chars_of(stem);
    let mut out = String::new();
    let mut i: usize = 0;
    while i < chars.len()
        invariant
            i <= chars@.len(),
            out@ == chars@.take(i as int).map_values(|c: char| slug_char(c)),
        decreases chars@.len() - i,
    {
        let c = chars[i];
        if ascii_alphanumeric(c) {
            out.push(to_ascii_lower(c));
        } else {
            out.push('-');
        }
        i = i + 1;
        assert(out@ =~= chars@.take(i as int).map_values(|c: char| slug_char(c)));
    }
    assert(chars@.take(i as int) =~= chars@);
    out
}

/// The handle of a project with a provider, given the hash of its path.
pub fn project_handle(on: Platform, project_path: &str, path_hash: &str) -> (r: String)
    ensures
        r@ == handle_text(on, project_path@, path_hash@),
{
    let stem = match file_stem(on, project_path) {
        Some(stem) => stem,
        None => "project".to_owned(),
    };
    let mut out = trim_class(Class::Dash, slug(stem.as_str()).as_str());
    out.append("-");
    out.append(prefix_of(digits_of(path_hash).as_str(), 12).as_str());
    out
}

/// The handle a project already has with a provider stays, wherever its files
/// are moved; without one it gets [`project_handle`].
pub fn persisted_project_handle(
    on: Platform,
    recorded: Option<&String>,
    project_path: &str,
    path_hash: &str,
) -> (r:
    (String, bool))
    ensures
        recorded matches Some(handle) ==> r.0@ == handle@ && !r.1,
        recorded is None ==> r.0@ == handle_text(on, project_path@, path_hash@) && r.1,
{
    match recorded {
        Some(handle) => (handle.clone(), false),
        None => (project_handle(on, project_path, path_hash), true),
    }
}

/// Up to the dash before the hash, a handle holds small letters, digits and
/// dashes alone.
pub proof fn handles_are_safe(on: Platform, project_path: Seq<char>, path_hash: Seq<char>, i: int)
    ensures
        ({
            let handle = handle_text(on, project_path, path_hash);
            let tail = first_chars(hash_digits(path_hash), 12).len();
            0 <= i < handle.len() - tail ==> handle[i] == '-' || 'a' <= handle[i] <= 'z' || '0'
                <= handle[i] <= '9'
        }),
{
    let stem = match file_stem_of(on, project_path) {
        Some(stem) => stem,
        None => "project"@,
    };
    let long = stem.map_values(|c: char| slug_char(c));
    let (from, to) = trimming_leaves_a_stretch(Class::Dash, long);
    let handle = handle_text(on, project_path, path_hash);
    reveal_strlit("-");
    if 0 <= i < to - from {
        assert(handle[i] == long[from + i]);
    }
}

/// The last part of a recorded path that is not empty, whichever separator it
/// was recorded with.
pub open spec fn recorded_name(parts: Seq<Seq<char>>) -> Seq<char>
    decreases parts.len(),
{
    if parts.len() == 0 {
        "sample"@
    } else if parts.last().len() > 0 {
        parts.last()
    } else {
        recorded_name(parts.drop_last())
    }
}

/// The stem of a name as a file stem; nothing where the name is no file's.
pub open spec fn name_stem(on: Platform, name: Seq<char>) -> Seq<char> {
    match file_stem_of(on, name) {
        Some(stem) => stem,
        None => "sample"@,
    }
}

/// The extension of a name; nothing where the name is no file's.
pub open spec fn name_extension(on: Platform, name: Seq<char>) -> Option<Seq<char>> {
    match name_of(on, name) {
        Some(name) => extension_of(name),
        None => None,
    }
}

/// The file name of a restored sample: its hash, so that no two samples
/// collide, and what is safe of the name it was recorded with.
pub open spec fn asset_text(on: Platform, recorded_path: Seq<char>, hash: Seq<char>) -> Seq<char> {
    let name = recorded_name(pieces(recorded_path, Class::Slash));
    let stem = component_of(name_stem(on, name), "sample"@, 120);
    let extension = match name_extension(on, name) {
        Some(extension) => component_of(extension, Seq::empty(), 24),
        None => Seq::empty(),
    };
    let start = hash_digits(hash) + "-"@ + stem;
    if extension.len() > 0 {
        start + "."@ + extension
    } else {
        start
    }
}

fn last_name(recorded_path: &str) -> (r: String)
    ensures
        r@ == recorded_name(pieces(recorded_path@, Class::Slash)),
{
    let parts = split(recorded_path, Class::Slash);
    let ghost all = views(parts@);
    let mut n: usize = parts.len();
    assert(all.take(n as int) =~= all);
    while n > 0
        invariant
            n <= parts@.len(),
            all == views(parts@),
            all == pieces(recorded_path@, Class::Slash),
            recorded_name(all) == recorded_name(all.take(n as int)),
        decreases n,
    {
        assert(all.take(n as int).drop_last() =~= all.take(n - 1));
        assert(all.take(n as int).last() == parts@[n - 1]@);
        if !parts[n - 1].as_str().is_empty() {
            assert(recorded_name(all.take(n as int)) == all.take(n as int).last());
            return parts[n - 1].clone();
        }
        n = n - 1;
    }
    "sample".to_owned()
}

/// The file name of a restored sample.
pub fn safe_native_asset_file_name(on: Platform, recorded_path: &str, hash: &str) -> (r: String)
    ensures
        r@ == asset_text(on, recorded_path@, hash@),
{
    let name = last_name(recorded_path);
    let (stem, extension) = match file_name(on, name.as_str()) {
        Some(name) => {
            let (stem, extension) = split_name(name.as_str());
            let extension = match extension {
                Some(extension) => safe_file_component(extension.as_str(), "", 24),
                None => String::new(),
            };
            (stem, extension)
        },
        None => ("sample".to_owned(), String::new()),
    };
    proof {
        reveal_strlit("");
        assert(""@ =~= Seq::<char>::empty());
    }
    let stem = safe_file_component(stem.as_str(), "sample", 120);
    let mut out = digits_of(hash);
    out.append("-");
    out.append(stem.as_str());
    if !extension.as_str().is_empty() {
        out.append(".");
        out.append(extension.as_str());
    }
    out
}

// ---------------------------------------------------------------------------
// Where a restore goes
// ---------------------------------------------------------------------------

/// The most components a restore location may have.
pub const MAX_LOCATION_COMPONENTS: usize = 32;

/// A component of a restore location made safe.
pub open spec fn location_component(component: Seq<char>) -> Seq<char> {
    free_of_devices(sanitized(component, 160))
}

/// Whether a component of a restore location can be used: it names something
/// both as it is and once it is made safe.
pub open spec fn is_usable_component(component: Seq<char>) -> bool {
    component.len() > 0 && is_name(component) && sanitized(component, 160).len() > 0 && is_name(
        location_component(component),
    )
}

/// The safe components of a restore location. A location that is empty, that
/// starts at a root, that is too deep, or one of whose components cannot be
/// used, has none.
pub open spec fn safe_location(relative_path: Seq<char>) -> Option<Seq<Seq<char>>> {
    let value = trimmed(relative_path);
    let parts = pieces(value, Class::Solidus);
    if value.len() > 0 && !Class::Slash.has(value[0]) && parts.len() <= MAX_LOCATION_COMPONENTS && (
    forall|i: int| 0 <= i < parts.len() ==> is_usable_component(#[trigger] parts[i])) {
        Some(parts.map_values(|part: Seq<char>| location_component(part)))
    } else {
        None
    }
}

/// Turn an untrusted provider profile location into components that can only
/// live beneath the restore root. An invalid location has none, so that a
/// restore falls back to the root itself.
pub fn safe_restore_location(location: &ProjectLocation) -> (r: Option<Vec<String>>)
    ensures
        match r {
            Some(parts) => safe_location(location.relative_path@) == Some(views(parts@)),
            None => safe_location(location.relative_path@) is None,
        },
{
    let value = trim(location.relative_path.as_str());
    let chars = chars_of(value.as_str());
    if chars.len() == 0 || Class::Slash.holds(chars[0]) {
        return None;
    }
    let parts = split(value.as_str(), Class::Solidus);
    let ghost all = views(parts@);
    assert(all.len() == parts@.len());
    if parts.len() > MAX_LOCATION_COMPONENTS {
        return None;
    }
    let mut out: Vec<String> = Vec::new();
    let mut i: usize = 0;
    proof {
        reveal_strlit("");
        assert(""@ =~= Seq::<char>::empty());
        assert(views(out@) =~= Seq::<Seq<char>>::empty());
    }
    while i < parts.len()
        invariant
            i <= parts@.len(),
            ""@ == Seq::<char>::empty(),
            all == views(parts@),
            value@ == trimmed(location.relative_path@),
            all == pieces(value@, Class::Solidus),
            forall|j: int| 0 <= j < i ==> is_usable_component(#[trigger] all[j]),
            views(out@) == all.take(i as int).map_values(
                |part: Seq<char>| location_component(part),
            ),
        decreases parts@.len() - i,
    {
        let part = &parts[i];
        assert(all[i as int] == part@);
        if part.as_str().is_empty() || !names(part.as_str()) {
            assert(!is_usable_component(all[i as int]));
            return None;
        }
        let safe = safe_file_component(part.as_str(), "", 160);
        if safe.as_str().is_empty() {
            assert(!is_usable_component(all[i as int]));
            return None;
        }
        let safe = avoid_devices(safe);
        if !names(safe.as_str()) {
            assert(!is_usable_component(all[i as int]));
            return None;
        }
        let ghost before = views(out@);
        let ghost view = safe@;
        out.push(safe);
        assert(views(out@) =~= before.push(view));
        i = i + 1;
        assert(views(out@) =~= all.take(i as int).map_values(
            |part: Seq<char>| location_component(part),
        ));
    }
    assert(all.take(i as int) =~= all);
    Some(out)
}

/// A restore location can only live beneath the restore root: each of its
/// components names a file or folder, and none holds a separator.
pub proof fn restore_locations_stay_beneath(relative_path: Seq<char>, i: int)
    requires
        safe_location(relative_path) is Some,
        0 <= i < safe_location(relative_path)->Some_0.len(),
    ensures
        ({
            let component = safe_location(relative_path)->Some_0[i];
            &&& component.len() > 0
            &&& is_name(component)
            &&& forall|k: int| 0 <= k < component.len() ==> is_safe(#[trigger] component[k])
        }),
{
    let parts = pieces(trimmed(relative_path), Class::Solidus);
    assert(is_usable_component(parts[i]));
    components_are_safe(parts[i], Seq::empty(), 160);
}

/// The name of the folder a version is restored to.
pub open spec fn restore_folder_text(
    on: Platform,
    project_path: Seq<char>,
    commit: Seq<char>,
) -> Seq<char> {
    (match file_stem_of(on, project_path) {
        Some(stem) => stem,
        None => "Project"@,
    }) + " Restored "@ + first_chars(hash_digits(commit), 8)
}

/// The folder a version of a project is restored to, before any collision is
/// looked at.
pub fn restore_root_candidate(
    on: Platform,
    destination: &str,
    project_path: &str,
    commit: &str,
) -> (r: String)
    ensures
        r@ == joined_path(on, destination@, restore_folder_text(on, project_path@, commit@)),
{
    let mut name = match file_stem(on, project_path) {
        Some(stem) => stem,
        None => "Project".to_owned(),
    };
    name.append(" Restored ");
    name.append(prefix_of(digits_of(commit).as_str(), 8).as_str());
    join_path(on, destination, name.as_str())
}

/// The folder a version is restored to: beneath the folders of its location,
/// where that is safe, and otherwise directly beneath the destination.
pub open spec fn restore_root_text(
    on: Platform,
    destination: Seq<char>,
    location: Option<ProjectLocation>,
    fallback: Seq<char>,
    commit: Seq<char>,
) -> Seq<char> {
    let parts = match location {
        Some(location) => safe_location(location.relative_path@),
        None => None,
    };
    match parts {
        None => joined_path(on, destination, restore_folder_text(on, fallback, commit)),
        Some(parts) => joined_path(
            on,
            joined_names(on, destination, parts.drop_last()),
            restore_folder_text(on, parts.last(), commit),
        ),
    }
}

/// The folder a version is restored to.
pub fn restore_root_for(
    on: Platform,
    destination: &str,
    location: &Option<ProjectLocation>,
    fallback_project_path: &str,
    commit: &str,
) -> (r: String)
    ensures
        r@ == restore_root_text(on, destination@, *location, fallback_project_path@, commit@),
{
    let parts = match location {
        Some(location) => safe_restore_location(location),
        None => None,
    };
    match parts {
        None => restore_root_candidate(on, destination, fallback_project_path, commit),
        Some(mut parts) => {
            let ghost all = views(parts@);
            proof {
                let value = trimmed(location->Some_0.relative_path@);
                pieces_nonempty(value, Class::Solidus);
                assert(all.len() == pieces(value, Class::Solidus).len());
                assert(all.len() == parts@.len());
            }
            let last = parts.pop().unwrap();
            assert(all.last() == last@);
            assert(views(parts@) =~= all.drop_last());
            let folder = join_names(on, destination, &parts);
            restore_root_candidate(on, folder.as_str(), last.as_str(), commit)
        },
    }
}

/// The stem of a requested file name.
pub open spec fn requested_stem(on: Platform, requested_file_name: Seq<char>) -> Seq<char> {
    match file_stem_of(on, requested_file_name) {
        Some(stem) => stem,
        None => "Restored Project"@,
    }
}

/// The name of the project file a restore writes.
pub fn restored_file_name(
    on: Platform,
    requested_file_name: &str,
    format: ProjectFormat,
) -> (r: String)
    ensures
        r@ == project_file_text(requested_stem(on, requested_file_name@), format),
{
    let stem = match file_stem(on, requested_file_name) {
        Some(stem) => stem,
        None => "Restored Project".to_owned(),
    };
    safe_project_file_name(stem.as_str(), format)
}

/// The first restore path presented to the user before any collision policy is
/// applied.
pub fn restore_target(
    on: Platform,
    destination: &str,
    requested_file_name: &str,
    format: ProjectFormat,
    location: &Option<ProjectLocation>,
    commit: &str,
) -> (r: String)
    ensures
        r@ == restore_root_text(
            on,
            destination@,
            *location,
            project_file_text(requested_stem(on, requested_file_name@), format),
            commit@,
        ),
{
    let name = restored_file_name(on, requested_file_name, format);
    restore_root_for(on, destination, location, name.as_str(), commit)
}

/// Whether each character of a text may stand in a file name.
pub open spec fn all_safe(s: Seq<char>) -> bool {
    forall|i: int| 0 <= i < s.len() ==> is_safe(#[trigger] s[i])
}

/// The folder a version is restored to has a plain name.
proof fn restore_folders_are_plain(on: Platform, project_path: Seq<char>, commit: Seq<char>)
    requires
        all_safe(project_path),
        all_safe(hash_digits(commit)),
    ensures
        is_plain(restore_folder_text(on, project_path, commit)),
{
    reveal_strlit("Project");
    reveal_strlit(" Restored ");
    stems_are_beginnings(on, project_path);
    let stem = match file_stem_of(on, project_path) {
        Some(stem) => stem,
        None => "Project"@,
    };
    assert(all_safe(stem)) by {
        assert forall|i: int| 0 <= i < stem.len() implies is_safe(#[trigger] stem[i]) by {
            if file_stem_of(on, project_path) is Some {
                assert(stem[i] == project_path[i]);
            }
        }
    }
    let middle = " Restored "@;
    assert(all_safe(middle));
    let digits = first_chars(hash_digits(commit), 8);
    assert forall|i: int| 0 <= i < digits.len() implies is_safe(#[trigger] digits[i]) by {
        assert(digits[i] == hash_digits(commit)[i]);
    }
    let folder = restore_folder_text(on, project_path, commit);
    assert forall|i: int| 0 <= i < folder.len() implies is_safe(#[trigger] folder[i]) by {
        if i < stem.len() {
            assert(folder[i] == stem[i]);
        } else if i < stem.len() + middle.len() {
            assert(folder[i] == middle[i - stem.len()]);
        } else {
            assert(folder[i] == digits[i - stem.len() - middle.len()]);
        }
    }
    assert(folder.len() >= 10);
}

/// The name of a restored project file is safe.
proof fn project_files_are_safe(display_name: Seq<char>, format: ProjectFormat)
    ensures
        all_safe(project_file_text(display_name, format)),
{
    reveal_strlit("Restored Project");
    reveal_strlit(".");
    reveal_strlit("als");
    reveal_strlit("bwproject");
    reveal_strlit("flp");
    reveal_strlit("dawproject");
    reveal_strlit("auru");
    let component = component_of(display_name, "Restored Project"@, 160);
    components_are_safe(display_name, "Restored Project"@, 160);
    assert(all_safe(component));
    let name = free_of_devices(component);
    assert forall|i: int| 0 <= i < name.len() implies is_safe(#[trigger] name[i]) by {
        if is_device(component) && i > 0 {
            assert(name[i] == component[i - 1]);
        }
    }
    let extension = format.extension_text();
    assert(all_safe(extension));
    let file = project_file_text(display_name, format);
    assert forall|i: int| 0 <= i < file.len() implies is_safe(#[trigger] file[i]) by {
        if i < name.len() {
            assert(file[i] == name[i]);
        } else if i > name.len() {
            assert(file[i] == extension[i - name.len() - 1]);
        }
    }
}

/// Whatever a provider says of a project, a restore lands beneath the folder
/// that was picked for it: the path of the restored folder is that of the picked
/// one, followed by nothing but names. The digits of a commit are safe in a file
/// name.
pub proof fn a_restore_lands_beneath_its_destination(
    on: Platform,
    destination: Seq<char>,
    requested_file_name: Seq<char>,
    format: ProjectFormat,
    location: Option<ProjectLocation>,
    commit: Seq<char>,
)
    requires
        is_absolute(on, destination),
        all_safe(hash_digits(commit)),
    ensures
        ({
            let outer = components_of(on, destination);
            let inner = components_of(
                on,
                restore_root_text(
                    on,
                    destination,
                    location,
                    project_file_text(requested_stem(on, requested_file_name), format),
                    commit,
                ),
            );
            &&& outer.is_prefix_of(inner)
            &&& inner.len() > outer.len()
            &&& forall|i: int| outer.len() <= i < inner.len() ==> is_plain(#[trigger] inner[i])
            &&& match location {
                Some(location) => safe_location(location.relative_path@) matches Some(parts)
                    ==> inner == outer + parts.drop_last() + seq![
                    restore_folder_text(on, parts.last(), commit),
                ],
                None => inner.len() == outer.len() + 1,
            }
        }),
{
    let fallback = project_file_text(requested_stem(on, requested_file_name), format);
    let found = match location {
        Some(location) => safe_location(location.relative_path@),
        None => None,
    };
    match found {
        None => {
            project_files_are_safe(requested_stem(on, requested_file_name), format);
            restore_folders_are_plain(on, fallback, commit);
            let folder = restore_folder_text(on, fallback, commit);
            joining_adds_the_name(on, destination, folder);
        },
        Some(parts) => {
            let relative = location->Some_0.relative_path@;
            pieces_nonempty(trimmed(relative), Class::Solidus);
            assert forall|i: int| 0 <= i < parts.len() implies is_plain(
                #[trigger] parts[i],
            ) && all_safe(parts[i]) by {
                restore_locations_stay_beneath(relative, i);
            }
            let above = parts.drop_last();
            assert forall|i: int| 0 <= i < above.len() implies is_plain(#[trigger] above[i]) by {
                assert(above[i] == parts[i]);
            }
            joining_adds_the_names(on, destination, above);
            assert(all_safe(parts[parts.len() - 1]));
            restore_folders_are_plain(on, parts.last(), commit);
            let folder = restore_folder_text(on, parts.last(), commit);
            joining_adds_the_name(on, joined_names(on, destination, above), folder);
            assert((components_of(on, destination) + above).push(folder) =~= components_of(
                on,
                destination,
            ) + above + seq![folder]);
        },
    }
}

// ---------------------------------------------------------------------------
// Free names
// ---------------------------------------------------------------------------

/// Decimal numbers are equal only if their digits are.
pub proof fn decimal_is_injective(a: nat, b: nat)
    requires
        decimal(a) == decimal(b),
    ensures
        a == b,
    decreases a,
{
    assert(digit(a % 10) as u32 == 48 + a % 10);
    assert(digit(b % 10) as u32 == 48 + b % 10);
    if a < 10 && b < 10 {
        assert(decimal(a)[0] == digit(a % 10));
        assert(decimal(b)[0] == digit(b % 10));
    } else if a >= 10 && b >= 10 {
        assert(decimal(a).drop_last() =~= decimal(a / 10));
        assert(decimal(b).drop_last() =~= decimal(b / 10));
        assert(decimal(a).last() == digit(a % 10));
        assert(decimal(b).last() == digit(b % 10));
        assert(a % 10 == b % 10);
        decimal_is_injective(a / 10, b / 10);
    } else if a < 10 {
        decimal_nonempty(b / 10);
        assert(decimal(b).len() >= 2);
    } else {
        decimal_nonempty(a / 10);
        assert(decimal(a).len() >= 2);
    }
}

proof fn decimal_nonempty(n: nat)
    ensures
        decimal(n).len() >= 1,
    decreases n,
{
    if n >= 10 {
        decimal_nonempty(n / 10);
    }
}

/// A name with a number in it.
pub open spec fn numbered(before: Seq<char>, n: nat, after: Seq<char>) -> Seq<char> {
    before + decimal(n) + after
}

proof fn numbered_is_injective(before: Seq<char>, a: nat, b: nat, after: Seq<char>)
    requires
        numbered(before, a, after) == numbered(before, b, after),
    ensures
        a == b,
{
    let x = numbered(before, a, after);
    let y = numbered(before, b, after);
    assert(x.len() == before.len() + decimal(a).len() + after.len());
    assert(x.subrange(before.len() as int, (before.len() + decimal(a).len()) as int) =~= decimal(a));
    assert(y.subrange(before.len() as int, (before.len() + decimal(b).len()) as int) =~= decimal(b));
    decimal_is_injective(a, b);
}

/// Whether `n` is the least number from `start` on whose name is not taken.
pub open spec fn is_first_free(
    before: Seq<char>,
    after: Seq<char>,
    start: nat,
    taken: Seq<String>,
    n: nat,
) -> bool {
    &&& start <= n
    &&& !holds_text(taken, numbered(before, n, after))
    &&& forall|k: nat|
        start <= k < n ==> holds_text(taken, #[trigger] numbered(before, k, after))
}

/// As many numbers have a taken name as names are taken, at most.
proof fn numbers_run_out(
    before: Seq<char>,
    after: Seq<char>,
    start: nat,
    taken: Seq<String>,
    n: nat,
)
    requires
        start <= n,
        forall|k: nat|
            start <= k < n ==> holds_text(taken, #[trigger] numbered(before, k, after)),
    ensures
        n - start <= taken.len(),
{
    let made = Seq::new((n - start) as nat, |i: int| numbered(before, (start + i) as nat, after));
    let known = views(taken);
    assert(made.no_duplicates()) by {
        assert forall|i: int, j: int|
            0 <= i < made.len() && 0 <= j < made.len() && i != j implies made[i] != made[j] by {
            if made[i] == made[j] {
                numbered_is_injective(before, (start + i) as nat, (start + j) as nat, after);
            }
        }
    }
    made.unique_seq_to_set();
    known.lemma_cardinality_of_set();
    assert(made.to_set().subset_of(known.to_set())) by {
        assert forall|x: Seq<char>| made.to_set().contains(x) implies known.to_set().contains(
            x,
        ) by {
            let i = choose|i: int| 0 <= i < made.len() && made[i] == x;
            assert(holds_text(taken, numbered(before, (start + i) as nat, after)));
            let k = choose|k: int| 0 <= k < taken.len() && (#[trigger] taken[k])@ == x;
            assert(known[k] == x);
        }
    }
    vstd::set_lib::lemma_len_subset(made.to_set(), known.to_set());
}

/// The name with the least number from `start` on that is not taken.
pub fn first_free(before: &str, after: &str, start: u64, taken: &Vec<String>) -> (r: String)
    ensures
        exists|n: nat|
            #[trigger] is_first_free(before@, after@, start as nat, taken@, n) && r@ == numbered(
                before@,
                n,
                after@,
            ),
{
    let mut n: u128 = start as u128;
    let count: usize = taken.len();
    loop
        invariant
            start <= n,
            count == taken@.len(),
            forall|k: nat|
                start <= k < n ==> holds_text(taken@, #[trigger] numbered(before@, k, after@)),
        decreases start + taken@.len() + 1 - n,
    {
        let mut name = before.to_owned();
        name.append(decimal_text(n).as_str());
        name.append(after);
        assert(name@ == numbered(before@, n as nat, after@));
        proof {
            numbers_run_out(before@, after@, start as nat, taken@, n as nat);
        }
        if !list_holds(taken, name.as_str()) {
            assert(is_first_free(before@, after@, start as nat, taken@, n as nat));
            return name;
        }
        assert forall|k: nat| start <= k < n + 1 implies holds_text(
            taken@,
            #[trigger] numbered(before@, k, after@),
        ) by {}
        proof {
            numbers_run_out(before@, after@, start as nat, taken@, (n + 1) as nat);
        }
        n = n + 1;
    }
}

/// The name of a folder for messages and copies.
pub open spec fn folder_name(on: Platform, path: Seq<char>) -> Seq<char> {
    match name_of(on, path) {
        Some(name) => name,
        None => "Project Restored"@,
    }
}

/// The folder a path lies in; nothing where it lies in none.
pub open spec fn folder_above(on: Platform, path: Seq<char>) -> Seq<char> {
    match parent_of(on, path) {
        Some(parent) => parent,
        None => Seq::empty(),
    }
}

fn folder_name_of(on: Platform, path: &str) -> (r: String)
    ensures
        r@ == folder_name(on, path@),
{
    match file_name(on, path) {
        Some(name) => name,
        None => "Project Restored".to_owned(),
    }
}

/// The folder a path lies in.
pub fn folder_above_of(on: Platform, path: &str) -> (r: String)
    ensures
        r@ == folder_above(on, path@),
{
    match parent(on, path) {
        Some(parent) => parent,
        None => String::new(),
    }
}

/// What the names of the copies of a folder start with.
pub open spec fn copy_start(on: Platform, first: Seq<char>) -> Seq<char> {
    joined_path(on, folder_above(on, first), folder_name(on, first) + " ("@)
}

/// Whether a path is the first that is free: the path itself, or its copy with
/// the least number from two on.
pub open spec fn is_unique_root(
    on: Platform,
    first: Seq<char>,
    taken: Seq<String>,
    path: Seq<char>,
) -> bool {
    if !holds_text(taken, first) {
        path == first
    } else {
        exists|n: nat|
            #[trigger] is_first_free(copy_start(on, first), ")"@, 2, taken, n) && path == numbered(
                copy_start(on, first),
                n,
                ")"@,
            )
    }
}

/// A folder for a restore that nothing lies at: `first`, or the first of its
/// numbered copies that is free. `taken` are the paths something lies at.
pub fn unique_duplicate_root(on: Platform, first: &str, taken: &Vec<String>) -> (r: String)
    ensures
        is_unique_root(on, first@, taken@, r@),
{
    if !list_holds(taken, first) {
        return first.to_owned();
    }
    let mut name = folder_name_of(on, first);
    name.append(" (");
    let start = join_path(on, folder_above_of(on, first).as_str(), name.as_str());
    assert(start@ == copy_start(on, first@));
    let r = first_free(start.as_str(), ")", 2, taken);
    proof {
        let n = choose|n: nat|
            #[trigger] is_first_free(start@, ")"@, 2u64 as nat, taken@, n) && r@ == numbered(
                start@,
                n,
                ")"@,
            );
        assert(is_first_free(copy_start(on, first@), ")"@, 2, taken@, n));
    }
    r
}

/// Whatever lies there already, a duplicate is restored where nothing lies.
pub proof fn duplicates_never_collide(
    on: Platform,
    first: Seq<char>,
    taken: Seq<String>,
    path: Seq<char>,
)
    requires
        is_unique_root(on, first, taken, path),
    ensures
        !holds_text(taken, path),
{
}

/// What the names of the staging folders of a restore start with.
pub open spec fn staging_start(on: Platform, final_root: Seq<char>, process: nat) -> Seq<char> {
    joined_path(
        on,
        (if folder_above(on, final_root).len() == 0 {
            "."@
        } else {
            folder_above(on, final_root)
        }),
        "."@ + folder_name(on, final_root) + ".auru-restoring-"@ + decimal(process) + "-"@,
    )
}

/// The folder to try to create for staging a restore, on the `copy`-th try.
pub fn staging_candidate(on: Platform, final_root: &str, process: u32, copy: u32) -> (r: String)
    ensures
        r@ == staging_start(on, final_root@, process as nat) + decimal(copy as nat),
{
    let above = folder_above_of(on, final_root);
    let mut name = ".".to_owned();
    name.append(folder_name_of(on, final_root).as_str());
    name.append(".auru-restoring-");
    name.append(decimal_text(process as u128).as_str());
    name.append("-");
    let mut out = if above.as_str().is_empty() {
        join_path(on, ".", name.as_str())
    } else {
        join_path(on, above.as_str(), name.as_str())
    };
    out.append(decimal_text(copy as u128).as_str());
    out
}

/// What the names of the folders that protect an existing project start with.
pub open spec fn quarantine_start(on: Platform, final_root: Seq<char>, process: nat) -> Seq<char> {
    joined_path(
        on,
        folder_above(on, final_root),
        "."@ + folder_name(on, final_root) + ".auru-previous-"@ + decimal(process) + "-"@,
    )
}

/// Whether a path is the first that is free for an existing project.
pub open spec fn is_quarantine(
    on: Platform,
    final_root: Seq<char>,
    process: nat,
    taken: Seq<String>,
    path: Seq<char>,
) -> bool {
    exists|n: nat|
        #[trigger] is_first_free(
            quarantine_start(on, final_root, process),
            Seq::empty(),
            1,
            taken,
            n,
        ) && path == numbered(quarantine_start(on, final_root, process), n, Seq::empty())
}

/// A free path to move an existing project to while it is replaced.
pub fn unique_quarantine_path(
    on: Platform,
    final_root: &str,
    process: u32,
    taken: &Vec<String>,
) -> (r: String)
    ensures
        is_quarantine(on, final_root@, process as nat, taken@, r@),
{
    let mut name = ".".to_owned();
    name.append(folder_name_of(on, final_root).as_str());
    name.append(".auru-previous-");
    name.append(decimal_text(process as u128).as_str());
    name.append("-");
    let start = join_path(on, folder_above_of(on, final_root).as_str(), name.as_str());
    proof {
        reveal_strlit("");
        assert(""@ =~= Seq::<char>::empty());
    }
    assert(start@ == quarantine_start(on, final_root@, process as nat));
    let r = first_free(start.as_str(), "", 1, taken);
    proof {
        let n = choose|n: nat|
            #[trigger] is_first_free(start@, ""@, 1u64 as nat, taken@, n) && r@ == numbered(
                start@,
                n,
                ""@,
            );
        assert(is_first_free(start@, Seq::empty(), 1, taken@, n));
    }
    r
}

} // verus!
