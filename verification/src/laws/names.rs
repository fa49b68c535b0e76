//! Names of files and folders: which are safe, which are free, and what they hold.
use vstd::prelude::*;

use crate::laws::restore::is_taken;
use crate::laws::text::{one_piece_of, pieces_hold_no_separator, pieces_of_two};
use crate::names::{asset_text, component_of, fitting, free_of_devices, handle_text, hash_digits,
    is_device, is_first_free, is_quarantine, is_safe, project_name_text, quarantine_start,
    restore_folder_text, safe_char, safe_location, sanitized, slug_char, text_width, width};
use crate::path::{components_of, counted, cut_back, extension_of, file_stem_of, is_beneath, is_led,
    is_name, is_plain, joined_path, last_dot, parent_of, place_beneath, prefix_len, same_path,
    stem_of, up_to_separator, Platform};
use crate::text::{ascii_lowered, first_chars, is_blank, joined, pieces, pieces_nonempty, starts,
    trim_end_of, trim_of, trim_start_of, trimmed, Class};

verus! {

// ---------------------------------------------------------------------------
// Paths
// ---------------------------------------------------------------------------

proof fn last_dot_is_the_last(name: Seq<char>)
    ensures
        -1 <= last_dot(name) < name.len(),
        last_dot(name) >= 0 ==> name[last_dot(name)] == '.',
        forall|i: int| last_dot(name) < i < name.len() ==> #[trigger] name[i] != '.',
    decreases name.len(),
{
    if name.len() > 0 && name.last() != '.' {
        let before = name.drop_last();
        last_dot_is_the_last(before);
        assert(forall|i: int| 0 <= i < before.len() ==> before[i] == #[trigger] name[i]);
    }
}

/// A name is its stem and its extension with a dot between them; the extension
/// holds no dot. A name without a dot, or with one at its start alone, has none and
/// is its own stem.
pub proof fn a_name_is_stem_and_extension(name: Seq<char>)
    ensures
        extension_of(name) matches Some(extension) ==> name == stem_of(name) + seq!['.']
            + extension && !extension.contains('.') && stem_of(name).len() > 0,
        extension_of(name) is None ==> stem_of(name) == name,
        extension_of(name) is None <==> forall|i: int| 0 < i < name.len() ==> #[trigger] name[i] != '.',
{
    last_dot_is_the_last(name);
    let at = last_dot(name);
    if at > 0 {
        assert(name =~= name.take(at) + seq!['.'] + name.skip(at + 1));
        let extension = name.skip(at + 1);
        if extension.contains('.') {
            let i = choose|i: int| 0 <= i < extension.len() && extension[i] == '.';
            assert(name[at + 1 + i] == '.');
        }
        assert(name[at] == '.');
    }
}

/// What is joined to a path follows it behind one separator, unless it has a root of
/// its own, which it then keeps.
pub proof fn a_joined_path_ends_in_its_child(on: Platform, base: Seq<char>, child: Seq<char>)
    ensures
        child.len() <= joined_path(on, base, child).len(),
        joined_path(on, base, child).skip(joined_path(on, base, child).len() - child.len())
            == child,
        !(on is Windows) && child.len() > 0 && child[0] == '/' ==> joined_path(on, base, child)
            == child,
        !(on is Windows) && (child.len() == 0 || child[0] != '/') ==> joined_path(on, base, child)
            == (if base.len() == 0 || base.last() == '/' {
            base + child
        } else {
            base + seq!['/'] + child
        }),
{
    let whole = joined_path(on, base, child);
    if prefix_len(on, child) > 0 {
        assert(whole.skip(0) =~= child);
    } else if is_led(on, child) {
        let head = base.take(prefix_len(on, base));
        assert(whole == head + child);
        assert(whole.skip(whole.len() - child.len()) =~= child);
        if !(on is Windows) {
            assert(head =~= Seq::<char>::empty());
            assert(whole =~= child);
        }
    } else {
        assert(whole.skip(whole.len() - child.len()) =~= child);
    }
}

proof fn counted_parts(parts: Seq<Seq<char>>, i: int)
    requires
        0 <= i < counted(parts).len(),
    ensures
        counted(parts)[i].len() > 0,
        parts.contains(counted(parts)[i]),
        i > 0 ==> counted(parts)[i] != seq!['.'],
    decreases parts.len(),
{
    if parts.len() > 0 {
        let before = parts.drop_last();
        let rest = counted(before);
        counted_is_no_longer(before);
        if i < rest.len() {
            counted_parts(before, i);
            let k = choose|k: int| 0 <= k < before.len() && before[k] == rest[i];
            assert(parts[k] == rest[i]);
        } else {
            assert(parts[parts.len() - 1] == parts.last());
            if i > 0 {
                assert(parts.len() - 1 > 0);
            }
        }
    }
}

proof fn counted_is_no_longer(parts: Seq<Seq<char>>)
    ensures
        counted(parts).len() <= parts.len(),
    decreases parts.len(),
{
    if parts.len() > 0 {
        counted_is_no_longer(parts.drop_last());
    }
}

/// Outside Windows a path is its names, with its root before them if it has one: no
/// name is empty or holds a slash, and a dot stands for nothing except at the start.
pub proof fn components_are_names(on: Platform, path: Seq<char>, i: int)
    requires
        !(on is Windows),
        0 <= i < components_of(on, path).len(),
    ensures
        ({
            let part = components_of(on, path)[i];
            &&& part.len() > 0
            &&& part == seq!['/'] ==> i == 0
            &&& i == 0 && path.len() > 0 && path[0] == '/' <==> part == seq!['/']
            &&& part != seq!['/'] ==> !part.contains('/')
            &&& i > 0 && !(path.len() > 0 && path[0] == '/' && i == 1) ==> part != seq!['.']
        }),
{
    let parts = components_of(on, path);
    let body = crate::path::behind_prefix(on, path);
    assert(body =~= path);
    let split = pieces(path, on.separators());
    let first = crate::path::beginning_of(on, path);
    let led = path.len() > 0 && path[0] == '/';
    assert(first.len() == (if led {
        1int
    } else {
        0
    }));
    if led {
        assert(parts[0] == seq!['/']);
    }
    if i >= first.len() {
        let part = parts[i];
        assert(part == counted(split)[i - first.len()]);
        counted_parts(split, i - first.len());
        pieces_hold_no_separator(path, on.separators());
        let k = choose|k: int| 0 <= k < split.len() && split[k] == part;
        if part.contains('/') {
            let c = choose|c: int| 0 <= c < part.len() && part[c] == '/';
            assert(!on.separators().has(split[k][c]));
        }
        if part == seq!['/'] {
            assert(part[0] == '/');
            assert(part.contains('/'));
        }
    }
}

/// Lying beneath a folder is an order: every path lies beneath itself, what lies
/// beneath what lies beneath a folder lies beneath it, and two paths that lie
/// beneath each other are the same.
pub proof fn lying_beneath_is_an_order(
    on: Platform,
    a: Seq<char>,
    b: Seq<char>,
    c: Seq<char>,
)
    ensures
        is_beneath(on, a, a),
        is_beneath(on, a, b) && is_beneath(on, b, c) ==> is_beneath(on, a, c),
        is_beneath(on, a, b) && is_beneath(on, b, a) ==> same_path(on, a, b),
        same_path(on, a, b) ==> is_beneath(on, a, b),
{
    let x = components_of(on, a);
    let y = components_of(on, b);
    let z = components_of(on, c);
    assert(x =~= x.subrange(0, x.len() as int));
    if y.is_prefix_of(x) && z.is_prefix_of(y) {
        assert(z =~= x.subrange(0, z.len() as int)) by {
            assert forall|i: int| 0 <= i < z.len() implies z[i] == x[i] by {
                assert(z[i] == y.subrange(0, z.len() as int)[i]);
                assert(y[i] == x.subrange(0, y.len() as int)[i]);
            }
        }
    }
    if y.is_prefix_of(x) && x.is_prefix_of(y) {
        assert(x =~= y) by {
            assert(y == x.subrange(0, y.len() as int));
        }
    }
}

/// A project has a place beneath a library if it lies deeper than it and every step
/// from there is a name; the place then is those names with slashes between them,
/// on every system.
pub proof fn a_place_is_the_names_below(
    on: Platform,
    library: Seq<char>,
    project: Seq<char>,
)
    ensures
        place_beneath(on, library, project) is Some ==> is_beneath(on, project, library)
            && !same_path(on, project, library),
        place_beneath(on, library, project) matches Some(place) ==> place == joined(
            components_of(on, project).skip(components_of(on, library).len() as int),
            seq!['/'],
        ),
        is_beneath(on, project, library) && !same_path(on, project, library) && (forall|i: int|
            components_of(on, library).len() <= i < components_of(on, project).len() ==> is_name(
                #[trigger] components_of(on, project)[i],
            )) ==> place_beneath(on, library, project) is Some,
{
    let outer = components_of(on, library);
    let inner = components_of(on, project);
    if outer.is_prefix_of(inner) {
        let rest = inner.skip(outer.len() as int);
        if rest.len() == 0 {
            assert(inner =~= outer);
        }
        if forall|i: int| outer.len() <= i < inner.len() ==> is_name(#[trigger] inner[i]) {
            assert forall|i: int| 0 <= i < rest.len() implies is_name(#[trigger] rest[i]) by {
                assert(rest[i] == inner[outer.len() + i]);
            }
        }
    }
}

// ---------------------------------------------------------------------------
// Safe names
// ---------------------------------------------------------------------------

/// What no system minds in a name is kept, and what one does becomes an underscore.
pub proof fn only_troublesome_characters_are_replaced(c: char)
    ensures
        c == '/' || c == '\\' || c == ':' || c == '*' || c == '?' || c == '"' || c == '<' || c
            == '>' || c == '|' || (c as u32) < 32 || c as u32 == 127 ==> safe_char(c) == '_',
        'a' <= c <= 'z' || 'A' <= c <= 'Z' || '0' <= c <= '9' || c == ' ' || c == '-' || c == '.'
            ==> safe_char(c) == c,
        safe_char(c) == c || safe_char(c) == '_',
        safe_char(safe_char(c)) == safe_char(c),
{
}

proof fn safe_texts_fit(s: Seq<char>, budget: int)
    requires
        text_width(s) <= budget,
        forall|i: int| 0 <= i < s.len() ==> is_safe(#[trigger] s[i]),
    ensures
        fitting(s, budget) == s,
    decreases s.len(),
{
    if s.len() > 0 {
        let rest = s.drop_first();
        assert(is_safe(s[0]));
        assert forall|i: int| 0 <= i < rest.len() implies is_safe(#[trigger] rest[i]) by {
            assert(rest[i] == s[i + 1]);
        }
        safe_texts_fit(rest, budget - width(s[0]));
        assert(fitting(s, budget) =~= s);
    } else {
        assert(fitting(s, budget) =~= s);
    }
}

/// A name that is safe as it is stays as it is: it is not too long, holds nothing
/// troublesome, and has no white space or dots at its ends.
pub proof fn safe_names_are_kept(value: Seq<char>, fallback: Seq<char>, max_bytes: nat)
    requires
        value.len() > 0,
        text_width(value) <= max_bytes,
        forall|i: int| 0 <= i < value.len() ==> is_safe(#[trigger] value[i]),
        trimmed(value) == value,
        value[0] != '.',
        value.last() != '.',
    ensures
        component_of(value, fallback, max_bytes) == value,
{
    safe_texts_fit(value, max_bytes as int);
    assert(trim_of(Class::Dot, value) == value);
}

/// A name of which nothing is left is replaced, and no other is.
pub proof fn only_empty_names_are_replaced(
    value: Seq<char>,
    fallback: Seq<char>,
    max_bytes: nat,
)
    ensures
        sanitized(value, max_bytes).len() == 0 ==> component_of(value, fallback, max_bytes)
            == fallback,
        sanitized(value, max_bytes).len() > 0 ==> component_of(value, fallback, max_bytes)
            == sanitized(value, max_bytes),
        value.len() == 0 ==> component_of(value, fallback, max_bytes) == fallback,
{
    if value.len() == 0 {
        assert(fitting(value, max_bytes as int) =~= Seq::<char>::empty());
    }
}

proof fn first_piece_of_longer(c: char, s: Seq<char>, at: Class)
    requires
        !at.has(c),
    ensures
        pieces(seq![c] + s, at).len() > 0,
        pieces(seq![c] + s, at)[0] == seq![c] + pieces(s, at)[0],
        pieces(seq![c] + s, at).len() == pieces(s, at).len(),
    decreases s.len(),
{
    let longer = seq![c] + s;
    if s.len() == 0 {
        reveal_with_fuel(pieces, 2);
        assert(s =~= Seq::<char>::empty());
        assert(longer.drop_last() =~= Seq::<char>::empty());
        assert(pieces(longer, at)[0] =~= seq![c] + pieces(s, at)[0]);
    } else {
        let t = s.drop_last();
        first_piece_of_longer(c, t, at);
        pieces_nonempty(t, at);
        assert(longer.drop_last() =~= seq![c] + t);
        assert(longer.last() == s.last());
        assert(pieces(longer, at)[0] =~= seq![c] + pieces(s, at)[0]);
    }
}

/// No file that is restored has the name of a device: an underscore stands before
/// one, and before nothing else.
pub proof fn devices_are_avoided(name: Seq<char>)
    ensures
        !is_device(free_of_devices(name)),
        !is_device(name) ==> free_of_devices(name) == name,
        is_device(name) ==> free_of_devices(name) == seq!['_'] + name,
{
    if is_device(name) {
        first_piece_of_longer('_', name, Class::Dot);
        let stem = ascii_lowered(pieces(seq!['_'] + name, Class::Dot)[0]);
        assert(stem[0] == '_');
        reveal_strlit("con");
        reveal_strlit("prn");
        reveal_strlit("aux");
        reveal_strlit("nul");
        reveal_strlit("com");
        reveal_strlit("lpt");
        if stem.len() == 4 {
            assert(stem.take(3)[0] == '_');
        }
    }
}

/// Which names are devices, in whatever case, and with whatever extension or none.
pub proof fn devices_are_these(name: Seq<char>, extension: Seq<char>)
    requires
        !name.contains('.'),
    ensures
        ({
            let low = ascii_lowered(name);
            is_device(name) <==> low == "con"@ || low == "prn"@ || low == "aux"@ || low == "nul"@
                || (low.len() == 4 && (low.take(3) == "com"@ || low.take(3) == "lpt"@) && '1'
                <= low[3] <= '9')
        }),
        is_device(name.push('.') + extension) == is_device(name),
{
    assert forall|i: int| 0 <= i < name.len() implies !Class::Dot.has(#[trigger] name[i]) by {
        assert(name.contains(name[i]));
    }
    one_piece_of(name, Class::Dot);
    pieces_of_two(name, '.', extension, Class::Dot);
}

// ---------------------------------------------------------------------------
// Names made from hashes
// ---------------------------------------------------------------------------

/// A hash counts without the name of its kind.
pub proof fn the_kind_of_a_hash_does_not_count(digits: Seq<char>)
    ensures
        hash_digits("blake3:"@ + digits) == digits,
        !"blake3:"@.is_prefix_of(digits) ==> hash_digits(digits) == digits,
{
    let whole = "blake3:"@ + digits;
    assert(whole.subrange(0, 0int + "blake3:"@.len()) =~= "blake3:"@);
    assert(whole.skip("blake3:"@.len() as int) =~= digits);
    if starts(digits, "blake3:"@) {
        assert("blake3:"@ =~= digits.subrange(0, "blake3:"@.len() as int));
    }
}

/// Two versions of a project are restored into two folders if the first eight digits
/// of their hashes differ.
pub proof fn versions_have_folders_of_their_own(
    on: Platform,
    project_path: Seq<char>,
    a: Seq<char>,
    b: Seq<char>,
)
    requires
        first_chars(hash_digits(a), 8) != first_chars(hash_digits(b), 8),
    ensures
        restore_folder_text(on, project_path, a) != restore_folder_text(on, project_path, b),
{
    let x = first_chars(hash_digits(a), 8);
    let y = first_chars(hash_digits(b), 8);
    let left = restore_folder_text(on, project_path, a);
    let right = restore_folder_text(on, project_path, b);
    let head = left.len() - x.len();
    if left == right {
        assert(left.skip(head as int) =~= x);
        assert(right.skip(head as int) =~= y);
    }
}

/// Two samples have files of their own if their hashes differ, though their names be
/// the same.
pub proof fn samples_have_files_of_their_own(
    on: Platform,
    recorded: Seq<char>,
    other: Seq<char>,
    a: Seq<char>,
    b: Seq<char>,
)
    requires
        hash_digits(a) != hash_digits(b),
        hash_digits(a).len() == hash_digits(b).len(),
    ensures
        asset_text(on, recorded, a) != asset_text(on, other, b),
        hash_digits(a).is_prefix_of(asset_text(on, recorded, a)),
{
    let x = hash_digits(a);
    let y = hash_digits(b);
    let left = asset_text(on, recorded, a);
    let right = asset_text(on, other, b);
    assert(left.subrange(0, x.len() as int) =~= x);
    assert(right.subrange(0, x.len() as int) =~= y);
}

/// A project is known to a provider by its name and by where it lies: the handle
/// ends in the first twelve digits of the hash of its path.
pub proof fn handles_end_in_their_digits(
    on: Platform,
    project_path: Seq<char>,
    path_hash: Seq<char>,
)
    ensures
        ({
            let handle = handle_text(on, project_path, path_hash);
            let digits = first_chars(hash_digits(path_hash), 12);
            &&& digits.len() <= 12
            &&& handle.len() > digits.len()
            &&& handle.skip(handle.len() - digits.len()) == digits
            &&& handle[handle.len() - digits.len() - 1] == '-'
        }),
{
    reveal_strlit("-");
    let handle = handle_text(on, project_path, path_hash);
    let digits = first_chars(hash_digits(path_hash), 12);
    assert(handle.skip(handle.len() - digits.len()) =~= digits);
}

/// A letter of a handle is lower case, and what is neither letter nor digit is a
/// dash.
pub proof fn handles_are_written_small(c: char)
    ensures
        'a' <= c <= 'z' || '0' <= c <= '9' ==> slug_char(c) == c,
        'A' <= c <= 'Z' ==> slug_char(c) as u32 == c as u32 + 32,
        !('a' <= c <= 'z') && !('A' <= c <= 'Z') && !('0' <= c <= '9') ==> slug_char(c) == '-',
{
}

/// A project is shown by the name of its file without its extension, or as untitled
/// where that says nothing.
pub proof fn projects_are_shown_by_their_files(on: Platform, path: Seq<char>)
    ensures
        file_stem_of(on, path) matches Some(stem) ==> (!is_blank(stem) ==> project_name_text(
            on,
            path,
        ) == stem),
        (file_stem_of(on, path) is None || is_blank(file_stem_of(on, path)->0))
            ==> project_name_text(on, path) == "Untitled Project"@,
{
}

/// What was there is moved to where nothing is.
pub proof fn what_is_moved_away_is_moved_to_a_free_place(
    on: Platform,
    final_root: Seq<char>,
    process: nat,
    taken: Seq<String>,
    path: Seq<char>,
)
    requires
        is_quarantine(on, final_root, process, taken, path),
    ensures
        !is_taken(taken, path),
        quarantine_start(on, final_root, process).is_prefix_of(path),
{
    let start = quarantine_start(on, final_root, process);
    let n = choose|n: nat|
        #[trigger] is_first_free(start, Seq::empty(), 1, taken, n) && path
            == crate::names::numbered(start, n, Seq::empty());
    assert(start =~= path.subrange(0, start.len() as int));
}

proof fn leading_is_trimmed(class: Class, w: Seq<char>, s: Seq<char>)
    requires
        forall|i: int| 0 <= i < w.len() ==> class.has(#[trigger] w[i]),
    ensures
        trim_start_of(class, w + s) == trim_start_of(class, s),
    decreases w.len(),
{
    if w.len() == 0 {
        assert(w + s =~= s);
    } else {
        let rest = w.drop_first();
        assert(class.has(w[0]));
        assert forall|i: int| 0 <= i < rest.len() implies class.has(#[trigger] rest[i]) by {
            assert(rest[i] == w[i + 1]);
        }
        leading_is_trimmed(class, rest, s);
        assert((w + s).drop_first() =~= rest + s);
    }
}

proof fn trailing_is_trimmed(class: Class, s: Seq<char>, w: Seq<char>)
    requires
        forall|i: int| 0 <= i < w.len() ==> class.has(#[trigger] w[i]),
    ensures
        trim_end_of(class, s + w) == trim_end_of(class, s),
    decreases w.len(),
{
    if w.len() == 0 {
        assert(s + w =~= s);
    } else {
        let rest = w.drop_last();
        assert(class.has(w[w.len() - 1]));
        assert forall|i: int| 0 <= i < rest.len() implies class.has(#[trigger] rest[i]) by {
            assert(rest[i] == w[i]);
        }
        trailing_is_trimmed(class, s, rest);
        assert((s + w).drop_last() =~= s + rest);
    }
}

proof fn both_ends_are_trimmed(class: Class, w: Seq<char>, s: Seq<char>, v: Seq<char>)
    requires
        s.len() > 0,
        !class.has(s[0]),
        !class.has(s.last()),
        forall|i: int| 0 <= i < w.len() ==> class.has(#[trigger] w[i]),
        forall|i: int| 0 <= i < v.len() ==> class.has(#[trigger] v[i]),
    ensures
        trim_of(class, w + s + v) == s,
{
    assert(w + s + v =~= w + (s + v));
    leading_is_trimmed(class, w, s + v);
    assert((s + v)[0] == s[0]);
    assert(trim_start_of(class, s + v) == s + v);
    trailing_is_trimmed(class, s, v);
}

/// White space around a name, and dots within that, do not count: what is left is
/// the name.
pub proof fn white_space_and_dots_around_a_name_go(
    spaces: Seq<char>,
    dots: Seq<char>,
    name: Seq<char>,
    fallback: Seq<char>,
    max_bytes: nat,
)
    requires
        forall|i: int| 0 <= i < spaces.len() ==> #[trigger] spaces[i] == ' ',
        forall|i: int| 0 <= i < dots.len() ==> #[trigger] dots[i] == '.',
        name.len() > 0,
        forall|i: int| 0 <= i < name.len() ==> is_safe(#[trigger] name[i]),
        !Class::White.has(name[0]) && name[0] != '.',
        !Class::White.has(name.last()) && name.last() != '.',
        text_width(spaces + (dots + name + dots) + spaces) <= max_bytes,
    ensures
        component_of(spaces + (dots + name + dots) + spaces, fallback, max_bytes) == name,
{
    let inner = dots + name + dots;
    let whole = spaces + inner + spaces;
    assert forall|i: int| 0 <= i < whole.len() implies is_safe(#[trigger] whole[i]) by {
        if i < spaces.len() {
            assert(whole[i] == spaces[i]);
        } else if i < spaces.len() + dots.len() {
            assert(whole[i] == dots[i - spaces.len()]);
        } else if i < spaces.len() + dots.len() + name.len() {
            assert(whole[i] == name[i - spaces.len() - dots.len()]);
        } else if i < spaces.len() + inner.len() {
            assert(whole[i] == dots[i - spaces.len() - dots.len() - name.len()]);
        } else {
            assert(whole[i] == spaces[i - spaces.len() - inner.len()]);
        }
    }
    safe_texts_fit(whole, max_bytes as int);
    assert forall|i: int| 0 <= i < spaces.len() implies Class::White.has(#[trigger] spaces[i]) by {
        assert(spaces[i] == ' ');
    }
    assert forall|i: int| 0 <= i < dots.len() implies Class::Dot.has(#[trigger] dots[i]) by {
        assert(dots[i] == '.');
    }
    if dots.len() > 0 {
        assert(inner[0] == dots[0] && inner.last() == dots[dots.len() - 1]);
        assert(!Class::White.has('.'));
    } else {
        assert(inner =~= name);
    }
    both_ends_are_trimmed(Class::White, spaces, inner, spaces);
    both_ends_are_trimmed(Class::Dot, dots, name, dots);
    assert(trimmed(name) == name);
}

// ---------------------------------------------------------------------------
// Where a restore goes
// ---------------------------------------------------------------------------

/// A place that came from elsewhere is used only if it is harmless: it starts at no
/// root, goes neither up nor nowhere, and is not deeper than 32 folders. It then
/// keeps its depth.
pub proof fn only_harmless_places_are_used(relative_path: Seq<char>)
    ensures
        ({
            let value = trimmed(relative_path);
            let parts = pieces(value, Class::Solidus);
            &&& value.len() == 0 ==> safe_location(relative_path) is None
            &&& value.len() > 0 && (value[0] == '/' || value[0] == '\\') ==> safe_location(
                relative_path,
            ) is None
            &&& parts.len() > 32 ==> safe_location(relative_path) is None
            &&& forall|i: int|
                0 <= i < parts.len() && ((#[trigger] parts[i]).len() == 0 || parts[i] == seq!['.']
                    || parts[i] == seq!['.', '.']) ==> safe_location(relative_path) is None
            &&& safe_location(relative_path) matches Some(used) ==> used.len() == parts.len()
        }),
{
    let value = trimmed(relative_path);
    let parts = pieces(value, Class::Solidus);
    assert forall|i: int|
        0 <= i < parts.len() && ((#[trigger] parts[i]).len() == 0 || parts[i] == seq!['.']
            || parts[i] == seq!['.', '.']) implies safe_location(relative_path) is None by {
        assert(!crate::names::is_usable_component(parts[i]));
    }
}

/// A place of safe names is used as it is.
pub proof fn harmless_places_are_kept(relative_path: Seq<char>)
    requires
        trimmed(relative_path).len() > 0,
        !Class::Slash.has(trimmed(relative_path)[0]),
        pieces(trimmed(relative_path), Class::Solidus).len() <= 32,
        forall|i: int|
            0 <= i < pieces(trimmed(relative_path), Class::Solidus).len() ==> is_kept(
                #[trigger] pieces(trimmed(relative_path), Class::Solidus)[i],
            ),
    ensures
        safe_location(relative_path) == Some(pieces(trimmed(relative_path), Class::Solidus)),
{
    let parts = pieces(trimmed(relative_path), Class::Solidus);
    assert forall|i: int| 0 <= i < parts.len() implies crate::names::is_usable_component(
        #[trigger] parts[i],
    ) && crate::names::location_component(parts[i]) == parts[i] by {
        assert(is_kept(parts[i]));
        safe_names_are_kept(parts[i], Seq::empty(), 160);
        if crate::path::is_root(parts[i]) {
            assert(is_safe(parts[i][parts[i].len() - 1]));
        }
        if parts[i] == crate::path::this_folder() || parts[i] == crate::path::parent_folder() {
            assert(parts[i][0] == '.');
        }
    }
    assert(safe_location(relative_path)->0 =~= parts);
}

/// Whether a name is safe as it is: of ordinary length, without anything
/// troublesome, white space or dots at its ends, and not a device's.
pub open spec fn is_kept(name: Seq<char>) -> bool {
    &&& name.len() > 0
    &&& text_width(name) <= 160
    &&& forall|i: int| 0 <= i < name.len() ==> is_safe(#[trigger] name[i])
    &&& trimmed(name) == name
    &&& name[0] != '.'
    &&& name.last() != '.'
    &&& !is_device(name)
}

// ---------------------------------------------------------------------------
// Parents
// ---------------------------------------------------------------------------

proof fn up_to_separator_drops_the_name(at: Class, head: Seq<char>, name: Seq<char>)
    requires
        head.len() > 0,
        at.has(head.last()),
        forall|i: int| 0 <= i < name.len() ==> !at.has(#[trigger] name[i]),
    ensures
        up_to_separator(at, head + name) == head,
    decreases name.len(),
{
    if name.len() == 0 {
        assert(head + name =~= head);
    } else {
        let rest = name.drop_last();
        assert(!at.has(name[name.len() - 1]));
        assert forall|i: int| 0 <= i < rest.len() implies !at.has(#[trigger] rest[i]) by {
            assert(rest[i] == name[i]);
        }
        up_to_separator_drops_the_name(at, head, rest);
        assert((head + name).drop_last() =~= head + rest);
        assert((head + name).last() == name.last());
    }
}

/// Outside Windows, the folder above a name in a folder is that folder, as it is
/// written. A root has none.
pub proof fn the_folder_above_a_name_is_its_folder(
    on: Platform,
    base: Seq<char>,
    name: Seq<char>,
)
    requires
        !(on is Windows),
        base.len() > 0,
        base.last() != '/',
        !(base.last() == '.' && (base.len() == 1 || base[base.len() - 2] == '/')),
        is_plain(name),
    ensures
        parent_of(on, base + seq!['/'] + name) == Some(base),
        parent_of(on, seq!['/']) is None,
        parent_of(on, Seq::empty()) is None,
{
    let at = on.separators();
    let path = base + seq!['/'] + name;
    let led = base[0] == '/';
    let start: int = if led {
        1
    } else {
        0
    };
    let parts = components_of(on, path);
    assert forall|i: int| 0 <= i < name.len() implies !at.has(#[trigger] name[i]) by {
        assert(!Class::Slash.has(name[i]));
    }
    assert(path =~= base.push('/') + name);
    pieces_of_two(base, '/', name, at);
    one_piece_of(name, at);
    pieces_nonempty(base, at);
    let split = pieces(path, at);
    assert(split =~= pieces(base, at).push(name));
    assert(split.last() == name);
    assert(split.drop_last() =~= pieces(base, at));
    assert(crate::path::behind_prefix(on, path) =~= path);
    assert(counted(split).last() == name);
    assert(parts.last() == name);
    let body = path.skip(start);
    assert(crate::path::body_start(on, path) == start);
    let leads = !crate::path::has_root(on, path);
    assert(leads == !led);
    let inner = base.skip(start);
    assert(inner.len() > 0);
    assert(body =~= inner.push('/') + name);
    assert(body.last() == name.last());
    assert(!at.has(name[name.len() - 1]));
    if name.last() == '.' {
        if name.len() == 1 {
            assert(name =~= crate::path::this_folder());
        }
        assert(body[body.len() - 2] == name[name.len() - 2]);
        assert(!at.has(name[name.len() - 2]));
    }
    assert(cut_back(at, leads, body) == body);
    up_to_separator_drops_the_name(at, inner.push('/'), name);
    assert(inner.push('/').drop_last() =~= inner);
    assert(inner.last() == base.last());
    if inner.len() >= 2 {
        assert(inner[inner.len() - 2] == base[base.len() - 2]);
    }
    assert(cut_back(at, leads, inner) == inner);
    assert(cut_back(at, leads, inner.push('/')) == inner);
    assert(path.take(start) + inner =~= base);
    let root = seq!['/'];
    assert(crate::path::behind_prefix(on, root) =~= root);
    reveal_with_fuel(pieces, 2);
    reveal_with_fuel(counted, 3);
    assert(root.drop_last() =~= Seq::<char>::empty());
    assert(pieces(root, at) =~= seq![Seq::<char>::empty(), Seq::<char>::empty()]);
    assert(counted(pieces(root, at)) =~= Seq::<Seq<char>>::empty());
    assert(components_of(on, root) =~= seq![seq!['/']]);
    assert(components_of(on, root).last().last() == '/');
    let nothing = Seq::<char>::empty();
    assert(crate::path::behind_prefix(on, nothing) =~= nothing);
    assert(counted(pieces(nothing, at)) =~= Seq::<Seq<char>>::empty());
    assert(components_of(on, nothing) =~= Seq::<Seq<char>>::empty());
}

} // verus!
