//! Paths as text.
//!
//! How a path is read depends on the platform. On Windows `\` separates as `/`
//! does, and a path may begin with a drive, such as `C:`, or with a share, such
//! as `\\nas\music`, which is a component of its own. Elsewhere only `/`
//! separates, and every other character may stand in a name. On every platform
//! the root is a component of its own.
//!
//! Two spellings of a path are one path when their components agree: repeated
//! and trailing separators do not count, nor does a `.` behind the first
//! component, nor the case of a drive's letter.
use vstd::prelude::*;

use crate::text::{chars_of, joined, join, pieces, pieces_nonempty, same, split, string_of_range, views, Class};

verus! {

/// The kind of system, as far as it decides where settings live and how paths
/// are written.
#[derive(Clone, Copy, Debug, PartialEq, Eq, Structural)]
pub enum Platform {
    Windows,
    MacOs,
    Other,
}

impl Platform {
    /// The characters that separate components.
    pub open spec fn separators(self) -> Class {
        if self is Windows {
            Class::Slash
        } else {
            Class::Solidus
        }
    }

    /// The character that is written between components.
    pub open spec fn separator(self) -> char {
        if self is Windows {
            '\\'
        } else {
            '/'
        }
    }

    fn windows(self) -> (r: bool)
        ensures
            r == (self is Windows),
    {
        matches!(self, Platform::Windows)
    }

    fn separating(self) -> (r: Class)
        ensures
            r == self.separators(),
    {
        if self.windows() {
            Class::Slash
        } else {
            Class::Solidus
        }
    }

    /// The character that is written between components.
    pub fn main_separator(self) -> (r: &'static str)
        ensures
            r@ == seq![self.separator()],
    {
        proof {
            reveal_strlit("\\");
            reveal_strlit("/");
        }
        if self.windows() {
            assert("\\"@ =~= seq!['\\']);
            "\\"
        } else {
            assert("/"@ =~= seq!['/']);
            "/"
        }
    }
}

/// The component `.`.
pub open spec fn this_folder() -> Seq<char> {
    seq!['.']
}

/// The component `..`.
pub open spec fn parent_folder() -> Seq<char> {
    seq!['.', '.']
}

/// The component of a leading separator, however it is written.
pub open spec fn root_folder() -> Seq<char> {
    seq!['/']
}

/// Whether a component is a root, a drive or a share. It ends in `/`, which no
/// name holds.
pub open spec fn is_root(component: Seq<char>) -> bool {
    component.len() > 0 && component.last() == '/'
}

/// Whether a component names a file or folder.
pub open spec fn is_name(component: Seq<char>) -> bool {
    component != this_folder() && component != parent_folder() && !is_root(component)
}

/// Whether the piece at `index` is a component.
pub open spec fn counts(index: int, piece: Seq<char>) -> bool {
    piece.len() > 0 && (index == 0 || piece != this_folder())
}

/// The pieces that are components.
pub open spec fn counted(parts: Seq<Seq<char>>) -> Seq<Seq<char>>
    decreases parts.len(),
{
    if parts.len() == 0 {
        Seq::empty()
    } else {
        let before = counted(parts.drop_last());
        if counts(parts.len() - 1, parts.last()) {
            before.push(parts.last())
        } else {
            before
        }
    }
}

/// Whether a path begins with a drive.
pub open spec fn has_drive(path: Seq<char>) -> bool {
    &&& path.len() >= 2
    &&& ('a' <= path[0] <= 'z' || 'A' <= path[0] <= 'Z')
    &&& path[1] == ':'
}

/// Whether a path begins with the names of a server and of a share. What begins
/// with `\\?\` or `\\.\` is read in the same way.
pub open spec fn has_share(path: Seq<char>) -> bool {
    let parts = pieces(path.skip(2), Class::Slash);
    &&& path.len() >= 2
    &&& Class::Slash.has(path[0])
    &&& Class::Slash.has(path[1])
    &&& parts.len() >= 2
    &&& parts[0].len() > 0
    &&& parts[1].len() > 0
}

/// The number of characters of the drive or the share that a path begins with.
pub open spec fn prefix_len(on: Platform, path: Seq<char>) -> int {
    if !(on is Windows) {
        0
    } else if has_drive(path) {
        2
    } else if has_share(path) {
        let parts = pieces(path.skip(2), Class::Slash);
        (3 + parts[0].len() + parts[1].len()) as int
    } else {
        0
    }
}

/// The letter of a drive, as a capital.
pub open spec fn drive_letter(c: char) -> char {
    if 'a' <= c <= 'z' {
        (c as u32 - 32) as char
    } else {
        c
    }
}

/// The component of the drive or the share that a path begins with.
pub open spec fn prefix_of_path(path: Seq<char>) -> Seq<char> {
    if has_drive(path) {
        seq![drive_letter(path[0]), ':', '/']
    } else {
        let parts = pieces(path.skip(2), Class::Slash);
        seq!['\\', '\\'] + parts[0] + seq!['\\'] + parts[1] + seq!['/']
    }
}

/// The text behind the drive or the share.
pub open spec fn behind_prefix(on: Platform, path: Seq<char>) -> Seq<char> {
    path.skip(prefix_len(on, path))
}

/// Whether a text begins with a separator.
pub open spec fn is_led(on: Platform, text: Seq<char>) -> bool {
    text.len() > 0 && on.separators().has(text[0])
}

/// Whether a path begins at a root. A share has one, even where none is written.
pub open spec fn has_root(on: Platform, path: Seq<char>) -> bool {
    is_led(on, behind_prefix(on, path)) || (prefix_len(on, path) > 0 && !has_drive(path))
}

/// What a path begins with: a drive or a share, and a root.
pub open spec fn beginning_of(on: Platform, path: Seq<char>) -> Seq<Seq<char>> {
    (if prefix_len(on, path) > 0 {
        seq![prefix_of_path(path)]
    } else {
        Seq::empty()
    }) + (if has_root(on, path) {
        seq![root_folder()]
    } else {
        Seq::empty()
    })
}

/// The components of a path.
pub open spec fn components_of(on: Platform, path: Seq<char>) -> Seq<Seq<char>> {
    beginning_of(on, path) + counted(pieces(behind_prefix(on, path), on.separators()))
}

/// Whether two spellings are one path.
pub open spec fn same_path(on: Platform, a: Seq<char>, b: Seq<char>) -> bool {
    components_of(on, a) == components_of(on, b)
}

/// Whether `path` is `folder` or lies beneath it.
pub open spec fn is_beneath(on: Platform, path: Seq<char>, folder: Seq<char>) -> bool {
    components_of(on, folder).is_prefix_of(components_of(on, path))
}

/// Whether a list of paths has a spelling of `path`.
pub open spec fn lists_path(on: Platform, list: Seq<String>, path: Seq<char>) -> bool {
    exists|i: int| 0 <= i < list.len() && same_path(on, (#[trigger] list[i])@, path)
}

/// The pieces that are components.
fn counted_of(parts: &Vec<String>) -> (r: Vec<String>)
    ensures
        views(r@) == counted(views(parts@)),
{
    let mut out: Vec<String> = Vec::new();
    let ghost all = views(parts@);
    let mut i: usize = 0;
    assert(all.take(0).len() == 0);
    assert(views(out@) == counted(all.take(0)));
    while i < parts.len()
        invariant
            i <= parts.len(),
            all == views(parts@),
            views(out@) == counted(all.take(i as int)),
        decreases parts.len() - i,
    {
        let piece = &parts[i];
        assert(all.take(i + 1).drop_last() == all.take(i as int));
        assert(all[i as int] == piece@);
        proof {
            reveal_strlit(".");
            assert("."@ == this_folder());
        }
        let ghost before = views(out@);
        if !piece.as_str().is_empty() && (i == 0 || !same(piece.as_str(), ".")) {
            out.push(piece.clone());
            assert(views(out@) == before.push(piece@));
        }
        i = i + 1;
    }
    assert(all.take(i as int) == all);
    out
}

/// The first two pieces of a text, and the separator between them, fit in it.
proof fn two_pieces_fit(s: Seq<char>, at: Class)
    ensures
        pieces(s, at).len() >= 1,
        pieces(s, at)[0].len() <= s.len(),
        pieces(s, at).len() >= 2 ==> pieces(s, at)[0].len() + pieces(s, at)[1].len() + 1 <= s.len(),
    decreases s.len(),
{
    if s.len() > 0 {
        two_pieces_fit(s.drop_last(), at);
    }
}

fn drive(chars: &Vec<char>) -> (r: bool)
    ensures
        r == has_drive(chars@),
{
    chars.len() >= 2 && (('a' <= chars[0] && chars[0] <= 'z') || ('A' <= chars[0] && chars[0]
        <= 'Z')) && chars[1] == ':'
}

/// What a path begins with where that is a drive or a share: its component, and
/// the number of its characters.
fn prefix(on: Platform, chars: &Vec<char>) -> (r: Option<(String, usize)>)
    ensures
        match r {
            Some((component, count)) => {
                &&& component@ == prefix_of_path(chars@)
                &&& count == prefix_len(on, chars@)
                &&& 0 < count <= chars.len()
            },
            None => prefix_len(on, chars@) == 0,
        },
{
    if !on.windows() {
        return None;
    }
    let mut component = String::new();
    if drive(chars) {
        let letter = if 'a' <= chars[0] && chars[0] <= 'z' {
            let byte: u8 = chars[0] as u8;
            (byte - 32) as char
        } else {
            chars[0]
        };
        component.push(letter);
        component.push(':');
        component.push('/');
        assert(component@ == seq![drive_letter(chars@[0]), ':', '/']);
        return Some((component, 2));
    }
    if chars.len() < 2 || !Class::Slash.holds(chars[0]) || !Class::Slash.holds(chars[1]) {
        return None;
    }
    let rest = string_of_range(chars, 2, chars.len());
    assert(rest@ == chars@.skip(2));
    let parts = split(rest.as_str(), Class::Slash);
    let ghost all = views(parts@);
    if parts.len() < 2 {
        return None;
    }
    assert(all[0] == parts@[0]@ && all[1] == parts@[1]@);
    if parts[0].as_str().is_empty() || parts[1].as_str().is_empty() {
        return None;
    }
    proof {
        two_pieces_fit(rest@, Class::Slash);
    }
    component.push('\\');
    component.push('\\');
    component.append(parts[0].as_str());
    component.push('\\');
    component.append(parts[1].as_str());
    component.push('/');
    assert(component@ == prefix_of_path(chars@));
    let count: usize = 3 + parts[0].as_str().unicode_len() + parts[1].as_str().unicode_len();
    Some((component, count))
}

/// The components of a path.
pub fn components(on: Platform, path: &str) -> (r: Vec<String>)
    ensures
        views(r@) == components_of(on, path@),
{
    let chars = chars_of(path);
    let mut out: Vec<String> = Vec::new();
    assert(views(out@) =~= Seq::<Seq<char>>::empty());
    let mut rooted = false;
    let mut from: usize = 0;
    if let Some((component, count)) = prefix(on, &chars) {
        rooted = !drive(&chars);
        from = count;
        out.push(component);
        assert(views(out@) =~= seq![prefix_of_path(path@)]);
    }
    if from < chars.len() && on.separating().holds(chars[from]) {
        rooted = true;
    }
    let rest = string_of_range(&chars, from, chars.len());
    assert(rest@ =~= behind_prefix(on, path@));
    assert(rooted == has_root(on, path@));
    if rooted {
        let ghost before = views(out@);
        let mut root = String::new();
        root.push('/');
        assert(root@ =~= root_folder());
        out.push(root);
        assert(views(out@) =~= before + seq![root_folder()]);
    }
    assert(views(out@) =~= beginning_of(on, path@));
    let ghost beginning = views(out@);
    let parts = split(rest.as_str(), on.separating());
    let mut inner = counted_of(&parts);
    let ghost names = views(inner@);
    out.append(&mut inner);
    assert(views(out@) =~= beginning + names);
    out
}

fn same_texts(a: &Vec<String>, b: &Vec<String>, count: usize) -> (r: bool)
    requires
        count <= a.len(),
        count <= b.len(),
    ensures
        r == (views(a@).take(count as int) == views(b@).take(count as int)),
{
    let mut i: usize = 0;
    while i < count
        invariant
            i <= count <= a.len(),
            count <= b.len(),
            forall|j: int| 0 <= j < i ==> views(a@)[j] == views(b@)[j],
        decreases count - i,
    {
        if !same(a[i].as_str(), b[i].as_str()) {
            assert(views(a@).take(count as int)[i as int] != views(b@).take(count as int)[i as int]);
            return false;
        }
        i = i + 1;
    }
    assert(views(a@).take(count as int) == views(b@).take(count as int));
    true
}

/// Whether `path` is `folder` or lies beneath it.
pub fn starts_with(on: Platform, path: &str, folder: &str) -> (r: bool)
    ensures
        r == is_beneath(on, path@, folder@),
{
    let path = components(on, path);
    let folder = components(on, folder);
    assert(views(folder@).take(folder@.len() as int) == views(folder@));
    if folder.len() > path.len() {
        return false;
    }
    let r = same_texts(&path, &folder, folder.len());
    assert(views(path@).take(folder@.len() as int) == views(path@).subrange(
        0,
        folder@.len() as int,
    ));
    r
}

/// Whether two spellings are one path.
pub fn equal(on: Platform, a: &str, b: &str) -> (r: bool)
    ensures
        r == same_path(on, a@, b@),
{
    let a = components(on, a);
    let b = components(on, b);
    if a.len() != b.len() {
        return false;
    }
    assert(views(a@).take(a@.len() as int) == views(a@));
    assert(views(b@).take(b@.len() as int) == views(b@));
    same_texts(&a, &b, a.len())
}

/// Whether a list of paths has a spelling of `path`.
pub fn listed(on: Platform, list: &Vec<String>, path: &str) -> (r: bool)
    ensures
        r == lists_path(on, list@, path@),
{
    let mut i: usize = 0;
    while i < list.len()
        invariant
            i <= list.len(),
            forall|j: int| 0 <= j < i ==> !same_path(on, (#[trigger] list@[j])@, path@),
        decreases list.len() - i,
    {
        if equal(on, list[i].as_str(), path) {
            return true;
        }
        i = i + 1;
    }
    false
}

/// The name of the file or folder a path ends in.
pub open spec fn name_of(on: Platform, path: Seq<char>) -> Option<Seq<char>> {
    let parts = components_of(on, path);
    if parts.len() > 0 && is_name(parts.last()) {
        Some(parts.last())
    } else {
        None
    }
}

/// The place of the last `.`, or -1.
pub open spec fn last_dot(name: Seq<char>) -> int
    decreases name.len(),
{
    if name.len() == 0 {
        -1
    } else if name.last() == '.' {
        name.len() - 1
    } else {
        last_dot(name.drop_last())
    }
}

/// A file name without its extension. A leading `.` starts no extension.
pub open spec fn stem_of(name: Seq<char>) -> Seq<char> {
    if last_dot(name) <= 0 {
        name
    } else {
        name.take(last_dot(name))
    }
}

/// The extension of a file name, without its `.`.
pub open spec fn extension_of(name: Seq<char>) -> Option<Seq<char>> {
    if last_dot(name) <= 0 {
        None
    } else {
        Some(name.skip(last_dot(name) + 1))
    }
}

/// The stem of the file a path ends in.
pub open spec fn file_stem_of(on: Platform, path: Seq<char>) -> Option<Seq<char>> {
    match name_of(on, path) {
        Some(name) => Some(stem_of(name)),
        None => None,
    }
}

fn root(component: &str) -> (r: bool)
    ensures
        r == is_root(component@),
{
    let chars = chars_of(component);
    chars.len() > 0 && chars[chars.len() - 1] == '/'
}

/// Whether a component names a file or folder.
pub fn names(component: &str) -> (r: bool)
    ensures
        r == is_name(component@),
{
    proof {
        reveal_strlit(".");
        reveal_strlit("..");
        assert("."@ == this_folder());
        assert(".."@ == parent_folder());
    }
    !same(component, ".") && !same(component, "..") && !root(component)
}

/// The name of the file or folder a path ends in.
pub fn file_name(on: Platform, path: &str) -> (r: Option<String>)
    ensures
        crate::text::optional_view(r) == name_of(on, path@),
{
    let parts = components(on, path);
    if parts.len() == 0 {
        return None;
    }
    let last = &parts[parts.len() - 1];
    assert(components_of(on, path@).last() == last@);
    if names(last.as_str()) {
        Some(last.clone())
    } else {
        None
    }
}

/// The number of characters up to the last `.`, where there is one.
fn find_last_dot(name: &Vec<char>) -> (r: Option<usize>)
    ensures
        r is None == (last_dot(name@) == -1),
        r matches Some(at) ==> at == last_dot(name@) && at < name.len(),
        -1 <= last_dot(name@) < name.len(),
{
    let mut n: usize = name.len();
    assert(name@.take(n as int) == name@);
    while n > 0
        invariant
            n <= name.len(),
            last_dot(name@) == last_dot(name@.take(n as int)),
        decreases n,
    {
        assert(name@.take(n as int).drop_last() == name@.take(n - 1));
        if name[n - 1] == '.' {
            return Some(n - 1);
        }
        n = n - 1;
    }
    None
}

/// A file name taken apart into its stem and extension.
pub fn split_name(name: &str) -> (r: (String, Option<String>))
    ensures
        r.0@ == stem_of(name@),
        crate::text::optional_view(r.1) == extension_of(name@),
{
    let chars = chars_of(name);
    match find_last_dot(&chars) {
        Some(at) if at > 0 => {
            let stem = string_of_range(&chars, 0, at);
            let extension = string_of_range(&chars, at + 1, chars.len());
            assert(stem@ == name@.take(at as int));
            assert(extension@ == name@.skip(at + 1));
            (stem, Some(extension))
        },
        _ => (name.to_owned(), None),
    }
}

/// The stem of the file a path ends in.
pub fn file_stem(on: Platform, path: &str) -> (r: Option<String>)
    ensures
        crate::text::optional_view(r) == file_stem_of(on, path@),
{
    match file_name(on, path) {
        Some(name) => Some(split_name(name.as_str()).0),
        None => None,
    }
}

/// A path beneath another: a child with a drive or a share of its own stands for
/// itself, and one that begins at a root stands on the drive of the base. A drive
/// alone gets no separator.
pub open spec fn joined_path(on: Platform, base: Seq<char>, child: Seq<char>) -> Seq<char> {
    if prefix_len(on, child) > 0 {
        child
    } else if is_led(on, child) {
        base.take(prefix_len(on, base)) + child
    } else if base.len() == 0 || on.separators().has(base.last()) || (base.len() == 2 && prefix_len(
        on,
        base,
    ) == 2) {
        base + child
    } else {
        base + seq![on.separator()] + child
    }
}

/// The path of `child` beneath `base`.
pub fn join_path(on: Platform, base: &str, child: &str) -> (r: String)
    ensures
        r@ == joined_path(on, base@, child@),
{
    let inner = chars_of(child);
    let outer = chars_of(base);
    if prefix(on, &inner).is_some() {
        return child.to_owned();
    }
    let start: usize = match prefix(on, &outer) {
        Some((_, count)) => count,
        None => 0,
    };
    if inner.len() > 0 && on.separating().holds(inner[0]) {
        let mut out = string_of_range(&outer, 0, start);
        assert(out@ =~= base@.take(start as int));
        out.append(child);
        return out;
    }
    let mut out = base.to_owned();
    let bare = outer.len() == 2 && start == 2;
    if outer.len() > 0 && !on.separating().holds(outer[outer.len() - 1]) && !bare {
        out.append(on.main_separator());
        assert(out@ == base@ + seq![on.separator()]);
    }
    out.append(child);
    out
}

/// The path of some names beneath a folder, each beneath the one before it.
pub open spec fn joined_names(on: Platform, base: Seq<char>, names: Seq<Seq<char>>) -> Seq<char>
    decreases names.len(),
{
    if names.len() == 0 {
        base
    } else {
        joined_path(on, joined_names(on, base, names.drop_last()), names.last())
    }
}

/// The path of some names beneath a folder.
pub fn join_names(on: Platform, base: &str, names: &Vec<String>) -> (r: String)
    ensures
        r@ == joined_names(on, base@, views(names@)),
{
    let ghost all = views(names@);
    let mut out = base.to_owned();
    let mut i: usize = 0;
    while i < names.len()
        invariant
            i <= names.len(),
            all == views(names@),
            out@ == joined_names(on, base@, all.take(i as int)),
        decreases names.len() - i,
    {
        assert(all.take(i + 1).drop_last() =~= all.take(i as int));
        assert(all[i as int] == names@[i as int]@);
        out = join_path(on, out.as_str(), names[i].as_str());
        i = i + 1;
    }
    assert(all.take(i as int) =~= all);
    out
}

/// What is left of a text once separators, and each `.` that is no component, are
/// taken from its end. A `.` that it begins with is a component where `leads`.
pub open spec fn cut_back(at: Class, leads: bool, text: Seq<char>) -> Seq<char>
    decreases text.len(),
{
    if text.len() == 0 {
        text
    } else if at.has(text.last()) || (text.last() == '.' && (if text.len() == 1 {
        !leads
    } else {
        at.has(text[text.len() - 2])
    })) {
        cut_back(at, leads, text.drop_last())
    } else {
        text
    }
}

/// A text up to its last separator.
pub open spec fn up_to_separator(at: Class, text: Seq<char>) -> Seq<char>
    decreases text.len(),
{
    if text.len() == 0 || at.has(text.last()) {
        text
    } else {
        up_to_separator(at, text.drop_last())
    }
}

/// The number of characters in front of the components of a path that name
/// something: those of a drive or a share, and of a root.
pub open spec fn body_start(on: Platform, path: Seq<char>) -> int {
    if is_led(on, behind_prefix(on, path)) {
        prefix_len(on, path) + 1
    } else {
        prefix_len(on, path)
    }
}

/// The path of the folder a path lies in, as it is written there. A path of no
/// component, or of a beginning alone, lies in none.
pub open spec fn parent_of(on: Platform, path: Seq<char>) -> Option<Seq<char>> {
    let parts = components_of(on, path);
    let at = on.separators();
    let leads = !has_root(on, path);
    if parts.len() == 0 || is_root(parts.last()) {
        None
    } else {
        let body = cut_back(at, leads, path.skip(body_start(on, path)));
        Some(path.take(body_start(on, path)) + cut_back(at, leads, up_to_separator(at, body)))
    }
}

/// The number of characters that are left of a text, from `from` on, once it is
/// cut back from `to`.
fn cut(at: Class, leads: bool, chars: &Vec<char>, from: usize, to: usize) -> (r: usize)
    requires
        from <= to <= chars.len(),
    ensures
        from <= r <= to,
        chars@.subrange(from as int, r as int) == cut_back(
            at,
            leads,
            chars@.subrange(from as int, to as int),
        ),
{
    let mut n: usize = to;
    let ghost whole = chars@.subrange(from as int, to as int);
    while n > from
        invariant
            from <= n <= to <= chars.len(),
            whole == chars@.subrange(from as int, to as int),
            cut_back(at, leads, whole) == cut_back(
                at,
                leads,
                chars@.subrange(from as int, n as int),
            ),
        decreases n,
    {
        let ghost text = chars@.subrange(from as int, n as int);
        assert(text.drop_last() =~= chars@.subrange(from as int, n - 1));
        assert(text.last() == chars@[n - 1]);
        let last = chars[n - 1];
        let dropped = if at.holds(last) {
            true
        } else if last != '.' {
            false
        } else if n - from == 1 {
            !leads
        } else {
            assert(text[text.len() - 2] == chars@[n - 2]);
            at.holds(chars[n - 2])
        };
        if !dropped {
            return n;
        }
        n = n - 1;
    }
    n
}

fn last_separator(at: Class, chars: &Vec<char>, from: usize, to: usize) -> (r: usize)
    requires
        from <= to <= chars.len(),
    ensures
        from <= r <= to,
        chars@.subrange(from as int, r as int) == up_to_separator(
            at,
            chars@.subrange(from as int, to as int),
        ),
{
    let mut n: usize = to;
    let ghost whole = chars@.subrange(from as int, to as int);
    while n > from
        invariant
            from <= n <= to <= chars.len(),
            whole == chars@.subrange(from as int, to as int),
            up_to_separator(at, whole) == up_to_separator(
                at,
                chars@.subrange(from as int, n as int),
            ),
        decreases n,
    {
        let ghost text = chars@.subrange(from as int, n as int);
        assert(text.drop_last() =~= chars@.subrange(from as int, n - 1));
        assert(text.last() == chars@[n - 1]);
        if at.holds(chars[n - 1]) {
            return n;
        }
        n = n - 1;
    }
    n
}

/// The path of the folder a path lies in.
pub fn parent(on: Platform, path: &str) -> (r: Option<String>)
    ensures
        crate::text::optional_view(r) == parent_of(on, path@),
{
    let parts = components(on, path);
    if parts.len() == 0 {
        return None;
    }
    assert(components_of(on, path@).last() == parts@[parts@.len() - 1]@);
    if root(parts[parts.len() - 1].as_str()) {
        return None;
    }
    let chars = chars_of(path);
    let at = on.separating();
    let (start, share): (usize, bool) = match prefix(on, &chars) {
        Some((_, count)) => (count, !drive(&chars)),
        None => (0, false),
    };
    let led = start < chars.len() && at.holds(chars[start]);
    let from: usize = if led {
        start + 1
    } else {
        start
    };
    let leads = !led && !share;
    assert(from == body_start(on, path@));
    assert(leads == !has_root(on, path@));
    let ghost body = path@.skip(from as int);
    assert(body =~= chars@.subrange(from as int, chars@.len() as int));
    let end = cut(at, leads, &chars, from, chars.len());
    let end = last_separator(at, &chars, from, end);
    let end = cut(at, leads, &chars, from, end);
    let out = string_of_range(&chars, 0, end);
    assert(out@ =~= path@.take(from as int) + chars@.subrange(from as int, end as int));
    Some(out)
}

/// Where a project lies beneath a library, as text that means the same on
/// every machine: names with `/` between them. A path outside the library, the
/// library itself, and one that steps out of a folder have no such place.
pub open spec fn place_beneath(
    on: Platform,
    library: Seq<char>,
    project: Seq<char>,
) -> Option<Seq<char>> {
    let outer = components_of(on, library);
    let inner = components_of(on, project);
    let rest = inner.skip(outer.len() as int);
    if outer.is_prefix_of(inner) && rest.len() > 0 && (forall|i: int|
        0 <= i < rest.len() ==> is_name(#[trigger] rest[i])) {
        Some(joined(rest, root_folder()))
    } else {
        None
    }
}

/// Where a project lies beneath a library.
pub fn portable_place(on: Platform, library: &str, project: &str) -> (r: Option<String>)
    ensures
        crate::text::optional_view(r) == place_beneath(on, library@, project@),
{
    proof {
        reveal_strlit("/");
        assert("/"@ == root_folder());
    }
    if !starts_with(on, project, library) {
        return None;
    }
    let outer = components(on, library);
    let inner = components(on, project);
    let skip: usize = outer.len();
    let ghost rest = components_of(on, project@).skip(skip as int);
    let mut parts: Vec<String> = Vec::new();
    let mut i: usize = skip;
    while i < inner.len()
        invariant
            skip <= i <= inner.len(),
            views(inner@) == components_of(on, project@),
            skip == components_of(on, library@).len(),
            rest == components_of(on, project@).skip(skip as int),
            views(parts@) == rest.take(i - skip),
            forall|j: int| 0 <= j < i - skip ==> is_name(#[trigger] rest[j]),
        decreases inner.len() - i,
    {
        assert(rest[i - skip] == inner@[i as int]@);
        if !names(inner[i].as_str()) {
            return None;
        }
        let ghost before = views(parts@);
        parts.push(inner[i].clone());
        assert(views(parts@) == before.push(rest[i - skip]));
        assert(rest.take(i - skip + 1) == rest.take(i - skip).push(rest[i - skip]));
        i = i + 1;
    }
    assert(rest.take(rest.len() as int) == rest);
    if parts.len() == 0 {
        None
    } else {
        Some(join(&parts, "/"))
    }
}

// ---------------------------------------------------------------------------
// Lying beneath
// ---------------------------------------------------------------------------

/// Whether a path says where it begins: at a root, and on Windows at that of a
/// drive or a share.
pub open spec fn is_absolute(on: Platform, path: Seq<char>) -> bool {
    has_root(on, path) && (on is Windows ==> prefix_len(on, path) > 0)
}

/// Whether a text names a file or folder wherever it stands in a path: it has
/// neither a separator nor the `:` of a drive.
pub open spec fn is_plain(name: Seq<char>) -> bool {
    &&& name.len() > 0
    &&& is_name(name)
    &&& forall|i: int|
        0 <= i < name.len() ==> !Class::Slash.has(#[trigger] name[i]) && name[i] != ':'
}

/// The pieces on both sides of a separator are those of the two sides.
proof fn pieces_of_both(a: Seq<char>, c: char, b: Seq<char>, at: Class)
    requires
        at.has(c),
    ensures
        pieces(a.push(c) + b, at) == pieces(a, at) + pieces(b, at),
    decreases b.len(),
{
    let s = a.push(c) + b;
    if b.len() == 0 {
        assert(s.drop_last() =~= a);
        assert(pieces(b, at) == seq![Seq::<char>::empty()]);
        assert(pieces(s, at) =~= pieces(a, at) + pieces(b, at));
    } else {
        pieces_of_both(a, c, b.drop_last(), at);
        pieces_nonempty(b.drop_last(), at);
        assert(s.drop_last() =~= a.push(c) + b.drop_last());
        let x = pieces(a, at);
        let y = pieces(b.drop_last(), at);
        assert((x + y).drop_last() =~= x + y.drop_last());
        assert((x + y).last() == y.last());
        assert(pieces(s, at) =~= x + pieces(b, at));
    }
}

/// A text without a separator is one piece.
proof fn one_piece(s: Seq<char>, at: Class)
    requires
        forall|i: int| 0 <= i < s.len() ==> !at.has(#[trigger] s[i]),
    ensures
        pieces(s, at) == seq![s],
    decreases s.len(),
{
    if s.len() > 0 {
        let before = s.drop_last();
        assert forall|i: int| 0 <= i < before.len() implies !at.has(#[trigger] before[i]) by {
            assert(before[i] == s[i]);
        }
        one_piece(before, at);
        assert(before.push(s.last()) =~= s);
        assert(pieces(s, at) =~= seq![s]);
    } else {
        assert(s =~= Seq::<char>::empty());
    }
}

/// A piece that is a name is a component behind those of the pieces before it.
proof fn counted_name(x: Seq<Seq<char>>, folder: Seq<Seq<char>>, name: Seq<char>)
    requires
        x.len() > 0,
        folder == x || folder == x.push(Seq::<char>::empty()),
        is_plain(name),
    ensures
        counted(x.push(name)) == counted(folder).push(name),
{
    assert(x.push(Seq::<char>::empty()).drop_last() =~= x);
    assert(x.push(name).drop_last() =~= x);
}

/// The pieces that a folder and a path beneath it begin with: those of the
/// folder, but for the nothing behind a trailing separator.
proof fn common_pieces(base: Seq<char>, c: char, name: Seq<char>, at: Class) -> (x: Seq<Seq<char>>)
    requires
        at is Solidus || at is Slash,
        at.has(c),
        is_plain(name),
    ensures
        x.len() > 0,
        pieces(base, at) == x || pieces(base, at) == x.push(Seq::<char>::empty()),
        (if base.len() > 0 && at.has(base.last()) {
            pieces(base + name, at)
        } else {
            pieces(base.push(c) + name, at)
        }) == x.push(name),
{
    one_piece(name, at);
    if base.len() > 0 && at.has(base.last()) {
        let b = base.drop_last();
        assert(base + name =~= b.push(base.last()) + name);
        pieces_of_both(b, base.last(), name, at);
        pieces_nonempty(b, at);
        pieces(b, at)
    } else {
        pieces_of_both(base, c, name, at);
        pieces_nonempty(base, at);
        pieces(base, at)
    }
}

/// What a path begins with is left by what is joined to it.
proof fn joining_keeps_the_beginning(on: Platform, base: Seq<char>, name: Seq<char>)
    requires
        is_absolute(on, base),
        is_plain(name),
    ensures
        ({
            let path = joined_path(on, base, name);
            &&& path == (if on.separators().has(base.last()) {
                base + name
            } else {
                base.push(on.separator()) + name
            })
            &&& base.len() > 0
            &&& prefix_len(on, base) <= base.len()
            &&& prefix_len(on, path) == prefix_len(on, base)
            &&& prefix_len(on, base) > 0 ==> prefix_of_path(path) == prefix_of_path(base)
            &&& has_drive(path) == has_drive(base)
        }),
{
    let path = joined_path(on, base, name);
    assert(!Class::Slash.has(name[0]));
    assert(name.len() > 1 ==> name[1] != ':');
    if on is Windows && !has_drive(base) {
        let inner = base.skip(2);
        two_pieces_fit(inner, Class::Slash);
        let x = common_pieces(inner, '\\', name, Class::Slash);
        let parts = pieces(inner, Class::Slash);
        assert(inner.last() == base.last());
        if Class::Slash.has(base.last()) {
            assert(path.skip(2) =~= inner + name);
        } else {
            assert(path =~= base.push('\\') + name);
            assert(path.skip(2) =~= inner.push('\\') + name);
        }
        let all = pieces(path.skip(2), Class::Slash);
        assert(x.len() >= 2) by {
            if x.len() == 1 {
                assert(parts[1] == Seq::<char>::empty());
            }
        }
        assert(all[0] == parts[0] && all[1] == parts[1]);
        assert(path[0] == base[0] && path[1] == base[1]);
    } else {
        assert(path[0] == base[0]);
        if base.len() > 1 {
            assert(path[1] == base[1]);
        }
        if !on.separators().has(base.last()) {
            assert(path =~= base.push(on.separator()) + name);
        }
    }
}

/// A plain name that is joined to an absolute folder adds itself to its
/// components, and nothing else.
pub proof fn joining_adds_the_name(on: Platform, base: Seq<char>, name: Seq<char>)
    requires
        is_absolute(on, base),
        is_plain(name),
    ensures
        components_of(on, joined_path(on, base, name)) == components_of(on, base).push(name),
        is_absolute(on, joined_path(on, base, name)),
{
    let path = joined_path(on, base, name);
    let at = on.separators();
    let n = prefix_len(on, base);
    joining_keeps_the_beginning(on, base, name);
    let inner = base.skip(n);
    let x = common_pieces(inner, on.separator(), name, at);
    if inner.len() > 0 {
        assert(inner.last() == base.last());
        if at.has(base.last()) {
            assert(path.skip(n) =~= inner + name);
        } else {
            assert(path.skip(n) =~= inner.push(on.separator()) + name);
        }
        assert(path.skip(n)[0] == inner[0]);
    } else if at.has(base.last()) {
        share_ends_in_a_name(base);
    } else {
        assert(path.skip(n) =~= inner.push(on.separator()) + name);
    }
    counted_name(x, pieces(inner, at), name);
    let beginning = beginning_of(on, base);
    assert(beginning_of(on, path) =~= beginning);
    let names = counted(pieces(inner, at));
    assert(beginning + names.push(name) =~= (beginning + names).push(name));
}

/// Plain names that are joined to an absolute folder, one beneath the other, add
/// themselves to its components: what they name lies beneath the folder.
pub proof fn joining_adds_the_names(on: Platform, base: Seq<char>, names: Seq<Seq<char>>)
    requires
        is_absolute(on, base),
        forall|i: int| 0 <= i < names.len() ==> is_plain(#[trigger] names[i]),
    ensures
        components_of(on, joined_names(on, base, names)) == components_of(on, base) + names,
        is_absolute(on, joined_names(on, base, names)),
    decreases names.len(),
{
    if names.len() > 0 {
        let before = names.drop_last();
        assert forall|i: int| 0 <= i < before.len() implies is_plain(#[trigger] before[i]) by {
            assert(before[i] == names[i]);
        }
        joining_adds_the_names(on, base, before);
        assert(is_plain(names[names.len() - 1]));
        joining_adds_the_name(on, joined_names(on, base, before), names.last());
        assert(components_of(on, base) + names =~= (components_of(on, base) + before).push(names.last()));
    }
}

/// A text without a separator or a `:` is the name it ends in, and the stem of
/// that name is where it begins.
pub proof fn stems_are_beginnings(on: Platform, name: Seq<char>)
    requires
        forall|i: int|
            0 <= i < name.len() ==> !Class::Slash.has(#[trigger] name[i]) && name[i] != ':',
    ensures
        match file_stem_of(on, name) {
            Some(stem) => stem.is_prefix_of(name),
            None => true,
        },
{
    let at = on.separators();
    one_piece(name, at);
    let parts = pieces(name, at);
    if name.len() > 0 {
        assert(name[0] != '/' && name[0] != '\\');
        assert(name.len() > 1 ==> name[1] != ':');
    }
    assert(prefix_len(on, name) == 0);
    assert(behind_prefix(on, name) =~= name);
    assert(beginning_of(on, name) =~= Seq::<Seq<char>>::empty());
    assert(counted(parts.drop_last()) =~= Seq::<Seq<char>>::empty());
    if name.len() > 0 {
        assert(components_of(on, name) =~= seq![name]);
    } else {
        assert(components_of(on, name) =~= Seq::<Seq<char>>::empty());
    }
    last_dot_is_within(name);
}

proof fn last_dot_is_within(name: Seq<char>)
    ensures
        -1 <= last_dot(name) < name.len(),
    decreases name.len(),
{
    if name.len() > 0 {
        last_dot_is_within(name.drop_last());
    }
}

/// The name of a share holds no separator, so a path that ends with it does not
/// end in one.
proof fn share_ends_in_a_name(base: Seq<char>)
    requires
        !has_drive(base),
        has_share(base),
        prefix_len(Platform::Windows, base) == base.len(),
    ensures
        !Class::Slash.has(base.last()),
{
    let inner = base.skip(2);
    last_piece_is_last(inner, Class::Slash);
    assert(inner.last() == base.last());
}

/// A text that is as long as its first two pieces and a separator, of which the
/// second holds something, ends in it.
proof fn last_piece_is_last(s: Seq<char>, at: Class)
    requires
        pieces(s, at).len() >= 2,
        pieces(s, at)[1].len() > 0,
        s.len() == pieces(s, at)[0].len() + pieces(s, at)[1].len() + 1,
    ensures
        !at.has(s.last()),
{
    two_pieces_fit(s.drop_last(), at);
}

} // verus!
