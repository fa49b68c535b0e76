//! Texts: their order, their parts, and what case does not matter to.
use vstd::prelude::*;

use crate::text::{ascii_lowered, decimal, joined, pieces, pieces_nonempty, same_ignoring_case,
    text_le, trim_end_of, trim_of, trim_start_of, trimmed, values_of, Class};

verus! {

/// Whether a text stands in another, somewhere.
pub open spec fn stands_in(text: Seq<char>, part: Seq<char>) -> bool {
    exists|at: int|
        0 <= at && at + part.len() <= text.len() && #[trigger] text.subrange(
            at,
            at + part.len(),
        ) == part
}

/// Whether two letters differ at most in being a capital.
pub open spec fn same_letter(a: char, b: char) -> bool {
    ||| a == b
    ||| 'A' <= a <= 'Z' && b as u32 == a as u32 + 32
    ||| 'A' <= b <= 'Z' && a as u32 == b as u32 + 32
}

/// Whether two texts differ at most in the case of ASCII letters.
pub open spec fn same_but_case(a: Seq<char>, b: Seq<char>) -> bool {
    a.len() == b.len() && forall|i: int|
        0 <= i < a.len() ==> same_letter(#[trigger] a[i], b[i])
}

/// To ignore case is to make no difference between an ASCII letter and its
/// capital, and between no other two characters.
pub proof fn ignoring_case_is_being_the_same_but_case(a: Seq<char>, b: Seq<char>)
    ensures
        same_ignoring_case(a, b) <==> same_but_case(a, b),
{
    let x = ascii_lowered(a);
    let y = ascii_lowered(b);
    if same_ignoring_case(a, b) {
        assert(x.len() == y.len());
        assert forall|i: int| 0 <= i < a.len() implies same_letter(#[trigger] a[i], b[i]) by {
            assert(x[i] == y[i]);
        }
    }
    if same_but_case(a, b) {
        assert forall|i: int| 0 <= i < a.len() implies x[i] == y[i] by {
            assert(same_letter(a[i], b[i]));
        }
        assert(x =~= y);
    }
}

/// Being the same but for case goes both ways.
pub proof fn same_case_is_symmetric(a: Seq<char>, b: Seq<char>)
    requires
        same_but_case(a, b),
    ensures
        same_but_case(b, a),
{
    assert forall|i: int| 0 <= i < b.len() implies same_letter(#[trigger] b[i], a[i]) by {
        assert(same_letter(a[i], b[i]));
    }
}

/// Whether a text stands before another in a dictionary: it is where the other
/// begins, or has the smaller character where they first differ.
pub open spec fn comes_first(a: Seq<char>, b: Seq<char>) -> bool {
    ||| a != b && a.is_prefix_of(b)
    ||| exists|k: int|
        0 <= k < a.len() && k < b.len() && a.take(k) == b.take(k) && #[trigger] a[k] < b[k]
}

/// The order of texts is that of a dictionary.
pub proof fn first_difference(a: Seq<char>, b: Seq<char>)
    requires
        a != b,
    ensures
        text_le(a, b) <==> comes_first(a, b),
    decreases a.len(),
{
    if a.len() == 0 {
        assert(a.is_prefix_of(b));
    } else if b.len() == 0 {
        assert(!a.is_prefix_of(b));
    } else if a[0] != b[0] {
        assert(a.take(0) =~= b.take(0));
        assert forall|k: int| 0 < k <= a.len() && k <= b.len() implies a.take(k) != b.take(k) by {
            assert(a.take(k)[0] == a[0] && b.take(k)[0] == b[0]);
        }
        assert(!a.is_prefix_of(b)) by {
            if a.is_prefix_of(b) {
                assert(a == b.subrange(0, a.len() as int));
                assert(b.subrange(0, a.len() as int)[0] == b[0]);
            }
        }
        if comes_first(a, b) {
            let k = choose|k: int|
                0 <= k < a.len() && k < b.len() && a.take(k) == b.take(k) && #[trigger] a[k] < b[k];
            assert(k == 0);
        }
    } else {
        let x = a.drop_first();
        let y = b.drop_first();
        assert(x != y) by {
            if x == y {
                assert(a =~= seq![a[0]] + x);
                assert(b =~= seq![b[0]] + y);
            }
        }
        first_difference(x, y);
        if comes_first(x, y) {
            if x.is_prefix_of(y) {
                assert(a =~= b.subrange(0, a.len() as int)) by {
                    assert(x == y.subrange(0, x.len() as int));
                    assert forall|i: int| 0 <= i < a.len() implies a[i] == b[i] by {
                        if i > 0 {
                            assert(x[i - 1] == y.subrange(0, x.len() as int)[i - 1]);
                        }
                    }
                }
            } else {
                let k = choose|k: int|
                    0 <= k < x.len() && k < y.len() && x.take(k) == y.take(k) && #[trigger] x[k]
                        < y[k];
                assert(a.take(k + 1) =~= seq![a[0]] + x.take(k));
                assert(b.take(k + 1) =~= seq![b[0]] + y.take(k));
                assert(a[k + 1] < b[k + 1]);
            }
        }
        if comes_first(a, b) {
            if a.is_prefix_of(b) {
                assert(x =~= y.subrange(0, x.len() as int)) by {
                    assert(a == b.subrange(0, a.len() as int));
                    assert forall|i: int| 0 <= i < x.len() implies x[i] == y[i] by {
                        assert(a[i + 1] == b.subrange(0, a.len() as int)[i + 1]);
                    }
                }
            } else {
                let k = choose|k: int|
                    0 <= k < a.len() && k < b.len() && a.take(k) == b.take(k) && #[trigger] a[k]
                        < b[k];
                assert(k > 0);
                assert(x.take(k - 1) =~= a.take(k).drop_first());
                assert(y.take(k - 1) =~= b.take(k).drop_first());
                assert(x[k - 1] < y[k - 1]);
            }
        }
    }
}

// ---------------------------------------------------------------------------
// Trimming and splitting
// ---------------------------------------------------------------------------

proof fn leading_stretch(class: Class, s: Seq<char>) -> (n: int)
    ensures
        0 <= n <= s.len(),
        trim_start_of(class, s) == s.skip(n),
        forall|i: int| 0 <= i < n ==> class.has(#[trigger] s[i]),
        n < s.len() ==> !class.has(s[n]),
    decreases s.len(),
{
    if s.len() > 0 && class.has(s[0]) {
        let rest = s.drop_first();
        let m = leading_stretch(class, rest);
        assert(rest.skip(m) =~= s.skip(m + 1));
        assert forall|i: int| 0 <= i < m + 1 implies class.has(#[trigger] s[i]) by {
            if i > 0 {
                assert(rest[i - 1] == s[i]);
            }
        }
        m + 1
    } else {
        assert(s.skip(0) =~= s);
        0
    }
}

proof fn trailing_stretch(class: Class, s: Seq<char>) -> (n: int)
    ensures
        0 <= n <= s.len(),
        trim_end_of(class, s) == s.take(n),
        forall|i: int| n <= i < s.len() ==> class.has(#[trigger] s[i]),
        n > 0 ==> !class.has(s[n - 1]),
    decreases s.len(),
{
    if s.len() > 0 && class.has(s.last()) {
        let rest = s.drop_last();
        let m = trailing_stretch(class, rest);
        assert(rest.take(m) =~= s.take(m));
        assert forall|i: int| m <= i < s.len() implies class.has(#[trigger] s[i]) by {
            if i < rest.len() {
                assert(rest[i] == s[i]);
            }
        }
        m
    } else {
        assert(s.take(s.len() as int) =~= s);
        s.len() as int
    }
}

/// Trimming takes characters of a class from both ends, all of them, and no
/// others.
pub proof fn trimming_takes_only_the_ends(class: Class, s: Seq<char>) -> (ends: (int, int))
    ensures
        0 <= ends.0 <= ends.1 <= s.len(),
        trim_of(class, s) == s.subrange(ends.0, ends.1),
        forall|i: int| 0 <= i < ends.0 ==> class.has(#[trigger] s[i]),
        forall|i: int| ends.1 <= i < s.len() ==> class.has(#[trigger] s[i]),
        ends.0 < ends.1 ==> !class.has(s[ends.0]) && !class.has(s[ends.1 - 1]),
{
    let a = leading_stretch(class, s);
    let rest = s.skip(a);
    let n = trailing_stretch(class, rest);
    assert(rest.take(n) =~= s.subrange(a, a + n));
    assert forall|i: int| a + n <= i < s.len() implies class.has(#[trigger] s[i]) by {
        assert(rest[i - a] == s[i]);
    }
    (a, a + n)
}

/// A text is blank if and only if it holds nothing but white space.
pub proof fn blank_texts_hold_white_space(s: Seq<char>)
    ensures
        crate::text::is_blank(s) <==> forall|i: int| 0 <= i < s.len() ==> Class::White.has(s[i]),
{
    let (a, b) = trimming_takes_only_the_ends(Class::White, s);
    if a < b {
        assert(!Class::White.has(s[a]));
    }
}

proof fn standing_is_transitive(text: Seq<char>, middle: Seq<char>, part: Seq<char>)
    requires
        stands_in(text, middle),
        stands_in(middle, part),
    ensures
        stands_in(text, part),
{
    let a = choose|at: int|
        0 <= at && at + middle.len() <= text.len() && #[trigger] text.subrange(
            at,
            at + middle.len(),
        ) == middle;
    let b = choose|at: int|
        0 <= at && at + part.len() <= middle.len() && #[trigger] middle.subrange(
            at,
            at + part.len(),
        ) == part;
    assert(text.subrange(a + b, a + b + part.len()) =~= part) by {
        assert forall|i: int| 0 <= i < part.len() implies text[a + b + i] == part[i] by {
            assert(text.subrange(a, a + middle.len())[b + i] == middle[b + i]);
            assert(middle.subrange(b, b + part.len())[i] == part[i]);
        }
    }
}

/// Splitting takes a text apart at its separators: there is one piece more than
/// there are separators, no piece holds one, each piece stands in the text, and
/// the last piece ends it.
pub proof fn pieces_hold_no_separator(s: Seq<char>, at: Class)
    ensures
        pieces(s, at).len() == 1 + s.filter(|c: char| at.has(c)).len(),
        forall|i: int, k: int|
            0 <= i < pieces(s, at).len() && 0 <= k < pieces(s, at)[i].len() ==> !at.has(
                #[trigger] pieces(s, at)[i][k],
            ),
        forall|i: int| 0 <= i < pieces(s, at).len() ==> stands_in(s, #[trigger] pieces(s, at)[i]),
        pieces(s, at).last().len() <= s.len(),
        s.skip(s.len() - pieces(s, at).last().len()) == pieces(s, at).last(),
    decreases s.len(),
{
    reveal(Seq::filter);
    let all = pieces(s, at);
    if s.len() == 0 {
        assert(all[0] == Seq::<char>::empty());
        assert(s.subrange(0, 0 + all[0].len() as int) =~= all[0]);
        assert(s.skip(0) =~= all[0]);
    } else {
        let before = pieces(s.drop_last(), at);
        pieces_hold_no_separator(s.drop_last(), at);
        assert(stands_in(s, s.drop_last())) by {
            assert(s.subrange(0, 0 + (s.len() - 1)) =~= s.drop_last());
        }
        let last = all.last();
        if at.has(s.last()) {
            assert(s.skip(s.len() as int) =~= last);
        } else {
            let l = before.last();
            assert(s.skip(s.len() - last.len()) =~= last) by {
                assert(s.drop_last().skip(s.drop_last().len() - l.len()) == l);
                assert forall|i: int| 0 <= i < l.len() implies s[s.len() - last.len() + i]
                    == l[i] by {
                    assert(s.drop_last().skip(s.drop_last().len() - l.len())[i] == l[i]);
                }
            }
        }
        assert(stands_in(s, last)) by {
            let from = s.len() - last.len();
            assert(s.subrange(from, from + last.len()) =~= s.skip(from));
        }
        assert forall|i: int| 0 <= i < all.len() implies stands_in(s, #[trigger] all[i]) by {
            if i < all.len() - 1 {
                assert(all[i] == before[i]);
                standing_is_transitive(s, s.drop_last(), before[i]);
            }
        }
        assert forall|i: int, k: int|
            0 <= i < all.len() && 0 <= k < all[i].len() implies !at.has(#[trigger] all[i][k]) by {
            if i < all.len() - 1 {
                assert(all[i] == before[i]);
                assert(!at.has(before[i][k]));
            } else if !at.has(s.last()) && k < all[i].len() - 1 {
                assert(!at.has(before[i][k]));
            }
        }
    }
}

/// Pieces put together again with the separator between them are the text they
/// were split from.
pub proof fn joining_undoes_splitting(s: Seq<char>, at: Class, c: char)
    requires
        forall|i: int| 0 <= i < s.len() && at.has(#[trigger] s[i]) ==> s[i] == c,
    ensures
        joined(pieces(s, at), seq![c]) == s,
    decreases s.len(),
{
    let all = pieces(s, at);
    if s.len() > 0 {
        let t = s.drop_last();
        let before = pieces(t, at);
        pieces_nonempty(t, at);
        assert forall|i: int| 0 <= i < t.len() && at.has(#[trigger] t[i]) implies t[i] == c by {
            assert(t[i] == s[i]);
        }
        joining_undoes_splitting(t, at, c);
        if at.has(s.last()) {
            assert(all.drop_last() =~= before);
            assert(joined(all, seq![c]) =~= t + seq![c] + Seq::<char>::empty());
            assert(t + seq![c] + Seq::<char>::empty() =~= s);
        } else {
            assert(all.drop_last() =~= before.drop_last());
            if before.len() == 1 {
                assert(joined(all, seq![c]) =~= s);
            } else {
                let head = joined(before.drop_last(), seq![c]);
                assert(t == head + seq![c] + before.last());
                let last = before.last();
                assert(all.last() == last.push(s.last()));
                assert(head + seq![c] + last.push(s.last()) =~= (head + seq![c] + last).push(
                    s.last(),
                ));
                assert(t.push(s.last()) =~= s);
            }
        }
    } else {
        assert(joined(all, seq![c]) =~= s);
    }
}

/// Each value of a list is what stands between two separators, without the white
/// space around it; none is empty.
pub proof fn values_are_trimmed_pieces(s: Seq<char>, at: Class, i: int)
    requires
        0 <= i < values_of(pieces(s, at)).len(),
    ensures
        ({
            let value = values_of(pieces(s, at))[i];
            &&& value.len() > 0
            &&& stands_in(s, value)
            &&& forall|k: int| 0 <= k < value.len() ==> !at.has(#[trigger] value[k])
            &&& !Class::White.has(value[0])
            &&& !Class::White.has(value.last())
        }),
{
    pieces_hold_no_separator(s, at);
    let k = value_origin(pieces(s, at), i);
    let piece = pieces(s, at)[k];
    assert(stands_in(s, piece));
    assert forall|n: int| 0 <= n < piece.len() implies !at.has(#[trigger] piece[n]) by {
        assert(!at.has(pieces(s, at)[k][n]));
    }
    a_trimmed_piece(s, piece, at);
}

proof fn a_trimmed_piece(s: Seq<char>, piece: Seq<char>, at: Class)
    requires
        stands_in(s, piece),
        trimmed(piece).len() > 0,
        forall|n: int| 0 <= n < piece.len() ==> !at.has(#[trigger] piece[n]),
    ensures
        stands_in(s, trimmed(piece)),
        forall|n: int| 0 <= n < trimmed(piece).len() ==> !at.has(#[trigger] trimmed(piece)[n]),
        !Class::White.has(trimmed(piece)[0]),
        !Class::White.has(trimmed(piece).last()),
{
    let value = trimmed(piece);
    let (a, b) = trimming_takes_only_the_ends(Class::White, piece);
    assert(stands_in(piece, value)) by {
        assert(piece.subrange(a, a + value.len()) =~= value);
    }
    standing_is_transitive(s, piece, value);
    assert forall|n: int| 0 <= n < value.len() implies !at.has(#[trigger] value[n]) by {
        assert(value[n] == piece[a + n]);
    }
}

proof fn value_origin(parts: Seq<Seq<char>>, i: int) -> (k: int)
    requires
        0 <= i < values_of(parts).len(),
    ensures
        0 <= k < parts.len(),
        values_of(parts)[i] == trimmed(parts[k]),
        trimmed(parts[k]).len() > 0,
    decreases parts.len(),
{
    let before = values_of(parts.drop_last());
    if i < before.len() {
        let k = value_origin(parts.drop_last(), i);
        assert(parts.drop_last()[k] == parts[k]);
        k
    } else {
        parts.len() - 1
    }
}

/// A text that holds no separator, and is neither blank nor has white space at its
/// ends, is a list of one value.
pub proof fn an_undivided_text_is_one_value(s: Seq<char>, at: Class)
    requires
        s.len() > 0,
        trimmed(s) == s,
        forall|c: int| 0 <= c < s.len() ==> !at.has(#[trigger] s[c]),
    ensures
        values_of(pieces(s, at)) == seq![s],
{
    one_piece_of(s, at);
    let parts = pieces(s, at);
    assert(parts.drop_last() =~= Seq::<Seq<char>>::empty());
    assert(values_of(parts.drop_last()) =~= Seq::<Seq<char>>::empty());
    assert(values_of(parts) =~= seq![s]);
}

/// A text without a separator is its own only piece.
pub proof fn one_piece_of(s: Seq<char>, at: Class)
    requires
        forall|i: int| 0 <= i < s.len() ==> !at.has(#[trigger] s[i]),
    ensures
        pieces(s, at) == seq![s],
    decreases s.len(),
{
    if s.len() > 0 {
        let before = s.drop_last();
        assert forall|i: int| 0 <= i < before.len() implies !at.has(#[trigger] before[i]) by {
            assert(before[i] == s[i]);
        }
        one_piece_of(before, at);
        assert(before.push(s.last()) =~= s);
        assert(pieces(s, at) =~= seq![s]);
    } else {
        assert(s =~= Seq::<char>::empty());
    }
}

/// What stands before a separator and what stands behind it are split apart from
/// each other.
pub proof fn pieces_of_two(a: Seq<char>, c: char, b: Seq<char>, at: Class)
    requires
        at.has(c),
    ensures
        pieces(a.push(c) + b, at) == pieces(a, at) + pieces(b, at),
    decreases b.len(),
{
    let whole = a.push(c) + b;
    if b.len() == 0 {
        assert(whole =~= a.push(c));
        assert(whole.drop_last() =~= a);
        assert(pieces(whole, at) =~= pieces(a, at) + pieces(b, at));
    } else {
        let t = b.drop_last();
        pieces_of_two(a, c, t, at);
        pieces_nonempty(t, at);
        assert(whole.drop_last() =~= a.push(c) + t);
        assert(whole.last() == b.last());
        assert(pieces(whole, at) =~= pieces(a, at) + pieces(b, at));
    }
}

/// Values that are written one behind the other, with a comma and a space between
/// them, are read again as they are.
pub proof fn written_values_are_read_again(values: Seq<Seq<char>>)
    requires
        forall|i: int|
            0 <= i < values.len() ==> (#[trigger] values[i]).len() > 0 && trimmed(values[i])
                == values[i] && !values[i].contains(','),
    ensures
        values.len() > 0 ==> values_of(pieces(joined(values, ", "@), Class::Comma)) == values,
    decreases values.len(),
{
    reveal_strlit(", ");
    if values.len() == 1 {
        let only = values[0];
        assert forall|i: int| 0 <= i < only.len() implies !Class::Comma.has(#[trigger] only[i]) by {
            assert(only.contains(only[i]));
        }
        an_undivided_text_is_one_value(only, Class::Comma);
        assert(seq![only] =~= values);
    } else if values.len() > 1 {
        let before = values.drop_last();
        let last = values.last();
        assert forall|i: int| 0 <= i < before.len() implies (#[trigger] before[i]).len() > 0
            && trimmed(before[i]) == before[i] && !before[i].contains(',') by {
            assert(before[i] == values[i]);
        }
        assert(values[values.len() - 1] == last);
        written_values_are_read_again(before);
        let head = joined(before, ", "@);
        let tail = seq![' '] + last;
        assert(head + ", "@ + last =~= head.push(',') + tail);
        pieces_of_two(head, ',', tail, Class::Comma);
        assert forall|i: int| 0 <= i < tail.len() implies !Class::Comma.has(#[trigger] tail[i]) by {
            if i > 0 {
                assert(tail[i] == last[i - 1]);
                assert(last.contains(last[i - 1]));
            }
        }
        one_piece_of(tail, Class::Comma);
        assert(tail.drop_first() =~= last);
        assert(trimmed(tail) == last);
        let parts = pieces(joined(values, ", "@), Class::Comma);
        assert(parts =~= pieces(head, Class::Comma).push(tail));
        assert(parts.drop_last() =~= pieces(head, Class::Comma));
        assert(values_of(parts) =~= before.push(last));
        assert(before.push(last) =~= values);
    }
}

/// What separates: the components of a path, the parts of a name, the values of a
/// list, and the values that are typed.
pub proof fn separators_are_these(c: char)
    ensures
        Class::Slash.has(c) <==> c == '/' || c == '\\',
        Class::Solidus.has(c) <==> c == '/',
        Class::Dot.has(c) <==> c == '.',
        Class::Dash.has(c) <==> c == '-',
        Class::Comma.has(c) <==> c == ',',
        Class::Delimiter.has(c) <==> c == ',' || c == '\n',
        c == ' ' || c == '\t' || c == '\n' || c == '\r' ==> Class::White.has(c),
        '!' <= c <= '~' ==> !Class::White.has(c),
{
}

/// The number that some digits write, and nothing of any other text.
pub open spec fn number_of(digits: Seq<char>) -> int
    decreases digits.len(),
{
    if digits.len() == 0 {
        0
    } else {
        10 * number_of(digits.drop_last()) + (digits.last() as int - '0' as int)
    }
}

/// A number is written in digits alone, without zeros before it, and reads as
/// itself.
pub proof fn numbers_read_as_themselves(n: nat)
    ensures
        number_of(decimal(n)) == n,
        decimal(n).len() > 0,
        forall|i: int| 0 <= i < decimal(n).len() ==> '0' <= #[trigger] decimal(n)[i] <= '9',
        decimal(n).len() > 1 ==> decimal(n)[0] != '0',
        n == 0 <==> decimal(n) == seq!['0'],
    decreases n,
{
    if n >= 10 {
        numbers_read_as_themselves(n / 10);
        assert(decimal(n).drop_last() =~= decimal(n / 10));
        assert(decimal(n)[0] == decimal(n / 10)[0]);
        if decimal(n / 10).len() == 1 {
            assert(n / 10 != 0);
            if decimal(n / 10)[0] == '0' {
                assert(decimal(n / 10) =~= seq!['0']);
            }
        }
    } else {
        assert(decimal(n).drop_last() =~= Seq::<char>::empty());
        assert(decimal(n)[0] == decimal(n).last());
        assert(number_of(decimal(n).drop_last()) == 0);
        if decimal(n) == seq!['0'] {
            assert(decimal(n)[0] == '0');
        }
    }
    assert(seq!['0'].len() == 1);
}

} // verus!
