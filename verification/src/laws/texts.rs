//! What the operations on text give.
use vstd::prelude::*;
use crate::text::{
    after_last, chomped, first_line_of, found, found_from, has_prefix, has_suffix, holds, is_constant_name, is_white,
    joined, joined_from, left_stripped, lemma_left_stripped, lemma_word_end, lines_of, pieces, right_stripped,
    stripped, trimmed, without_prefix, without_prefixes, without_suffix, without_suffixes, word_end, words, WHITE,
};

verus! {

/// Whether a text stands in another at a place.
pub open spec fn stands_at(s: Seq<char>, p: Seq<char>, k: int) -> bool {
    0 <= k && k + p.len() <= s.len() && forall|j: int| 0 <= j < p.len() ==> s[k + j] == #[trigger] p[j]
}

proof fn lemma_stands_at(s: Seq<char>, p: Seq<char>, k: int)
    requires
        0 <= k,
        k + p.len() <= s.len(),
    ensures
        stands_at(s, p, k) <==> s.subrange(k, k + p.len()) == p,
{
    let piece = s.subrange(k, k + p.len());
    if stands_at(s, p, k) {
        assert(piece =~= p);
    }
    if piece == p {
        assert forall|j: int| 0 <= j < p.len() implies s[k + j] == #[trigger] p[j] by {
            assert(piece[j] == s[k + j]);
        }
    }
}

proof fn lemma_first_found(s: Seq<char>, p: Seq<char>, i: int)
    requires
        0 <= i,
    ensures
        match found_from(s, p, i) {
            Some(k) => i <= k && stands_at(s, p, k) && forall|j: int| i <= j < k ==> !#[trigger] stands_at(s, p, j),
            None => forall|j: int| i <= j ==> !#[trigger] stands_at(s, p, j),
        },
    decreases s.len() - i + 1,
{
    if i + p.len() <= s.len() {
        lemma_stands_at(s, p, i);
        if s.subrange(i, i + p.len()) != p {
            lemma_first_found(s, p, i + 1);
        }
    }
}

/// The place found is the first one at which the text stands in the other; none is found only where
/// it stands at none.
pub proof fn law_found_is_the_first(s: Seq<char>, p: Seq<char>)
    ensures
        match found(s, p) {
            Some(k) => stands_at(s, p, k) && s.subrange(k, k + p.len()) == p && forall|j: int|
                0 <= j < k ==> !#[trigger] stands_at(s, p, j),
            None => forall|j: int| !#[trigger] stands_at(s, p, j) && (0 <= j && j + p.len() <= s.len() ==> s.subrange(
                j,
                j + p.len(),
            ) != p),
        },
        holds(s, p) <==> exists|j: int| #[trigger] stands_at(s, p, j),
{
    lemma_first_found(s, p, 0);
    match found(s, p) {
        Some(k) => {
            lemma_stands_at(s, p, k);
        },
        None => {
            assert forall|j: int| !#[trigger] stands_at(s, p, j) && (0 <= j && j + p.len() <= s.len() ==> s.subrange(
                j,
                j + p.len(),
            ) != p) by {
                if 0 <= j && j + p.len() <= s.len() {
                    lemma_stands_at(s, p, j);
                }
            }
        },
    }
}

/// A text has a prefix where that stands at its start, and a suffix where that stands at its end;
/// what is left is the rest.
pub proof fn law_prefix_and_suffix(s: Seq<char>, p: Seq<char>)
    ensures
        has_prefix(s, p) <==> stands_at(s, p, 0),
        has_suffix(s, p) <==> stands_at(s, p, s.len() - p.len()),
        match without_prefix(s, p) {
            Some(rest) => s == p + rest,
            None => !stands_at(s, p, 0),
        },
        match without_suffix(s, p) {
            Some(rest) => s == rest + p,
            None => !stands_at(s, p, s.len() - p.len()),
        },
{
    if p.len() <= s.len() {
        lemma_stands_at(s, p, 0);
        lemma_stands_at(s, p, s.len() - p.len());
        if has_prefix(s, p) {
            assert(s =~= p + s.subrange(p.len() as int, s.len() as int));
        }
        if has_suffix(s, p) {
            assert(s =~= s.subrange(0, s.len() - p.len()) + p);
        }
    }
}

/// All copies of a prefix are taken off, and nothing else.
pub proof fn law_prefixes_are_taken_off(s: Seq<char>, p: Seq<char>)
    requires
        p.len() > 0,
    ensures
        !has_prefix(without_prefixes(s, p), p),
        has_suffix(s, without_prefixes(s, p)),
        !has_prefix(s, p) ==> without_prefixes(s, p) == s,
        has_prefix(s, p) ==> without_prefixes(s, p) == without_prefixes(s.skip(p.len() as int), p),
    decreases s.len(),
{
    let r = without_prefixes(s, p);
    if has_prefix(s, p) {
        let rest = s.subrange(p.len() as int, s.len() as int);
        assert(rest =~= s.skip(p.len() as int));
        law_prefixes_are_taken_off(rest, p);
        law_prefix_and_suffix(rest, r);
        law_prefix_and_suffix(s, r);
        assert(s.subrange(s.len() - r.len(), s.len() as int) =~= rest.subrange(
            rest.len() - r.len(),
            rest.len() as int,
        ));
    } else {
        assert(s.subrange(0, s.len() as int) =~= s);
    }
}

/// All copies of a suffix are taken off, and nothing else.
pub proof fn law_suffixes_are_taken_off(s: Seq<char>, p: Seq<char>)
    requires
        p.len() > 0,
    ensures
        !has_suffix(without_suffixes(s, p), p),
        has_prefix(s, without_suffixes(s, p)),
        !has_suffix(s, p) ==> without_suffixes(s, p) == s,
        has_suffix(s, p) ==> without_suffixes(s, p) == without_suffixes(s.take(s.len() - p.len()), p),
    decreases s.len(),
{
    let r = without_suffixes(s, p);
    if has_suffix(s, p) {
        let rest = s.subrange(0, s.len() - p.len());
        assert(rest =~= s.take(s.len() - p.len()));
        law_suffixes_are_taken_off(rest, p);
        assert(s.subrange(0, r.len() as int) =~= rest.subrange(0, r.len() as int));
    } else {
        assert(s.subrange(0, s.len() as int) =~= s);
    }
}

/// Whether all characters of a text are in a set.
pub open spec fn is_of(s: Seq<char>, set: Seq<char>) -> bool {
    forall|j: int| 0 <= j < s.len() ==> set.contains(#[trigger] s[j])
}

proof fn lemma_left(s: Seq<char>, set: Seq<char>) -> (before: Seq<char>)
    ensures
        s == before + left_stripped(s, set),
        is_of(before, set),
        left_stripped(s, set).len() > 0 ==> !set.contains(left_stripped(s, set)[0]),
    decreases s.len(),
{
    if s.len() > 0 && set.contains(s[0]) {
        let rest = lemma_left(s.drop_first(), set);
        let before = seq![s[0]] + rest;
        assert(s =~= seq![s[0]] + s.drop_first());
        assert(s =~= before + left_stripped(s, set));
        assert forall|j: int| 0 <= j < before.len() implies set.contains(#[trigger] before[j]) by {
            if j > 0 {
                assert(before[j] == rest[j - 1]);
            }
        }
        before
    } else {
        assert(s =~= Seq::<char>::empty() + s);
        Seq::empty()
    }
}

proof fn lemma_right(s: Seq<char>, set: Seq<char>) -> (after: Seq<char>)
    ensures
        s == right_stripped(s, set) + after,
        is_of(after, set),
        right_stripped(s, set).len() > 0 ==> !set.contains(right_stripped(s, set).last()),
    decreases s.len(),
{
    if s.len() > 0 && set.contains(s.last()) {
        let rest = lemma_right(s.drop_last(), set);
        let after = rest.push(s.last());
        assert(s =~= s.drop_last().push(s.last()));
        assert(s =~= right_stripped(s, set) + after);
        assert forall|j: int| 0 <= j < after.len() implies set.contains(#[trigger] after[j]) by {
            if j < rest.len() {
                assert(after[j] == rest[j]);
            }
        }
        after
    } else {
        assert(s =~= s + Seq::<char>::empty());
        Seq::empty()
    }
}

/// Stripping takes characters of the set off the start, and nothing else, as far as it goes.
pub proof fn law_left_stripped(s: Seq<char>, set: Seq<char>) -> (before: Seq<char>)
    ensures
        s == before + left_stripped(s, set),
        is_of(before, set),
        left_stripped(s, set).len() > 0 ==> !set.contains(left_stripped(s, set)[0]),
{
    lemma_left(s, set)
}

/// Stripping takes characters of the set off both ends, and nothing else, as far as it goes.
pub proof fn law_stripped(s: Seq<char>, set: Seq<char>) -> (parts: (Seq<char>, Seq<char>))
    ensures
        s == parts.0 + stripped(s, set) + parts.1,
        is_of(parts.0, set),
        is_of(parts.1, set),
        stripped(s, set).len() > 0 ==> !set.contains(stripped(s, set)[0]) && !set.contains(stripped(s, set).last()),
{
    let before = lemma_left(s, set);
    let middle = left_stripped(s, set);
    let after = lemma_right(middle, set);
    let r = stripped(s, set);
    assert(s =~= before + r + after);
    if r.len() > 0 {
        assert(middle[0] == r[0]);
    }
    (before, after)
}

/// Trimming takes white space off both ends, and nothing else, as far as it goes.
pub proof fn law_trimmed(s: Seq<char>) -> (parts: (Seq<char>, Seq<char>))
    ensures
        s == parts.0 + trimmed(s) + parts.1,
        forall|j: int| 0 <= j < parts.0.len() ==> is_white(#[trigger] parts.0[j]),
        forall|j: int| 0 <= j < parts.1.len() ==> is_white(#[trigger] parts.1[j]),
        trimmed(s).len() > 0 ==> !is_white(trimmed(s)[0]) && !is_white(trimmed(s).last()),
{
    law_stripped(s, WHITE@)
}

/// Blanks, tabs and ends of lines are white space, and letters, digits and signs are not.
pub proof fn law_white_space(c: char)
    ensures
        is_white(' '),
        is_white('\t'),
        is_white('\n'),
        is_white('\r'),
        '!' <= c <= '~' ==> !is_white(c),
{
    reveal_strlit("\t\n\u{b}\u{c}\r \u{85}\u{a0}\u{1680}\u{2000}\u{2001}\u{2002}\u{2003}\u{2004}\u{2005}\u{2006}\u{2007}\u{2008}\u{2009}\u{200a}\u{2028}\u{2029}\u{202f}\u{205f}\u{3000}");
    assert(WHITE@[5] == ' ');
    assert(WHITE@[0] == '\t');
    assert(WHITE@[1] == '\n');
    assert(WHITE@[4] == '\r');
}

/// The pieces of a text do not hold the separator.
pub proof fn law_pieces_are_free_of_the_separator(s: Seq<char>, sep: Seq<char>, i: int)
    requires
        sep.len() > 0,
        0 <= i < pieces(s, sep).len(),
    ensures
        !holds(pieces(s, sep)[i], sep),
    decreases s.len(),
{
    law_found_is_the_first(s, sep);
    match found(s, sep) {
        Some(k) => {
            let head = s.subrange(0, k);
            let tail = s.subrange(k + sep.len(), s.len() as int);
            assert(pieces(s, sep) == seq![head] + pieces(tail, sep));
            if i == 0 {
                law_found_is_the_first(head, sep);
                if holds(head, sep) {
                    let j = choose|j: int| #[trigger] stands_at(head, sep, j);
                    assert forall|m: int| 0 <= m < sep.len() implies s[j + m] == #[trigger] sep[m] by {
                        assert(head[j + m] == sep[m]);
                    }
                    assert(stands_at(s, sep, j));
                }
            } else {
                law_pieces_are_free_of_the_separator(tail, sep, i - 1);
                assert(pieces(s, sep)[i] == pieces(tail, sep)[i - 1]);
            }
        },
        None => {},
    }
}

/// The first line ends before the first newline, and before a carriage return there.
pub proof fn law_first_line(s: Seq<char>)
    ensures
        !first_line_of(s).contains('\n'),
        first_line_of(s).len() <= s.len(),
        forall|j: int| 0 <= j < first_line_of(s).len() ==> #[trigger] first_line_of(s)[j] == s[j],
        ({
            let n = first_line_of(s).len() as int;
            n == s.len() || s[n] == '\n' || (s[n] == '\r' && n + 1 < s.len() && s[n + 1] == '\n')
        }),
        s.len() > 0 && !s.contains('\n') ==> first_line_of(s) == s,
{
    let line = seq!['\n'];
    law_found_is_the_first(s, line);
    match found(s, line) {
        Some(k) => {
            assert(s[k] == line[0]);
            let r = first_line_of(s);
            assert forall|j: int| 0 <= j < r.len() implies #[trigger] r[j] != '\n' by {
                if s[j] == '\n' {
                    assert(stands_at(s, line, j));
                }
            }
        },
        None => {
            assert forall|j: int| 0 <= j < s.len() implies #[trigger] s[j] != '\n' by {
                if s[j] == '\n' {
                    assert(stands_at(s, line, j));
                }
            }
        },
    }
}

/// The first newline of a text is the first place at which there is one.
proof fn lemma_newline_found(s: Seq<char>, k: int)
    requires
        0 <= k < s.len(),
        s[k] == '\n',
        forall|j: int| 0 <= j < k ==> s[j] != '\n',
    ensures
        found(s, seq!['\n']) == Some(k),
{
    let line = seq!['\n'];
    law_found_is_the_first(s, line);
    assert(stands_at(s, line, k));
    let j = found(s, line)->0;
    assert(s[j + 0] == line[0]);
}

/// A text of one line has that line; a text with a newline has the line before it, and then the
/// lines of what follows.
pub proof fn law_lines(before: Seq<char>, after: Seq<char>)
    requires
        forall|j: int| 0 <= j < before.len() ==> before[j] != '\n',
    ensures
        before.len() > 0 ==> lines_of(before) == seq![before],
        lines_of(before + seq!['\n'] + after) == seq![chomped(before)] + lines_of(after),
        lines_of(Seq::empty()) == Seq::<Seq<char>>::empty(),
{
    let line = seq!['\n'];
    assert(found(before, line) is None) by {
        law_found_is_the_first(before, line);
        if holds(before, line) {
            let k = found(before, line)->0;
            assert(before[k + 0] == line[0]);
        }
    }
    let s = before + line + after;
    let k = before.len() as int;
    assert(s[k] == '\n');
    assert(forall|j: int| 0 <= j < k ==> s[j] == before[j]);
    lemma_newline_found(s, k);
    assert(s.subrange(0, k) =~= before);
    assert(s.subrange(k + 1, s.len() as int) =~= after);
}

/// One part is joined to itself; more parts are the others joined, the separator and the last.
pub proof fn law_joined(parts: Seq<Seq<char>>, sep: Seq<char>)
    ensures
        parts.len() == 0 ==> joined(parts, sep) == Seq::<char>::empty(),
        parts.len() == 1 ==> joined(parts, sep) == parts[0],
        parts.len() > 1 ==> joined(parts, sep) == joined(parts.drop_last(), sep) + sep + parts.last(),
{
    let none = Seq::<char>::empty();
    if parts.len() > 0 {
        assert(none + parts[0] =~= parts[0]);
        if parts.len() == 1 {
            assert(joined_from(parts, sep, 1, parts[0]) == parts[0]);
        } else {
            lemma_joined_end(parts, sep, 1, parts[0]);
            assert(parts.drop_last()[0] == parts[0]);
        }
    }
}

proof fn lemma_joined_end(parts: Seq<Seq<char>>, sep: Seq<char>, i: int, before: Seq<char>)
    requires
        1 <= i < parts.len(),
    ensures
        joined_from(parts, sep, i, before) == joined_from(parts.drop_last(), sep, i, before) + sep + parts.last(),
    decreases parts.len() - i,
{
    if i + 1 < parts.len() {
        assert(parts.drop_last()[i] == parts[i]);
        lemma_joined_end(parts, sep, i + 1, before + sep + parts[i]);
    } else {
        assert(joined_from(parts, sep, i + 1, before + sep + parts[i]) == before + sep + parts[i]);
    }
}

/// The words of a text hold no white space and are not empty.
pub proof fn law_words(s: Seq<char>, i: int)
    requires
        0 <= i < words(s).len(),
    ensures
        words(s)[i].len() > 0,
        forall|j: int| 0 <= j < words(s)[i].len() ==> !is_white(#[trigger] words(s)[i][j]),
    decreases s.len(),
{
    let t = left_stripped(s, WHITE@);
    lemma_left_stripped(s, WHITE@);
    lemma_word_end(t, 0);
    let end = word_end(t, 0);
    lemma_word_free(t, 0);
    if i == 0 {
        assert(words(s)[0] =~= t.subrange(0, end));
    } else {
        law_words(t.subrange(end, t.len() as int), i - 1);
        assert(words(s)[i] == words(t.subrange(end, t.len() as int))[i - 1]);
    }
}

proof fn lemma_word_free(s: Seq<char>, i: int)
    requires
        0 <= i <= s.len(),
    ensures
        forall|j: int| i <= j < word_end(s, i) ==> !is_white(#[trigger] s[j]),
        word_end(s, i) < s.len() ==> is_white(s[word_end(s, i)]),
    decreases s.len() - i,
{
    if i < s.len() && !is_white(s[i]) {
        lemma_word_free(s, i + 1);
    }
}

// Names

/// A name is written as names of constants are if and only if it consists of upper case letters,
/// digits and underscores, and has a letter.
pub proof fn law_constant_names(name: Seq<char>)
    ensures
        crate::text::is_constant_name(name) <==> {
            &&& forall|i: int|
                0 <= i < name.len() ==> crate::text::uppercase(#[trigger] name[i]) || name[i] == '_' || '0' <= name[i]
                    <= '9'
            &&& exists|i: int| 0 <= i < name.len() && crate::text::alphabetic(#[trigger] name[i])
        },
        name.len() == 0 ==> !crate::text::is_constant_name(name),
{
    if forall|i: int|
        0 <= i < name.len() ==> crate::text::uppercase(#[trigger] name[i]) || name[i] == '_' || '0' <= name[i] <= '9' {
        assert forall|i: int| 0 <= i < name.len() implies crate::text::is_constant_char(#[trigger] name[i]) by {}
    }
    if crate::text::is_constant_name(name) {
        assert forall|i: int| 0 <= i < name.len() implies crate::text::uppercase(#[trigger] name[i]) || name[i] == '_'
            || '0' <= name[i] <= '9' by {
            assert(crate::text::is_constant_char(name[i]));
        }
    }
}

/// What stands behind the last of a character; all of a text that does not have it.
pub proof fn law_after_last(before: Seq<char>, c: char, after: Seq<char>)
    requires
        !after.contains(c),
    ensures
        crate::text::after_last(before + seq![c] + after, c) == after,
        crate::text::after_last(after, c) == after,
{
    let s = before + seq![c] + after;
    lemma_last_place(s, c, before.len() as int, s.len() as int);
    assert(s.subrange(before.len() as int + 1, s.len() as int) =~= after);
    lemma_no_place(after, c, after.len() as int);
}

proof fn lemma_last_place(s: Seq<char>, c: char, k: int, n: int)
    requires
        0 <= k < n <= s.len(),
        s[k] == c,
        forall|j: int| k < j < s.len() ==> s[j] != c,
    ensures
        crate::text::last_place(s, c, n) == Some(k),
    decreases n,
{
    if n - 1 > k {
        lemma_last_place(s, c, k, n - 1);
    }
}

proof fn lemma_no_place(s: Seq<char>, c: char, n: int)
    requires
        0 <= n <= s.len(),
        !s.contains(c),
    ensures
        crate::text::last_place(s, c, n) is None,
    decreases n,
{
    if n > 0 {
        assert(s.contains(s[n - 1]));
        lemma_no_place(s, c, n - 1);
    }
}

/// A text without the first of two starts that it has.
pub proof fn law_behind_either(s: Seq<char>, p: Seq<char>, q: Seq<char>, rest: Seq<char>)
    ensures
        s == p + rest ==> crate::text::behind_either(s, p, q) == rest,
        s == q + rest && !has_prefix(s, p) ==> crate::text::behind_either(s, p, q) == rest,
        !has_prefix(s, p) && !has_prefix(s, q) ==> crate::text::behind_either(s, p, q) == s,
{
    law_prefix_and_suffix(s, p);
    law_prefix_and_suffix(s, q);
    if s == p + rest {
        assert(s.subrange(0, p.len() as int) =~= p);
        assert(s.subrange(p.len() as int, s.len() as int) =~= rest);
    }
    if s == q + rest {
        assert(s.subrange(0, q.len() as int) =~= q);
        assert(s.subrange(q.len() as int, s.len() as int) =~= rest);
    }
}

} // verus!
