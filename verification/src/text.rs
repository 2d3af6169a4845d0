//! Text as sequences of characters.
use vstd::prelude::*;
use vstd::utf8::*;

verus! {

/// `str::eq`: two string slices are equal exactly when they hold the same characters.
#[verifier::external_body]
pub(crate) fn same(a: &str, b: &str) -> (r: bool)
    ensures
        r == (a@ == b@),
{
    a == b
}

/// `String::push`: the character comes behind what the string held.
pub assume_specification[ String::push ](s: &mut String, c: char)
    ensures
        final(s)@ == old(s)@.push(c),
;

/// `String::push_str`: the text comes behind what the string held.
pub assume_specification[ String::push_str ](s: &mut String, t: &str)
    ensures
        final(s)@ == old(s)@ + t@,
;

/// Whether `char::is_uppercase` holds of a character.
pub uninterp spec fn uppercase(c: char) -> bool;

/// `char::is_uppercase`: a property of the character alone.
#[verifier::external_body]
fn is_uppercase(c: char) -> (r: bool)
    ensures
        r == uppercase(c),
{
    c.is_uppercase()
}

/// Whether `char::is_alphabetic` holds of a character.
pub uninterp spec fn alphabetic(c: char) -> bool;

/// `char::is_alphabetic`: a property of the character alone.
#[verifier::external_body]
fn is_alphabetic(c: char) -> (r: bool)
    ensures
        r == alphabetic(c),
{
    c.is_alphabetic()
}

/// The characters of a text.
pub fn chars_of(s: &str) -> (r: Vec<char>)
    ensures
        r@ == s@,
{
    let mut r: Vec<char> = Vec::new();
    for c in it: s.chars()
        invariant
            it.seq() == s@,
            r@ == s@.take(it.index()),
    {
        assert(s@.take(it.index() + 1) =~= s@.take(it.index()).push(c));
        r.push(c);
    }
    assert(s@.take(s@.len() as int) =~= s@);
    r
}

/// The text between two places.
pub fn string_of(c: &Vec<char>, from: usize, to: usize) -> (r: String)
    requires
        from <= to <= c@.len(),
    ensures
        r@ == c@.subrange(from as int, to as int),
{
    let mut r = String::new();
    let mut i: usize = from;
    assert(r@ =~= c@.subrange(from as int, from as int));
    while i < to
        invariant
            from <= i <= to <= c@.len(),
            r@ == c@.subrange(from as int, i as int),
        decreases to - i,
    {
        assert(c@.subrange(from as int, i + 1) =~= c@.subrange(from as int, i as int).push(c@[i as int]));
        r.push(c[i]);
        i += 1;
    }
    r
}

/// The characters that count as white space.
pub const WHITE: &'static str = "\t\n\u{b}\u{c}\r \u{85}\u{a0}\u{1680}\u{2000}\u{2001}\u{2002}\u{2003}\u{2004}\u{2005}\u{2006}\u{2007}\u{2008}\u{2009}\u{200a}\u{2028}\u{2029}\u{202f}\u{205f}\u{3000}";

/// Whether a character is white space.
pub open spec fn is_white(c: char) -> bool {
    WHITE@.contains(c)
}

/// A text without the characters of a set at its start.
pub open spec fn left_stripped(s: Seq<char>, set: Seq<char>) -> Seq<char>
    decreases s.len(),
{
    if s.len() > 0 && set.contains(s[0]) {
        left_stripped(s.drop_first(), set)
    } else {
        s
    }
}

/// A text without the characters of a set at its end.
pub open spec fn right_stripped(s: Seq<char>, set: Seq<char>) -> Seq<char>
    decreases s.len(),
{
    if s.len() > 0 && set.contains(s.last()) {
        right_stripped(s.drop_last(), set)
    } else {
        s
    }
}

/// A text without the characters of a set at both ends.
pub open spec fn stripped(s: Seq<char>, set: Seq<char>) -> Seq<char> {
    right_stripped(left_stripped(s, set), set)
}

/// A text without white space at both ends.
pub open spec fn trimmed(s: Seq<char>) -> Seq<char> {
    stripped(s, WHITE@)
}

/// Whether a text starts with another.
pub open spec fn has_prefix(s: Seq<char>, p: Seq<char>) -> bool {
    p.len() <= s.len() && s.subrange(0, p.len() as int) == p
}

/// Whether a text ends with another.
pub open spec fn has_suffix(s: Seq<char>, p: Seq<char>) -> bool {
    p.len() <= s.len() && s.subrange(s.len() - p.len(), s.len() as int) == p
}

/// What follows a prefix that the text may have.
pub open spec fn without_prefix(s: Seq<char>, p: Seq<char>) -> Option<Seq<char>> {
    if has_prefix(s, p) {
        Some(s.subrange(p.len() as int, s.len() as int))
    } else {
        None
    }
}

/// What precedes a suffix that the text may have.
pub open spec fn without_suffix(s: Seq<char>, p: Seq<char>) -> Option<Seq<char>> {
    if has_suffix(s, p) {
        Some(s.subrange(0, s.len() - p.len()))
    } else {
        None
    }
}

/// A text without the copies of another that stand at its end.
pub open spec fn without_suffixes(s: Seq<char>, p: Seq<char>) -> Seq<char>
    decreases s.len(),
{
    if p.len() > 0 && has_suffix(s, p) {
        without_suffixes(s.subrange(0, s.len() - p.len()), p)
    } else {
        s
    }
}

/// A text without the copies of another that stand at its start.
pub open spec fn without_prefixes(s: Seq<char>, p: Seq<char>) -> Seq<char>
    decreases s.len(),
{
    if p.len() > 0 && has_prefix(s, p) {
        without_prefixes(s.subrange(p.len() as int, s.len() as int), p)
    } else {
        s
    }
}

/// The first place, from `i` on, at which a text holds another.
pub open spec fn found_from(s: Seq<char>, p: Seq<char>, i: int) -> Option<int>
    decreases s.len() - i + 1,
{
    if i < 0 || i + p.len() > s.len() {
        None
    } else if s.subrange(i, i + p.len()) == p {
        Some(i)
    } else {
        found_from(s, p, i + 1)
    }
}

/// The first place at which a text holds another.
pub open spec fn found(s: Seq<char>, p: Seq<char>) -> Option<int> {
    found_from(s, p, 0)
}

/// Whether a text holds another.
pub open spec fn holds(s: Seq<char>, p: Seq<char>) -> bool {
    found(s, p) is Some
}

pub proof fn lemma_found_from(s: Seq<char>, p: Seq<char>, i: int)
    ensures
        found_from(s, p, i) matches Some(k) ==> 0 <= i <= k && k + p.len() <= s.len() && s.subrange(k, k + p.len()) == p,
    decreases s.len() - i + 1,
{
    if !(i < 0 || i + p.len() > s.len()) && s.subrange(i, i + p.len()) != p {
        lemma_found_from(s, p, i + 1);
    }
}

/// The place found lies in the text.
pub proof fn lemma_found(s: Seq<char>, p: Seq<char>)
    ensures
        found(s, p) matches Some(k) ==> 0 <= k && k + p.len() <= s.len() && s.subrange(k, k + p.len()) == p,
{
    lemma_found_from(s, p, 0);
}

/// The pieces of a text between the copies of a separator.
pub open spec fn pieces(s: Seq<char>, sep: Seq<char>) -> Seq<Seq<char>>
    decreases s.len(),
{
    match found(s, sep) {
        Some(k) if sep.len() > 0 && 0 <= k && k + sep.len() <= s.len() => seq![s.subrange(0, k)] + pieces(
            s.subrange(k + sep.len(), s.len() as int),
            sep,
        ),
        _ => seq![s],
    }
}

/// The place of the last `c` among the first `n` characters of a text.
pub open spec fn last_place(s: Seq<char>, c: char, n: int) -> Option<int>
    decreases n,
{
    if n <= 0 {
        None
    } else if s[n - 1] == c {
        Some(n - 1)
    } else {
        last_place(s, c, n - 1)
    }
}

/// What follows the last `c` of a text; the whole text where it holds none.
pub open spec fn after_last(s: Seq<char>, c: char) -> Seq<char> {
    match last_place(s, c, s.len() as int) {
        Some(k) => s.subrange(k + 1, s.len() as int),
        None => s,
    }
}

/// The length of the stretch of a text, from `i` on, that is free of white space.
pub open spec fn word_end(s: Seq<char>, i: int) -> int
    decreases s.len() - i,
{
    if i < 0 || i >= s.len() || is_white(s[i]) {
        i
    } else {
        word_end(s, i + 1)
    }
}

pub proof fn lemma_word_end(s: Seq<char>, i: int)
    requires
        0 <= i <= s.len(),
    ensures
        i <= word_end(s, i) <= s.len(),
        i < s.len() && !is_white(s[i]) ==> i < word_end(s, i),
    decreases s.len() - i,
{
    if i < s.len() && !is_white(s[i]) {
        lemma_word_end(s, i + 1);
    }
}

pub proof fn lemma_left_stripped(s: Seq<char>, set: Seq<char>)
    ensures
        left_stripped(s, set).len() <= s.len(),
        left_stripped(s, set).len() > 0 ==> !set.contains(left_stripped(s, set)[0]),
    decreases s.len(),
{
    if s.len() > 0 && set.contains(s[0]) {
        lemma_left_stripped(s.drop_first(), set);
    }
}

/// The words of a text, which white space parts.
pub open spec fn words(s: Seq<char>) -> Seq<Seq<char>>
    decreases s.len(),
{
    proof {
        lemma_left_stripped(s, WHITE@);
        lemma_word_end(left_stripped(s, WHITE@), 0);
    }
    let t = left_stripped(s, WHITE@);
    if t.len() == 0 {
        Seq::empty()
    } else {
        seq![t.subrange(0, word_end(t, 0))] + words(t.subrange(word_end(t, 0), t.len() as int))
    }
}

/// A line without the carriage return at its end.
pub open spec fn chomped(s: Seq<char>) -> Seq<char> {
    if s.len() > 0 && s.last() == '\r' {
        s.drop_last()
    } else {
        s
    }
}

/// The lines of a text.
pub open spec fn lines_of(s: Seq<char>) -> Seq<Seq<char>>
    decreases s.len(),
{
    if s.len() == 0 {
        Seq::empty()
    } else {
        match found(s, seq!['\n']) {
            Some(k) if 0 <= k < s.len() => seq![chomped(s.subrange(0, k))] + lines_of(
                s.subrange(k + 1, s.len() as int),
            ),
            _ => seq![s],
        }
    }
}

/// The first line of a text; empty where the text has none.
pub open spec fn first_line_of(s: Seq<char>) -> Seq<char> {
    match found(s, seq!['\n']) {
        Some(k) => chomped(s.subrange(0, k)),
        None => s,
    }
}

/// The parts from place `i` on, each behind a separator.
pub open spec fn joined_from(parts: Seq<Seq<char>>, sep: Seq<char>, i: int, before: Seq<char>) -> Seq<char>
    decreases parts.len() - i,
{
    if i < 0 || i >= parts.len() {
        before
    } else if i == 0 {
        joined_from(parts, sep, 1, before + parts[0])
    } else {
        joined_from(parts, sep, i + 1, before + sep + parts[i])
    }
}

/// The parts with a separator between neighbours.
pub open spec fn joined(parts: Seq<Seq<char>>, sep: Seq<char>) -> Seq<char> {
    joined_from(parts, sep, 0, Seq::empty())
}

fn in_set(c: char, set: &Vec<char>) -> (r: bool)
    ensures
        r == set@.contains(c),
{
    let mut i: usize = 0;
    while i < set.len()
        invariant
            i <= set.len(),
            forall|j: int| 0 <= j < i ==> set@[j] != c,
        decreases set.len() - i,
    {
        if set[i] == c {
            return true;
        }
        i += 1;
    }
    false
}

fn left_end(cs: &Vec<char>, set: &Vec<char>) -> (r: usize)
    ensures
        r <= cs@.len(),
        cs@.subrange(r as int, cs@.len() as int) == left_stripped(cs@, set@),
{
    let mut i: usize = 0;
    assert(cs@.subrange(0, cs@.len() as int) =~= cs@);
    while i < cs.len() && in_set(cs[i], set)
        invariant
            i <= cs.len(),
            left_stripped(cs@.subrange(i as int, cs@.len() as int), set@) == left_stripped(cs@, set@),
        decreases cs.len() - i,
    {
        assert(cs@.subrange(i as int, cs@.len() as int).drop_first() =~= cs@.subrange(i + 1, cs@.len() as int));
        i += 1;
    }
    i
}

fn right_end(cs: &Vec<char>, from: usize, set: &Vec<char>) -> (r: usize)
    requires
        from <= cs@.len(),
    ensures
        from <= r <= cs@.len(),
        cs@.subrange(from as int, r as int) == right_stripped(cs@.subrange(from as int, cs@.len() as int), set@),
{
    let mut i: usize = cs.len();
    while i > from && in_set(cs[i - 1], set)
        invariant
            from <= i <= cs.len(),
            right_stripped(cs@.subrange(from as int, i as int), set@) == right_stripped(
                cs@.subrange(from as int, cs@.len() as int),
                set@,
            ),
        decreases i,
    {
        assert(cs@.subrange(from as int, i as int).drop_last() =~= cs@.subrange(from as int, i - 1));
        i -= 1;
    }
    i
}

/// Takes the characters of a set off the start.
pub fn strip_left(s: &str, set: &str) -> (r: String)
    ensures
        r@ == left_stripped(s@, set@),
{
    let cs = chars_of(s);
    let i: usize = left_end(&cs, &chars_of(set));
    string_of(&cs, i, cs.len())
}

/// Takes the characters of a set off the end.
pub fn strip_right(s: &str, set: &str) -> (r: String)
    ensures
        r@ == right_stripped(s@, set@),
{
    let cs = chars_of(s);
    let i: usize = right_end(&cs, 0, &chars_of(set));
    assert(cs@.subrange(0, cs@.len() as int) =~= cs@);
    string_of(&cs, 0, i)
}

/// Takes the characters of a set off both ends.
pub fn strip(s: &str, set: &str) -> (r: String)
    ensures
        r@ == stripped(s@, set@),
{
    let cs = chars_of(s);
    let set = chars_of(set);
    let i: usize = left_end(&cs, &set);
    let j: usize = right_end(&cs, i, &set);
    string_of(&cs, i, j)
}

/// Takes white space off both ends.
pub fn trim(s: &str) -> (r: String)
    ensures
        r@ == trimmed(s@),
{
    strip(s, WHITE)
}

/// Whether a character is white space.
pub fn white(c: char) -> (r: bool)
    ensures
        r == is_white(c),
{
    in_set(c, &chars_of(WHITE))
}

fn matches_at(s: &Vec<char>, p: &Vec<char>, at: usize) -> (r: bool)
    requires
        at + p@.len() <= s@.len(),
    ensures
        r == (s@.subrange(at as int, at + p@.len()) == p@),
{
    let mut i: usize = 0;
    let len: usize = s.len();
    while i < p.len()
        invariant
            i <= p.len(),
            len == s@.len(),
            at + p@.len() <= s@.len(),
            forall|j: int| 0 <= j < i ==> s@[at + j] == p@[j],
        decreases p.len() - i,
    {
        if s[at + i] != p[i] {
            assert(s@.subrange(at as int, at + p@.len())[i as int] != p@[i as int]);
            return false;
        }
        i += 1;
    }
    assert(s@.subrange(at as int, at + p@.len()) =~= p@);
    true
}

/// Whether a text starts with another.
pub fn starts_with(s: &str, p: &str) -> (r: bool)
    ensures
        r == has_prefix(s@, p@),
{
    let s = chars_of(s);
    let p = chars_of(p);
    p.len() <= s.len() && matches_at(&s, &p, 0)
}

/// Whether a text ends with another.
pub fn ends_with(s: &str, p: &str) -> (r: bool)
    ensures
        r == has_suffix(s@, p@),
{
    let s = chars_of(s);
    let p = chars_of(p);
    p.len() <= s.len() && matches_at(&s, &p, s.len() - p.len())
}

/// What follows a prefix that the text may have.
pub fn strip_prefix(s: &str, p: &str) -> (r: Option<String>)
    ensures
        r.deep_view() == without_prefix(s@, p@),
{
    let s = chars_of(s);
    let p = chars_of(p);
    if p.len() <= s.len() && matches_at(&s, &p, 0) {
        Some(string_of(&s, p.len(), s.len()))
    } else {
        None
    }
}

/// What precedes a suffix that the text may have.
pub fn strip_suffix(s: &str, p: &str) -> (r: Option<String>)
    ensures
        r.deep_view() == without_suffix(s@, p@),
{
    let s = chars_of(s);
    let p = chars_of(p);
    if p.len() <= s.len() && matches_at(&s, &p, s.len() - p.len()) {
        Some(string_of(&s, 0, s.len() - p.len()))
    } else {
        None
    }
}

/// Takes all copies of a text off the end.
pub fn strip_suffixes(s: &str, p: &str) -> (r: String)
    ensures
        r@ == without_suffixes(s@, p@),
{
    let cs = chars_of(s);
    let p = chars_of(p);
    let mut n: usize = cs.len();
    assert(cs@.subrange(0, n as int) =~= cs@);
    while p.len() > 0 && p.len() <= n && matches_at(&cs, &p, n - p.len())
        invariant
            n <= cs@.len(),
            without_suffixes(cs@.subrange(0, n as int), p@) == without_suffixes(cs@, p@),
        decreases n,
    {
        assert(cs@.subrange(0, n as int).subrange(n - p@.len(), n as int) =~= p@);
        assert(cs@.subrange(0, n as int).subrange(0, n - p@.len()) =~= cs@.subrange(0, n - p@.len()));
        n -= p.len();
    }
    proof {
        if p@.len() <= n {
            assert(cs@.subrange(0, n as int).subrange(n - p@.len(), n as int) =~= cs@.subrange(n - p@.len(), n as int));
        }
    }
    string_of(&cs, 0, n)
}

/// Takes all copies of a text off the start.
pub fn strip_prefixes(s: &str, p: &str) -> (r: String)
    ensures
        r@ == without_prefixes(s@, p@),
{
    let cs = chars_of(s);
    let p = chars_of(p);
    let mut n: usize = 0;
    let ghost len = cs@.len() as int;
    assert(cs@.subrange(0, len) =~= cs@);
    while p.len() > 0 && p.len() <= cs.len() - n && matches_at(&cs, &p, n)
        invariant
            n <= cs@.len(),
            len == cs@.len(),
            without_prefixes(cs@.subrange(n as int, len), p@) == without_prefixes(cs@, p@),
        decreases cs@.len() - n,
    {
        assert(cs@.subrange(n as int, len).subrange(0, p@.len() as int) =~= p@);
        assert(cs@.subrange(n as int, len).subrange(p@.len() as int, len - n) =~= cs@.subrange(n + p@.len(), len));
        n += p.len();
    }
    proof {
        if p@.len() <= len - n {
            assert(cs@.subrange(n as int, len).subrange(0, p@.len() as int) =~= cs@.subrange(n as int, n + p@.len()));
        }
    }
    string_of(&cs, n, cs.len())
}

fn find_chars(s: &Vec<char>, p: &Vec<char>) -> (r: Option<usize>)
    ensures
        match r {
            Some(k) => found(s@, p@) == Some(k as int),
            None => found(s@, p@) is None,
        },
{
    let mut i: usize = 0;
    while p.len() <= s.len() - i
        invariant
            i <= s@.len(),
            found(s@, p@) == found_from(s@, p@, i as int),
        decreases s@.len() - i,
    {
        if matches_at(s, p, i) {
            return Some(i);
        }
        assert(p@.len() > 0) by {
            if p@.len() == 0 {
                assert(s@.subrange(i as int, i as int) =~= p@);
            }
        }
        i += 1;
    }
    None
}

/// The first place, counted in characters, at which a text holds another.
pub fn find(s: &str, p: &str) -> (r: Option<usize>)
    ensures
        match r {
            Some(k) => found(s@, p@) == Some(k as int),
            None => found(s@, p@) is None,
        },
{
    find_chars(&chars_of(s), &chars_of(p))
}

/// Whether a text holds another.
pub fn contains(s: &str, p: &str) -> (r: bool)
    ensures
        r == holds(s@, p@),
{
    find(s, p).is_some()
}

/// Parts a text at a place counted in characters.
pub fn cut(s: &str, at: usize) -> (r: (String, String))
    requires
        at <= s@.len(),
    ensures
        r.0@ == s@.subrange(0, at as int),
        r.1@ == s@.subrange(at as int, s@.len() as int),
{
    let cs = chars_of(s);
    (string_of(&cs, 0, at), string_of(&cs, at, cs.len()))
}

/// What follows the last `c` of a text.
pub fn tail_after(s: &str, c: char) -> (r: String)
    ensures
        r@ == after_last(s@, c),
{
    let cs = chars_of(s);
    let mut i: usize = cs.len();
    while i > 0
        invariant
            i <= cs@.len(),
            cs@ == s@,
            last_place(cs@, c, cs@.len() as int) == last_place(cs@, c, i as int),
        decreases i,
    {
        if cs[i - 1] == c {
            return string_of(&cs, i, cs.len());
        }
        i -= 1;
    }
    s.to_owned()
}

/// Splits a text at each copy of a separator.
pub fn split(s: &str, sep: &str) -> (r: Vec<String>)
    ensures
        r.deep_view() == pieces(s@, sep@),
{
    let mark = chars_of(sep);
    let mut r: Vec<String> = Vec::new();
    let mut rest = chars_of(s);
    assert(r.deep_view() + pieces(rest@, sep@) =~= pieces(s@, sep@));
    loop
        invariant
            mark@ == sep@,
            r.deep_view() + pieces(rest@, sep@) == pieces(s@, sep@),
        decreases rest@.len(),
    {
        let ghost before = r.deep_view();
        let ghost whole = rest@;
        proof {
            lemma_found(rest@, sep@);
        }
        match find_chars(&rest, &mark) {
            Some(k) if mark.len() > 0 => {
                let len: usize = rest.len();
                assert(k + sep@.len() <= len);
                let ghost tail = pieces(rest@.subrange(k + sep@.len(), rest@.len() as int), sep@);
                r.push(string_of(&rest, 0, k));
                let next = tail_of(&rest, k + mark.len());
                rest = next;
                assert(r.deep_view() =~= before.push(whole.subrange(0, k as int)));
                assert(r.deep_view() + tail =~= before + (seq![whole.subrange(0, k as int)] + tail));
            },
            _ => {
                r.push(string_of(&rest, 0, rest.len()));
                assert(rest@.subrange(0, rest@.len() as int) =~= rest@);
                assert(r.deep_view() =~= before + seq![rest@]);
                return r;
            },
        }
    }
}

fn tail_of(cs: &Vec<char>, from: usize) -> (r: Vec<char>)
    requires
        from <= cs@.len(),
    ensures
        r@ == cs@.subrange(from as int, cs@.len() as int),
{
    let mut r: Vec<char> = Vec::new();
    let mut i: usize = from;
    while i < cs.len()
        invariant
            from <= i <= cs@.len(),
            r@ == cs@.subrange(from as int, i as int),
        decreases cs@.len() - i,
    {
        assert(cs@.subrange(from as int, i + 1) =~= cs@.subrange(from as int, i as int).push(cs@[i as int]));
        r.push(cs[i]);
        i += 1;
    }
    r
}

/// The words of a text.
pub fn split_whitespace(s: &str) -> (r: Vec<String>)
    ensures
        r.deep_view() == words(s@),
{
    let set = chars_of(WHITE);
    let mut r: Vec<String> = Vec::new();
    let mut rest = chars_of(s);
    assert(r.deep_view() + words(rest@) =~= words(s@));
    loop
        invariant
            set@ == WHITE@,
            r.deep_view() + words(rest@) == words(s@),
        decreases rest@.len(),
    {
        let ghost before = r.deep_view();
        let ghost whole = rest@;
        proof {
            lemma_left_stripped(whole, WHITE@);
        }
        let i: usize = left_end(&rest, &set);
        let t = tail_of(&rest, i);
        if t.len() == 0 {
            assert(r.deep_view() =~= r.deep_view() + words(whole));
            return r;
        }
        let mut j: usize = 0;
        while j < t.len() && !in_set(t[j], &set)
            invariant
                j <= t@.len(),
                set@ == WHITE@,
                word_end(t@, 0) == word_end(t@, j as int),
            decreases t@.len() - j,
        {
            j += 1;
        }
        proof {
            lemma_word_end(t@, 0);
        }
        r.push(string_of(&t, 0, j));
        rest = tail_of(&t, j);
        assert(r.deep_view() =~= before.push(t@.subrange(0, j as int)));
        assert(r.deep_view() + words(rest@) =~= before + (seq![t@.subrange(0, j as int)] + words(rest@)));
    }
}

fn chomp(cs: &Vec<char>, to: usize) -> (r: String)
    requires
        to <= cs@.len(),
    ensures
        r@ == chomped(cs@.subrange(0, to as int)),
{
    if to > 0 && cs[to - 1] == '\r' {
        assert(cs@.subrange(0, to as int).drop_last() =~= cs@.subrange(0, to - 1));
        string_of(cs, 0, to - 1)
    } else {
        string_of(cs, 0, to)
    }
}

/// The lines of a text.
pub fn lines(s: &str) -> (r: Vec<String>)
    ensures
        r.deep_view() == lines_of(s@),
{
    let mut newline: Vec<char> = Vec::new();
    newline.push('\n');
    assert(newline@ =~= seq!['\n']);
    let mut r: Vec<String> = Vec::new();
    let mut rest = chars_of(s);
    assert(r.deep_view() + lines_of(rest@) =~= lines_of(s@));
    while rest.len() > 0
        invariant
            newline@ == seq!['\n'],
            r.deep_view() + lines_of(rest@) == lines_of(s@),
        decreases rest@.len(),
    {
        let ghost before = r.deep_view();
        let ghost whole = rest@;
        proof {
            lemma_found(rest@, seq!['\n']);
        }
        let len: usize = rest.len();
        match find_chars(&rest, &newline) {
            Some(k) => {
                r.push(chomp(&rest, k));
                let next = tail_of(&rest, k + 1);
                rest = next;
                let ghost line = chomped(whole.subrange(0, k as int));
                assert(r.deep_view() =~= before.push(line));
                assert(r.deep_view() + lines_of(rest@) =~= before + (seq![line] + lines_of(rest@)));
            },
            None => {
                r.push(string_of(&rest, 0, rest.len()));
                assert(rest@.subrange(0, rest@.len() as int) =~= rest@);
                assert(r.deep_view() =~= before + seq![rest@]);
                return r;
            },
        }
    }
    assert(r.deep_view() =~= r.deep_view() + lines_of(rest@));
    r
}

/// A newline before which there is none is the first one found.
proof fn lemma_newline(s: Seq<char>, i: int, k: int)
    requires
        0 <= i <= k <= s.len(),
        forall|j: int| i <= j < k ==> s[j] != '\n',
        k < s.len() ==> s[k] == '\n',
    ensures
        found_from(s, seq!['\n'], i) == if k < s.len() {
            Some(k)
        } else {
            None
        },
    decreases k - i,
{
    if i < s.len() {
        assert(s.subrange(i, i + 1)[0] == s[i]);
        if i < k {
            lemma_newline(s, i + 1, k);
        } else {
            assert(s.subrange(i, i + 1) =~= seq!['\n']);
        }
    }
}

/// The first line of a text; empty where the text has none.
pub fn first_line(s: &str) -> (r: String)
    ensures
        r@ == first_line_of(s@),
{
    let mut line: Vec<char> = Vec::new();
    for c in it: s.chars()
        invariant
            it.seq() == s@,
            line@ == s@.take(it.index()),
            forall|j: int| 0 <= j < it.index() ==> s@[j] != '\n',
    {
        if c == '\n' {
            proof {
                lemma_newline(s@, 0, it.index());
                assert(line@.subrange(0, line@.len() as int) =~= s@.subrange(0, it.index()));
            }
            return chomp(&line, line.len());
        }
        assert(s@.take(it.index() + 1) =~= s@.take(it.index()).push(c));
        line.push(c);
    }
    proof {
        lemma_newline(s@, 0, s@.len() as int);
    }
    s.to_owned()
}

/// Adds a text at the end.
pub fn append(s: &mut String, t: &str)
    ensures
        final(s)@ == old(s)@ + t@,
{
    s.push_str(t);
}

/// Puts the parts together with a separator between neighbours.
pub fn join(parts: &Vec<String>, sep: &str) -> (r: String)
    ensures
        r@ == joined(parts.deep_view(), sep@),
{
    let mut r = String::new();
    let mut i: usize = 0;
    while i < parts.len()
        invariant
            i <= parts.len(),
            joined_from(parts.deep_view(), sep@, i as int, r@) == joined(parts.deep_view(), sep@),
        decreases parts.len() - i,
    {
        if i > 0 {
            append(&mut r, sep);
        }
        append(&mut r, parts[i].as_str());
        assert(parts.deep_view()[i as int] == parts[i as int]@);
        i += 1;
    }
    r
}

/// One text behind another.
pub fn concat(a: &str, b: &str) -> (r: String)
    ensures
        r@ == a@ + b@,
{
    let mut r = a.to_owned();
    append(&mut r, b);
    r
}

/// Three texts, each behind the one before.
pub fn concat3(a: &str, b: &str, c: &str) -> (r: String)
    ensures
        r@ == a@ + b@ + c@,
{
    let mut r = a.to_owned();
    append(&mut r, b);
    append(&mut r, c);
    r
}

/// Whether a text starts with an upper case letter.
pub open spec fn is_capitalized(s: Seq<char>) -> bool {
    s.len() > 0 && uppercase(s[0])
}

/// Whether a text starts with an upper case letter.
pub fn capitalized(s: &str) -> (r: bool)
    ensures
        r == is_capitalized(s@),
{
    let cs = chars_of(s);
    cs.len() > 0 && is_uppercase(cs[0])
}

/// Whether a character can stand in the name of a constant.
pub open spec fn is_constant_char(c: char) -> bool {
    uppercase(c) || c == '_' || ('0' <= c && c <= '9')
}

/// Whether a name is written as names of constants are.
pub open spec fn is_constant_name(name: Seq<char>) -> bool {
    &&& forall|i: int| 0 <= i < name.len() ==> is_constant_char(#[trigger] name[i])
    &&& exists|i: int| 0 <= i < name.len() && alphabetic(#[trigger] name[i])
}

/// Whether a name is written as names of constants are: in upper case letters, digits and
/// underscores, with at least one letter.
pub fn is_upper_case_name(name: &str) -> (r: bool)
    ensures
        r == is_constant_name(name@),
{
    let cs = chars_of(name);
    let mut letter: bool = false;
    let mut i: usize = 0;
    while i < cs.len()
        invariant
            i <= cs@.len(),
            cs@ == name@,
            forall|j: int| 0 <= j < i ==> is_constant_char(#[trigger] cs@[j]),
            letter == exists|j: int| 0 <= j < i && alphabetic(#[trigger] cs@[j]),
        decreases cs@.len() - i,
    {
        let c = cs[i];
        if !(is_uppercase(c) || c == '_' || ('0' <= c && c <= '9')) {
            assert(!is_constant_char(name@[i as int]));
            return false;
        }
        if is_alphabetic(c) {
            assert(alphabetic(cs@[i as int]));
            letter = true;
        }
        i += 1;
    }
    letter
}

/// The characters of a text before a byte.
pub open spec fn before_byte(s: Seq<char>, at: int) -> Seq<char> {
    decode_utf8(encode_utf8(s).subrange(0, at))
}

/// The characters of a text from a byte on.
pub open spec fn from_byte(s: Seq<char>, at: int) -> Seq<char> {
    decode_utf8(encode_utf8(s).subrange(at, encode_utf8(s).len() as int))
}

/// Parts a text at a byte that starts a character, or behind its last byte.
pub fn cut_at_byte(s: &str, at: usize) -> (r: (&str, &str))
    requires
        is_char_boundary(encode_utf8(s@), at as int),
    ensures
        r.0@ == before_byte(s@, at as int),
        r.1@ == from_byte(s@, at as int),
{
    let (a, b) = s.split_at(at);
    proof {
        encode_utf8_decode_utf8(a@);
        encode_utf8_decode_utf8(b@);
    }
    (a, b)
}

/// The first word of a text.
pub open spec fn first_word_of(s: Seq<char>) -> Option<Seq<char>> {
    if words(s).len() > 0 {
        Some(words(s)[0])
    } else {
        None
    }
}

/// The first word of a text.
pub fn first_word(s: &str) -> (r: Option<String>)
    ensures
        r.deep_view() == first_word_of(s@),
{
    let found = split_whitespace(s);
    if found.len() > 0 {
        assert(found.deep_view()[0] == found@[0]@);
        Some(found[0].clone())
    } else {
        assert(found.deep_view().len() == 0);
        None
    }
}

/// What stands before the first copy of another text; the whole text where it holds none.
pub open spec fn before_first(s: Seq<char>, p: Seq<char>) -> Seq<char> {
    match found(s, p) {
        Some(k) => s.subrange(0, k),
        None => s,
    }
}

/// What stands before the first copy of another text.
pub fn head_before(s: &str, p: &str) -> (r: String)
    ensures
        r@ == before_first(s@, p@),
{
    proof {
        lemma_found(s@, p@);
    }
    match find(s, p) {
        Some(k) => cut(s, k).0,
        None => s.to_owned(),
    }
}

/// The text behind the first of two prefixes that it has; the whole text where it has neither.
pub open spec fn behind_either(s: Seq<char>, p: Seq<char>, q: Seq<char>) -> Seq<char> {
    match without_prefix(s, p) {
        Some(rest) => rest,
        None => match without_prefix(s, q) {
            Some(rest) => rest,
            None => s,
        },
    }
}

/// Takes the first of two prefixes off that a text has.
pub fn strip_either(s: &str, p: &str, q: &str) -> (r: String)
    ensures
        r@ == behind_either(s@, p@, q@),
{
    match strip_prefix(s, p) {
        Some(rest) => rest,
        None => match strip_prefix(s, q) {
            Some(rest) => rest,
            None => s.to_owned(),
        },
    }
}

} // verus!
