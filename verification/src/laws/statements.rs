//! What import statements that are read as text say.
use vstd::prelude::*;
use vstd::utf8::{encode_utf8, encode_utf8_decode_utf8};
use crate::imports::kotlin::{as_place, kotlin_import};
use crate::imports::php::{as_word_place, php_alias};
use crate::imports::rust::{rust_uses, rust_uses_from};
use crate::imports::scala::{scala_import_text, scala_imports, scala_selected, scala_selection};
use crate::imports::swift::{import_place, swift_import, swift_words};
use crate::laws::imports::{everything, whole};
use crate::laws::nodes::lemma_encode_add;
use crate::laws::texts::{law_found_is_the_first, law_prefix_and_suffix, stands_at};
use crate::laws::walks::{at_most, flat};
use crate::text::{found, has_prefix, has_suffix, holds, joined, left_stripped, pieces, right_stripped, trimmed, words};
use crate::tree::NodeModel;
use crate::types::ImportModel;

verus! {

broadcast use crate::walk::group_smaller;

// Swift

/// Whether a word says what kind of thing is imported.
pub open spec fn is_kind_word(word: Seq<char>) -> bool {
    word == "struct"@ || word == "class"@ || word == "enum"@ || word == "protocol"@ || word == "typealias"@ || word
        == "func"@ || word == "var"@ || word == "let"@
}

/// The words of a Swift import without the attribute before them.
pub open spec fn are_words_of(raw: Seq<char>, ws: Seq<Seq<char>>) -> bool {
    let s = trimmed(raw);
    if has_prefix(s, "@"@) {
        words(s.subrange(1, s.len() as int)).len() > 0 && ws == words(s.subrange(1, s.len() as int)).drop_first()
    } else {
        ws == words(s)
    }
}

/// A Swift import imports the module that follows the word `import`, or the word that says the kind,
/// without a semicolon; a statement without the word `import` imports nothing.
pub proof fn law_swift_import(raw: Seq<char>, ws: Seq<Seq<char>>, k: int)
    requires
        are_words_of(raw, ws),
        0 <= k <= ws.len(),
        forall|j: int| 0 <= j < k ==> #[trigger] ws[j] != "import"@,
    ensures
        k == ws.len() ==> swift_import(raw) is None,
        k < ws.len() && ws[k] == "import"@ && k + 1 < ws.len() && !is_kind_word(ws[k + 1]) && trimmed(
            right_stripped(ws[k + 1], ";"@),
        ).len() > 0 ==> swift_import(raw) == Some(whole(trimmed(right_stripped(ws[k + 1], ";"@)), false, None)),
        k < ws.len() && ws[k] == "import"@ && k + 2 < ws.len() && is_kind_word(ws[k + 1]) && trimmed(
            right_stripped(ws[k + 2], ";"@),
        ).len() > 0 ==> swift_import(raw) == Some(whole(trimmed(right_stripped(ws[k + 2], ";"@)), false, None)),
        k < ws.len() && ws[k] == "import"@ && k + 1 == ws.len() ==> swift_import(raw) is None,
{
    let s = trimmed(raw);
    reveal_strlit("@");
    assert("@"@.len() == 1);
    law_prefix_and_suffix(s, "@"@);
    assert(swift_words(raw) == ws);
    lemma_import_place(ws, 0, k);
}

proof fn lemma_import_place(ws: Seq<Seq<char>>, i: int, k: int)
    requires
        0 <= i <= k <= ws.len(),
        forall|j: int| 0 <= j < k ==> #[trigger] ws[j] != "import"@,
    ensures
        import_place(ws, i) == import_place(ws, k),
    decreases k - i,
{
    if i < k {
        lemma_import_place(ws, i + 1, k);
    }
}

// Kotlin

/// Whether the word `as` stands at a place among bytes, between blanks or other white space.
pub open spec fn bytes_say_as(bytes: Seq<u8>, i: int) -> bool {
    &&& 0 <= i && i + 4 <= bytes.len()
    &&& bytes[i] == 0x20 || bytes[i] == 0x09 || bytes[i] == 0x0a || bytes[i] == 0x0c || bytes[i] == 0x0d
    &&& bytes[i + 1] == 0x61 && bytes[i + 2] == 0x73
    &&& bytes[i + 3] == 0x20 || bytes[i + 3] == 0x09 || bytes[i + 3] == 0x0a || bytes[i + 3] == 0x0c || bytes[i + 3]
        == 0x0d
}

/// A Kotlin import without `as` imports its path, without a semicolon; one of all names of a path is
/// marked so. A statement without the word `import` imports nothing.
pub proof fn law_kotlin_import(raw: Seq<char>, rest: Seq<char>)
    ensures
        !has_prefix(trimmed(raw), "import"@) ==> kotlin_import(raw) is None,
        trimmed(raw) == "import"@ + rest && (forall|i: int| !#[trigger] bytes_say_as(encode_utf8(trimmed(rest)), i)) ==> ({
            let path = trimmed(right_stripped(trimmed(rest), ";"@));
            &&& path.len() > 0 && trimmed(rest).len() > 0 ==> kotlin_import(raw) == Some(
                whole(path, has_suffix(path, "*"@), None),
            )
            &&& path.len() == 0 ==> kotlin_import(raw) is None
        }),
{
    let s = trimmed(raw);
    law_prefix_and_suffix(s, "import"@);
    if s == "import"@ + rest {
        assert(s.subrange(0, "import"@.len() as int) =~= "import"@);
        assert(s.subrange("import"@.len() as int, s.len() as int) =~= rest);
        if forall|i: int| !#[trigger] bytes_say_as(encode_utf8(trimmed(rest)), i) {
            lemma_no_as(encode_utf8(trimmed(rest)), 0);
        }
    }
}

proof fn lemma_no_as(bytes: Seq<u8>, i: int)
    requires
        forall|j: int| !#[trigger] bytes_say_as(bytes, j),
    ensures
        as_place(bytes, i) is None,
    decreases bytes.len() - i,
{
    if 0 <= i < bytes.len() {
        assert(!bytes_say_as(bytes, i));
        lemma_no_as(bytes, i + 1);
    }
}

proof fn lemma_first_as(bytes: Seq<u8>, i: int, k: int)
    requires
        0 <= i <= k < bytes.len(),
        bytes_say_as(bytes, k),
        forall|j: int| 0 <= j < k ==> !#[trigger] bytes_say_as(bytes, j),
    ensures
        as_place(bytes, i) == Some(k),
    decreases k - i,
{
    if i < k {
        assert(!bytes_say_as(bytes, i));
        lemma_first_as(bytes, i + 1, k);
    }
}

/// A Kotlin import with `as` imports what stands before it under the name that stands behind it.
pub proof fn law_kotlin_alias(raw: Seq<char>, rest: Seq<char>, path: Seq<char>, alias: Seq<char>)
    requires
        trimmed(raw) == "import"@ + rest,
        trimmed(rest) == path + " as "@ + alias,
        forall|j: int| 0 <= j < encode_utf8(path).len() ==> !#[trigger] bytes_say_as(encode_utf8(trimmed(rest)), j),
        trimmed(path).len() > 0,
        right_stripped(trimmed(" "@ + alias), ";"@).len() > 0,
    ensures
        kotlin_import(raw) == Some(
            whole(
                trimmed(path),
                has_suffix(trimmed(path), "*"@),
                Some(right_stripped(trimmed(" "@ + alias), ";"@)),
            ),
        ),
{
    let s = trimmed(raw);
    law_prefix_and_suffix(s, "import"@);
    assert(s.subrange(0, "import"@.len() as int) =~= "import"@);
    assert(s.subrange("import"@.len() as int, s.len() as int) =~= rest);
    let body = trimmed(rest);
    let bytes = encode_utf8(body);
    let k = encode_utf8(path).len() as int;
    let behind = " as "@ + alias;
    assert(body =~= path + behind);
    lemma_encode_add(path, behind);
    lemma_encode_add(" as "@, alias);
    lemma_as_bytes();
    let mark = encode_utf8(" as "@);
    assert(bytes =~= encode_utf8(path) + mark + encode_utf8(alias));
    assert(bytes[k] == mark[0]);
    assert(bytes[k + 1] == mark[1]);
    assert(bytes[k + 2] == mark[2]);
    assert(bytes[k + 3] == mark[3]);
    assert(bytes_say_as(bytes, k));
    lemma_first_as(bytes, 0, k);
    encode_utf8_decode_utf8(path);
    encode_utf8_decode_utf8(behind);
    assert(bytes.subrange(0, k) =~= encode_utf8(path));
    assert(bytes.subrange(k, bytes.len() as int) =~= encode_utf8(behind));
    lemma_behind_blank(alias);
    reveal_strlit(" ");
    reveal_strlit(" as ");
    reveal_strlit("as");
    let right = "as"@ + (" "@ + alias);
    assert(behind =~= seq![' '] + right);
    law_prefix_and_suffix(right, "as"@);
    assert(right.subrange(0, 2) =~= "as"@);
    assert(right.subrange(2, right.len() as int) =~= " "@ + alias);
    reveal_strlit("import");
    assert(path.len() > 0) by {
        if path.len() == 0 {
            let parts = crate::laws::texts::law_trimmed(path);
            assert(trimmed(path).len() == 0);
        }
    }
}

proof fn lemma_as_bytes()
    ensures
        encode_utf8(" as "@) == seq![0x20u8, 0x61u8, 0x73u8, 0x20u8],
{
    reveal_strlit(" as ");
    let s = " as "@;
    assert(s.len() == 4);
    assert(s[0] == ' ' && s[1] == 'a' && s[2] == 's' && s[3] == ' ');
    reveal_with_fuel(encode_utf8, 5);
    let a = s.drop_first();
    let b = a.drop_first();
    let c = b.drop_first();
    let d = c.drop_first();
    assert(a[0] == 'a' && b[0] == 's' && c[0] == ' ');
    assert(d.len() == 0);
    lemma_one_byte(' ', 0x20u8);
    lemma_one_byte('a', 0x61u8);
    lemma_one_byte('s', 0x73u8);
    assert(encode_utf8(d) =~= Seq::<u8>::empty());
    assert(encode_utf8(c) =~= seq![0x20u8]);
    assert(encode_utf8(b) =~= seq![0x73u8, 0x20u8]);
    assert(encode_utf8(a) =~= seq![0x61u8, 0x73u8, 0x20u8]);
}

proof fn lemma_one_byte(c: char, b: u8)
    requires
        c as u32 == b as u32,
        b < 0x80,
    ensures
        vstd::utf8::encode_scalar(c as u32) == seq![b],
{
    let u = c as u32;
    assert((u & 0x7f) as u8 == b) by (bit_vector)
        requires
            u == b as u32,
            b < 0x80u8,
    ;
}

proof fn lemma_behind_blank(alias: Seq<char>)
    ensures
        left_stripped(" as "@ + alias, crate::text::WHITE@) == "as"@ + (" "@ + alias),
{
    reveal_strlit(" as ");
    reveal_strlit("as");
    reveal_strlit(" ");
    let s = " as "@ + alias;
    crate::laws::texts::law_white_space('a');
    assert(s[0] == ' ');
    let r = s.drop_first();
    assert(r[0] == 'a');
    assert(r =~= "as"@ + (" "@ + alias));
    assert(crate::text::is_white(' '));
    assert(!crate::text::is_white('a'));
    reveal_with_fuel(left_stripped, 3);
}

// Scala

/// A Scala import without braces imports its path, or all names of the path before `._`.
pub proof fn law_scala_plain_import(text: Seq<char>, base: Seq<char>)
    requires
        !holds(text, "{"@),
    ensures
        text == base + "._"@ ==> scala_imports(text, Seq::empty()) == seq![everything(base)],
        !has_suffix(text, "._"@) ==> scala_imports(text, Seq::empty()) == seq![whole(text, false, None)],
{
    law_prefix_and_suffix(text, "._"@);
    if text == base + "._"@ {
        assert(text.subrange(base.len() as int, text.len() as int) =~= "._"@);
        assert(text.subrange(0, base.len() as int) =~= base);
    }
    assert(scala_imports(text, Seq::empty()).len() == 1);
}

/// What selectors of a path import, in order.
pub open spec fn selected_by(base: Seq<char>, selectors: Seq<Seq<char>>) -> Seq<ImportModel>
    decreases selectors.len(),
{
    if selectors.len() == 0 {
        Seq::empty()
    } else {
        at_most(scala_selected(base, selectors[0])) + selected_by(base, selectors.drop_first())
    }
}

proof fn lemma_selection(base: Seq<char>, selectors: Seq<Seq<char>>, i: int, before: Seq<ImportModel>)
    requires
        0 <= i <= selectors.len(),
    ensures
        scala_selection(base, selectors, i, before) == before + selected_by(base, selectors.skip(i)),
    decreases selectors.len() - i,
{
    let rest = selectors.skip(i);
    if i < selectors.len() {
        let own = at_most(scala_selected(base, selectors[i]));
        assert(crate::walk::with_item(before, scala_selected(base, selectors[i])) =~= before + own);
        lemma_selection(base, selectors, i + 1, before + own);
        assert(rest.drop_first() =~= selectors.skip(i + 1));
        assert(rest[0] == selectors[i]);
        assert((before + own) + selected_by(base, rest.drop_first()) =~= before + (own + selected_by(
            base,
            rest.drop_first(),
        )));
    } else {
        assert(before + selected_by(base, rest) =~= before);
    }
}

/// A Scala import with braces imports what each of the selectors in them selects of the path before
/// them, in order.
pub proof fn law_scala_selectors(text: Seq<char>, k: int)
    requires
        stands_at(text, "{"@, k),
        forall|j: int| 0 <= j < k ==> !#[trigger] stands_at(text, "{"@, j),
    ensures
        scala_imports(text, Seq::empty()) == selected_by(
            right_stripped(text.subrange(0, k), "."@),
            pieces(
                trimmed(right_stripped(left_stripped(text.subrange(k, text.len() as int), "{"@), "}"@)),
                ","@,
            ),
        ),
{
    law_found_is_the_first(text, "{"@);
    assert(found(text, "{"@) == Some(k)) by {
        assert(stands_at(text, "{"@, k));
        let f = found(text, "{"@);
        if f is Some && f->0 < k {
            assert(!stands_at(text, "{"@, f->0));
        }
    }
    let base = right_stripped(text.subrange(0, k), "."@);
    let ps = pieces(
        trimmed(right_stripped(left_stripped(text.subrange(k, text.len() as int), "{"@), "}"@)),
        ","@,
    );
    lemma_selection(base, ps, 0, Seq::empty());
    assert(ps.skip(0) =~= ps);
    assert(Seq::<ImportModel>::empty() + selected_by(base, ps) =~= selected_by(base, ps));
}

/// What a selector selects: a name the path to it, `_` everything, `a => b` the path to `a` under the
/// name `b`, and `a => _` the path to `a`; an empty one selects nothing.
pub proof fn law_scala_selector(base: Seq<char>, selector: Seq<char>, a: Seq<char>, b: Seq<char>)
    requires
        base.len() > 0,
    ensures
        trimmed(selector).len() == 0 ==> scala_selected(base, selector) is None,
        trimmed(selector) == "_"@ ==> scala_selected(base, selector) == Some(everything(base)),
        trimmed(selector).len() > 0 && trimmed(selector) != "_"@ && !holds(trimmed(selector), "=>"@) ==> scala_selected(
            base,
            selector,
        ) == Some(whole(base + "."@ + trimmed(selector), false, None)),
        pieces(trimmed(selector), "=>"@) == seq![a, b] && holds(trimmed(selector), "=>"@) && trimmed(selector).len() > 0
            && trimmed(a) != "_"@ ==> scala_selected(base, selector) == Some(
            whole(
                base + "."@ + trimmed(a),
                false,
                if trimmed(b) == "_"@ {
                    None
                } else {
                    Some(trimmed(b))
                },
            ),
        ),
{
    if trimmed(selector) == "_"@ {
        reveal_strlit("_");
        reveal_strlit("=>");
        law_found_is_the_first(trimmed(selector), "=>"@);
        assert forall|j: int| !#[trigger] stands_at(trimmed(selector), "=>"@, j) by {}
    }
}

/// The text of a Scala import is what stands behind the word `import`.
pub proof fn law_scala_import_text(n: NodeModel, rest: Seq<char>)
    ensures
        n.text() == "import "@ + rest ==> scala_import_text(n) == trimmed(rest),
        !has_prefix(n.text(), "import "@) ==> scala_import_text(n) == trimmed(n.text()),
{
    law_prefix_and_suffix(n.text(), "import "@);
    if n.text() == "import "@ + rest {
        assert(n.text().subrange(0, "import "@.len() as int) =~= "import "@);
        assert(n.text().subrange("import "@.len() as int, n.text().len() as int) =~= rest);
    }
}

// PHP

/// Whether the word `as` stands in a clause at a place, between blanks, in whatever case.
pub open spec fn says_as(clause: Seq<char>, i: int) -> bool {
    &&& 0 <= i && i + 4 <= clause.len()
    &&& clause[i] == ' '
    &&& clause[i + 1] == 'a' || clause[i + 1] == 'A'
    &&& clause[i + 2] == 's' || clause[i + 2] == 'S'
    &&& clause[i + 3] == ' '
}

/// A clause of PHP names what stands before its first `as`, under the name that stands behind it; a
/// clause without `as` names itself.
pub proof fn law_php_alias(clause: Seq<char>, k: int)
    requires
        0 <= k <= clause.len(),
        forall|j: int| 0 <= j < k ==> !#[trigger] says_as(clause, j),
    ensures
        says_as(clause, k) ==> php_alias(clause) == (
            trimmed(clause.subrange(0, k)),
            Some(trimmed(clause.subrange(k + 4, clause.len() as int)))
        ),
        k == clause.len() ==> php_alias(clause) == (clause, None::<Seq<char>>),
{
    lemma_as_word(clause, 0, k);
}

proof fn lemma_as_word(clause: Seq<char>, i: int, k: int)
    requires
        0 <= i <= k <= clause.len(),
        forall|j: int| 0 <= j < k ==> !#[trigger] says_as(clause, j),
    ensures
        as_word_place(clause, i) == as_word_place(clause, k),
    decreases k - i,
{
    if i < k {
        assert(!says_as(clause, i));
        lemma_as_word(clause, i + 1, k);
    }
}

// Rust

/// A Rust path is parted at its last `::`; one without `::` is not parted.
pub proof fn law_rust_path_is_parted_last(path: Seq<char>)
    ensures
        crate::imports::rust::rust_split(path) is Some <==> holds(path, "::"@),
        crate::imports::rust::rust_split(path) matches Some((module, name)) ==> !holds(name, "::"@) && module + "::"@
            + name == path,
{
    reveal_strlit("::");
    let sep = "::"@;
    assert(sep.len() == 2);
    let parts = pieces(path, sep);
    crate::laws::law_rust_path_is_module_and_name(path);
    crate::laws::law_pieces_join_to_the_text(path, sep);
    if parts.len() > 1 {
        crate::laws::texts::law_pieces_are_free_of_the_separator(path, sep, parts.len() - 1);
    }
    if holds(path, sep) {
        law_found_is_the_first(path, sep);
        let k = found(path, sep)->0;
        let tail = path.subrange(k + sep.len(), path.len() as int);
        crate::laws::law_pieces_join_to_the_text(tail, sep);
        assert(parts == seq![path.subrange(0, k)] + pieces(tail, sep));
    }
}

/// What a Rust list names is what its parts name, all of it, in order; behind a path only the lists
/// count, and what they name stands behind the longer path.
pub proof fn law_rust_lists_name_their_parts(n: NodeModel, prefix: Seq<char>, path: NodeModel)
    ensures
        n.kind() == "use_list"@ ==> rust_uses(n, prefix, Seq::empty()) == flat(
            n.children(),
            |c: NodeModel| rust_uses(c, prefix, Seq::empty()),
        ),
        n.kind() == "scoped_use_list"@ && n.field("path") == Some(path) ==> rust_uses(n, prefix, Seq::empty()) == flat(
            n.children(),
            |c: NodeModel|
                if c.kind() == "use_list"@ {
                    rust_uses(
                        c,
                        if prefix.len() == 0 {
                            path.text()
                        } else {
                            prefix + "::"@ + path.text()
                        },
                        Seq::empty(),
                    )
                } else {
                    Seq::empty()
                },
        ),
        n.kind() == "scoped_use_list"@ && n.field("path") is None ==> rust_uses(n, prefix, Seq::empty()).len() == 0,
{
    reveal_strlit("use_list");
    reveal_strlit("scoped_use_list");
    reveal_strlit("scoped_identifier");
    reveal_strlit("identifier");
    reveal_strlit("use_as_clause");
    reveal_strlit("use_wildcard");
    reveal_strlit("self");
    assert("use_list"@.len() == 8);
    assert("scoped_use_list"@.len() == 15);
    assert("scoped_identifier"@.len() == 17);
    assert("identifier"@.len() == 10);
    assert("use_as_clause"@.len() == 13);
    assert("use_wildcard"@.len() == 12);
    assert("self"@.len() == 4);
    let none = Seq::<(Seq<char>, Seq<char>)>::empty();
    assert(n.children().skip(0) =~= n.children());
    if n.kind() == "use_list"@ {
        let items = |c: NodeModel| rust_uses(c, prefix, Seq::empty());
        lemma_rust_parts(n, prefix, false, 0, none, items);
        assert(none + flat(n.children(), items) =~= flat(n.children(), items));
    }
    if n.kind() == "scoped_use_list"@ && n.field("path") == Some(path) {
        let longer = if prefix.len() == 0 {
            path.text()
        } else {
            prefix + "::"@ + path.text()
        };
        let items = |c: NodeModel|
            if c.kind() == "use_list"@ {
                rust_uses(
                    c,
                    if prefix.len() == 0 {
                        path.text()
                    } else {
                        prefix + "::"@ + path.text()
                    },
                    Seq::empty(),
                )
            } else {
                Seq::empty()
            };
        lemma_rust_parts(n, longer, true, 0, none, items);
        assert(none + flat(n.children(), items) =~= flat(n.children(), items));
    }
}

proof fn lemma_rust_parts(
    n: NodeModel,
    prefix: Seq<char>,
    only_lists: bool,
    i: int,
    before: Seq<(Seq<char>, Seq<char>)>,
    items: spec_fn(NodeModel) -> Seq<(Seq<char>, Seq<char>)>,
)
    requires
        0 <= i <= n.children().len(),
        forall|c: NodeModel| #[trigger] items(c) == if !only_lists || c.kind() == "use_list"@ {
            rust_uses(c, prefix, Seq::empty())
        } else {
            Seq::empty()
        },
    ensures
        rust_uses_from(n, prefix, only_lists, i, before) == before + flat(n.children().skip(i), items),
    decreases n.children().len() - i,
{
    let rest = n.children().skip(i);
    if i < n.children().len() {
        let c = n.children()[i];
        assert(before + Seq::<(Seq<char>, Seq<char>)>::empty() =~= before);
        crate::laws::imports::lemma_rust_added(c, prefix, before);
        lemma_rust_parts(n, prefix, only_lists, i + 1, before + items(c), items);
        assert(rest.drop_first() =~= n.children().skip(i + 1));
        assert(rest[0] == c);
        assert((before + items(c)) + flat(rest.drop_first(), items) =~= before + (items(c) + flat(
            rest.drop_first(),
            items,
        )));
    } else {
        assert(before + flat(rest, items) =~= before);
    }
}

/// A Rust `use` is told under the module of the first thing that it names, with the names of all.
pub proof fn law_rust_use_names(n: NodeModel, k: int)
    ensures
        ({
            let uses = rust_uses(n, Seq::empty(), Seq::empty());
            let told = crate::imports::rust::rust_use(n);
            uses.len() > 0 ==> {
                &&& told.0 == uses[0].0
                &&& told.1.len() == uses.len()
                &&& 0 <= k < uses.len() ==> told.1[k] == uses[k].1
            }
        }),
{
    reveal_strlit("");
    assert(""@ =~= Seq::<char>::empty());
}

// Elixir

/// The name behind `as:` in the keywords of an Elixir alias is the name that it gives.
pub proof fn law_elixir_alias_name(c: NodeModel, k: int, j: int, l: int, key: NodeModel, name: NodeModel)
    requires
        0 <= k < c.children().len(),
        c.children()[k].kind() == "arguments"@,
        forall|x: int| 0 <= x < c.children().len() && x != k ==> (#[trigger] c.children()[x]).kind() != "arguments"@,
        0 <= j < c.children()[k].children().len(),
        c.children()[k].children()[j].kind() == "keywords"@,
        forall|x: int|
            0 <= x < c.children()[k].children().len() && x != j ==> (#[trigger] c.children()[k].children()[x]).kind()
                != "keywords"@,
        0 <= l < c.children()[k].children()[j].children().len(),
        c.children()[k].children()[j].children()[l].kind() == "pair"@,
        forall|x: int|
            0 <= x < c.children()[k].children()[j].children().len() && x != l ==> (
            #[trigger] c.children()[k].children()[j].children()[x]).kind() != "pair"@,
        c.children()[k].children()[j].children()[l].children() == seq![key, name],
        key.kind() == "keyword"@,
        right_stripped(trimmed(key.text()), ":"@) == "as"@,
        name.kind() == "alias"@,
    ensures
        crate::imports::elixir::elixir_alias(c, 0, None) == Some(name.text()),
{
    reveal_strlit("keyword");
    reveal_strlit("alias");
    assert("keyword"@.len() == 7);
    assert("alias"@.len() == 5);
    let args = c.children()[k];
    let words = args.children()[j];
    let pair = words.children()[l];
    let given = Some(name.text());
    reveal_with_fuel(crate::imports::elixir::elixir_pair_alias, 4);
    assert(pair.children()[0] == key);
    assert(pair.children()[1] == name);
    assert(crate::imports::elixir::elixir_pair_alias(pair, 0, false, None) == given);
    lemma_keywords_alias(words, 0, l, None, given);
    lemma_arguments_alias(args, 0, j, None, given);
    lemma_alias_at(c, 0, k, None, given);
}

proof fn lemma_keywords_alias(n: NodeModel, i: int, l: int, now: Option<Seq<char>>, given: Option<Seq<char>>)
    requires
        0 <= i <= n.children().len(),
        0 <= l < n.children().len(),
        n.children()[l].kind() == "pair"@,
        forall|x: int| 0 <= x < n.children().len() && x != l ==> (#[trigger] n.children()[x]).kind() != "pair"@,
        crate::imports::elixir::elixir_pair_alias(n.children()[l], 0, false, None) == given,
        now == if i <= l {
            None
        } else {
            given
        },
    ensures
        crate::imports::elixir::elixir_keywords_alias(n, i, now) == given,
    decreases n.children().len() - i,
{
    if i < n.children().len() {
        lemma_keywords_alias(
            n,
            i + 1,
            l,
            if i < l {
                None
            } else {
                given
            },
            given,
        );
    }
}

proof fn lemma_arguments_alias(n: NodeModel, i: int, j: int, now: Option<Seq<char>>, given: Option<Seq<char>>)
    requires
        0 <= i <= n.children().len(),
        0 <= j < n.children().len(),
        n.children()[j].kind() == "keywords"@,
        forall|x: int| 0 <= x < n.children().len() && x != j ==> (#[trigger] n.children()[x]).kind() != "keywords"@,
        crate::imports::elixir::elixir_keywords_alias(n.children()[j], 0, None) == given,
        now == if i <= j {
            None
        } else {
            given
        },
    ensures
        crate::imports::elixir::elixir_arguments_alias(n, i, now) == given,
    decreases n.children().len() - i,
{
    if i < n.children().len() {
        lemma_arguments_alias(
            n,
            i + 1,
            j,
            if i < j {
                None
            } else {
                given
            },
            given,
        );
    }
}

proof fn lemma_alias_at(n: NodeModel, i: int, k: int, now: Option<Seq<char>>, given: Option<Seq<char>>)
    requires
        0 <= i <= n.children().len(),
        0 <= k < n.children().len(),
        n.children()[k].kind() == "arguments"@,
        forall|x: int| 0 <= x < n.children().len() && x != k ==> (#[trigger] n.children()[x]).kind() != "arguments"@,
        crate::imports::elixir::elixir_arguments_alias(n.children()[k], 0, None) == given,
        now == if i <= k {
            None
        } else {
            given
        },
    ensures
        crate::imports::elixir::elixir_alias(n, i, now) == given,
    decreases n.children().len() - i,
{
    if i < n.children().len() {
        lemma_alias_at(
            n,
            i + 1,
            k,
            if i < k {
                None
            } else {
                given
            },
            given,
        );
    }
}

// OCaml

/// The parts of an OCaml path: its names and, where a path stands in it, that path.
pub open spec fn ocaml_part() -> spec_fn(NodeModel) -> Seq<Seq<char>> {
    |c: NodeModel|
        if c.kind() == "module_name"@ {
            seq![c.text()]
        } else if c.kind() == "module_path"@ {
            seq![crate::imports::ocaml::ocaml_path(c)]
        } else {
            Seq::empty()
        }
}

/// An OCaml path is its parts with dots between them, all of them, in order; one without parts is its
/// text.
pub proof fn law_ocaml_path(n: NodeModel)
    ensures
        crate::imports::ocaml::ocaml_path(n) == if flat(n.children(), ocaml_part()).len() == 0 {
            n.text()
        } else {
            joined(flat(n.children(), ocaml_part()), "."@)
        },
{
    reveal_strlit("module_name");
    reveal_strlit("module_path");
    assert("module_name"@.len() == 11);
    assert("module_path"@.len() == 11);
    assert("module_name"@[7] != "module_path"@[7]);
    lemma_ocaml_parts(n, 0, Seq::empty());
    assert(n.children().skip(0) =~= n.children());
    let all = flat(n.children(), ocaml_part());
    assert(Seq::<Seq<char>>::empty() + all =~= all);
}

proof fn lemma_ocaml_parts(n: NodeModel, i: int, before: Seq<Seq<char>>)
    requires
        0 <= i <= n.children().len(),
        "module_name"@ != "module_path"@,
    ensures
        crate::imports::ocaml::ocaml_path_parts(n, i, before) == before + flat(n.children().skip(i), ocaml_part()),
    decreases n.children().len() - i,
{
    let items = ocaml_part();
    let rest = n.children().skip(i);
    if i < n.children().len() {
        let c = n.children()[i];
        crate::laws::functions::lemma_add_nothing(before);
        crate::tree::lemma_child_smaller(n, i);
        lemma_ocaml_parts(n, i + 1, before + items(c));
        assert(rest.drop_first() =~= n.children().skip(i + 1));
        assert(rest[0] == c);
        assert((before + items(c)) + flat(rest.drop_first(), items) =~= before + (items(c) + flat(
            rest.drop_first(),
            items,
        )));
    } else {
        assert(before + flat(rest, items) =~= before);
    }
}

/// What a PHP file requires by a string is the string without its quotes.
pub proof fn law_php_required_string(n: NodeModel, k: int)
    requires
        0 <= k < n.children().len(),
        n.children()[k].kind() == "string"@ || n.children()[k].kind() == "encapsed_string"@,
        forall|j: int|
            0 <= j < k
                ==> (#[trigger] n.children()[j]).kind() != "string"@ && n.children()[j].kind() != "encapsed_string"@
                && n.children()[j].kind() != "binary_expression"@
                && n.children()[j].kind() != "parenthesized_expression"@,
        crate::text::stripped(n.children()[k].text(), "\"'"@).len() > 0,
    ensures
        crate::imports::php::php_required(n) is Some,
        crate::imports::php::php_required(n)->0.module == crate::text::stripped(n.children()[k].text(), "\"'"@),
        crate::imports::php::php_required(n)->0.is_from == has_prefix(n.kind(), "require"@),
{
    lemma_php_argument(n, 0, k);
}

/// What a PHP file requires by a joined path is that path, and in brackets the string in them.
pub proof fn law_php_required_path(n: NodeModel, m: NodeModel)
    requires
        n.children().len() > 1,
        n.children()[0].kind() != "string"@ && n.children()[0].kind() != "encapsed_string"@ && n.children()[0].kind()
            != "binary_expression"@ && n.children()[0].kind() != "parenthesized_expression"@,
    ensures
        n.children()[1].kind() == "binary_expression"@ && n.children()[1].text().len() > 0 ==> (
        crate::imports::php::php_required(n) matches Some(x) && x.module == n.children()[1].text()),
        n.children()[1].kind() == "parenthesized_expression"@ && n.children()[1].first_child2(
            "string",
            "encapsed_string",
        ) == Some(m) && crate::text::stripped(m.text(), "\"'"@).len() > 0 ==> (crate::imports::php::php_required(
            n,
        ) matches Some(x) && x.module == crate::text::stripped(m.text(), "\"'"@)),
{
    reveal_strlit("string");
    reveal_strlit("encapsed_string");
    reveal_strlit("binary_expression");
    reveal_strlit("parenthesized_expression");
    assert("string"@.len() == 6);
    assert("encapsed_string"@.len() == 15);
    assert("binary_expression"@.len() == 17);
    assert("parenthesized_expression"@.len() == 24);
    reveal_with_fuel(crate::imports::php::php_path_argument, 3);
}

proof fn lemma_php_argument(n: NodeModel, i: int, k: int)
    requires
        0 <= i <= k < n.children().len(),
        forall|j: int|
            0 <= j < k
                ==> (#[trigger] n.children()[j]).kind() != "string"@ && n.children()[j].kind() != "encapsed_string"@
                && n.children()[j].kind() != "binary_expression"@
                && n.children()[j].kind() != "parenthesized_expression"@,
    ensures
        crate::imports::php::php_path_argument(n, i) == crate::imports::php::php_path_argument(n, k),
    decreases k - i,
{
    if i < k {
        lemma_php_argument(n, i + 1, k);
    }
}

/// The names in a list of a Rust `use` that is read as text: each without its alias, the empty ones
/// left out.
pub open spec fn listed_by(items: Seq<Seq<char>>) -> Seq<Seq<char>>
    decreases items.len(),
{
    if items.len() == 0 {
        Seq::empty()
    } else {
        let s = trimmed(items[0]);
        let name = match found(s, " as "@) {
            Some(k) => trimmed(s.subrange(0, k)),
            None => s,
        };
        (if name.len() > 0 {
            seq![name]
        } else {
            Seq::empty()
        }) + listed_by(items.drop_first())
    }
}

/// A Rust `use` that is read as text: a path names its last part, a list behind a path its names, and
/// anything else only itself.
pub proof fn law_rust_use_of_text(text: Seq<char>, k: int)
    ensures
        ({
            let told = crate::imports::rust::rust_use_of_text(text);
            &&& !holds(text, "{"@) && !holds(text, "::"@) ==> told.0 == text && told.1.len() == 0
            &&& !holds(text, "{"@) && holds(text, "::"@) ==> told.1.len() == 1 && told.0 + "::"@ + told.1[0] == text
                && !holds(told.1[0], "::"@)
            &&& stands_at(text, "{"@, k) && (forall|j: int| 0 <= j < k ==> !#[trigger] stands_at(text, "{"@, j))
                ==> told.0 == crate::text::without_suffixes(text.subrange(0, k), "::"@) && told.1 == listed_by(
                pieces(crate::text::stripped(text.subrange(k, text.len() as int), "{}"@), ","@),
            )
        }),
{
    law_rust_path_is_parted_last(text);
    law_found_is_the_first(text, "{"@);
    if stands_at(text, "{"@, k) && (forall|j: int| 0 <= j < k ==> !#[trigger] stands_at(text, "{"@, j)) {
        assert(found(text, "{"@) == Some(k)) by {
            let f = found(text, "{"@);
            if f is Some && f->0 < k {
                assert(!stands_at(text, "{"@, f->0));
            }
        }
        let items = pieces(crate::text::stripped(text.subrange(k, text.len() as int), "{}"@), ","@);
        lemma_listed(items, 0, Seq::empty());
        assert(items.skip(0) =~= items);
        assert(Seq::<Seq<char>>::empty() + listed_by(items) =~= listed_by(items));
    }
}

proof fn lemma_listed(items: Seq<Seq<char>>, i: int, names: Seq<Seq<char>>)
    requires
        0 <= i <= items.len(),
    ensures
        crate::imports::rust::rust_listed_names(items, i, names) == names + listed_by(items.skip(i)),
    decreases items.len() - i,
{
    let rest = items.skip(i);
    if i < items.len() {
        let name = crate::imports::rust::rust_listed_name(items[i]);
        let own = if name.len() > 0 {
            seq![name]
        } else {
            Seq::empty()
        };
        let more = if name.len() > 0 {
            names.push(name)
        } else {
            names
        };
        assert(more =~= names + own);
        lemma_listed(items, i + 1, more);
        assert(rest.drop_first() =~= items.skip(i + 1));
        assert(rest[0] == items[i]);
        assert((names + own) + listed_by(rest.drop_first()) =~= names + (own + listed_by(rest.drop_first())));
    } else {
        assert(names + listed_by(rest) =~= names);
    }
}

} // verus!
