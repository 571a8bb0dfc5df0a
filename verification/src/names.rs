//! File names as the service shows and sends them.

use vstd::prelude::*;

use crate::ident::url_safe;
use crate::text::{blank, control, is_blank, is_control, white_space};

verus! {

// ---------------------------------------------------------------------------------------------
// Names fit for a header and a file system
// ---------------------------------------------------------------------------------------------

/// A character that a file name must not carry into a header or a path.
pub open spec fn forbidden(c: char) -> bool {
    control(c) || c == '"' || c == '\\' || c == '/' || c == '<' || c == '>' || c == ':'
}

/// What stands in the name in place of `c`.
pub open spec fn name_char(c: char) -> char {
    if forbidden(c) {
        '_'
    } else {
        c
    }
}

/// The name with `_` in place of each forbidden character, or `download.bin` where that leaves
/// nothing to see.
pub open spec fn sanitized(name: Seq<char>) -> Seq<char> {
    let kept = name.map_values(|c: char| name_char(c));
    if blank(kept) {
        "download.bin"@
    } else {
        kept
    }
}

/// Makes a file name fit for a header and a file system.
pub fn sanitize_filename(filename: &str) -> (res: String)
    ensures
        res@ == sanitized(filename@),
{
    let ghost kept = filename@.map_values(|c: char| name_char(c));
    let mut out = String::new();
    for c in it: filename.chars()
        invariant
            it.seq() == filename@,
            kept == filename@.map_values(|c: char| name_char(c)),
            out@ == kept.take(it.index() as int),
    {
        if is_control(c) || c == '"' || c == '\\' || c == '/' || c == '<' || c == '>' || c == ':' {
            out.push('_');
        } else {
            out.push(c);
        }
        assert(out@ =~= kept.take(it.index() + 1));
    }
    assert(out@ =~= kept);
    if is_blank(out.as_str()) {
        "download.bin".to_owned()
    } else {
        out
    }
}

/// White space that is no control character.
pub open spec fn plain_space(c: char) -> bool {
    ||| c == ' ' || c == '\u{a0}' || c == '\u{1680}' || '\u{2000}' <= c <= '\u{200a}'
    ||| c == '\u{2028}' || c == '\u{2029}' || c == '\u{202f}' || c == '\u{205f}' || c == '\u{3000}'
}

/// Every character of a name stays at its place, but for control characters and `"`, `\`, `/`, `<`,
/// `>` and `:`, which give way to `_`. Only a name of nothing but spaces, or of nothing at all, gives
/// way to another name: a control character that is white space leaves a `_`, which is no space.
pub proof fn law_sanitizing_changes_nothing_else(name: Seq<char>)
    ensures
        ({
            let spaces = forall|i: int| 0 <= i < name.len() ==> plain_space(#[trigger] name[i]);
            &&& spaces ==> sanitized(name) == "download.bin"@
            &&& !spaces ==> sanitized(name).len() == name.len()
            &&& !spaces ==> forall|i: int|
                0 <= i < name.len() ==> #[trigger] sanitized(name)[i] == {
                    let c = name[i];
                    if c <= '\u{1f}' || '\u{7f}' <= c <= '\u{9f}' || c == '"' || c == '\\' || c == '/'
                        || c == '<' || c == '>' || c == ':' {
                        '_'
                    } else {
                        c
                    }
                }
        }),
{
    let kept = name.map_values(|c: char| name_char(c));
    assert forall|i: int| 0 <= i < name.len() implies white_space(#[trigger] kept[i])
        == plain_space(name[i]) by {
        assert(kept[i] == name_char(name[i]));
    }
    if blank(kept) {
        assert forall|i: int| 0 <= i < name.len() implies plain_space(#[trigger] name[i]) by {
            assert(white_space(kept[i]));
        }
    } else {
        let k = choose|k: int| 0 <= k < kept.len() && !white_space(#[trigger] kept[k]);
        assert(!plain_space(name[k]));
    }
}

/// A sanitized name holds no forbidden character and is never blank.
pub proof fn law_sanitized_name_is_clean(name: Seq<char>)
    ensures
        forall|i: int| 0 <= i < sanitized(name).len() ==> !forbidden(#[trigger] sanitized(name)[i]),
        !blank(sanitized(name)),
{
    reveal_strlit("download.bin");
    let kept = name.map_values(|c: char| name_char(c));
    if blank(kept) {
        assert(!white_space(sanitized(name)[0]));
    } else {
        assert forall|i: int| 0 <= i < sanitized(name).len() implies !forbidden(
            #[trigger] sanitized(name)[i],
        ) by {
            assert(sanitized(name)[i] == name_char(name[i]));
        }
    }
}

/// Sanitizing a name a second time changes nothing.
pub proof fn law_sanitizing_is_idempotent(name: Seq<char>)
    ensures
        sanitized(sanitized(name)) == sanitized(name),
{
    law_sanitized_name_is_clean(name);
    assert(sanitized(name).map_values(|c: char| name_char(c)) =~= sanitized(name));
}

// ---------------------------------------------------------------------------------------------
// Text fit for a page
// ---------------------------------------------------------------------------------------------

/// What stands on a page in place of `c`.
pub open spec fn escaped_char(c: char) -> Seq<char> {
    if c == '&' {
        "&amp;"@
    } else if c == '<' {
        "&lt;"@
    } else if c == '>' {
        "&gt;"@
    } else if c == '"' {
        "&quot;"@
    } else if c == '\'' {
        "&#39;"@
    } else {
        seq![c]
    }
}

/// The text with each character that has a meaning in HTML replaced by its entity.
pub open spec fn escaped(value: Seq<char>) -> Seq<char>
    decreases value.len(),
{
    if value.len() == 0 {
        Seq::empty()
    } else {
        escaped(value.drop_last()) + escaped_char(value.last())
    }
}

/// Makes a text fit to stand on a page.
pub fn escape_html(value: &str) -> (res: String)
    ensures
        res@ == escaped(value@),
{
    let mut out = String::new();
    for c in it: value.chars()
        invariant
            it.seq() == value@,
            out@ == escaped(value@.take(it.index() as int)),
    {
        let ghost seen = value@.take(it.index() as int);
        if c == '&' {
            out.append("&amp;");
        } else if c == '<' {
            out.append("&lt;");
        } else if c == '>' {
            out.append("&gt;");
        } else if c == '"' {
            out.append("&quot;");
        } else if c == '\'' {
            out.append("&#39;");
        } else {
            out.push(c);
        }
        assert(value@.take(it.index() + 1) =~= seen.push(c));
        assert(seen.push(c).drop_last() =~= seen);
        assert(out@ =~= escaped(seen) + escaped_char(c));
    }
    assert(value@.take(value@.len() as int) =~= value@);
    out
}

/// `s` with `to` in place of each `from`.
pub open spec fn replaced(s: Seq<char>, from: char, to: Seq<char>) -> Seq<char>
    decreases s.len(),
{
    if s.len() == 0 {
        Seq::empty()
    } else {
        replaced(s.drop_last(), from, to) + if s.last() == from {
            to
        } else {
            seq![s.last()]
        }
    }
}

proof fn lemma_replaced_concat(a: Seq<char>, b: Seq<char>, from: char, to: Seq<char>)
    ensures
        replaced(a + b, from, to) == replaced(a, from, to) + replaced(b, from, to),
    decreases b.len(),
{
    if b.len() == 0 {
        assert(a + b =~= a);
        assert(replaced(a, from, to) + replaced(b, from, to) =~= replaced(a, from, to));
    } else {
        assert((a + b).drop_last() =~= a + b.drop_last());
        lemma_replaced_concat(a, b.drop_last(), from, to);
        assert(replaced(a + b, from, to) =~= replaced(a, from, to) + replaced(b, from, to));
    }
}

proof fn lemma_replaced_absent(s: Seq<char>, from: char, to: Seq<char>)
    requires
        !s.contains(from),
    ensures
        replaced(s, from, to) == s,
    decreases s.len(),
{
    if s.len() > 0 {
        assert(s.last() != from) by {
            assert(s[s.len() - 1] == s.last());
        }
        assert(!s.drop_last().contains(from)) by {
            if s.drop_last().contains(from) {
                let i = choose|i: int| 0 <= i < s.drop_last().len() && s.drop_last()[i] == from;
                assert(s[i] == from);
            }
        }
        lemma_replaced_absent(s.drop_last(), from, to);
        assert(replaced(s, from, to) =~= s);
    }
}

/// The five replacements one after the other, `&` first.
pub open spec fn replaced_in_turn(s: Seq<char>) -> Seq<char> {
    replaced(
        replaced(
            replaced(replaced(replaced(s, '&', "&amp;"@), '<', "&lt;"@), '>', "&gt;"@),
            '"',
            "&quot;"@,
        ),
        '\'',
        "&#39;"@,
    )
}

proof fn lemma_replaced_in_turn_one(c: char)
    ensures
        replaced_in_turn(seq![c]) == escaped_char(c),
{
    reveal_strlit("&amp;");
    reveal_strlit("&lt;");
    reveal_strlit("&gt;");
    reveal_strlit("&quot;");
    reveal_strlit("&#39;");
    let one = seq![c];
    assert(one.drop_last() =~= Seq::empty());
    lemma_replaced_one(c, '&', "&amp;"@);
    lemma_replaced_one(c, '<', "&lt;"@);
    lemma_replaced_one(c, '>', "&gt;"@);
    lemma_replaced_one(c, '"', "&quot;"@);
    lemma_replaced_one(c, '\'', "&#39;"@);
    let entity = escaped_char(c);
    if c == '&' || c == '<' || c == '>' || c == '"' || c == '\'' {
        lemma_replaced_absent(entity, '<', "&lt;"@);
        lemma_replaced_absent(entity, '>', "&gt;"@);
        lemma_replaced_absent(entity, '"', "&quot;"@);
        lemma_replaced_absent(entity, '\'', "&#39;"@);
    }
}

proof fn lemma_replaced_one(c: char, from: char, to: Seq<char>)
    ensures
        replaced(seq![c], from, to) == if c == from {
            to
        } else {
            seq![c]
        },
{
    let one = seq![c];
    assert(one.drop_last() =~= Seq::empty());
    assert(replaced(one.drop_last(), from, to) =~= Seq::empty());
    assert(replaced(one, from, to) =~= if c == from {
        to
    } else {
        seq![c]
    });
}

/// Escaping is the same as replacing the five characters one after the other, as long as `&` is
/// replaced first.
pub proof fn law_escaping_is_replacing_in_turn(value: Seq<char>)
    ensures
        escaped(value) == replaced_in_turn(value),
    decreases value.len(),
{
    if value.len() > 0 {
        let init = value.drop_last();
        let last = seq![value.last()];
        law_escaping_is_replacing_in_turn(init);
        lemma_replaced_in_turn_one(value.last());
        assert(value =~= init + last);
        lemma_replaced_concat(init, last, '&', "&amp;"@);
        let (i1, l1) = (replaced(init, '&', "&amp;"@), replaced(last, '&', "&amp;"@));
        lemma_replaced_concat(i1, l1, '<', "&lt;"@);
        let (i2, l2) = (replaced(i1, '<', "&lt;"@), replaced(l1, '<', "&lt;"@));
        lemma_replaced_concat(i2, l2, '>', "&gt;"@);
        let (i3, l3) = (replaced(i2, '>', "&gt;"@), replaced(l2, '>', "&gt;"@));
        lemma_replaced_concat(i3, l3, '"', "&quot;"@);
        let (i4, l4) = (replaced(i3, '"', "&quot;"@), replaced(l3, '"', "&quot;"@));
        lemma_replaced_concat(i4, l4, '\'', "&#39;"@);
    }
}

/// One of the five entities.
pub open spec fn entity(s: Seq<char>) -> bool {
    s == "&amp;"@ || s == "&lt;"@ || s == "&gt;"@ || s == "&quot;"@ || s == "&#39;"@
}

/// An escaped text holds no `<`, `>` or quote, and each `&` in it begins an entity: it cannot
/// open a tag or leave an attribute.
pub proof fn law_escaped_text_is_plain(value: Seq<char>)
    ensures
        forall|i: int|
            0 <= i < escaped(value).len() ==> {
                let c = #[trigger] escaped(value)[i];
                &&& c != '<' && c != '>' && c != '"' && c != '\''
                &&& c == '&' ==> exists|j: int|
                    i < j <= escaped(value).len() && entity(
                        #[trigger] escaped(value).subrange(i, j),
                    )
            },
    decreases value.len(),
{
    if value.len() > 0 {
        let init = escaped(value.drop_last());
        let last = escaped_char(value.last());
        law_escaped_text_is_plain(value.drop_last());
        reveal_strlit("&amp;");
        reveal_strlit("&lt;");
        reveal_strlit("&gt;");
        reveal_strlit("&quot;");
        reveal_strlit("&#39;");
        assert forall|i: int| 0 <= i < escaped(value).len() implies {
            let c = #[trigger] escaped(value)[i];
            &&& c != '<' && c != '>' && c != '"' && c != '\''
            &&& c == '&' ==> exists|j: int|
                i < j <= escaped(value).len() && entity(#[trigger] escaped(value).subrange(i, j))
        } by {
            if i < init.len() {
                assert(escaped(value)[i] == init[i]);
                if init[i] == '&' {
                    let j = choose|j: int|
                        i < j <= init.len() && entity(#[trigger] init.subrange(i, j));
                    assert(escaped(value).subrange(i, j) =~= init.subrange(i, j));
                }
            } else {
                assert(escaped(value)[i] == last[i - init.len()]);
                if escaped(value)[i] == '&' {
                    assert(i == init.len());
                    assert(escaped(value).subrange(i, escaped(value).len() as int) =~= last);
                }
            }
        }
    }
}

proof fn lemma_escaped_concat(a: Seq<char>, b: Seq<char>)
    ensures
        escaped(a + b) == escaped(a) + escaped(b),
    decreases b.len(),
{
    if b.len() == 0 {
        assert(a + b =~= a);
        assert(escaped(a) + escaped(b) =~= escaped(a));
    } else {
        assert((a + b).drop_last() =~= a + b.drop_last());
        lemma_escaped_concat(a, b.drop_last());
        assert(escaped(a + b) =~= escaped(a) + escaped(b));
    }
}

proof fn lemma_escaped_first(s: Seq<char>)
    requires
        s.len() > 0,
    ensures
        escaped(s) == escaped_char(s[0]) + escaped(s.drop_first()),
{
    let first = seq![s[0]];
    assert(s =~= first + s.drop_first());
    lemma_escaped_concat(first, s.drop_first());
    assert(first.drop_last() =~= Seq::empty());
    assert(escaped(first.drop_last()) =~= Seq::empty());
    assert(escaped(first) =~= escaped_char(s[0]));
}

/// A text is escaped letter by letter: each of the five characters that mean something in HTML
/// gives way to its entity, and every other character stays.
pub proof fn law_escaping_is_letter_by_letter(a: Seq<char>, c: char, b: Seq<char>)
    ensures
        escaped(a + b) == escaped(a) + escaped(b),
        escaped(seq!['&']) == "&amp;"@,
        escaped(seq!['<']) == "&lt;"@,
        escaped(seq!['>']) == "&gt;"@,
        escaped(seq!['"']) == "&quot;"@,
        escaped(seq!['\'']) == "&#39;"@,
        c != '&' && c != '<' && c != '>' && c != '"' && c != '\'' ==> escaped(seq![c]) == seq![c],
{
    lemma_escaped_concat(a, b);
    lemma_escaped_one('&');
    lemma_escaped_one('<');
    lemma_escaped_one('>');
    lemma_escaped_one('"');
    lemma_escaped_one('\'');
    lemma_escaped_one(c);
}

proof fn lemma_escaped_one(c: char)
    ensures
        escaped(seq![c]) == escaped_char(c),
{
    lemma_escaped_first(seq![c]);
    assert(seq![c].drop_first() =~= Seq::empty());
    assert(escaped(seq![c]) =~= escaped_char(c));
}

/// Escaping loses nothing: different texts stay different.
pub proof fn law_escaping_loses_nothing(a: Seq<char>, b: Seq<char>)
    requires
        escaped(a) == escaped(b),
    ensures
        a == b,
    decreases a.len(),
{
    reveal_strlit("&amp;");
    reveal_strlit("&lt;");
    reveal_strlit("&gt;");
    reveal_strlit("&quot;");
    reveal_strlit("&#39;");
    if a.len() > 0 {
        lemma_escaped_first(a);
    }
    if b.len() > 0 {
        lemma_escaped_first(b);
    }
    if a.len() == 0 || b.len() == 0 {
        assert(escaped(a).len() == escaped(b).len());
        assert(a =~= b);
    } else {
        let (x, y) = (escaped_char(a[0]), escaped_char(b[0]));
        let (rest_a, rest_b) = (escaped(a.drop_first()), escaped(b.drop_first()));
        assert((x + rest_a)[0] == x[0] && (y + rest_b)[0] == y[0]);
        if x[0] == '&' {
            assert((x + rest_a)[1] == x[1] && (y + rest_b)[1] == y[1]);
        }
        assert(a[0] == b[0]);
        assert(rest_a =~= escaped(a).skip(x.len() as int));
        assert(rest_b =~= escaped(b).skip(y.len() as int));
        law_escaping_loses_nothing(a.drop_first(), b.drop_first());
        assert(a =~= seq![a[0]] + a.drop_first());
        assert(b =~= seq![b[0]] + b.drop_first());
    }
}

/// An identifier stands on a page as it is.
pub proof fn law_identifiers_need_no_escaping(id: Seq<char>)
    requires
        forall|i: int| 0 <= i < id.len() ==> url_safe(#[trigger] id[i]),
    ensures
        escaped(id) == id,
    decreases id.len(),
{
    if id.len() > 0 {
        let init = id.drop_last();
        assert forall|i: int| 0 <= i < init.len() implies url_safe(#[trigger] init[i]) by {
            assert(init[i] == id[i]);
        }
        law_identifiers_need_no_escaping(init);
        assert(url_safe(id[id.len() - 1]));
        assert(escaped(id) =~= id);
    }
}

} // verus!
