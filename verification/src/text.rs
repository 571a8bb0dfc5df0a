//! Characters and strings: the small vocabulary that names, pages and links are written in.

use vstd::prelude::*;

verus! {

/// `String::push` of std appends one character at the end.
pub assume_specification[ String::push ](s: &mut String, c: char)
    ensures
        final(s)@ == old(s)@.push(c),
;

/// A text that may be missing.
pub open spec fn optional(s: Option<String>) -> Option<Seq<char>> {
    match s {
        Some(text) => Some(text@),
        None => None,
    }
}

// ---------------------------------------------------------------------------------------------
// Classes of characters
// ---------------------------------------------------------------------------------------------

/// A control character: Unicode general category Cc.
pub open spec fn control(c: char) -> bool {
    c <= '\u{1f}' || '\u{7f}' <= c <= '\u{9f}'
}

/// A character with the Unicode property White_Space.
pub open spec fn white_space(c: char) -> bool {
    ||| '\u{9}' <= c <= '\u{d}'
    ||| c == ' '
    ||| c == '\u{85}'
    ||| c == '\u{a0}'
    ||| c == '\u{1680}'
    ||| '\u{2000}' <= c <= '\u{200a}'
    ||| c == '\u{2028}'
    ||| c == '\u{2029}'
    ||| c == '\u{202f}'
    ||| c == '\u{205f}'
    ||| c == '\u{3000}'
}

/// Nothing but white space, or nothing at all.
pub open spec fn blank(s: Seq<char>) -> bool {
    forall|i: int| 0 <= i < s.len() ==> white_space(#[trigger] s[i])
}

/// The code points of white space: tab to carriage return, space, next line, the spaces of other
/// scripts and widths, and the separators of lines and paragraphs.
pub open spec fn white_space_code(u: u32) -> bool {
    ||| 9 <= u <= 13
    ||| u == 32
    ||| u == 133
    ||| u == 160
    ||| u == 5760
    ||| 8192 <= u <= 8202
    ||| u == 8232
    ||| u == 8233
    ||| u == 8239
    ||| u == 8287
    ||| u == 12288
}

/// Control characters and white space by their code points.
pub proof fn law_character_classes(c: char)
    ensures
        control(c) <==> c as u32 <= 31 || 127 <= c as u32 <= 159,
        white_space(c) <==> white_space_code(c as u32),
{
}

/// Tells whether `c` is a control character.
pub fn is_control(c: char) -> (res: bool)
    ensures
        res == control(c),
        res == (c as u32 <= 31 || 127 <= c as u32 <= 159),
{
    c <= '\u{1f}' || ('\u{7f}' <= c && c <= '\u{9f}')
}

/// Tells whether `c` is white space.
pub fn is_white_space(c: char) -> (res: bool)
    ensures
        res == white_space(c),
        res == white_space_code(c as u32),
{
    ('\u{9}' <= c && c <= '\u{d}') || c == ' ' || c == '\u{85}' || c == '\u{a0}' || c == '\u{1680}'
        || ('\u{2000}' <= c && c <= '\u{200a}') || c == '\u{2028}' || c == '\u{2029}'
        || c == '\u{202f}' || c == '\u{205f}' || c == '\u{3000}'
}

/// Tells whether `s` holds nothing but white space.
pub fn is_blank(s: &str) -> (res: bool)
    ensures
        res == blank(s@),
{
    for c in it: s.chars()
        invariant
            it.seq() == s@,
            blank(s@.take(it.index() as int)),
    {
        if !is_white_space(c) {
            assert(!white_space(s@[it.index() as int]));
            return false;
        }
        assert(s@.take(it.index() + 1) =~= s@.take(it.index() as int).push(c));
    }
    assert(s@.take(s@.len() as int) =~= s@);
    true
}

// ---------------------------------------------------------------------------------------------
// Numbers in decimal
// ---------------------------------------------------------------------------------------------

/// The decimal digit `d` as a character.
pub open spec fn digit(d: nat) -> char {
    (48 + d) as char
}

/// `n` in decimal, without leading zeros.
pub open spec fn decimal(n: nat) -> Seq<char>
    decreases n,
{
    if n < 10 {
        seq![digit(n)]
    } else {
        decimal(n / 10).push(digit(n % 10))
    }
}

/// `n` in decimal, with a minus sign before a negative number.
pub open spec fn signed_decimal(n: int) -> Seq<char> {
    if n < 0 {
        "-"@ + decimal((-n) as nat)
    } else {
        decimal(n as nat)
    }
}

/// The number that a row of decimal digits stands for.
pub open spec fn numeral_value(s: Seq<char>) -> int
    decreases s.len(),
{
    if s.len() == 0 {
        0
    } else {
        10 * numeral_value(s.drop_last()) + (s.last() as int - '0' as int)
    }
}

/// A row of decimal digits without a leading zero.
pub open spec fn numeral(s: Seq<char>) -> bool {
    &&& s.len() > 0
    &&& forall|i: int| 0 <= i < s.len() ==> '0' <= #[trigger] s[i] <= '9'
    &&& s[0] == '0' ==> s.len() == 1
}

/// The number that a row of decimal digits, with or without a minus sign, stands for.
pub open spec fn signed_value(s: Seq<char>) -> int {
    if s.len() > 0 && s[0] == '-' {
        -numeral_value(s.drop_first())
    } else {
        numeral_value(s)
    }
}

/// A row of decimal digits without a leading zero, with or without a minus sign.
pub open spec fn signed_numeral(s: Seq<char>) -> bool {
    if s.len() > 0 && s[0] == '-' {
        numeral(s.drop_first()) && s[1] != '0'
    } else {
        numeral(s)
    }
}

/// A number in decimal is a row of digits without a leading zero, and reads back as the number.
pub proof fn law_decimal_reads_back(n: nat)
    ensures
        numeral(decimal(n)),
        numeral_value(decimal(n)) == n,
        n > 0 ==> decimal(n)[0] != '0',
    decreases n,
{
    reveal_with_fuel(numeral_value, 3);
    if n < 10 {
        assert(decimal(n).drop_last() =~= Seq::empty());
    } else {
        law_decimal_reads_back(n / 10);
        assert(decimal(n).drop_last() =~= decimal(n / 10));
        assert(decimal(n)[0] == decimal(n / 10)[0]);
    }
}

/// A signed number in decimal reads back as the number, and has a minus sign if and only if it is
/// negative.
pub proof fn law_signed_decimal_reads_back(n: int)
    ensures
        signed_numeral(signed_decimal(n)),
        signed_value(signed_decimal(n)) == n,
        signed_decimal(n)[0] == '-' <==> n < 0,
{
    reveal_strlit("-");
    if n < 0 {
        law_decimal_reads_back((-n) as nat);
        assert(signed_decimal(n).drop_first() =~= decimal((-n) as nat));
    } else {
        law_decimal_reads_back(n as nat);
        assert('0' <= decimal(n as nat)[0] <= '9');
    }
}

/// Appends `n` in decimal.
pub fn push_decimal(out: &mut String, n: u64)
    ensures
        final(out)@ == old(out)@ + decimal(n as nat),
    decreases n,
{
    if n >= 10 {
        push_decimal(out, n / 10);
    }
    out.push((48u8 + (n % 10) as u8) as char);
    assert(out@ =~= old(out)@ + decimal(n as nat));
}

/// `n` in decimal.
pub fn decimal_text(n: u64) -> (res: String)
    ensures
        res@ == decimal(n as nat),
        numeral(res@),
        numeral_value(res@) == n,
{
    let mut out = String::new();
    push_decimal(&mut out, n);
    assert(out@ =~= decimal(n as nat));
    proof {
        law_decimal_reads_back(n as nat);
    }
    out
}

/// `n` in decimal, signed.
pub fn signed_decimal_text(n: i64) -> (res: String)
    ensures
        res@ == signed_decimal(n as int),
        signed_numeral(res@),
        signed_value(res@) == n,
{
    proof {
        law_signed_decimal_reads_back(n as int);
    }
    if n < 0 {
        let magnitude: u64 = (-(n as i128)) as u64;
        let mut out = "-".to_owned();
        push_decimal(&mut out, magnitude);
        out
    } else {
        decimal_text(n as u64)
    }
}

// ---------------------------------------------------------------------------------------------
// Texts within texts
// ---------------------------------------------------------------------------------------------

/// `part` stands in `whole` at position `i`.
pub open spec fn occurs_at(whole: Seq<char>, part: Seq<char>, i: int) -> bool {
    &&& 0 <= i <= whole.len() - part.len()
    &&& whole.subrange(i, i + part.len()) == part
}

/// `part` stands somewhere in `whole`.
pub open spec fn occurs(whole: Seq<char>, part: Seq<char>) -> bool {
    exists|i: int| occurs_at(whole, part, i)
}

/// `part` stands in `whole` at position `i` and nowhere before it.
pub open spec fn occurs_first_at(whole: Seq<char>, part: Seq<char>, i: int) -> bool {
    &&& occurs_at(whole, part, i)
    &&& forall|j: int| 0 <= j < i ==> !occurs_at(whole, part, j)
}

/// Where `part` first stands in `whole`.
pub open spec fn first_place(whole: Seq<char>, part: Seq<char>) -> Option<int> {
    if occurs(whole, part) {
        Some(choose|i: int| occurs_first_at(whole, part, i))
    } else {
        None
    }
}

/// The second of the pieces into which `separator` cuts `s`, if there is one.
pub open spec fn second_piece(s: Seq<char>, separator: Seq<char>) -> Option<Seq<char>> {
    match first_place(s, separator) {
        None => None,
        Some(i) => {
            let rest = s.skip(i + separator.len());
            match first_place(rest, separator) {
                None => Some(rest),
                Some(j) => Some(rest.take(j)),
            }
        },
    }
}

/// `s` without the characters `c` at its end.
pub open spec fn trimmed_end(s: Seq<char>, c: char) -> Seq<char>
    decreases s.len(),
{
    if s.len() > 0 && s.last() == c {
        trimmed_end(s.drop_last(), c)
    } else {
        s
    }
}

/// `s` without the characters `c` at its start.
pub open spec fn trimmed_start(s: Seq<char>, c: char) -> Seq<char>
    decreases s.len(),
{
    if s.len() > 0 && s[0] == c {
        trimmed_start(s.drop_first(), c)
    } else {
        s
    }
}

/// `s` without the characters `c` at either end.
pub open spec fn trimmed(s: Seq<char>, c: char) -> Seq<char> {
    trimmed_end(trimmed_start(s, c), c)
}

/// What follows the last `c` in `s`, or all of `s` where there is none.
pub open spec fn after_last(s: Seq<char>, c: char) -> Seq<char>
    decreases s.len(),
{
    if s.len() == 0 || s.last() == c {
        Seq::empty()
    } else {
        after_last(s.drop_last(), c).push(s.last())
    }
}

/// `part` stands nowhere in `whole`.
pub open spec fn lacks(whole: Seq<char>, part: Seq<char>) -> bool {
    forall|i: int, j: int|
        0 <= i <= j <= whole.len() && j - i == part.len() ==> #[trigger] whole.subrange(i, j)
            != part
}

/// In `before` followed by `part`, `part` stands nowhere but at the end.
pub open spec fn first_after(before: Seq<char>, part: Seq<char>) -> bool {
    forall|i: int, j: int|
        0 <= i < before.len() && j - i == part.len() ==> #[trigger] (before + part).subrange(i, j)
            != part
}

/// A row of `n` characters `c`.
pub open spec fn row(c: char, n: nat) -> Seq<char> {
    Seq::new(n, |i: int| c)
}

/// A text occurs in another if and only if it stands between two places of it.
pub proof fn law_occurs_somewhere(whole: Seq<char>, part: Seq<char>)
    ensures
        forall|i: int, j: int|
            0 <= i <= j <= whole.len() && #[trigger] whole.subrange(i, j) == part ==> occurs(
                whole,
                part,
            ),
        occurs(whole, part) <==> !lacks(whole, part),
{
    assert forall|i: int, j: int|
        0 <= i <= j <= whole.len() && #[trigger] whole.subrange(i, j) == part implies occurs(
        whole,
        part,
    ) by {
        assert(whole.subrange(i, j).len() == j - i);
        assert(occurs_at(whole, part, i));
    }
    if occurs(whole, part) {
        let i = choose|i: int| occurs_at(whole, part, i);
        assert(whole.subrange(i, i + part.len()) == part);
    }
}

proof fn lemma_first_place(before: Seq<char>, part: Seq<char>, after: Seq<char>)
    requires
        first_after(before, part),
    ensures
        first_place(before + part + after, part) == Some(before.len() as int),
{
    let whole = before + part + after;
    assert(whole.subrange(before.len() as int, (before.len() + part.len()) as int) =~= part);
    assert(occurs_at(whole, part, before.len() as int));
    assert forall|i: int| 0 <= i < before.len() implies !occurs_at(whole, part, i) by {
        assert(whole.subrange(i, i + part.len()) =~= (before + part).subrange(i, i + part.len()));
    }
    assert(occurs_first_at(whole, part, before.len() as int));
    let k = choose|k: int| occurs_first_at(whole, part, k);
    assert(occurs_first_at(whole, part, k));
    assert(k == before.len());
}

/// The second piece of a text is what stands after the first separator, up to the next one if
/// there is a next one. A text without the separator has no second piece.
pub proof fn law_second_piece(
    before: Seq<char>,
    separator: Seq<char>,
    piece: Seq<char>,
    rest: Seq<char>,
)
    ensures
        lacks(before, separator) ==> second_piece(before, separator) is None,
        first_after(before, separator) && lacks(piece, separator) ==> second_piece(
            before + separator + piece,
            separator,
        ) == Some(piece),
        first_after(before, separator) && first_after(piece, separator) ==> second_piece(
            before + separator + (piece + separator + rest),
            separator,
        ) == Some(piece),
{
    if lacks(before, separator) {
        law_occurs_somewhere(before, separator);
    }
    if first_after(before, separator) && lacks(piece, separator) {
        lemma_first_place(before, separator, piece);
        law_occurs_somewhere(piece, separator);
        assert((before + separator + piece).skip((before.len() + separator.len()) as int)
            =~= piece);
    }
    if first_after(before, separator) && first_after(piece, separator) {
        let tail = piece + separator + rest;
        lemma_first_place(before, separator, tail);
        lemma_first_place(piece, separator, rest);
        assert((before + separator + tail).skip((before.len() + separator.len()) as int) =~= tail);
        assert(tail.take(piece.len() as int) =~= piece);
    }
}

/// Trimming the end of a text takes off the characters `c` there, all of them and nothing else.
pub proof fn law_trimmed_end(core: Seq<char>, c: char, n: nat)
    requires
        core.len() == 0 || core.last() != c,
    ensures
        trimmed_end(core + row(c, n), c) == core,
    decreases n,
{
    let s = core + row(c, n);
    if n == 0 {
        assert(s =~= core);
    } else {
        assert(s.last() == c);
        assert(s.drop_last() =~= core + row(c, (n - 1) as nat));
        law_trimmed_end(core, c, (n - 1) as nat);
    }
}

proof fn lemma_trimmed_start(core: Seq<char>, c: char, n: nat)
    requires
        core.len() == 0 || core[0] != c,
    ensures
        trimmed_start(row(c, n) + core, c) == core,
    decreases n,
{
    let s = row(c, n) + core;
    if n == 0 {
        assert(s =~= core);
    } else {
        assert(s[0] == c);
        assert(s.drop_first() =~= row(c, (n - 1) as nat) + core);
        lemma_trimmed_start(core, c, (n - 1) as nat);
    }
}

/// Trimming a text takes off the characters `c` at both ends, all of them and nothing else.
pub proof fn law_trimmed(before: nat, core: Seq<char>, after: nat, c: char)
    requires
        core.len() == 0 || (core[0] != c && core.last() != c),
    ensures
        trimmed(row(c, before) + core + row(c, after), c) == core,
{
    let s = row(c, before) + core + row(c, after);
    if core.len() == 0 {
        let empty = Seq::<char>::empty();
        assert(s =~= row(c, before + after) + empty);
        lemma_trimmed_start(empty, c, before + after);
        assert(trimmed_start(s, c) == empty);
        assert(core =~= empty);
    } else {
        assert(s =~= row(c, before) + (core + row(c, after)));
        lemma_trimmed_start(core + row(c, after), c, before);
        law_trimmed_end(core, c, after);
    }
}

/// What follows the last `c` of a text follows a `c` and holds none; a text without a `c` is kept
/// whole.
pub proof fn law_after_last(before: Seq<char>, c: char, after: Seq<char>)
    requires
        forall|i: int| 0 <= i < after.len() ==> #[trigger] after[i] != c,
    ensures
        after_last(before.push(c) + after, c) == after,
        after_last(after, c) == after,
    decreases after.len(),
{
    let s = before.push(c) + after;
    if after.len() == 0 {
        assert(s.last() == c);
        assert(after_last(s, c) =~= after);
        assert(after_last(after, c) =~= after);
    } else {
        let init = after.drop_last();
        assert forall|i: int| 0 <= i < init.len() implies #[trigger] init[i] != c by {
            assert(init[i] == after[i]);
        }
        law_after_last(before, c, init);
        assert(after.last() == after[after.len() - 1]);
        assert(s.last() == after.last());
        assert(s.drop_last() =~= before.push(c) + init);
        assert(after_last(s, c) =~= after);
        assert(after_last(after, c) =~= after);
    }
}

/// The characters of a text.
pub fn chars_of(s: &str) -> (res: Vec<char>)
    ensures
        res@ == s@,
{
    let mut res: Vec<char> = Vec::new();
    for c in it: s.chars()
        invariant
            it.seq() == s@,
            res@ == s@.take(it.index() as int),
    {
        res.push(c);
    }
    res
}

/// The text made of the characters from `from` up to `to`.
fn text_of(chars: &Vec<char>, from: usize, to: usize) -> (res: String)
    requires
        from <= to <= chars@.len(),
    ensures
        res@ == chars@.subrange(from as int, to as int),
{
    let mut res = String::new();
    for i in from..to
        invariant
            from <= to <= chars@.len(),
            res@ == chars@.subrange(from as int, i as int),
    {
        res.push(chars[i]);
        assert(res@ =~= chars@.subrange(from as int, i + 1));
    }
    res
}

fn stands_at(whole: &Vec<char>, part: &Vec<char>, i: usize) -> (res: bool)
    requires
        i <= whole@.len(),
    ensures
        res == occurs_at(whole@, part@, i as int),
{
    let length: usize = whole.len();
    if part.len() > length - i {
        return false;
    }
    for k in 0..part.len()
        invariant
            i + part@.len() <= whole@.len() == length,
            forall|m: int| 0 <= m < k ==> whole@[i + m] == part@[m],
    {
        if whole[i + k] != part[k] {
            assert(whole@.subrange(i as int, i + part@.len())[k as int] != part@[k as int]);
            return false;
        }
    }
    assert(whole@.subrange(i as int, i + part@.len()) =~= part@);
    true
}

/// Where `part` first stands among the characters of `whole` from `from` on.
fn place_from(whole: &Vec<char>, part: &Vec<char>, from: usize) -> (res: Option<usize>)
    requires
        from <= whole@.len(),
    ensures
        match res {
            Some(i) => from <= i <= whole@.len() - part@.len() && first_place(
                whole@.skip(from as int),
                part@,
            ) == Some(i - from),
            None => first_place(whole@.skip(from as int), part@) is None,
        },
{
    let ghost rest = whole@.skip(from as int);
    let length: usize = whole.len();
    let mut i: usize = from;
    loop
        invariant
            from <= i <= length == whole@.len(),
            rest == whole@.skip(from as int),
            forall|j: int| 0 <= j < i - from ==> !occurs_at(rest, part@, j),
        decreases length - i,
    {
        let found = stands_at(whole, part, i);
        assert(found == occurs_at(rest, part@, i - from)) by {
            if i - from <= rest.len() - part@.len() {
                assert(rest.subrange(i - from, i - from + part@.len()) =~= whole@.subrange(
                    i as int,
                    i + part@.len(),
                ));
            }
        }
        if found {
            assert(occurs_first_at(rest, part@, i - from));
            let ghost k = choose|k: int| occurs_first_at(rest, part@, k);
            assert(k == i - from);
            return Some(i);
        }
        if i == length {
            return None;
        }
        i = i + 1;
    }
}

/// Tells whether `part` stands somewhere in `whole`.
pub fn contains_text(whole: &str, part: &str) -> (res: bool)
    ensures
        res == occurs(whole@, part@),
        res <==> !lacks(whole@, part@),
{
    proof {
        law_occurs_somewhere(whole@, part@);
    }
    let whole = chars_of(whole);
    let part = chars_of(part);
    assert(whole@.skip(0) =~= whole@);
    place_from(&whole, &part, 0).is_some()
}

/// The second of the pieces into which `separator` cuts `s`, if there is one.
pub fn second_piece_of(s: &str, separator: &str) -> (res: Option<String>)
    ensures
        optional(res) == second_piece(s@, separator@),
{
    let chars = chars_of(s);
    let part = chars_of(separator);
    assert(chars@.skip(0) =~= chars@);
    match place_from(&chars, &part, 0) {
        None => None,
        Some(i) => {
            let length: usize = chars.len();
            let start: usize = i + part.len();
            let ghost rest = s@.skip(start as int);
            match place_from(&chars, &part, start) {
                None => {
                    assert(chars@.subrange(start as int, chars@.len() as int) =~= rest);
                    Some(text_of(&chars, start, chars.len()))
                },
                Some(j) => {
                    assert(chars@.subrange(start as int, j as int) =~= rest.take(j - start));
                    Some(text_of(&chars, start, j))
                },
            }
        },
    }
}

/// The text without the characters `c` at its end.
pub fn trim_end_of(s: &str, c: char) -> (res: String)
    ensures
        res@ == trimmed_end(s@, c),
{
    let chars = chars_of(s);
    let end: usize = end_without(&chars, 0, c);
    assert(s@.subrange(0, s@.len() as int) =~= s@);
    text_of(&chars, 0, end)
}

/// Where the characters from `start` on end, once the characters `c` at their end are left out.
fn end_without(chars: &Vec<char>, start: usize, c: char) -> (end: usize)
    requires
        start <= chars@.len(),
    ensures
        start <= end <= chars@.len(),
        chars@.subrange(start as int, end as int) == trimmed_end(
            chars@.subrange(start as int, chars@.len() as int),
            c,
        ),
{
    let mut end: usize = chars.len();
    while end > start && chars[end - 1] == c
        invariant
            start <= end <= chars@.len(),
            trimmed_end(chars@.subrange(start as int, end as int), c) == trimmed_end(
                chars@.subrange(start as int, chars@.len() as int),
                c,
            ),
        decreases end,
    {
        assert(chars@.subrange(start as int, end as int).drop_last() =~= chars@.subrange(
            start as int,
            end - 1,
        ));
        end = end - 1;
    }
    end
}

/// The text without the characters `c` at either end.
pub fn trim_of(s: &str, c: char) -> (res: String)
    ensures
        res@ == trimmed(s@, c),
{
    let chars = chars_of(s);
    let length: usize = chars.len();
    let mut start: usize = 0;
    assert(s@.subrange(0, length as int) =~= s@);
    while start < length && chars[start] == c
        invariant
            start <= length == chars@.len(),
            trimmed_start(chars@.subrange(start as int, length as int), c) == trimmed_start(
                chars@,
                c,
            ),
        decreases length - start,
    {
        assert(chars@.subrange(start as int, length as int).drop_first() =~= chars@.subrange(
            start + 1,
            length as int,
        ));
        start = start + 1;
    }
    let end: usize = end_without(&chars, start, c);
    text_of(&chars, start, end)
}

/// What follows the last `c`, or all of the text where there is none.
pub fn after_last_of(s: &str, c: char) -> (res: String)
    ensures
        res@ == after_last(s@, c),
{
    let mut res = String::new();
    for d in it: s.chars()
        invariant
            it.seq() == s@,
            res@ == after_last(s@.take(it.index() as int), c),
    {
        assert(s@.take(it.index() + 1).drop_last() =~= s@.take(it.index() as int));
        if d == c {
            res = String::new();
        } else {
            res.push(d);
        }
    }
    assert(s@.take(s@.len() as int) =~= s@);
    res
}

/// The text with `to` in place of each character `from`.
pub fn replace_char(s: &str, from: char, to: char) -> (res: String)
    ensures
        res@ == s@.map_values(|c: char| if c == from { to } else { c }),
{
    let ghost replaced = s@.map_values(|c: char| if c == from { to } else { c });
    let mut res = String::new();
    for d in it: s.chars()
        invariant
            it.seq() == s@,
            replaced == s@.map_values(|c: char| if c == from { to } else { c }),
            res@ == replaced.take(it.index() as int),
    {
        if d == from {
            res.push(to);
        } else {
            res.push(d);
        }
        assert(res@ =~= replaced.take(it.index() + 1));
    }
    res
}

// ---------------------------------------------------------------------------------------------
// Texts in headers
// ---------------------------------------------------------------------------------------------

/// A byte that is text in a header: visible ASCII, a space or a tab.
pub open spec fn header_text_byte(b: u8) -> bool {
    32 <= b < 127 || b == 9
}

/// The text of a header, unless one of its bytes is not text.
pub open spec fn header_text(bytes: Seq<u8>) -> Option<Seq<char>> {
    if forall|i: int| 0 <= i < bytes.len() ==> header_text_byte(#[trigger] bytes[i]) {
        Some(bytes.map_values(|b: u8| b as char))
    } else {
        None
    }
}

/// The text of a header that may be missing.
pub open spec fn optional_header_text(bytes: Option<Vec<u8>>) -> Option<Seq<char>> {
    match bytes {
        Some(bytes) => header_text(bytes@),
        None => None,
    }
}

/// The bytes of a header are a text if and only if each is visible ASCII, a space or a tab; the
/// text then has these bytes as its characters.
pub proof fn law_header_text(bytes: Seq<u8>)
    ensures
        header_text(bytes) is Some <==> forall|i: int|
            0 <= i < bytes.len() ==> (32 <= #[trigger] bytes[i] <= 126 || bytes[i] == 9),
        header_text(bytes) matches Some(text) ==> {
            &&& text.len() == bytes.len()
            &&& forall|i: int|
                0 <= i < text.len() ==> #[trigger] text[i] as u32 == bytes[i] as u32
        },
{
    assert forall|i: int|
        0 <= i < bytes.len() implies header_text_byte(#[trigger] bytes[i]) == (32 <= bytes[i] <= 126
        || bytes[i] == 9) by {}
    if header_text(bytes) is Some {
        let text = header_text(bytes)->0;
        assert forall|i: int| 0 <= i < text.len() implies #[trigger] text[i] as u32
            == bytes[i] as u32 by {
            assert(text[i] == bytes[i] as char);
        }
    }
}

/// The text of a header, unless one of its bytes is not text.
pub fn header_text_of(bytes: &Vec<u8>) -> (res: Option<String>)
    ensures
        optional(res) == header_text(bytes@),
        res is Some <==> forall|i: int|
            0 <= i < bytes@.len() ==> (32 <= #[trigger] bytes@[i] <= 126 || bytes@[i] == 9),
        res matches Some(text) ==> text@ == bytes@.map_values(|b: u8| b as char),
{
    proof {
        law_header_text(bytes@);
    }
    let ghost all = bytes@.map_values(|b: u8| b as char);
    let mut res = String::new();
    for i in 0..bytes.len()
        invariant
            all == bytes@.map_values(|b: u8| b as char),
            res@ == all.take(i as int),
            forall|k: int| 0 <= k < i ==> header_text_byte(#[trigger] bytes@[k]),
    {
        let b: u8 = bytes[i];
        if !((32 <= b && b < 127) || b == 9) {
            assert(!header_text_byte(bytes@[i as int]));
            return None;
        }
        res.push(b as char);
        assert(res@ =~= all.take(i + 1));
    }
    assert(res@ =~= all);
    Some(res)
}

/// The text of a header that may be missing.
pub fn optional_header_text_of(bytes: &Option<Vec<u8>>) -> (res: Option<String>)
    ensures
        optional(res) == optional_header_text(*bytes),
{
    match bytes {
        Some(bytes) => header_text_of(bytes),
        None => None,
    }
}

/// A text that is there is seen as it is, and one that is missing as missing.
pub proof fn law_optional(text: String)
    ensures
        optional(Some(text)) == Some(text@),
        optional(None) is None,
{
}

} // verus!
