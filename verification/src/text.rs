//! Text helpers over characters: searching, splitting, trimming, padding and decimal numbers.
//!
//! A `str` or `String` is modelled by its sequence of characters. Every helper says what it returns
//! over that model.

use vstd::prelude::*;
use vstd::string::StringExecFns;
use vstd::utf8::{decode_utf8, encode_utf8, is_char_boundary};

verus! {

/// `String::push` appends one character at the end of the string.
pub assume_specification[ String::push ](s: &mut String, ch: char)
    ensures
        final(s)@ == old(s)@.push(ch),
;

/// The models of a list of strings.
pub open spec fn texts(items: Seq<String>) -> Seq<Seq<char>> {
    items.map_values(|s: String| s@)
}

/// The model of an optional string.
pub open spec fn text_option(item: Option<String>) -> Option<Seq<char>> {
    match item {
        Some(s) => Some(s@),
        None => None,
    }
}

/// The model of an optional borrowed string.
pub open spec fn str_option(item: Option<&str>) -> Option<Seq<char>> {
    match item {
        Some(s) => Some(s@),
        None => None,
    }
}

/// The characters of a string, in order.
pub fn to_chars(s: &str) -> (chars: Vec<char>)
    ensures
        chars@ == s@,
{
    let mut chars: Vec<char> = Vec::new();
    for c in it: s.chars()
        invariant
            chars@ == it.seq().take(it.index()),
            it.seq() == s@,
    {
        chars.push(c);
    }
    chars
}

/// The string made of `chars[from..to]`.
pub fn from_chars(chars: &Vec<char>, from: usize, to: usize) -> (s: String)
    requires
        from <= to <= chars@.len(),
    ensures
        s@ == chars@.subrange(from as int, to as int),
{
    let mut s: String = String::new();
    let mut i: usize = from;
    while i < to
        invariant
            from <= i <= to <= chars@.len(),
            s@ == chars@.subrange(from as int, i as int),
        decreases to - i,
    {
        s.push(chars[i]);
        i = i + 1;
    }
    s
}

/// Whether two strings hold the same characters.
pub fn same(a: &str, b: &str) -> (r: bool)
    ensures
        r == (a@ == b@),
{
    let x = to_chars(a);
    let y = to_chars(b);
    if x.len() != y.len() {
        return false;
    }
    let mut i: usize = 0;
    while i < x.len()
        invariant
            i <= x@.len(),
            x@.len() == y@.len(),
            x@ == a@,
            y@ == b@,
            forall|j: int| 0 <= j < i ==> x@[j] == y@[j],
        decreases x@.len() - i,
    {
        if x[i] != y[i] {
            return false;
        }
        i = i + 1;
    }
    assert(a@ =~= b@);
    true
}

/// Whether one of `items` equals `wanted`.
pub fn any_same(items: &Vec<String>, wanted: &str) -> (r: bool)
    ensures
        r == texts(items@).contains(wanted@),
{
    let mut i: usize = 0;
    while i < items.len()
        invariant
            i <= items@.len(),
            forall|j: int| 0 <= j < i ==> items@[j]@ != wanted@,
        decreases items@.len() - i,
    {
        if same(items[i].as_str(), wanted) {
            assert(texts(items@)[i as int] == wanted@);
            return true;
        }
        i = i + 1;
    }
    false
}

/// Whether `s` begins with `prefix`.
pub fn starts_with(s: &str, prefix: &str) -> (r: bool)
    ensures
        r == prefix@.is_prefix_of(s@),
{
    let x = to_chars(s);
    let p = to_chars(prefix);
    if p.len() > x.len() {
        return false;
    }
    let mut i: usize = 0;
    while i < p.len()
        invariant
            i <= p@.len() <= x@.len(),
            x@ == s@,
            p@ == prefix@,
            forall|j: int| 0 <= j < i ==> x@[j] == p@[j],
        decreases p@.len() - i,
    {
        if x[i] != p[i] {
            assert(s@.subrange(0, prefix@.len() as int)[i as int] != prefix@[i as int]);
            return false;
        }
        i = i + 1;
    }
    assert(prefix@ =~= s@.subrange(0, prefix@.len() as int));
    true
}

/// `s` without the leading `prefix`, where it has one.
pub fn strip_prefix(s: &str, prefix: &str) -> (r: Option<String>)
    ensures
        match r {
            Some(rest) => s@ == prefix@ + rest@,
            None => !prefix@.is_prefix_of(s@),
        },
{
    if starts_with(s, prefix) {
        let x = to_chars(s);
        let p = to_chars(prefix);
        let rest = from_chars(&x, p.len(), x.len());
        assert(s@ =~= prefix@ + rest@);
        Some(rest)
    } else {
        None
    }
}

/// `pattern` occurs somewhere in `s`.
pub open spec fn contains_text(s: Seq<char>, pattern: Seq<char>) -> bool {
    exists|i: int|
        0 <= i && i + pattern.len() <= s.len() && #[trigger] s.subrange(i, i + pattern.len())
            == pattern
}

/// Whether `pattern` occurs somewhere in `s`.
pub fn contains(s: &str, pattern: &str) -> (r: bool)
    ensures
        r == contains_text(s@, pattern@),
{
    let x = to_chars(s);
    let p = to_chars(pattern);
    if p.len() > x.len() {
        return false;
    }
    let size: usize = x.len();
    let last: usize = size - p.len();
    let mut i: usize = 0;
    while i <= last
        invariant
            size == x@.len(),
            x@ == s@,
            p@ == pattern@,
            p@.len() <= x@.len(),
            last == x@.len() - p@.len(),
            i <= last + 1,
            forall|k: int| 0 <= k < i ==> #[trigger] s@.subrange(k, k + pattern@.len()) != pattern@,
        decreases last + 1 - i,
    {
        let mut j: usize = 0;
        while j < p.len() && x[i + j] == p[j]
            invariant
                size == x@.len(),
                x@ == s@,
                p@ == pattern@,
                j <= p@.len(),
                i + p@.len() <= size,
                forall|k: int| 0 <= k < j ==> x@[i + k] == p@[k],
            decreases p@.len() - j,
        {
            j = j + 1;
        }
        if j == p.len() {
            assert(s@.subrange(i as int, i + pattern@.len()) =~= pattern@);
            return true;
        }
        assert(s@.subrange(i as int, i + pattern@.len())[j as int] != pattern@[j as int]);
        if i == last {
            return false;
        }
        i = i + 1;
    }
    false
}

/// The characters with the Unicode `White_Space` property.
pub open spec fn is_space(c: char) -> bool {
    ||| '\u{9}' <= c <= '\u{d}'
    ||| c == ' '
    ||| c == '\u{85}'
    ||| c == '\u{a0}'
    ||| c == '\u{1680}'
    ||| '\u{2000}' <= c <= '\u{200a}'
    ||| c == '\u{2028}'
    ||| c == '\u{2029}'
    ||| c == '\u{202f}'
    ||| c == '\u{205f}'
    ||| c == '\u{3000}'
}

/// Whether a character is white space.
pub fn is_whitespace(c: char) -> (r: bool)
    ensures
        r == is_space(c),
{
    ('\u{9}' <= c && c <= '\u{d}') || c == ' ' || c == '\u{85}' || c == '\u{a0}' || c == '\u{1680}'
        || ('\u{2000}' <= c && c <= '\u{200a}') || c == '\u{2028}' || c == '\u{2029}' || c
        == '\u{202f}' || c == '\u{205f}' || c == '\u{3000}'
}

/// `s` without its leading white space.
pub open spec fn trim_front(s: Seq<char>) -> Seq<char>
    decreases s.len(),
{
    if s.len() > 0 && is_space(s[0]) {
        trim_front(s.skip(1))
    } else {
        s
    }
}

/// `s` without its trailing white space.
pub open spec fn trim_back(s: Seq<char>) -> Seq<char>
    decreases s.len(),
{
    if s.len() > 0 && is_space(s.last()) {
        trim_back(s.drop_last())
    } else {
        s
    }
}

/// `s` without the white space at either end.
pub open spec fn trimmed(s: Seq<char>) -> Seq<char> {
    trim_back(trim_front(s))
}

/// `s` without the white space at either end.
pub fn trim(s: &str) -> (r: String)
    ensures
        r@ == trimmed(s@),
{
    let x = to_chars(s);
    let mut from: usize = 0;
    assert(x@.skip(0) =~= x@);
    while from < x.len() && is_whitespace(x[from])
        invariant
            x@ == s@,
            from <= x@.len(),
            trim_front(x@.skip(from as int)) == trim_front(s@),
        decreases x@.len() - from,
    {
        assert(x@.skip(from as int).skip(1) =~= x@.skip(from + 1));
        from = from + 1;
    }
    assert(trim_front(s@) == x@.skip(from as int));
    let mut to: usize = x.len();
    assert(x@.subrange(from as int, to as int) =~= x@.skip(from as int));
    while to > from && is_whitespace(x[to - 1])
        invariant
            x@ == s@,
            from <= to <= x@.len(),
            trim_back(x@.subrange(from as int, to as int)) == trimmed(s@),
        decreases to,
    {
        assert(x@.subrange(from as int, to as int).drop_last() =~= x@.subrange(
            from as int,
            to - 1,
        ));
        assert(x@.subrange(from as int, to as int).last() == x@[to - 1]);
        to = to - 1;
    }
    from_chars(&x, from, to)
}

/// The lower-case form of an ASCII letter; any other character as it is.
pub open spec fn lower_char(c: char) -> char {
    if 'A' <= c <= 'Z' {
        ((c as u32) + 32) as char
    } else {
        c
    }
}

/// `s` with its ASCII letters in lower case.
pub open spec fn lowered(s: Seq<char>) -> Seq<char> {
    s.map_values(|c: char| lower_char(c))
}

/// `s` with its ASCII letters in lower case.
pub fn to_lower(s: &str) -> (r: String)
    ensures
        r@ == lowered(s@),
{
    let x = to_chars(s);
    let mut r: String = String::new();
    let mut i: usize = 0;
    while i < x.len()
        invariant
            x@ == s@,
            i <= x@.len(),
            r@ == lowered(s@.take(i as int)),
        decreases x@.len() - i,
    {
        let c: char = x[i];
        if 'A' <= c && c <= 'Z' {
            r.push((c as u8 + 32) as char);
        } else {
            r.push(c);
        }
        i = i + 1;
        assert(r@ =~= lowered(s@.take(i as int)));
    }
    assert(s@.take(s@.len() as int) =~= s@);
    r
}

/// The first position of `c` in `s`, or the length of `s` where it does not occur.
pub open spec fn find_char(s: Seq<char>, c: char) -> int
    decreases s.len(),
{
    if s.len() == 0 {
        0
    } else if s[0] == c {
        0
    } else {
        1 + find_char(s.skip(1), c)
    }
}

/// What `find_char` returns: no occurrence before it, and one at it unless it is the length.
pub proof fn lemma_find_char(s: Seq<char>, c: char)
    ensures
        0 <= find_char(s, c) <= s.len(),
        forall|i: int| 0 <= i < find_char(s, c) ==> s[i] != c,
        find_char(s, c) < s.len() ==> s[find_char(s, c)] == c,
    decreases s.len(),
{
    if s.len() > 0 && s[0] != c {
        lemma_find_char(s.skip(1), c);
        assert forall|i: int| 0 <= i < find_char(s, c) implies s[i] != c by {
            if i > 0 {
                assert(s[i] == s.skip(1)[i - 1]);
            }
        }
    }
}

/// A position with these two properties is the one that `find_char` returns.
pub proof fn lemma_find_char_is(s: Seq<char>, c: char, at: int)
    requires
        0 <= at <= s.len(),
        forall|i: int| 0 <= i < at ==> s[i] != c,
        at < s.len() ==> s[at] == c,
    ensures
        find_char(s, c) == at,
{
    lemma_find_char(s, c);
    if find_char(s, c) < at {
        assert(s[find_char(s, c)] != c);
    }
    if at < find_char(s, c) {
        assert(s[at] != c);
    }
}

/// The first position of `c` in `chars[from..]`, or the length where it does not occur.
fn find_from(chars: &Vec<char>, from: usize, c: char) -> (at: usize)
    requires
        from <= chars@.len(),
    ensures
        from <= at <= chars@.len(),
        at - from == find_char(chars@.skip(from as int), c),
{
    let mut at: usize = from;
    while at < chars.len() && chars[at] != c
        invariant
            from <= at <= chars@.len(),
            forall|i: int| from <= i < at ==> chars@[i] != c,
        decreases chars@.len() - at,
    {
        at = at + 1;
    }
    proof {
        let rest = chars@.skip(from as int);
        assert forall|i: int| 0 <= i < at - from implies rest[i] != c by {
            assert(rest[i] == chars@[from + i]);
        }
        lemma_find_char_is(rest, c, at - from);
    }
    at
}

/// The pieces of `s` between occurrences of `separator`.
pub open spec fn split_text(s: Seq<char>, separator: char) -> Seq<Seq<char>>
    decreases s.len(),
    via split_text_decreases
{
    let at = find_char(s, separator);
    if at == s.len() {
        seq![s]
    } else {
        seq![s.take(at)] + split_text(s.skip(at + 1), separator)
    }
}

#[via_fn]
proof fn split_text_decreases(s: Seq<char>, separator: char) {
    lemma_find_char(s, separator);
}

/// The pieces of `s` between occurrences of `separator`.
pub fn split(s: &str, separator: char) -> (r: Vec<String>)
    ensures
        texts(r@) == split_text(s@, separator),
        r@.len() > 0,
{
    let x = to_chars(s);
    let mut r: Vec<String> = Vec::new();
    let mut from: usize = 0;
    assert(x@.skip(0) =~= x@);
    assert(texts(r@) =~= seq![]);
    loop
        invariant
            x@ == s@,
            from <= x@.len(),
            split_text(s@, separator) == texts(r@) + split_text(x@.skip(from as int), separator),
        decreases x@.len() - from,
    {
        let at: usize = find_from(&x, from, separator);
        let ghost before = texts(r@);
        let ghost rest = x@.skip(from as int);
        r.push(from_chars(&x, from, at));
        assert(texts(r@) =~= before + seq![x@.subrange(from as int, at as int)]);
        if at == x.len() {
            assert(rest =~= x@.subrange(from as int, at as int));
            assert(texts(r@) =~= split_text(s@, separator));
            return r;
        }
        assert(rest.take(at - from) =~= x@.subrange(from as int, at as int));
        assert(rest.skip(at - from + 1) =~= x@.skip(at + 1));
        assert(texts(r@) + split_text(x@.skip(at + 1), separator) =~= before + (seq![
            rest.take(at - from),
        ] + split_text(rest.skip(at - from + 1), separator)));
        from = at + 1;
    }
}

/// `line` without a carriage return at its end.
pub open spec fn without_return(line: Seq<char>) -> Seq<char> {
    if line.len() > 0 && line.last() == '\r' {
        line.drop_last()
    } else {
        line
    }
}

/// The lines of `s`: each ends at a line feed, or at a carriage return and a line feed. What
/// follows the last line feed is a line where it is not empty.
pub open spec fn line_texts(s: Seq<char>) -> Seq<Seq<char>>
    decreases s.len(),
    via line_texts_decreases
{
    let at = find_char(s, '\n');
    if s.len() == 0 {
        seq![]
    } else if at == s.len() {
        seq![s]
    } else {
        seq![without_return(s.take(at))] + line_texts(s.skip(at + 1))
    }
}

#[via_fn]
proof fn line_texts_decreases(s: Seq<char>) {
    lemma_find_char(s, '\n');
}

/// The lines of `s`.
pub fn lines(s: &str) -> (r: Vec<String>)
    ensures
        texts(r@) == line_texts(s@),
{
    let x = to_chars(s);
    let mut r: Vec<String> = Vec::new();
    let mut from: usize = 0;
    assert(x@.skip(0) =~= x@);
    assert(texts(r@) =~= seq![]);
    assert(texts(r@) + line_texts(s@) =~= line_texts(s@));
    while from < x.len()
        invariant
            x@ == s@,
            from <= x@.len(),
            line_texts(s@) == texts(r@) + line_texts(x@.skip(from as int)),
        decreases x@.len() - from,
    {
        let at: usize = find_from(&x, from, '\n');
        let ghost before = texts(r@);
        let ghost rest = x@.skip(from as int);
        if at == x.len() {
            r.push(from_chars(&x, from, at));
            assert(rest =~= x@.subrange(from as int, at as int));
            assert(texts(r@) =~= before + seq![rest]);
            return r;
        }
        let mut to: usize = at;
        if from < at && x[at - 1] == '\r' {
            to = at - 1;
        }
        let ghost line = rest.take(at - from);
        assert(line =~= x@.subrange(from as int, at as int));
        assert(x@.subrange(from as int, to as int) =~= without_return(line));
        r.push(from_chars(&x, from, to));
        assert(texts(r@) =~= before + seq![without_return(line)]);
        assert(rest.skip(at - from + 1) =~= x@.skip(at + 1));
        assert(texts(r@) + line_texts(x@.skip(at + 1)) =~= before + (seq![without_return(line)]
            + line_texts(rest.skip(at - from + 1))));
        from = at + 1;
    }
    assert(x@.skip(from as int) =~= seq![]);
    assert(texts(r@) + line_texts(x@.skip(from as int)) =~= texts(r@));
    r
}

/// `parts` in order, with `separator` between neighbours.
pub open spec fn join_texts(parts: Seq<Seq<char>>, separator: Seq<char>) -> Seq<char>
    decreases parts.len(),
{
    if parts.len() == 0 {
        seq![]
    } else if parts.len() == 1 {
        parts[0]
    } else {
        join_texts(parts.drop_last(), separator) + separator + parts.last()
    }
}

/// `parts` in order, with `separator` between neighbours.
pub fn join(parts: &Vec<String>, separator: &str) -> (r: String)
    ensures
        r@ == join_texts(texts(parts@), separator@),
{
    let mut r: String = String::new();
    let mut i: usize = 0;
    assert(texts(parts@).take(0) =~= seq![]);
    while i < parts.len()
        invariant
            i <= parts@.len(),
            r@ == join_texts(texts(parts@).take(i as int), separator@),
        decreases parts@.len() - i,
    {
        let ghost shorter = texts(parts@).take(i as int);
        let ghost longer = texts(parts@).take(i + 1);
        assert(longer.drop_last() =~= shorter);
        assert(longer.last() == parts@[i as int]@);
        if i > 0 {
            r.append(separator);
        }
        r.append(parts[i].as_str());
        assert(r@ =~= join_texts(longer, separator@));
        i = i + 1;
    }
    assert(texts(parts@).take(parts@.len() as int) =~= texts(parts@));
    r
}

/// Text on both sides of a separator splits into the pieces of both sides.
pub proof fn lemma_split_concat(a: Seq<char>, b: Seq<char>, separator: char)
    ensures
        split_text(a + seq![separator] + b, separator) == split_text(a, separator) + split_text(
            b,
            separator,
        ),
    decreases a.len(),
{
    let all = a + seq![separator] + b;
    let at = find_char(a, separator);
    lemma_find_char(a, separator);
    if at == a.len() {
        lemma_find_char_is(all, separator, at);
        assert(all.take(at) =~= a);
        assert(all.skip(at + 1) =~= b);
    } else {
        lemma_find_char_is(all, separator, at);
        let rest = a.skip(at + 1);
        lemma_split_concat(rest, b, separator);
        assert(all.take(at) =~= a.take(at));
        assert(all.skip(at + 1) =~= rest + seq![separator] + b);
        assert(split_text(all, separator) =~= split_text(a, separator) + split_text(b, separator));
    }
}

/// The pieces of a text, joined again, are the text.
pub proof fn lemma_join_split(s: Seq<char>, separator: char)
    ensures
        split_text(s, separator).len() > 0,
        join_texts(split_text(s, separator), seq![separator]) == s,
    decreases s.len(),
{
    let at = find_char(s, separator);
    lemma_find_char(s, separator);
    if at < s.len() {
        let rest = s.skip(at + 1);
        lemma_join_split(rest, separator);
        lemma_join_front(s.take(at), split_text(rest, separator), seq![separator]);
        assert(s =~= s.take(at) + seq![separator] + rest);
    } else {
        assert(split_text(s, separator).drop_last() =~= seq![]);
    }
}

/// No piece of a text holds the separator.
pub proof fn lemma_pieces_are_whole(s: Seq<char>, separator: char)
    ensures
        forall|i: int|
            0 <= i < split_text(s, separator).len() ==> !(#[trigger] split_text(
                s,
                separator,
            )[i]).contains(separator),
    decreases s.len(),
{
    let at = find_char(s, separator);
    lemma_find_char(s, separator);
    if at < s.len() {
        let rest = s.skip(at + 1);
        lemma_pieces_are_whole(rest, separator);
        assert forall|i: int| 0 <= i < split_text(s, separator).len() implies !(
        #[trigger] split_text(s, separator)[i]).contains(separator) by {
            if i > 0 {
                assert(split_text(s, separator)[i] == split_text(rest, separator)[i - 1]);
            }
        }
    }
}

/// Parts that hold no separator, joined with it, split into the same parts.
pub proof fn lemma_split_join(parts: Seq<Seq<char>>, separator: char)
    requires
        parts.len() > 0,
        forall|i: int| 0 <= i < parts.len() ==> !(#[trigger] parts[i]).contains(separator),
    ensures
        split_text(join_texts(parts, seq![separator]), separator) == parts,
    decreases parts.len(),
{
    let last = parts.last();
    assert(!parts[parts.len() - 1].contains(separator));
    lemma_find_char(last, separator);
    if find_char(last, separator) < last.len() {
        assert(last.contains(last[find_char(last, separator)]));
    }
    assert(split_text(last, separator) =~= seq![last]);
    if parts.len() == 1 {
        assert(parts =~= seq![last]);
    } else {
        let front = parts.drop_last();
        lemma_split_join(front, separator);
        lemma_split_concat(join_texts(front, seq![separator]), last, separator);
        assert(parts =~= front + seq![last]);
    }
}

/// Parts before others are joined before them, with a separator between.
pub proof fn lemma_join_concat(front: Seq<Seq<char>>, rest: Seq<Seq<char>>, separator: Seq<char>)
    requires
        front.len() > 0,
        rest.len() > 0,
    ensures
        join_texts(front + rest, separator) == join_texts(front, separator) + separator
            + join_texts(rest, separator),
    decreases rest.len(),
{
    let all = front + rest;
    assert(all.drop_last() =~= front + rest.drop_last());
    assert(all.last() == rest.last());
    if rest.len() == 1 {
        assert(all.drop_last() =~= front);
    } else {
        lemma_join_concat(front, rest.drop_last(), separator);
        assert(join_texts(all, separator) =~= join_texts(front, separator) + separator
            + join_texts(rest, separator));
    }
}

/// A first part goes before the joined others, with a separator between.
proof fn lemma_join_front(first: Seq<char>, rest: Seq<Seq<char>>, separator: Seq<char>)
    requires
        rest.len() > 0,
    ensures
        join_texts(seq![first] + rest, separator) == first + separator + join_texts(
            rest,
            separator,
        ),
    decreases rest.len(),
{
    let all = seq![first] + rest;
    assert(all.drop_last() =~= seq![first] + rest.drop_last());
    assert(all.last() == rest.last());
    if rest.len() == 1 {
        assert(all.drop_last() =~= seq![first]);
        assert(join_texts(seq![first], separator) == first);
    } else {
        lemma_join_front(first, rest.drop_last(), separator);
        assert(join_texts(all, separator) =~= first + separator + join_texts(rest, separator));
    }
}

/// `count` copies of `c`.
pub open spec fn repeated(c: char, count: nat) -> Seq<char> {
    Seq::new(count, |i: int| c)
}

/// `count` copies of `c`.
pub fn repeat(c: char, count: usize) -> (r: String)
    ensures
        r@ == repeated(c, count as nat),
{
    let mut r: String = String::new();
    let mut i: usize = 0;
    while i < count
        invariant
            i <= count,
            r@ == repeated(c, i as nat),
        decreases count - i,
    {
        r.push(c);
        i = i + 1;
        assert(r@ =~= repeated(c, i as nat));
    }
    r
}

/// `s` followed by the spaces that bring it to `width` characters; a longer `s` as it is.
pub open spec fn padded(s: Seq<char>, width: nat) -> Seq<char> {
    if s.len() >= width {
        s
    } else {
        s + repeated(' ', (width - s.len()) as nat)
    }
}

/// `s` followed by the spaces that bring it to `width` characters; a longer `s` as it is.
pub fn pad(s: &str, width: usize) -> (r: String)
    ensures
        r@ == padded(s@, width as nat),
{
    let size: usize = to_chars(s).len();
    if size >= width {
        s.to_owned()
    } else {
        s.to_owned().concat(repeat(' ', width - size).as_str())
    }
}

/// The character of a decimal digit.
pub open spec fn digit_char(d: nat) -> char {
    (48 + d) as char
}

/// `n` in decimal, without leading zeros.
pub open spec fn decimal_text(n: nat) -> Seq<char>
    decreases n,
{
    if n < 10 {
        seq![digit_char(n)]
    } else {
        decimal_text(n / 10).push(digit_char(n % 10))
    }
}

/// `n` in decimal.
pub fn decimal(n: u64) -> (r: String)
    ensures
        r@ == decimal_text(n as nat),
    decreases n,
{
    let digit: u8 = (n % 10) as u8;
    if n < 10 {
        let mut r: String = String::new();
        r.push((48 + digit) as char);
        assert(r@ =~= seq![digit_char(n as nat)]);
        r
    } else {
        let mut r: String = decimal(n / 10);
        r.push((48 + digit) as char);
        r
    }
}

/// `n` in decimal, with a minus sign in front where it is negative.
pub open spec fn signed_text(n: int) -> Seq<char> {
    if n < 0 {
        seq!['-'] + decimal_text((-n) as nat)
    } else {
        decimal_text(n as nat)
    }
}

/// `n` in decimal, with a minus sign in front where it is negative.
pub fn signed_decimal(n: i32) -> (r: String)
    ensures
        r@ == signed_text(n as int),
{
    let wide: i64 = n as i64;
    if wide < 0 {
        let mut r: String = String::new();
        r.push('-');
        let r = r.concat(decimal((-wide) as u64).as_str());
        assert(r@ =~= signed_text(n as int));
        r
    } else {
        decimal(wide as u64)
    }
}

/// Whether a character is a decimal digit.
pub open spec fn is_digit(c: char) -> bool {
    '0' <= c <= '9'
}

/// The number that a sequence of decimal digits stands for.
pub open spec fn digits_value(s: Seq<char>) -> nat
    decreases s.len(),
{
    if s.len() == 0 {
        0
    } else {
        digits_value(s.drop_last()) * 10 + (s.last() as nat - 48) as nat
    }
}

/// The digits of an unsigned number: what follows an optional plus sign.
pub open spec fn unsigned_digits(s: Seq<char>) -> Seq<char> {
    if s.len() > 0 && s[0] == '+' {
        s.skip(1)
    } else {
        s
    }
}

/// The number up to `max` that `s` writes: an optional plus sign and one or more decimal digits.
pub open spec fn parsed_unsigned(s: Seq<char>, max: nat) -> Option<nat> {
    let digits = unsigned_digits(s);
    if digits.len() > 0 && (forall|i: int| 0 <= i < digits.len() ==> is_digit(#[trigger] digits[i]))
        && digits_value(digits) <= max {
        Some(digits_value(digits))
    } else {
        None
    }
}

/// A longer sequence of digits stands for a number that is not smaller.
proof fn lemma_digits_grow(s: Seq<char>, n: int)
    requires
        0 <= n <= s.len(),
    ensures
        digits_value(s.take(n)) <= digits_value(s),
    decreases s.len() - n,
{
    if n == s.len() {
        assert(s.take(n) =~= s);
    } else {
        lemma_digits_grow(s, n + 1);
        assert(s.take(n + 1).drop_last() =~= s.take(n));
    }
}

/// A number written in decimal has digits only, and they stand for that number.
pub proof fn lemma_decimal(n: nat)
    ensures
        decimal_text(n).len() > 0,
        forall|i: int|
            0 <= i < decimal_text(n).len() ==> is_digit(
                #[trigger] decimal_text(n)[i],
            ),
        digits_value(decimal_text(n)) == n,
    decreases n,
{
    let s = decimal_text(n);
    if n < 10 {
        assert(s.drop_last() =~= seq![]);
        assert(digits_value(s.drop_last()) == 0);
    } else {
        lemma_decimal(n / 10);
        assert(s.drop_last() =~= decimal_text(n / 10));
        assert forall|i: int| 0 <= i < s.len() implies is_digit(#[trigger] s[i]) by {
            if i < s.len() - 1 {
                assert(s[i] == decimal_text(n / 10)[i]);
            }
        }
    }
}

/// A number that is written in decimal is read back, up to the largest that may be read.
pub proof fn law_decimal_is_read_back(n: nat, max: nat)
    ensures
        parsed_unsigned(decimal_text(n), max) == if n <= max {
            Some(n)
        } else {
            None
        },
{
    lemma_decimal(n);
    let s = decimal_text(n);
    assert(is_digit(s[0]));
    assert(unsigned_digits(s) == s);
}

/// The number up to `max` that `s` writes.
pub fn parse_unsigned(s: &str, max: u64) -> (r: Option<u64>)
    ensures
        match r {
            Some(n) => parsed_unsigned(s@, max as nat) == Some(n as nat),
            None => parsed_unsigned(s@, max as nat) is None,
        },
{
    let x = to_chars(s);
    let mut start: usize = 0;
    if x.len() > 0 && x[0] == '+' {
        start = 1;
    }
    let ghost digits = unsigned_digits(s@);
    assert(digits =~= x@.skip(start as int));
    if start == x.len() {
        return None;
    }
    let mut value: u64 = 0;
    let mut i: usize = start;
    while i < x.len()
        invariant
            start <= i <= x@.len(),
            digits == x@.skip(start as int),
            digits == unsigned_digits(s@),
            forall|j: int| 0 <= j < i - start ==> is_digit(#[trigger] digits[j]),
            value <= max,
            value == digits_value(digits.take(i - start)),
        decreases x@.len() - i,
    {
        let c: char = x[i];
        assert(digits[i - start] == c);
        if !('0' <= c && c <= '9') {
            return None;
        }
        let d: u64 = (c as u8 - 48) as u64;
        proof {
            let longer = digits.take(i - start + 1);
            assert(longer.drop_last() =~= digits.take(i - start));
            assert(longer.last() == c);
            lemma_digits_grow(digits, i - start + 1);
        }
        if value > max / 10 || d > max - value * 10 {
            return None;
        }
        value = value * 10 + d;
        i = i + 1;
    }
    assert(digits.take(digits.len() as int) =~= digits);
    Some(value)
}

/// The number that fits a `usize` that `s` writes.
pub fn parse_size(s: &str) -> (r: Option<usize>)
    ensures
        match r {
            Some(n) => parsed_unsigned(s@, usize::MAX as nat) == Some(n as nat),
            None => parsed_unsigned(s@, usize::MAX as nat) is None,
        },
{
    match parse_unsigned(s, usize::MAX as u64) {
        Some(n) => Some(n as usize),
        None => None,
    }
}

/// How many bytes of an identifier its short form keeps.
pub const SHORT_ID_BYTES: usize = 12;

/// A longer identifier has a character boundary where its short form ends.
pub open spec fn has_short_id(id: Seq<char>) -> bool {
    encode_utf8(id).len() > SHORT_ID_BYTES ==> is_char_boundary(
        encode_utf8(id),
        SHORT_ID_BYTES as int,
    )
}

/// The short form of an identifier: its first twelve bytes, or all of a shorter one.
pub open spec fn short_id_text(id: Seq<char>) -> Seq<char> {
    if encode_utf8(id).len() > SHORT_ID_BYTES {
        decode_utf8(encode_utf8(id).take(SHORT_ID_BYTES as int))
    } else {
        id
    }
}

/// The short form of an identifier.
pub fn short_id(id: &str) -> (r: &str)
    requires
        has_short_id(id@),
    ensures
        r@ == short_id_text(id@),
{
    broadcast use vstd::utf8::encode_utf8_decode_utf8;

    if id.as_bytes().len() > SHORT_ID_BYTES {
        let (head, _tail) = id.split_at(SHORT_ID_BYTES);
        assert(encode_utf8(head@) =~= encode_utf8(id@).take(SHORT_ID_BYTES as int));
        assert(decode_utf8(encode_utf8(head@)) == head@);
        head
    } else {
        id
    }
}

/// An identifier of ASCII characters always has a short form: its first twelve characters.
pub proof fn law_ascii_short_id(id: Seq<char>)
    requires
        vstd::utf8::is_ascii_chars(id),
    ensures
        has_short_id(id),
        short_id_text(id) == if id.len() > SHORT_ID_BYTES {
            id.take(SHORT_ID_BYTES as int)
        } else {
            id
        },
{
    vstd::utf8::is_ascii_chars_encode_utf8(id);
    if id.len() > SHORT_ID_BYTES {
        let head = id.take(SHORT_ID_BYTES as int);
        let bytes = encode_utf8(id);
        vstd::utf8::is_ascii_chars_encode_utf8(head);
        assert(encode_utf8(head) =~= bytes.take(SHORT_ID_BYTES as int));
        vstd::utf8::encode_utf8_decode_utf8(head);
        vstd::utf8::encode_utf8_valid_utf8(id);
        vstd::utf8::is_char_boundary_iff_not_is_continuation_byte(bytes, SHORT_ID_BYTES as int);
        assert(bytes[SHORT_ID_BYTES as int] == id[SHORT_ID_BYTES as int] as u8);
        vstd::utf8::utf8_byte_ranges_bitwise(bytes[SHORT_ID_BYTES as int]);
    }
}

/// A text that is shorter than its column is followed by blanks to the width of the column; it
/// stands at the beginning of the column in any case.
pub proof fn law_padded_text_fills_its_column(s: Seq<char>, width: nat)
    ensures
        s.is_prefix_of(padded(s, width)),
        s.len() <= width ==> padded(s, width).len() == width,
        s.len() >= width ==> padded(s, width) == s,
        forall|i: int| s.len() <= i < padded(s, width).len() ==> #[trigger] padded(s, width)[i] == ' ',
{
    assert(padded(s, width).take(s.len() as int) =~= s);
}

/// A text is its trimmed form with white space around it, and the trimmed form has none at its ends.
pub proof fn law_trimmed_text(s: Seq<char>)
    ensures
        exists|from: int, to: int|
            #![trigger s.subrange(from, to)]
            0 <= from <= to <= s.len() && trimmed(s) == s.subrange(from, to) && (forall|i: int|
                0 <= i < from || to <= i < s.len() ==> is_space(#[trigger] s[i])),
        trimmed(s).len() > 0 ==> !is_space(trimmed(s)[0]) && !is_space(trimmed(s).last()),
        trimmed(trimmed(s)) == trimmed(s),
{
    lemma_trim_front(s);
    let front = trim_front(s);
    lemma_trim_back(front);
    let from = s.len() - front.len();
    let to = from + trimmed(s).len();
    assert(trimmed(s) =~= s.subrange(from, to));
    assert forall|i: int| 0 <= i < from || to <= i < s.len() implies is_space(#[trigger] s[i]) by {
        if i >= to {
            assert(s[i] == front[i - from]);
        }
    }
    if trimmed(s).len() > 0 {
        assert(trimmed(s)[0] == front[0]);
    }
    assert(trim_front(trimmed(s)) == trimmed(s));
    assert(trim_back(trimmed(s)) == trimmed(s));
}

/// What is taken away at the front is white space, and all of it.
proof fn lemma_trim_front(s: Seq<char>)
    ensures
        trim_front(s).len() <= s.len(),
        trim_front(s) == s.skip(s.len() - trim_front(s).len()),
        forall|i: int| 0 <= i < s.len() - trim_front(s).len() ==> is_space(#[trigger] s[i]),
        trim_front(s).len() > 0 ==> !is_space(trim_front(s)[0]),
    decreases s.len(),
{
    if s.len() > 0 && is_space(s[0]) {
        let rest = s.skip(1);
        lemma_trim_front(rest);
        assert(trim_front(s) =~= s.skip(s.len() - trim_front(s).len()));
        assert forall|i: int| 0 <= i < s.len() - trim_front(s).len() implies is_space(
            #[trigger] s[i],
        ) by {
            if i > 0 {
                assert(s[i] == rest[i - 1]);
            }
        }
    } else {
        assert(s.skip(0) =~= s);
    }
}

/// What is taken away at the back is white space, and all of it.
proof fn lemma_trim_back(s: Seq<char>)
    ensures
        trim_back(s).len() <= s.len(),
        trim_back(s) == s.take(trim_back(s).len() as int),
        forall|i: int| trim_back(s).len() <= i < s.len() ==> is_space(#[trigger] s[i]),
        trim_back(s).len() > 0 ==> !is_space(trim_back(s).last()),
    decreases s.len(),
{
    if s.len() > 0 && is_space(s.last()) {
        let rest = s.drop_last();
        lemma_trim_back(rest);
        assert(trim_back(s) =~= s.take(trim_back(s).len() as int));
        assert forall|i: int| trim_back(s).len() <= i < s.len() implies is_space(#[trigger] s[i]) by {
            if i < s.len() - 1 {
                assert(s[i] == rest[i]);
            }
        }
    } else {
        assert(s.take(s.len() as int) =~= s);
    }
}

/// The lines of a text are what stands between line feeds: a line before others is the first of
/// them, without a carriage return at its end, and a text without a line feed is one line.
pub proof fn law_lines_end_at_line_feeds(line: Seq<char>, rest: Seq<char>)
    requires
        !line.contains('\n'),
    ensures
        line_texts(line + seq!['\n'] + rest) == seq![
            if line.len() > 0 && line.last() == '\r' {
                line.drop_last()
            } else {
                line
            },
        ] + line_texts(rest),
        line.len() > 0 ==> line_texts(line) == seq![line],
        line_texts(seq![]) == Seq::<Seq<char>>::empty(),
{
    let s = line + seq!['\n'] + rest;
    let at = line.len() as int;
    assert(s[at] == '\n');
    assert forall|i: int| 0 <= i < at implies s[i] != '\n' && line[i] != '\n' by {
        assert(line.contains(line[i]));
    }
    lemma_find_char_is(s, '\n', at);
    lemma_find_char_is(line, '\n', at);
    assert(s.take(at) =~= line);
    assert(s.skip(at + 1) =~= rest);
    assert(line_texts(Seq::<char>::empty()) =~= seq![]);
}

/// A text splits at each separator and nowhere else: the pieces hold none, and joined again they are
/// the text.
pub proof fn law_pieces_make_the_text(s: Seq<char>, separator: char)
    ensures
        join_texts(split_text(s, separator), seq![separator]) == s,
        split_text(s, separator).len() > 0,
        forall|i: int|
            0 <= i < split_text(s, separator).len() ==> !(#[trigger] split_text(
                s,
                separator,
            )[i]).contains(separator),
{
    lemma_join_split(s, separator);
    lemma_pieces_are_whole(s, separator);
}

/// A signed number is its decimal form, behind a minus sign where it is negative.
pub proof fn law_signed_number(n: nat)
    ensures
        signed_text(n as int) == decimal_text(n),
        n > 0 ==> signed_text(-n) == seq!['-'] + decimal_text(n),
{
}

/// Lower case changes letters one for one, and only capitals from `A` to `Z`.
pub proof fn law_lower_case(s: Seq<char>)
    ensures
        lowered(s).len() == s.len(),
        forall|i: int|
            0 <= i < s.len() && !('A' <= #[trigger] s[i] <= 'Z') ==> lowered(s)[i] == s[i],
        forall|i: int|
            0 <= i < s.len() && 'A' <= #[trigger] s[i] <= 'Z' ==> lowered(s)[i] as u32 == s[i] as u32
                + 32,
{
}

/// The short form of a long identifier of ASCII characters is its first twelve characters.
pub proof fn law_short_form_has_twelve_characters(id: Seq<char>)
    requires
        vstd::utf8::is_ascii_chars(id),
    ensures
        id.len() > 12 ==> short_id_text(id) == id.take(12),
        id.len() <= 12 ==> short_id_text(id) == id,
{
    law_ascii_short_id(id);
}

/// A number is read with a plus sign as without it; nothing, a lone sign and a sign that is no plus
/// are no numbers.
pub proof fn law_plus_sign_counts_for_nothing(n: nat, max: nat, s: Seq<char>)
    ensures
        parsed_unsigned(seq!['+'] + decimal_text(n), max) == parsed_unsigned(decimal_text(n), max),
        parsed_unsigned(seq![], max) is None,
        parsed_unsigned(seq!['+'], max) is None,
        parsed_unsigned(seq!['-'] + s, max) is None,
{
    lemma_decimal(n);
    let signed = seq!['+'] + decimal_text(n);
    assert(signed[0] == '+');
    assert(signed.skip(1) =~= decimal_text(n));
    assert(is_digit(decimal_text(n)[0]));
    assert(unsigned_digits(decimal_text(n)) == decimal_text(n));
    let minus = seq!['-'] + s;
    assert(minus[0] == '-');
    assert(unsigned_digits(minus)[0] == '-');
}

/// A text holds another where that stands in it, whatever is before and behind, and only there.
pub proof fn law_text_holds_what_stands_in_it(
    s: Seq<char>,
    before: Seq<char>,
    pattern: Seq<char>,
    after: Seq<char>,
)
    ensures
        contains_text(before + pattern + after, pattern),
        contains_text(s, pattern) ==> exists|i: int|
            0 <= i <= s.len() - pattern.len() && s == #[trigger] s.take(i) + pattern + s.skip(
                i + pattern.len(),
            ),
        s.len() < pattern.len() ==> !contains_text(s, pattern),
{
    let all = before + pattern + after;
    let at = before.len() as int;
    assert(all.subrange(at, at + pattern.len()) =~= pattern);
    if contains_text(s, pattern) {
        let i = choose|i: int|
            0 <= i && i + pattern.len() <= s.len() && #[trigger] s.subrange(i, i + pattern.len())
                == pattern;
        assert(s =~= s.take(i) + pattern + s.skip(i + pattern.len()));
    }
}

/// Blanks, tabs, line feeds and carriage returns are white space; what is printed is not.
pub proof fn law_white_space(c: char)
    ensures
        c == ' ' || c == '\t' || c == '\n' || c == '\r' || c == '\u{a0}' || c == '\u{3000}'
            ==> is_space(c),
        '!' <= c <= '~' ==> !is_space(c),
{
}

} // verus!
