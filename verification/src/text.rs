//! Text on `char` sequences: trimming, ASCII case folding, searching, splitting
//! into lines and fields, and building strings.

use vstd::prelude::*;
use vstd::string::*;

verus! {

broadcast use vstd::string::group_string_axioms;

/// The view of a vector of borrowed texts.
pub open spec fn slices(v: Seq<&str>) -> Seq<Seq<char>> {
    v.map_values(|s: &str| s@)
}

/// The view of a vector of owned texts.
pub open spec fn texts(v: Seq<String>) -> Seq<Seq<char>> {
    v.map_values(|s: String| s@)
}

/// The view of an optional text.
pub open spec fn opt_text(v: Option<String>) -> Option<Seq<char>> {
    match v {
        Some(s) => Some(s@),
        None => None,
    }
}

/// The view of an optional borrowed text.
pub open spec fn opt_slice(v: Option<&str>) -> Option<Seq<char>> {
    match v {
        Some(s) => Some(s@),
        None => None,
    }
}

/// `String::push` appends one character to the text.
pub assume_specification[ String::push ](s: &mut String, c: char)
    ensures
        final(s)@ == old(s)@.push(c),
;

/// The characters of a text, in order.
pub fn chars_of(s: &str) -> (r: Vec<char>)
    ensures
        r@ == s@,
{
    let mut out: Vec<char> = Vec::new();
    for c in it: s.chars()
        invariant
            out@ == it.seq().take(it.index() as int),
            it.seq() == s@,
    {
        proof {
            assert(it.seq().take(it.index() as int).push(c) =~= it.seq().take(it.index() as int + 1));
        }
        out.push(c);
    }
    proof {
        assert(out@ =~= s@);
    }
    out
}

/// Whether two texts hold the same characters.
pub fn text_eq(a: &str, b: &str) -> (r: bool)
    ensures
        r == (a@ == b@),
{
    a.to_owned() == b.to_owned()
}

/// White space as Unicode's `White_Space` property has it.
pub open spec fn is_space(c: char) -> bool {
    let u = c as u32;
    ||| 9 <= u <= 13
    ||| u == 0x20
    ||| u == 0x85
    ||| u == 0xA0
    ||| u == 0x1680
    ||| 0x2000 <= u <= 0x200A
    ||| u == 0x2028
    ||| u == 0x2029
    ||| u == 0x202F
    ||| u == 0x205F
    ||| u == 0x3000
}

/// Decides [`is_space`].
pub fn space(c: char) -> (r: bool)
    ensures
        r == is_space(c),
{
    let u: u32 = c as u32;
    (9 <= u && u <= 13) || u == 0x20 || u == 0x85 || u == 0xA0 || u == 0x1680
        || (0x2000 <= u && u <= 0x200A) || u == 0x2028 || u == 0x2029 || u == 0x202F
        || u == 0x205F || u == 0x3000
}

/// The text without its leading white space.
pub open spec fn trim_start(s: Seq<char>) -> Seq<char>
    decreases s.len(),
{
    if s.len() > 0 && is_space(s[0]) {
        trim_start(s.drop_first())
    } else {
        s
    }
}

/// The text without its trailing white space.
pub open spec fn trim_end(s: Seq<char>) -> Seq<char>
    decreases s.len(),
{
    if s.len() > 0 && is_space(s.last()) {
        trim_end(s.drop_last())
    } else {
        s
    }
}

/// The text without white space at either end.
pub open spec fn trimmed(s: Seq<char>) -> Seq<char> {
    trim_end(trim_start(s))
}

/// Whether nothing but white space is in the text.
pub open spec fn is_blank(s: Seq<char>) -> bool {
    trimmed(s).len() == 0
}

pub proof fn lemma_trim_start_suffix(s: Seq<char>)
    ensures
        exists|k: int| 0 <= k <= s.len() && trim_start(s) == #[trigger] s.skip(k),
        trim_start(s).len() > 0 ==> !is_space(trim_start(s)[0]),
    decreases s.len(),
{
    if s.len() > 0 && is_space(s[0]) {
        lemma_trim_start_suffix(s.drop_first());
        let k = choose|k: int|
            0 <= k <= s.drop_first().len() && trim_start(s.drop_first()) == #[trigger] s.drop_first().skip(k);
        assert(s.drop_first().skip(k) =~= s.skip(k + 1));
    } else {
        assert(s.skip(0) =~= s);
    }
}

pub proof fn lemma_trim_end_prefix(s: Seq<char>)
    ensures
        exists|k: int| 0 <= k <= s.len() && trim_end(s) == #[trigger] s.take(k),
        trim_end(s).len() > 0 ==> !is_space(trim_end(s).last()),
        trim_end(s).len() <= s.len(),
        trim_end(s).len() > 0 ==> trim_end(s)[0] == s[0],
    decreases s.len(),
{
    if s.len() > 0 && is_space(s.last()) {
        lemma_trim_end_prefix(s.drop_last());
        let k = choose|k: int|
            0 <= k <= s.drop_last().len() && trim_end(s.drop_last()) == #[trigger] s.drop_last().take(k);
        assert(s.drop_last().take(k) =~= s.take(k));
    } else {
        assert(s.take(s.len() as int) =~= s);
    }
}

/// A trimmed text has no white space at its ends, and trimming it again changes
/// nothing.
pub proof fn trimming_is_idempotent(s: Seq<char>)
    ensures
        trimmed(s).len() > 0 ==> !is_space(trimmed(s)[0]) && !is_space(trimmed(s).last()),
        trimmed(trimmed(s)) == trimmed(s),
{
    lemma_trim_start_suffix(s);
    lemma_trim_end_prefix(trim_start(s));
}

/// A text with no white space at its ends is its own trimmed form.
pub proof fn lemma_trim_fixed(s: Seq<char>)
    requires
        s.len() > 0 ==> !is_space(s[0]) && !is_space(s.last()),
    ensures
        trimmed(s) == s,
{
}

/// The part of `s` that is left when white space is taken off its start.
pub fn trim_start_of(s: &str) -> (r: &str)
    ensures
        r@ == trim_start(s@),
{
    let cs = chars_of(s);
    let n: usize = cs.len();
    let mut i: usize = 0;
    proof {
        assert(s@.subrange(0, n as int) =~= s@);
    }
    while i < n && space(cs[i])
        invariant
            i <= n,
            n == cs@.len(),
            cs@ == s@,
            trim_start(s@) == trim_start(s@.subrange(i as int, n as int)),
        decreases n - i,
    {
        proof {
            assert(s@.subrange(i as int, n as int).drop_first() =~= s@.subrange(i as int + 1, n as int));
        }
        i += 1;
    }
    s.substring_char(i, n)
}

/// The part of `s` that is left when white space is taken off its end.
pub fn trim_end_of(s: &str) -> (r: &str)
    ensures
        r@ == trim_end(s@),
{
    let cs = chars_of(s);
    let mut n: usize = cs.len();
    proof {
        assert(s@.subrange(0, n as int) =~= s@);
    }
    while n > 0 && space(cs[n - 1])
        invariant
            n <= cs@.len(),
            cs@ == s@,
            trim_end(s@) == trim_end(s@.subrange(0, n as int)),
        decreases n,
    {
        proof {
            assert(s@.subrange(0, n as int).drop_last() =~= s@.subrange(0, n as int - 1));
        }
        n -= 1;
    }
    s.substring_char(0, n)
}

/// The part of `s` between the white space at its ends.
pub fn trim(s: &str) -> (r: &str)
    ensures
        r@ == trimmed(s@),
{
    trim_end_of(trim_start_of(s))
}

/// Whether `s` holds nothing but white space.
pub fn blank(s: &str) -> (r: bool)
    ensures
        r == is_blank(s@),
{
    trim(s).is_empty()
}

/// The ASCII lower case of a character; other characters stand for themselves.
pub open spec fn lower_char(c: char) -> char {
    if 'A' <= c <= 'Z' {
        ((c as u8) + 32) as char
    } else {
        c
    }
}

/// The ASCII upper case of a character; other characters stand for themselves.
pub open spec fn upper_char(c: char) -> char {
    if 'a' <= c <= 'z' {
        ((c as u8) - 32) as char
    } else {
        c
    }
}

/// The text in ASCII lower case.
pub open spec fn lowered(s: Seq<char>) -> Seq<char> {
    s.map_values(|c: char| lower_char(c))
}

/// The text in ASCII upper case.
pub open spec fn uppered(s: Seq<char>) -> Seq<char> {
    s.map_values(|c: char| upper_char(c))
}

fn lower_of(c: char) -> (r: char)
    ensures
        r == lower_char(c),
{
    if 'A' <= c && c <= 'Z' {
        let b: u8 = c as u8;
        (b + 32) as char
    } else {
        c
    }
}

fn upper_of(c: char) -> (r: char)
    ensures
        r == upper_char(c),
{
    if 'a' <= c && c <= 'z' {
        let b: u8 = c as u8;
        (b - 32) as char
    } else {
        c
    }
}

/// `s` in ASCII lower case.
pub fn to_lower(s: &str) -> (r: String)
    ensures
        r@ == lowered(s@),
{
    let cs = chars_of(s);
    let mut out = String::new();
    let mut i: usize = 0;
    while i < cs.len()
        invariant
            i <= cs.len(),
            cs@ == s@,
            out@ == lowered(s@.take(i as int)),
        decreases cs.len() - i,
    {
        out.push(lower_of(cs[i]));
        proof {
            assert(lowered(s@.take(i as int + 1)) =~= lowered(s@.take(i as int)).push(lower_char(s@[i as int])));
        }
        i += 1;
    }
    proof {
        assert(s@.take(i as int) =~= s@);
    }
    out
}

/// `s` in ASCII upper case.
pub fn to_upper(s: &str) -> (r: String)
    ensures
        r@ == uppered(s@),
{
    let cs = chars_of(s);
    let mut out = String::new();
    let mut i: usize = 0;
    while i < cs.len()
        invariant
            i <= cs.len(),
            cs@ == s@,
            out@ == uppered(s@.take(i as int)),
        decreases cs.len() - i,
    {
        out.push(upper_of(cs[i]));
        proof {
            assert(uppered(s@.take(i as int + 1)) =~= uppered(s@.take(i as int)).push(upper_char(s@[i as int])));
        }
        i += 1;
    }
    proof {
        assert(s@.take(i as int) =~= s@);
    }
    out
}

/// Whether two texts differ in ASCII case at most.
pub open spec fn same_ignoring_case(a: Seq<char>, b: Seq<char>) -> bool {
    lowered(a) == lowered(b)
}

/// Decides [`same_ignoring_case`].
pub fn eq_ignoring_case(a: &str, b: &str) -> (r: bool)
    ensures
        r == same_ignoring_case(a@, b@),
{
    to_lower(a) == to_lower(b)
}

/// Whether `p` stands at the start of `s`.
pub open spec fn has_prefix(s: Seq<char>, p: Seq<char>) -> bool {
    p.len() <= s.len() && s.take(p.len() as int) == p
}

/// What follows the prefix `p` in `s`.
pub open spec fn after_prefix(s: Seq<char>, p: Seq<char>) -> Option<Seq<char>> {
    if has_prefix(s, p) {
        Some(s.skip(p.len() as int))
    } else {
        None
    }
}

/// What follows `p` at the start of `s`, where `s` starts with it.
pub fn strip_prefix<'a>(s: &'a str, p: &str) -> (r: Option<&'a str>)
    ensures
        opt_slice(r) == after_prefix(s@, p@),
{
    let n: usize = s.unicode_len();
    let m: usize = p.unicode_len();
    if m <= n && text_eq(s.substring_char(0, m), p) {
        proof {
            assert(s@.subrange(0, m as int) =~= s@.take(m as int));
            assert(s@.subrange(m as int, n as int) =~= s@.skip(m as int));
        }
        Some(s.substring_char(m, n))
    } else {
        proof {
            if m <= n {
                assert(s@.subrange(0, m as int) =~= s@.take(m as int));
            }
        }
        None
    }
}

/// Decides [`has_prefix`].
pub fn starts_with(s: &str, p: &str) -> (r: bool)
    ensures
        r == has_prefix(s@, p@),
{
    strip_prefix(s, p).is_some()
}

/// Whether `needle` stands in `s` at index `i`.
pub open spec fn stands_at(s: Seq<char>, needle: Seq<char>, i: int) -> bool {
    0 <= i && i + needle.len() <= s.len() && s.subrange(i, i + needle.len()) == needle
}

/// Whether `needle` stands anywhere in `s`.
pub open spec fn has_part(s: Seq<char>, needle: Seq<char>) -> bool {
    exists|i: int| #[trigger] stands_at(s, needle, i)
}

/// The first index at which `needle` stands in `s`.
pub fn find(s: &str, needle: &str) -> (r: Option<usize>)
    ensures
        match r {
            Some(i) => stands_at(s@, needle@, i as int) && forall|j: int| #[trigger] stands_at(s@, needle@, j) ==> i <= j,
            None => !has_part(s@, needle@),
        },
{
    let n: usize = s.unicode_len();
    let m: usize = needle.unicode_len();
    if m > n {
        return None;
    }
    let last: usize = n - m;
    let mut i: usize = 0;
    loop
        invariant
            i <= last,
            last == n - m,
            n == s@.len(),
            m == needle@.len(),
            forall|j: int| #[trigger] stands_at(s@, needle@, j) ==> i <= j,
        decreases last - i,
    {
        if text_eq(s.substring_char(i, i + m), needle) {
            return Some(i);
        }
        if i == last {
            return None;
        }
        i += 1;
    }
}

/// Decides [`has_part`].
pub fn contains(s: &str, needle: &str) -> (r: bool)
    ensures
        r == has_part(s@, needle@),
{
    find(s, needle).is_some()
}

/// The first index of `c` in `s`, or the length of `s` where it has none.
pub open spec fn index_of(s: Seq<char>, c: char) -> int
    decreases s.len(),
{
    if s.len() == 0 || s[0] == c {
        0
    } else {
        1 + index_of(s.drop_first(), c)
    }
}

pub proof fn lemma_index_of(s: Seq<char>, c: char)
    ensures
        0 <= index_of(s, c) <= s.len(),
        index_of(s, c) < s.len() ==> s[index_of(s, c)] == c,
        forall|j: int| 0 <= j < index_of(s, c) ==> s[j] != c,
    decreases s.len(),
{
    if s.len() == 0 || s[0] == c {
    } else {
        lemma_index_of(s.drop_first(), c);
        assert forall|j: int| 0 <= j < index_of(s, c) implies s[j] != c by {
            if j > 0 {
                assert(s.drop_first()[j - 1] == s[j]);
            }
        }
    }
}

/// Finds [`index_of`] from the characters of a text, starting at `from`.
pub(crate) fn index_from(cs: &Vec<char>, from: usize, c: char) -> (r: usize)
    requires
        from <= cs@.len(),
    ensures
        r == from + index_of(cs@.skip(from as int), c),
        from <= r <= cs@.len(),
        r < cs@.len() ==> cs@[r as int] == c,
{
    let mut i: usize = from;
    while i < cs.len() && cs[i] != c
        invariant
            from <= i <= cs@.len(),
            from + index_of(cs@.skip(from as int), c) == i + index_of(cs@.skip(i as int), c),
        decreases cs@.len() - i,
    {
        proof {
            assert(cs@.skip(i as int).drop_first() =~= cs@.skip(i as int + 1));
        }
        i += 1;
    }
    i
}

/// The parts of `s` between the first `n - 1` occurrences of `sep`, the last part
/// holding the rest.
pub open spec fn split_n(s: Seq<char>, n: nat, sep: char) -> Seq<Seq<char>>
    decreases n,
{
    let k = index_of(s, sep);
    if n == 0 {
        seq![]
    } else if n == 1 || k >= s.len() {
        seq![s]
    } else {
        seq![s.take(k)] + split_n(s.skip(k + 1), (n - 1) as nat, sep)
    }
}

/// Splitting undoes joining: what stands before the first separator is the first part,
/// and the rest is split as if it stood alone.
pub proof fn columns_come_apart(first: Seq<char>, rest: Seq<char>, n: nat, sep: char)
    requires
        n >= 2,
        !first.contains(sep),
    ensures
        split_n(first + seq![sep] + rest, n, sep) == seq![first] + split_n(rest, (n - 1) as nat, sep),
        split_n(first, n, sep) == seq![first],
        split_n(first + seq![sep] + rest, 1, sep) == seq![first + seq![sep] + rest],
{
    let s = first + seq![sep] + rest;
    let k = index_of(s, sep);
    lemma_index_of(s, sep);
    lemma_index_of(first, sep);
    assert(s[first.len() as int] == sep);
    if k < first.len() {
        assert(first[k] == sep);
    }
    assert(k == first.len());
    assert(s.take(k) =~= first);
    assert(s.skip(k + 1) =~= rest);
    if index_of(first, sep) < first.len() {
        assert(first.contains(sep));
    }
}

/// The `i`-th of the parts, empty where there are fewer.
pub open spec fn part(parts: Seq<Seq<char>>, i: int) -> Seq<char> {
    if 0 <= i < parts.len() {
        parts[i]
    } else {
        Seq::<char>::empty()
    }
}

/// Splits `s` as [`split_n`] says.
pub fn splitn<'a>(s: &'a str, n: usize, sep: char) -> (r: Vec<&'a str>)
    ensures
        slices(r@) == split_n(s@, n as nat, sep),
    decreases n,
{
    let mut out: Vec<&'a str> = Vec::new();
    if n == 0 {
        proof {
            assert(slices(out@) =~= split_n(s@, n as nat, sep));
        }
        return out;
    }
    let cs = chars_of(s);
    let len: usize = cs.len();
    let k: usize = index_from(&cs, 0, sep);
    proof {
        assert(cs@.skip(0) =~= s@);
    }
    if n == 1 || k >= len {
        out.push(s);
        proof {
            assert(slices(out@) =~= seq![s@]);
        }
        out
    } else {
        out.push(s.substring_char(0, k));
        let rest = s.substring_char(k + 1, len);
        let mut tail = splitn(rest, n - 1, sep);
        proof {
            assert(s@.subrange(0, k as int) =~= s@.take(k as int));
            assert(s@.subrange(k as int + 1, len as int) =~= s@.skip(k as int + 1));
        }
        let ghost head = out@;
        let ghost rest_parts = tail@;
        out.append(&mut tail);
        proof {
            assert(out@ =~= head + rest_parts);
            assert(slices(out@) =~= slices(head) + slices(rest_parts));
            assert(slices(head) =~= seq![s@.take(k as int)]);
        }
        out
    }
}

/// The `i`-th of `parts`, empty where there are fewer.
pub fn part_of<'a>(parts: &Vec<&'a str>, i: usize) -> (r: &'a str)
    ensures
        r@ == part(slices(parts@), i as int),
{
    if i < parts.len() {
        parts[i]
    } else {
        let e: &'a str = "";
        proof {
            reveal_strlit("");
            assert(e@ =~= Seq::<char>::empty());
        }
        e
    }
}

/// A line without the carriage return at its end.
pub open spec fn without_cr(s: Seq<char>) -> Seq<char> {
    if s.len() > 0 && s.last() == '\r' {
        s.drop_last()
    } else {
        s
    }
}

/// The lines of a text: they end at `\n` or `\r\n`, and a final line end starts no
/// further line.
pub open spec fn lines(s: Seq<char>) -> Seq<Seq<char>>
    decreases s.len(),
    via lines_decreases
{
    let k = index_of(s, '\n');
    if s.len() == 0 {
        seq![]
    } else if k >= s.len() {
        seq![s]
    } else {
        seq![without_cr(s.take(k))] + lines(s.skip(k + 1))
    }
}

#[via_fn]
proof fn lines_decreases(s: Seq<char>) {
    lemma_index_of(s, '\n');
}

/// Splits a text into its [`lines`].
pub fn lines_of<'a>(s: &'a str) -> (r: Vec<&'a str>)
    ensures
        slices(r@) == lines(s@),
{
    let cs = chars_of(s);
    let len: usize = cs.len();
    let mut out: Vec<&'a str> = Vec::new();
    let mut from: usize = 0;
    proof {
        assert(s@.skip(0) =~= s@);
        assert(slices(out@) + lines(s@.skip(0)) =~= lines(s@));
    }
    while from < len
        invariant
            from <= len,
            len == cs@.len(),
            cs@ == s@,
            slices(out@) + lines(s@.skip(from as int)) == lines(s@),
        decreases len - from,
    {
        let k: usize = index_from(&cs, from, '\n');
        let ghost before = out@;
        let ghost rest = s@.skip(from as int);
        if k >= len {
            let line = s.substring_char(from, len);
            out.push(line);
            from = len;
            proof {
                assert(line@ =~= rest);
                assert(lines(rest) == seq![rest]);
                assert(slices(out@) =~= slices(before).push(rest));
                assert(lines(s@.skip(len as int)) =~= Seq::<Seq<char>>::empty());
                assert(slices(out@) + lines(s@.skip(len as int)) =~= slices(before) + lines(rest));
            }
        } else {
            let mut end: usize = k;
            if end > from && cs[end - 1] == '\r' {
                end -= 1;
            }
            let line = s.substring_char(from, end);
            out.push(line);
            proof {
                let j = k - from;
                assert(rest.take(j) =~= s@.subrange(from as int, k as int));
                assert(line@ =~= without_cr(rest.take(j)));
                assert(rest.skip(j + 1) =~= s@.skip(k as int + 1));
                assert(lines(rest) == seq![without_cr(rest.take(j))] + lines(rest.skip(j + 1)));
                assert(slices(out@) =~= slices(before).push(line@));
                assert(slices(out@) + lines(s@.skip(k as int + 1)) =~= slices(before) + lines(rest));
            }
            from = k + 1;
        }
    }
    proof {
        assert(lines(s@.skip(from as int)) =~= Seq::<Seq<char>>::empty());
        assert(slices(out@) =~= lines(s@));
    }
    out
}

/// Appends a text to a list of texts.
pub fn push_text(v: &mut Vec<String>, s: &str)
    ensures
        texts(final(v)@) == texts(old(v)@).push(s@),
{
    v.push(s.to_owned());
    proof {
        assert(texts(v@) =~= texts(old(v)@).push(s@));
    }
}

/// Makes owned texts of borrowed ones.
pub fn owned(parts: Vec<&str>) -> (r: Vec<String>)
    ensures
        texts(r@) == slices(parts@),
{
    let mut out: Vec<String> = Vec::new();
    let mut i: usize = 0;
    proof {
        assert(texts(out@) =~= slices(parts@.take(0)));
    }
    while i < parts.len()
        invariant
            i <= parts.len(),
            texts(out@) == slices(parts@.take(i as int)),
        decreases parts.len() - i,
    {
        push_text(&mut out, parts[i]);
        proof {
            assert(slices(parts@.take(i as int + 1)) =~= slices(parts@.take(i as int)).push(parts@[i as int]@));
        }
        i += 1;
    }
    proof {
        assert(parts@.take(i as int) =~= parts@);
    }
    out
}

/// Appends a list of texts to another.
pub fn extend_texts(v: &mut Vec<String>, more: Vec<String>)
    ensures
        texts(final(v)@) == texts(old(v)@) + texts(more@),
{
    let ghost before = v@;
    let ghost added = more@;
    let mut more = more;
    v.append(&mut more);
    proof {
        assert(v@ =~= before + added);
        assert(texts(v@) =~= texts(before) + texts(added));
    }
}

/// Joins two texts.
pub fn cat(a: &str, b: &str) -> (r: String)
    ensures
        r@ == a@ + b@,
{
    let mut out = a.to_owned();
    out.append(b);
    out
}

/// Joins three texts.
pub fn cat3(a: &str, b: &str, c: &str) -> (r: String)
    ensures
        r@ == a@ + b@ + c@,
{
    let mut out = cat(a, b);
    out.append(c);
    out
}

/// Joins four texts.
pub fn cat4(a: &str, b: &str, c: &str, d: &str) -> (r: String)
    ensures
        r@ == a@ + b@ + c@ + d@,
{
    let mut out = cat3(a, b, c);
    out.append(d);
    out
}

/// Joins five texts.
pub fn cat5(a: &str, b: &str, c: &str, d: &str, e: &str) -> (r: String)
    ensures
        r@ == a@ + b@ + c@ + d@ + e@,
{
    let mut out = cat4(a, b, c, d);
    out.append(e);
    out
}

/// A list of texts with `sep` between two.
pub open spec fn listed(parts: Seq<Seq<char>>, sep: Seq<char>) -> Seq<char>
    decreases parts.len(),
{
    if parts.len() == 0 {
        seq![]
    } else if parts.len() == 1 {
        parts[0]
    } else {
        listed(parts.drop_last(), sep) + sep + parts.last()
    }
}

/// Makes one text of a list, with `sep` between two.
pub fn list_texts(parts: &Vec<String>, sep: &str) -> (r: String)
    ensures
        r@ == listed(texts(parts@), sep@),
{
    let mut out = String::new();
    let mut i: usize = 0;
    proof {
        assert(texts(parts@).take(0) =~= Seq::<Seq<char>>::empty());
        assert(out@ =~= listed(texts(parts@).take(0), sep@));
    }
    while i < parts.len()
        invariant
            i <= parts.len(),
            out@ == listed(texts(parts@).take(i as int), sep@),
        decreases parts.len() - i,
    {
        proof {
            let t = texts(parts@).take(i as int + 1);
            assert(t.drop_last() =~= texts(parts@).take(i as int));
            assert(t.last() == parts@[i as int]@);
        }
        if i == 0 {
            out = parts[i].clone();
        } else {
            out = cat3(out.as_str(), sep, parts[i].as_str());
        }
        i += 1;
    }
    proof {
        assert(texts(parts@).take(i as int) =~= texts(parts@));
    }
    out
}

/// Copies an optional text.
pub fn copy_opt(v: &Option<String>) -> (r: Option<String>)
    ensures
        opt_text(r) == opt_text(*v),
{
    match v {
        Some(s) => Some(s.clone()),
        None => None,
    }
}

/// Whether two optional texts are the same.
pub fn opt_eq(a: &Option<String>, b: &Option<String>) -> (r: bool)
    ensures
        r == (opt_text(*a) == opt_text(*b)),
{
    match (a, b) {
        (Some(x), Some(y)) => text_eq(x.as_str(), y.as_str()),
        (None, None) => true,
        _ => false,
    }
}

/// Copies a list of texts.
pub fn copy_texts(v: &Vec<String>) -> (r: Vec<String>)
    ensures
        texts(r@) == texts(v@),
{
    let mut out: Vec<String> = Vec::new();
    let mut i: usize = 0;
    while i < v.len()
        invariant
            i <= v.len(),
            texts(out@) == texts(v@.take(i as int)),
        decreases v.len() - i,
    {
        let ghost seen = out@;
        out.push(v[i].clone());
        proof {
            assert(texts(out@) =~= texts(seen).push(v@[i as int]@));
            assert(texts(v@.take(i as int + 1)) =~= texts(v@.take(i as int)).push(v@[i as int]@));
        }
        i += 1;
    }
    proof {
        assert(v@.take(i as int) =~= v@);
    }
    out
}

/// White space throughout.
pub open spec fn all_space(s: Seq<char>) -> bool {
    forall|i: int| 0 <= i < s.len() ==> is_space(#[trigger] s[i])
}

/// White space is what Unicode calls so.
pub proof fn white_space_is_unicodes(c: char)
    ensures
        is_space(c) <==> c == '\t' || c == '\n' || c == '\u{b}' || c == '\u{c}' || c == '\r' || c == ' ' || c == '\u{85}'
            || c == '\u{a0}' || c == '\u{1680}' || ('\u{2000}' <= c && c <= '\u{200a}') || c == '\u{2028}' || c
            == '\u{2029}' || c == '\u{202f}' || c == '\u{205f}' || c == '\u{3000}',
{
}

proof fn lemma_trim_start_cut(s: Seq<char>) -> (k: int)
    ensures
        0 <= k <= s.len(),
        trim_start(s) == s.skip(k),
        all_space(s.take(k)),
    decreases s.len(),
{
    if s.len() > 0 && is_space(s[0]) {
        let k = lemma_trim_start_cut(s.drop_first());
        assert(s.skip(k + 1) =~= s.drop_first().skip(k));
        assert forall|i: int| 0 <= i < k + 1 implies is_space(#[trigger] s.take(k + 1)[i]) by {
            if i > 0 {
                assert(s.drop_first().take(k)[i - 1] == s[i]);
            }
        }
        k + 1
    } else {
        assert(s.skip(0) =~= s);
        0
    }
}

proof fn lemma_trim_end_cut(s: Seq<char>) -> (k: int)
    ensures
        0 <= k <= s.len(),
        trim_end(s) == s.take(k),
        all_space(s.skip(k)),
    decreases s.len(),
{
    if s.len() > 0 && is_space(s.last()) {
        let k = lemma_trim_end_cut(s.drop_last());
        assert(s.take(k) =~= s.drop_last().take(k));
        assert forall|i: int| 0 <= i < s.len() - k implies is_space(#[trigger] s.skip(k)[i]) by {
            if i < s.len() - k - 1 {
                assert(s.drop_last().skip(k)[i] == s[k + i]);
            }
        }
        k
    } else {
        assert(s.take(s.len() as int) =~= s);
        s.len() as int
    }
}

/// Trimming takes white space away, at both ends and nothing else, and all of it there.
pub proof fn trimming_takes_white_space_only(s: Seq<char>) -> (r: (Seq<char>, Seq<char>))
    ensures
        s == r.0 + trimmed(s) + r.1,
        all_space(r.0),
        all_space(r.1),
        trimmed(s).len() > 0 ==> !is_space(trimmed(s)[0]) && !is_space(trimmed(s).last()),
{
    let a = lemma_trim_start_cut(s);
    let t = trim_start(s);
    let b = lemma_trim_end_cut(t);
    trimming_is_idempotent(s);
    assert(s =~= s.take(a) + t);
    assert(t =~= t.take(b) + t.skip(b));
    assert(s =~= s.take(a) + trimmed(s) + t.skip(b));
    (s.take(a), t.skip(b))
}

/// A text is blank exactly where it is white space throughout.
pub proof fn blank_texts_are_white_space(s: Seq<char>)
    ensures
        is_blank(s) <==> all_space(s),
{
    let (a, b) = trimming_takes_white_space_only(s);
    let t = trimmed(s);
    if is_blank(s) {
        assert forall|i: int| 0 <= i < s.len() implies is_space(#[trigger] s[i]) by {
            if i < a.len() {
                assert(s[i] == a[i]);
            } else {
                assert(s[i] == b[i - a.len()]);
            }
        }
    } else if all_space(s) {
        assert(s[a.len() as int] == t[0]);
    }
}

/// Changing the case changes ASCII letters, to the letter 32 places on, and nothing else.
pub proof fn letters_change_their_case_alone(s: Seq<char>, i: int)
    requires
        0 <= i < s.len(),
    ensures
        lowered(s).len() == s.len(),
        uppered(s).len() == s.len(),
        'A' <= s[i] <= 'Z' ==> lowered(s)[i] as u32 == s[i] as u32 + 32,
        !('A' <= s[i] <= 'Z') ==> lowered(s)[i] == s[i],
        'a' <= s[i] <= 'z' ==> uppered(s)[i] as u32 == s[i] as u32 - 32,
        !('a' <= s[i] <= 'z') ==> uppered(s)[i] == s[i],
{
}

/// Two texts are alike but for case where each letter of one is that of the other, in
/// either case: every text is like itself in capitals and in small letters.
pub proof fn case_is_ignored(a: Seq<char>, b: Seq<char>, c: Seq<char>)
    ensures
        same_ignoring_case(a, lowered(a)),
        same_ignoring_case(a, uppered(a)),
        same_ignoring_case(a, b) <==> same_ignoring_case(b, a),
        same_ignoring_case(a, b) && same_ignoring_case(b, c) ==> same_ignoring_case(a, c),
        same_ignoring_case(a, b) ==> a.len() == b.len(),
        same_ignoring_case(a, b) <==> lowered(a) == lowered(b),
{
    assert(lowered(lowered(a)) =~= lowered(a));
    assert(lowered(uppered(a)) =~= lowered(a));
    assert(lowered(a).len() == a.len());
    assert(lowered(b).len() == b.len());
}

/// A text that is put together starts with its first piece, holds every piece, and gives
/// the rest back once the first piece is taken off.
pub proof fn pieces_are_found(a: Seq<char>, b: Seq<char>, c: Seq<char>)
    ensures
        has_prefix(a + b, a),
        after_prefix(a + b, a) == Some(b),
        stands_at(a + b + c, b, a.len() as int),
        has_part(a + b + c, b),
{
    assert((a + b).take(a.len() as int) =~= a);
    assert((a + b).skip(a.len() as int) =~= b);
    assert((a + b + c).subrange(a.len() as int, (a.len() + b.len()) as int) =~= b);
    assert(stands_at(a + b + c, b, a.len() as int));
}

/// What a text starts with or holds is in it: the text falls apart around it.
pub proof fn found_pieces_are_there(s: Seq<char>, p: Seq<char>) -> (i: int)
    requires
        has_part(s, p),
    ensures
        0 <= i,
        i + p.len() <= s.len(),
        s == s.take(i) + p + s.skip(i + p.len()),
        after_prefix(s, p) matches Some(rest) ==> s == p + rest,
{
    let i = choose|i: int| #[trigger] stands_at(s, p, i);
    assert(s =~= s.take(i) + s.subrange(i, i + p.len()) + s.skip(i + p.len()));
    if has_prefix(s, p) {
        assert(s =~= s.take(p.len() as int) + s.skip(p.len() as int));
    }
    i
}

/// Lines end at line breaks, of one character or of two; the last one may go without.
pub proof fn lines_come_apart(first: Seq<char>, rest: Seq<char>)
    requires
        !first.contains('\n'),
    ensures
        lines(first + seq!['\n'] + rest) == seq![without_cr(first)] + lines(rest),
        first.len() > 0 ==> lines(first) == seq![first],
        without_cr(first.push('\r')) == first,
        first.len() > 0 && first.last() != '\r' ==> without_cr(first) == first,
{
    let s = first + seq!['\n'] + rest;
    lemma_index_of(s, '\n');
    lemma_index_of(first, '\n');
    assert(s[first.len() as int] == '\n');
    assert forall|j: int| 0 <= j < first.len() implies s[j] != '\n' by {
        assert(first.contains(first[j]));
    }
    assert(index_of(s, '\n') == first.len());
    assert(s.take(first.len() as int) =~= first);
    assert(s.skip(first.len() as int + 1) =~= rest);
    if index_of(first, '\n') < first.len() {
        assert(first.contains(first[index_of(first, '\n')]));
    }
    assert(first.push('\r').drop_last() =~= first);
}

/// Texts are listed in their order with the separator between each two.
pub proof fn lists_are_separated(parts: Seq<Seq<char>>, last: Seq<char>, sep: Seq<char>)
    ensures
        listed(seq![last], sep) == last,
        parts.len() > 0 ==> listed(parts.push(last), sep) == listed(parts, sep) + sep + last,
{
    assert(parts.push(last).drop_last() =~= parts);
}

} // verus!
