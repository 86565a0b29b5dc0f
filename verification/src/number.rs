//! Numbers as text: decimal and hexadecimal notation, both ways, and words between
//! white space.

use crate::text::{chars_of, is_space, slices, space};
use vstd::prelude::*;
use vstd::string::*;

verus! {

broadcast use vstd::string::group_string_axioms;

/// Whether `c` is one of the ten ASCII digits.
pub open spec fn is_digit(c: char) -> bool {
    '0' <= c <= '9'
}

/// The value of a digit.
pub open spec fn digit_value(c: char) -> nat {
    (c as u32 - '0' as u32) as nat
}

/// The digit of a value below ten.
pub open spec fn digit_char(d: nat) -> char {
    (('0' as u8) + d) as char
}

/// Whether every character is a digit.
pub open spec fn all_digits(s: Seq<char>) -> bool {
    forall|i: int| 0 <= i < s.len() ==> is_digit(#[trigger] s[i])
}

/// The number that a run of digits denotes.
pub open spec fn digits_value(s: Seq<char>) -> nat
    decreases s.len(),
{
    if s.len() == 0 {
        0
    } else {
        10 * digits_value(s.drop_last()) + digit_value(s.last())
    }
}

/// The number that a text denotes: digits, at least one, with an optional `+` in
/// front.
pub open spec fn parsed(s: Seq<char>) -> Option<nat> {
    let body = if s.len() > 0 && s[0] == '+' {
        s.drop_first()
    } else {
        s
    };
    if body.len() > 0 && all_digits(body) {
        Some(digits_value(body))
    } else {
        None
    }
}

/// The number that a text denotes, where it is no more than `max`.
pub open spec fn parsed_up_to(s: Seq<char>, max: nat) -> Option<nat> {
    match parsed(s) {
        Some(v) => if v <= max {
            Some(v)
        } else {
            None
        },
        None => None,
    }
}

proof fn lemma_digits_grow(s: Seq<char>, i: int)
    requires
        0 <= i <= s.len(),
    ensures
        digits_value(s.take(i)) <= digits_value(s),
    decreases s.len() - i,
{
    if i == s.len() {
        assert(s.take(i) =~= s);
    } else {
        lemma_digits_grow(s, i + 1);
        assert(s.take(i + 1).drop_last() =~= s.take(i));
    }
}

/// Reads an unsigned number of at most `max`.
pub fn parse_up_to(s: &str, max: u64) -> (r: Option<u64>)
    ensures
        match r {
            Some(v) => parsed_up_to(s@, max as nat) == Some(v as nat),
            None => parsed_up_to(s@, max as nat) is None,
        },
{
    let cs = chars_of(s);
    let n: usize = cs.len();
    let mut from: usize = 0;
    if n > 0 && cs[0] == '+' {
        from = 1;
    }
    let ghost body = s@.skip(from as int);
    proof {
        assert(s@.skip(0) =~= s@);
        if from == 1 {
            assert(s@.skip(1) =~= s@.drop_first());
        }
    }
    if from == n {
        return None;
    }
    let mut i: usize = from;
    let mut value: u64 = 0;
    proof {
        assert(body.take(0) =~= Seq::<char>::empty());
    }
    while i < n
        invariant
            from <= i <= n,
            n == cs@.len(),
            cs@ == s@,
            n > from,
            body == s@.skip(from as int),
            from == 1 ==> s@[0] == '+' && body == s@.drop_first(),
            from == 0 ==> s@[0] != '+' && body == s@,
            from <= 1,
            value <= max,
            value == digits_value(body.take(i - from)),
            forall|j: int| 0 <= j < i - from ==> is_digit(#[trigger] body[j]),
        decreases n - i,
    {
        let c = cs[i];
        proof {
            assert(body[i - from] == c);
        }
        if !('0' <= c && c <= '9') {
            proof {
                assert(!is_digit(body[i - from]));
            }
            return None;
        }
        let d: u64 = (c as u32 - '0' as u32) as u64;
        let next: u128 = 10 * (value as u128) + d as u128;
        proof {
            let k = i - from;
            assert(body.take(k + 1).drop_last() =~= body.take(k));
            assert(body.take(k + 1).last() == c);
            assert(next == digits_value(body.take(k + 1)));
            lemma_digits_grow(body, k + 1);
        }
        if next > max as u128 {
            return None;
        }
        value = next as u64;
        i += 1;
    }
    proof {
        assert(body.take(n - from) =~= body);
    }
    Some(value)
}

/// Reads a `u8` in decimal.
pub fn parse_u8(s: &str) -> (r: Option<u8>)
    ensures
        match r {
            Some(v) => parsed_up_to(s@, 0xff) == Some(v as nat),
            None => parsed_up_to(s@, 0xff) is None,
        },
{
    match parse_up_to(s, 0xff) {
        Some(v) => Some(v as u8),
        None => None,
    }
}

/// Reads a `u16` in decimal.
pub fn parse_u16(s: &str) -> (r: Option<u16>)
    ensures
        match r {
            Some(v) => parsed_up_to(s@, 0xffff) == Some(v as nat),
            None => parsed_up_to(s@, 0xffff) is None,
        },
{
    match parse_up_to(s, 0xffff) {
        Some(v) => Some(v as u16),
        None => None,
    }
}

/// A `u32` in decimal, where the text is one.
pub open spec fn number_in(s: Seq<char>) -> Option<u32> {
    match parsed_up_to(s, 0xffff_ffff) {
        Some(v) => Some(v as u32),
        None => None,
    }
}

/// Reads a `u32` in decimal.
pub fn parse_u32(s: &str) -> (r: Option<u32>)
    ensures
        match r {
            Some(v) => parsed_up_to(s@, 0xffff_ffff) == Some(v as nat),
            None => parsed_up_to(s@, 0xffff_ffff) is None,
        },
{
    match parse_up_to(s, 0xffff_ffff) {
        Some(v) => Some(v as u32),
        None => None,
    }
}

/// A number in decimal.
pub open spec fn decimal(n: nat) -> Seq<char>
    decreases n,
{
    if n < 10 {
        seq![digit_char(n)]
    } else {
        decimal(n / 10).push(digit_char(n % 10))
    }
}

/// A number in decimal, with a minus sign where it is negative.
pub open spec fn signed_decimal(n: int) -> Seq<char> {
    if n < 0 {
        seq!['-'] + decimal((-n) as nat)
    } else {
        decimal(n as nat)
    }
}

proof fn lemma_digit_char(d: nat)
    requires
        d < 10,
    ensures
        is_digit(digit_char(d)),
        digit_value(digit_char(d)) == d,
{
}

/// Reading a number's decimal notation gives the number back.
pub proof fn decimal_reads_back(n: nat)
    ensures
        all_digits(decimal(n)),
        decimal(n).len() > 0,
        digits_value(decimal(n)) == n,
        parsed(decimal(n)) == Some(n),
    decreases n,
{
    if n < 10 {
        lemma_digit_char(n);
        assert(decimal(n).drop_last() =~= Seq::<char>::empty());
        assert(decimal(n).last() == digit_char(n));
        assert(digits_value(Seq::<char>::empty()) == 0);
    } else {
        decimal_reads_back(n / 10);
        lemma_digit_char(n % 10);
        assert(decimal(n).drop_last() =~= decimal(n / 10));
        assert(decimal(n).last() == digit_char(n % 10));
        assert forall|i: int| 0 <= i < decimal(n).len() implies is_digit(#[trigger] decimal(n)[i]) by {
            if i < decimal(n / 10).len() {
                assert(decimal(n)[i] == decimal(n / 10)[i]);
            }
        }
    }
    assert(is_digit(decimal(n)[0]));
}

/// Writes a number in decimal.
pub fn to_decimal(n: u64) -> (r: String)
    ensures
        r@ == decimal(n as nat),
    decreases n,
{
    let d: u8 = (n % 10) as u8;
    let c: char = (48 + d) as char;
    if n < 10 {
        let mut out = String::new();
        out.push(c);
        proof {
            assert(out@ =~= seq![digit_char(n as nat)]);
        }
        out
    } else {
        let mut out = to_decimal(n / 10);
        out.push(c);
        out
    }
}

/// Writes a signed number in decimal.
pub fn to_signed_decimal(n: i64) -> (r: String)
    ensures
        r@ == signed_decimal(n as int),
{
    if n < 0 {
        let m: u64 = if n == i64::MIN {
            0x8000_0000_0000_0000
        } else {
            (-n) as u64
        };
        let mut out = String::new();
        out.push('-');
        proof {
            assert(out@ =~= seq!['-']);
        }
        out.append(to_decimal(m).as_str());
        out
    } else {
        to_decimal(n as u64)
    }
}

/// The lower-case hexadecimal digit of a value below sixteen.
pub open spec fn hex_char(d: nat) -> char {
    if d < 10 {
        digit_char(d)
    } else {
        (('a' as u8) + (d - 10)) as char
    }
}

/// The last `width` hexadecimal digits of a number, with zeros in front.
pub open spec fn hex_padded(n: nat, width: nat) -> Seq<char>
    decreases width,
{
    if width == 0 {
        seq![]
    } else {
        hex_padded(n / 16, (width - 1) as nat).push(hex_char(n % 16))
    }
}

fn hex_digits(n: u64, width: u8) -> (r: String)
    ensures
        r@ == hex_padded(n as nat, width as nat),
    decreases width,
{
    if width == 0 {
        let out = String::new();
        proof {
            assert(out@ =~= hex_padded(n as nat, 0));
        }
        out
    } else {
        let mut out = hex_digits(n / 16, width - 1);
        let d: u8 = (n % 16) as u8;
        if d < 10 {
            out.push((48 + d) as char);
        } else {
            out.push((97 + (d - 10)) as char);
        }
        out
    }
}

/// A number as sixteen hexadecimal digits.
pub fn to_hex16(n: u64) -> (r: String)
    ensures
        r@ == hex_padded(n as nat, 16),
{
    hex_digits(n, 16)
}

/// The maximal runs without white space in a text, in order.
pub open spec fn words(s: Seq<char>) -> Seq<Seq<char>>
    decreases s.len(),
{
    if s.len() == 0 {
        seq![]
    } else if is_space(s.last()) {
        words(s.drop_last())
    } else {
        let w = words(s.drop_last());
        if s.len() > 1 && !is_space(s[s.len() - 2]) {
            w.drop_last().push(w.last().push(s.last()))
        } else {
            w.push(seq![s.last()])
        }
    }
}

/// The [`words`] of a text.
pub fn words_of<'a>(s: &'a str) -> (r: Vec<&'a str>)
    ensures
        slices(r@) == words(s@),
{
    let cs = chars_of(s);
    let n: usize = cs.len();
    let mut out: Vec<&'a str> = Vec::new();
    let mut i: usize = 0;
    proof {
        assert(s@.take(0) =~= Seq::<char>::empty());
        assert(slices(out@) =~= words(s@.take(0)));
    }
    // Each round takes one word, or the white space before the next one.
    while i < n
        invariant
            i <= n,
            n == cs@.len(),
            cs@ == s@,
            slices(out@) == words(s@.take(i as int)),
            0 < i < n && !is_space(s@[i - 1]) ==> is_space(s@[i as int]),
        decreases n - i,
    {
        if space(cs[i]) {
            proof {
                assert(s@.take(i as int + 1).drop_last() =~= s@.take(i as int));
            }
            i += 1;
        } else {
            let from: usize = i;
            let ghost before = words(s@.take(from as int));
            i += 1;
            proof {
                assert(s@.take(i as int).drop_last() =~= s@.take(from as int));
                assert(s@.subrange(from as int, i as int) =~= seq![s@[from as int]]);
            }
            while i < n && !space(cs[i])
                invariant
                    from < i <= n,
                    n == cs@.len(),
                    cs@ == s@,
                    !is_space(s@[i - 1]),
                    words(s@.take(i as int)) == before.push(s@.subrange(from as int, i as int)),
                decreases n - i,
            {
                proof {
                    let t = s@.take(i as int + 1);
                    assert(t.drop_last() =~= s@.take(i as int));
                    let w = words(s@.take(i as int));
                    assert(w.drop_last() =~= before);
                    assert(s@.subrange(from as int, i as int).push(s@[i as int]) =~= s@.subrange(from as int, i as int + 1));
                }
                i += 1;
            }
            let ghost seen = out@;
            out.push(s.substring_char(from, i));
            proof {
                assert(slices(out@) =~= slices(seen).push(s@.subrange(from as int, i as int)));
            }
        }
    }
    proof {
        assert(s@.take(n as int) =~= s@);
    }
    out
}

/// The form in which `{:?}` writes a text.
pub uninterp spec fn debug_text(s: Seq<char>) -> Seq<char>;

/// Writes a text between quotes with its special characters escaped, as `{:?}` of
/// `std::fmt` does. What the escaped form looks like is left to `debug_text`.
#[verifier::external_body]
pub(crate) fn quoted(s: &str) -> (r: String)
    ensures
        r@ == debug_text(s@),
{
    format!("{s:?}")
}

/// Words are what white space leaves apart: a word is not cut, and one more word after
/// white space leaves the others as they are.
pub proof fn words_come_apart(before: Seq<char>, gap: char, word: Seq<char>)
    requires
        is_space(gap),
        word.len() > 0,
        forall|i: int| 0 <= i < word.len() ==> !is_space(#[trigger] word[i]),
    ensures
        words(before.push(gap)) == words(before),
        words(word) == seq![word],
        words(before.push(gap) + word) == words(before).push(word),
    decreases word.len(),
{
    assert(before.push(gap).drop_last() =~= before);
    let s = before.push(gap) + word;
    let last = word.last();
    assert(!is_space(word[word.len() - 1]));
    assert(s.last() == last);
    if word.len() == 1 {
        assert(s.drop_last() =~= before.push(gap));
        assert(s[s.len() - 2] == gap);
        assert(word =~= seq![last]);
        assert(word.drop_last() =~= Seq::<char>::empty());
        assert(words(Seq::<char>::empty()) =~= Seq::<Seq<char>>::empty());
        assert(words(word.drop_last()).push(seq![last]) =~= seq![word]);
        assert(words(word) =~= seq![word]);
    } else {
        let w = word.drop_last();
        assert forall|i: int| 0 <= i < w.len() implies !is_space(#[trigger] w[i]) by {
            assert(w[i] == word[i]);
        }
        words_come_apart(before, gap, w);
        assert(s.drop_last() =~= before.push(gap) + w);
        assert(s[s.len() - 2] == word[word.len() - 2]);
        assert(word =~= w.push(last));
        assert(words(before).push(w).drop_last() =~= words(before));
        assert(seq![w].drop_last() =~= Seq::<Seq<char>>::empty());
        assert(words(word) =~= seq![word]);
    }
}

/// What is read as a number is digits, after a sign at most, and each digit counts ten
/// times what stands to its right.
pub proof fn digits_count_by_tens(s: Seq<char>, c: char)
    requires
        is_digit(c),
        s.len() > 0,
        all_digits(s),
    ensures
        parsed(s) matches Some(v) && parsed(s.push(c)) == Some((10 * v + (c as u32 - '0' as u32)) as nat),
        parsed(seq!['+'] + s) == parsed(s),
        parsed(seq![c]) == Some((c as u32 - '0' as u32) as nat),
{
    let t = s.push(c);
    assert(is_digit(s[0]));
    assert(t[0] == s[0]);
    assert(t.drop_last() =~= s);
    assert forall|i: int| 0 <= i < t.len() implies is_digit(#[trigger] t[i]) by {
        if i < s.len() {
            assert(t[i] == s[i]);
        }
    }
    assert((seq!['+'] + s).drop_first() =~= s);
    assert(seq![c].drop_last() =~= Seq::<char>::empty());
    reveal_with_fuel(digits_value, 2);
}

/// Nothing else is read as a number, and nothing that is too large.
pub proof fn other_texts_are_no_numbers(s: Seq<char>, i: int, max: nat)
    ensures
        s.len() == 0 ==> parsed(s) is None,
        0 < i < s.len() && !is_digit(s[i]) ==> parsed(s) is None,
        s.len() > 0 && !is_digit(s[0]) && s[0] != '+' ==> parsed(s) is None,
        parsed_up_to(s, max) matches Some(v) ==> v <= max && parsed(s) == Some(v),
        parsed_up_to(s, max) is None <==> (parsed(s) is None || parsed(s)->0 > max),
{
    if 0 < i < s.len() && s[0] == '+' {
        assert(s.drop_first()[i - 1] == s[i]);
    }
}

/// A negative number is printed with its sign before its digits, any other as its digits.
pub proof fn signs_stand_first(n: nat)
    ensures
        signed_decimal(n as int) == decimal(n),
        n > 0 ==> signed_decimal(-(n as int)) == seq!['-'] + decimal(n),
{
}

/// A digit of a hexadecimal number counts sixteen times the one to its right, and the
/// number is as wide as it is asked for.
pub proof fn hexadecimals_are_padded(n: nat, width: nat)
    ensures
        hex_padded(n, width).len() == width,
        width > 0 ==> hex_padded(n, width).drop_last() == hex_padded(n / 16, (width - 1) as nat),
        width > 0 && n % 16 < 10 ==> hex_padded(n, width).last() as u32 == '0' as u32 + n % 16,
        width > 0 && n % 16 >= 10 ==> hex_padded(n, width).last() as u32 == 'a' as u32 + n % 16 - 10,
    decreases width,
{
    if width > 0 {
        hexadecimals_are_padded(n / 16, (width - 1) as nat);
        assert(hex_padded(n, width).drop_last() =~= hex_padded(n / 16, (width - 1) as nat));
    }
}

} // verus!
