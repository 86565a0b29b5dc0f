//! What `iw` tells of radios, interfaces and links.

use crate::error::{ErrorView, PluginError};
use crate::network::nmcli_dispatch::{dispatched, Strategy};
use crate::network::transcript::{Halt, Mark, Progress, Reply, Run};
use crate::number::{decimal, decimal_reads_back, is_digit, number_in, parse_u32, signed_decimal, to_signed_decimal, words, words_of};
use crate::text::{
    after_prefix, cat, cat4, cat5, chars_of, contains, eq_ignoring_case, find, has_part, has_prefix, is_blank, lines,
    is_space, lemma_trim_fixed, lines_of, list_texts, listed, lowered, opt_text, owned, pieces_are_found, push_text, same_ignoring_case, slices, stands_at,
    starts_with, strip_prefix, text_eq, texts, to_lower, trim, trim_start, trim_start_of, trimmed,
};
use crate::text_map::TextMap;
use vstd::prelude::*;
use vstd::string::*;

verus! {

broadcast use vstd::string::group_string_axioms;

/// The bands that a radio supports.
#[derive(Debug, Clone, Copy, PartialEq, Eq, Structural)]
pub struct PhyBandSupport {
    /// 2.4 GHz.
    pub ghz_2_4: bool,
    /// 5 GHz.
    pub ghz_5: bool,
    /// 6 GHz.
    pub ghz_6: bool,
}

impl Default for PhyBandSupport {
    fn default() -> (r: Self)
        ensures
            r == no_bands(),
    {
        PhyBandSupport { ghz_2_4: false, ghz_5: false, ghz_6: false }
    }
}

/// No band at all.
pub open spec fn no_bands() -> PhyBandSupport {
    PhyBandSupport { ghz_2_4: false, ghz_5: false, ghz_6: false }
}

/// One for a band that is supported.
pub open spec fn one_if(b: bool) -> int {
    if b {
        1
    } else {
        0
    }
}

impl PhyBandSupport {
    /// How many bands are supported.
    pub fn band_count(&self) -> (r: u32)
        ensures
            r == one_if(self.ghz_2_4) + one_if(self.ghz_5) + one_if(self.ghz_6),
    {
        let mut n: u32 = 0;
        if self.ghz_2_4 {
            n += 1;
        }
        if self.ghz_5 {
            n += 1;
        }
        if self.ghz_6 {
            n += 1;
        }
        n
    }

    /// Whether a band above 2.4 GHz is supported.
    pub fn has_fast_band(&self) -> (r: bool)
        ensures
            r == (self.ghz_5 || self.ghz_6),
    {
        self.ghz_5 || self.ghz_6
    }
}

/// Whether a line is indented.
pub open spec fn indented(line: Seq<char>) -> bool {
    line.len() > 0 && (line[0] == ' ' || line[0] == '\t')
}

/// How far a line is indented: how many spaces and tabs it starts with.
pub open spec fn indent(line: Seq<char>) -> nat
    decreases line.len(),
{
    if indented(line) {
        1 + indent(line.drop_first())
    } else {
        0
    }
}

fn indent_of(line: &str) -> (r: usize)
    ensures
        r == indent(line@),
{
    let n: usize = line.unicode_len();
    let mut i: usize = 0;
    proof {
        assert(line@.skip(0) =~= line@);
    }
    while i < n
        invariant
            i <= n,
            n == line@.len(),
            indent(line@) == i + indent(line@.skip(i as int)),
        decreases n - i,
    {
        let c = line.get_char(i);
        proof {
            assert(line@.skip(i as int)[0] == c);
            assert(line@.skip(i as int).drop_first() =~= line@.skip(i as int + 1));
        }
        if c != ' ' && c != '\t' {
            return i;
        }
        i += 1;
    }
    i
}

// Bands.

/// The bands with that of a frequency in MHz.
pub open spec fn with_band(b: PhyBandSupport, mhz: u32) -> PhyBandSupport {
    if 2400 <= mhz <= 2500 {
        PhyBandSupport { ghz_2_4: true, ..b }
    } else if 4900 <= mhz <= 5900 {
        PhyBandSupport { ghz_5: true, ..b }
    } else if 5901 <= mhz <= 7200 {
        PhyBandSupport { ghz_6: true, ..b }
    } else {
        b
    }
}

/// The frequency that a line of a frequency list gives, where it is not disabled.
pub open spec fn usable_freq(line: Seq<char>) -> Option<u32> {
    match after_prefix(trimmed(line), "* "@) {
        Some(rest) => if has_part(rest, "(disabled)"@) || words(rest).len() == 0 {
            None
        } else {
            number_in(words(rest)[0])
        },
        None => None,
    }
}

/// Whether a line ends the list under a heading that is indented so far: it is not
/// indented, or it is the next heading, that is, no item and indented no deeper.
pub open spec fn ends_list(heading: nat, line: Seq<char>) -> bool {
    trimmed(line).len() > 0 && (!indented(line) || (indent(line) <= heading && !has_prefix(trimmed(line), "* "@)))
}

fn is_list_end(heading: usize, line: &str) -> (r: bool)
    ensures
        r == ends_list(heading as nat, line@),
{
    let t = trim(line);
    let depth: usize = indent_of(line);
    !t.is_empty() && (depth == 0 || (depth <= heading && !starts_with(t, "* ")))
}

/// How far the heading of the frequency list is indented within which the lines end,
/// where they end within one, and the bands seen so far.
pub open spec fn bands_after(ls: Seq<Seq<char>>) -> (Option<nat>, PhyBandSupport)
    decreases ls.len(),
{
    if ls.len() == 0 {
        (None, no_bands())
    } else {
        let (inside, b) = bands_after(ls.drop_last());
        let line = ls.last();
        if has_prefix(trimmed(line), "Frequencies:"@) {
            (Some(indent(line)), b)
        } else {
            match inside {
                None => (None, b),
                Some(heading) => if ends_list(heading, line) {
                    (None, b)
                } else {
                    match usable_freq(line) {
                        Some(mhz) => (inside, with_band(b, mhz)),
                        None => (inside, b),
                    }
                },
            }
        }
    }
}

fn usable_freq_of(line: &str) -> (r: Option<u32>)
    ensures
        r == usable_freq(line@),
{
    match strip_prefix(trim(line), "* ") {
        Some(rest) => {
            if contains(rest, "(disabled)") {
                return None;
            }
            let ws = words_of(rest);
            if ws.len() == 0 {
                return None;
            }
            proof {
                assert(slices(ws@)[0] == ws@[0]@);
            }
            parse_u32(ws[0])
        },
        None => None,
    }
}

/// How far a heading is indented, as a number without a bound.
pub open spec fn heading_view(heading: Option<usize>) -> Option<nat> {
    match heading {
        Some(n) => Some(n as nat),
        None => None,
    }
}

/// The bands in the description of a radio: those with a frequency that is not
/// disabled.
pub fn parse_phy_band_support(raw: &str) -> (r: PhyBandSupport)
    ensures
        r == bands_after(lines(raw@)).1,
{
    let ls = lines_of(raw);
    let mut bands = PhyBandSupport::default();
    let mut inside: Option<usize> = None;
    let mut i: usize = 0;
    proof {
        assert(slices(ls@).take(0) =~= Seq::<Seq<char>>::empty());
    }
    while i < ls.len()
        invariant
            i <= ls.len(),
            slices(ls@) == lines(raw@),
            (heading_view(inside), bands) == bands_after(slices(ls@).take(i as int)),
        decreases ls.len() - i,
    {
        let line = ls[i];
        proof {
            let t = slices(ls@).take(i as int + 1);
            assert(t.drop_last() =~= slices(ls@).take(i as int));
            assert(t.last() == line@);
        }
        let lt = trim(line);
        if starts_with(lt, "Frequencies:") {
            inside = Some(indent_of(line));
        } else if let Some(heading) = inside {
            if is_list_end(heading, line) {
                inside = None;
            } else if let Some(mhz) = usable_freq_of(line) {
                if 2400 <= mhz && mhz <= 2500 {
                    bands.ghz_2_4 = true;
                } else if 4900 <= mhz && mhz <= 5900 {
                    bands.ghz_5 = true;
                } else if 5901 <= mhz && mhz <= 7200 {
                    bands.ghz_6 = true;
                }
            }
        }
        i += 1;
    }
    proof {
        assert(slices(ls@).take(i as int) =~= slices(ls@));
    }
    bands
}

// Interface modes.

/// Whether the lines end within the list of modes, and the modes seen so far. The
/// list goes up to the first line that is neither blank nor an item.
pub open spec fn modes_after(ls: Seq<Seq<char>>) -> (bool, Seq<Seq<char>>)
    decreases ls.len(),
{
    if ls.len() == 0 {
        (false, seq![])
    } else {
        let (inside, modes) = modes_after(ls.drop_last());
        let line = ls.last();
        let lt = trimmed(line);
        if lt == "Supported interface modes:"@ {
            (true, modes)
        } else if !inside {
            (false, modes)
        } else {
            match after_prefix(lt, "*"@) {
                Some(rest) => (true, modes.push(trimmed(rest))),
                None => (lt.len() == 0, modes),
            }
        }
    }
}

fn parse_modes(raw: &str) -> (r: Vec<String>)
    ensures
        texts(r@) == modes_after(lines(raw@)).1,
{
    let ls = lines_of(raw);
    let mut modes: Vec<String> = Vec::new();
    let mut inside = false;
    let mut i: usize = 0;
    proof {
        assert(slices(ls@).take(0) =~= Seq::<Seq<char>>::empty());
        assert(texts(modes@) =~= Seq::<Seq<char>>::empty());
    }
    while i < ls.len()
        invariant
            i <= ls.len(),
            slices(ls@) == lines(raw@),
            (inside, texts(modes@)) == modes_after(slices(ls@).take(i as int)),
        decreases ls.len() - i,
    {
        let line = ls[i];
        proof {
            let t = slices(ls@).take(i as int + 1);
            assert(t.drop_last() =~= slices(ls@).take(i as int));
            assert(t.last() == line@);
        }
        let lt = trim(line);
        if text_eq(lt, "Supported interface modes:") {
            inside = true;
        } else if inside {
            match strip_prefix(lt, "*") {
                Some(rest) => push_text(&mut modes, trim(rest)),
                None => {
                    if !lt.is_empty() {
                        inside = false;
                    }
                },
            }
        }
        i += 1;
    }
    proof {
        assert(slices(ls@).take(i as int) =~= slices(ls@));
    }
    modes
}

// Interface combinations.

/// The state of reading combinations: how far the heading of the list is indented
/// within which the lines end, where they end within one, the combinations that are
/// complete, and the one that is being read.
#[verifier::ext_equal]
pub struct CombosView {
    pub inside: Option<nat>,
    pub done: Seq<Seq<char>>,
    pub current: Seq<char>,
}

impl CombosView {
    /// With the one being read complete, where there is one.
    pub open spec fn flushed(self) -> CombosView {
        if self.current.len() == 0 {
            self
        } else {
            CombosView { inside: self.inside, done: self.done.push(self.current), current: seq![] }
        }
    }
}

/// The state of reading combinations after the lines. An item may go on over several
/// lines. The list goes up to the next heading, as [`ends_list`] says.
pub open spec fn combos_after(ls: Seq<Seq<char>>) -> CombosView
    decreases ls.len(),
{
    if ls.len() == 0 {
        CombosView { inside: None, done: seq![], current: seq![] }
    } else {
        let s = combos_after(ls.drop_last());
        let line = ls.last();
        let t = trimmed(line);
        if t == "valid interface combinations:"@ {
            CombosView { inside: Some(indent(line)), ..s }
        } else {
            match s.inside {
                None => s,
                Some(heading) => if t.len() == 0 {
                    s
                } else if ends_list(heading, line) {
                    CombosView { inside: None, ..s.flushed() }
                } else {
                    match after_prefix(t, "* "@) {
                        Some(rest) => CombosView { current: rest, ..s.flushed() },
                        None => CombosView { current: s.current.push(' ') + t, ..s },
                    }
                },
            }
        }
    }
}

/// The combinations in the description of a radio.
pub open spec fn combos_in(raw: Seq<char>) -> Seq<Seq<char>> {
    combos_after(lines(raw)).flushed().done
}

/// Reads the combinations in the description of a radio.
pub fn extract_interface_combinations(raw: &str) -> (r: Vec<String>)
    ensures
        texts(r@) == combos_in(raw@),
{
    let ls = lines_of(raw);
    let mut combos: Vec<String> = Vec::new();
    let mut current = String::new();
    let mut inside: Option<usize> = None;
    let mut i: usize = 0;
    proof {
        assert(slices(ls@).take(0) =~= Seq::<Seq<char>>::empty());
        assert(texts(combos@) =~= Seq::<Seq<char>>::empty());
        assert(current@ =~= Seq::<char>::empty());
    }
    while i < ls.len()
        invariant
            i <= ls.len(),
            slices(ls@) == lines(raw@),
            combos_after(slices(ls@).take(i as int)) == (CombosView {
                inside: heading_view(inside),
                done: texts(combos@),
                current: current@,
            }),
        decreases ls.len() - i,
    {
        let line = ls[i];
        proof {
            let t = slices(ls@).take(i as int + 1);
            assert(t.drop_last() =~= slices(ls@).take(i as int));
            assert(t.last() == line@);
        }
        let t = trim(line);
        if text_eq(t, "valid interface combinations:") {
            inside = Some(indent_of(line));
        } else if let Some(heading) = inside {
            if is_list_end(heading, line) {
                if !current.as_str().is_empty() {
                    push_text(&mut combos, current.as_str());
                    current = String::new();
                }
                inside = None;
            } else if !t.is_empty() {
                match strip_prefix(t, "* ") {
                    Some(rest) => {
                        if !current.as_str().is_empty() {
                            push_text(&mut combos, current.as_str());
                        }
                        current = rest.to_owned();
                    },
                    None => {
                        current.push(' ');
                        current.append(t);
                    },
                }
            }
        }
        i += 1;
    }
    proof {
        assert(slices(ls@).take(i as int) =~= slices(ls@));
    }
    if !current.as_str().is_empty() {
        push_text(&mut combos, current.as_str());
    }
    combos
}

/// Whether a character may stand before a mode.
pub open spec fn opens_mode(c: char) -> bool {
    c == ' ' || c == ',' || c == '{' || c == '(' || c == '/'
}

/// Whether a character may stand behind a mode.
pub open spec fn closes_mode(c: char) -> bool {
    c == ' ' || c == ',' || c == '}' || c == ')' || c == '/'
}

/// Whether a word stands by itself at an index.
pub open spec fn token_at(s: Seq<char>, token: Seq<char>, i: int) -> bool {
    stands_at(s, token, i) && (i == 0 || opens_mode(s[i - 1])) && (i + token.len() >= s.len() || closes_mode(
        s[i + token.len()],
    ))
}

/// Whether a word stands by itself in a combination.
pub open spec fn has_token(s: Seq<char>, token: Seq<char>) -> bool {
    exists|i: int| #[trigger] token_at(s, token, i)
}

/// Decides [`has_token`].
pub fn has_mode_token(combo: &str, token: &str) -> (r: bool)
    ensures
        r == has_token(combo@, token@),
{
    let cs = chars_of(combo);
    let n: usize = cs.len();
    let m: usize = token.unicode_len();
    if m > n {
        return false;
    }
    let last: usize = n - m;
    let mut i: usize = 0;
    loop
        invariant
            i <= last,
            last == n - m,
            n == cs@.len(),
            cs@ == combo@,
            m == token@.len(),
            forall|j: int| #[trigger] token_at(combo@, token@, j) ==> i <= j,
        decreases last - i,
    {
        if text_eq(combo.substring_char(i, i + m), token) {
            let before = if i == 0 {
                true
            } else {
                let c = cs[i - 1];
                c == ' ' || c == ',' || c == '{' || c == '(' || c == '/'
            };
            let behind = if i + m >= n {
                true
            } else {
                let c = cs[i + m];
                c == ' ' || c == ',' || c == '}' || c == ')' || c == '/'
            };
            if before && behind {
                proof {
                    assert(token_at(combo@, token@, i as int));
                }
                return true;
            }
        }
        proof {
            assert(!token_at(combo@, token@, i as int));
        }
        if i == last {
            return false;
        }
        i += 1;
    }
}

/// Whether a combination has a client.
pub fn combo_has_managed(combo: &str) -> (r: bool)
    ensures
        r == has_token(combo@, "managed"@),
{
    has_mode_token(combo, "managed")
}

/// Whether a combination has an access point.
pub fn combo_has_ap(combo: &str) -> (r: bool)
    ensures
        r == has_token(combo@, "AP"@),
{
    has_mode_token(combo, "AP")
}

/// The digits at the start of a text.
pub open spec fn leading_digits(s: Seq<char>) -> Seq<char>
    decreases s.len(),
{
    if s.len() > 0 && is_digit(s[0]) {
        seq![s[0]] + leading_digits(s.drop_first())
    } else {
        seq![]
    }
}

fn leading_digits_of(s: &str) -> (r: &str)
    ensures
        r@ == leading_digits(s@),
{
    let cs = chars_of(s);
    let n: usize = cs.len();
    let mut i: usize = 0;
    proof {
        assert(s@.skip(0) =~= s@);
        assert(s@.take(0) + leading_digits(s@) =~= leading_digits(s@));
    }
    while i < n && '0' <= cs[i] && cs[i] <= '9'
        invariant
            i <= n,
            n == cs@.len(),
            cs@ == s@,
            leading_digits(s@) == s@.take(i as int) + leading_digits(s@.skip(i as int)),
        decreases n - i,
    {
        proof {
            let rest = s@.skip(i as int);
            assert(rest.drop_first() =~= s@.skip(i as int + 1));
            assert(s@.take(i as int) + leading_digits(rest) =~= s@.take(i as int + 1) + leading_digits(
                s@.skip(i as int + 1),
            ));
        }
        i += 1;
    }
    proof {
        assert(leading_digits(s@.skip(i as int)) =~= Seq::<char>::empty());
        assert(s@.subrange(0, i as int) =~= leading_digits(s@));
    }
    s.substring_char(0, i)
}

/// Whether a text stands first at an index.
pub open spec fn first_at(s: Seq<char>, needle: Seq<char>, i: int) -> bool {
    stands_at(s, needle, i) && forall|j: int| #[trigger] stands_at(s, needle, j) ==> i <= j
}

/// The number of channels that a combination allows: the number behind the first
/// `#channels <=`.
pub open spec fn channel_count(s: Seq<char>) -> Option<u32> {
    let needle = "#channels <="@;
    if has_part(s, needle) {
        let i = choose|i: int| first_at(s, needle, i);
        number_in(leading_digits(trim_start(s.skip(i + needle.len()))))
    } else {
        None
    }
}

/// Reads the number of channels that a combination allows.
pub fn parse_channel_count(combo: &str) -> (r: Option<u32>)
    ensures
        r == channel_count(combo@),
{
    let needle = "#channels <=";
    let n: usize = combo.unicode_len();
    let m: usize = needle.unicode_len();
    match find(combo, needle) {
        Some(i) => {
            proof {
                assert(first_at(combo@, needle@, i as int));
                let j = choose|j: int| first_at(combo@, needle@, j);
                assert(first_at(combo@, needle@, j));
                assert(j == i as int);
                assert(combo@.subrange(i as int + m as int, n as int) =~= combo@.skip(i as int + m as int));
                assert(stands_at(combo@, needle@, i as int));
            }
            let rest = combo.substring_char(i + m, n);
            parse_u32(leading_digits_of(trim_start_of(rest)))
        },
        None => None,
    }
}

// Radios.

/// What a radio can do.
#[derive(Debug, Clone)]
pub struct PhyCapability {
    /// The radio's name.
    pub phy: String,
    /// Whether it can be client and access point at once.
    pub supports_managed_plus_ap: bool,
    /// The most channels that a combination allows.
    pub max_channels: u32,
    /// The items of its list of modes.
    pub interface_modes: Vec<String>,
    /// The bands that it supports.
    pub bands: PhyBandSupport,
}

/// [`PhyCapability`] over mathematical values.
#[verifier::ext_equal]
pub struct PhyView {
    pub phy: Seq<char>,
    pub supports_managed_plus_ap: bool,
    pub max_channels: u32,
    pub interface_modes: Seq<Seq<char>>,
    pub bands: PhyBandSupport,
}

impl View for PhyCapability {
    type V = PhyView;

    open spec fn view(&self) -> PhyView {
        PhyView {
            phy: self.phy@,
            supports_managed_plus_ap: self.supports_managed_plus_ap,
            max_channels: self.max_channels,
            interface_modes: texts(self.interface_modes@),
            bands: self.bands,
        }
    }
}

/// Whether a combination has both a client and an access point.
pub open spec fn pairs_client_and_ap(combo: Seq<char>) -> bool {
    has_token(combo, "managed"@) && has_token(combo, "AP"@)
}

/// Whether one of the combinations has both.
pub open spec fn any_pairs(combos: Seq<Seq<char>>) -> bool {
    exists|i: int| 0 <= i < combos.len() && pairs_client_and_ap(#[trigger] combos[i])
}

/// The most channels that one of the combinations allows, 0 where none tells.
pub open spec fn most_channels(combos: Seq<Seq<char>>) -> u32
    decreases combos.len(),
{
    if combos.len() == 0 {
        0
    } else {
        let before = most_channels(combos.drop_last());
        match channel_count(combos.last()) {
            Some(n) => if n > before {
                n
            } else {
                before
            },
            None => before,
        }
    }
}

/// What the description of a radio says of it.
pub open spec fn phy_in(name: Seq<char>, raw: Seq<char>) -> PhyView {
    PhyView {
        phy: name,
        supports_managed_plus_ap: any_pairs(combos_in(raw)),
        max_channels: most_channels(combos_in(raw)),
        interface_modes: modes_after(lines(raw)).1,
        bands: bands_after(lines(raw)).1,
    }
}

/// Reads the description of a radio, as [`phy_in`] says.
pub fn parse_phy_info(phy_name: &str, raw: &str) -> (r: PhyCapability)
    ensures
        r@ == phy_in(phy_name@, raw@),
{
    let interface_modes = parse_modes(raw);
    let combos = extract_interface_combinations(raw);
    let mut supports = false;
    let mut most: u32 = 0;
    let mut i: usize = 0;
    let ghost all = texts(combos@);
    proof {
        assert(all.take(0) =~= Seq::<Seq<char>>::empty());
    }
    while i < combos.len()
        invariant
            i <= combos.len(),
            all == texts(combos@),
            supports == any_pairs(all.take(i as int)),
            most == most_channels(all.take(i as int)),
        decreases combos.len() - i,
    {
        let combo = combos[i].as_str();
        let ghost t = all.take(i as int);
        let ghost u = all.take(i as int + 1);
        proof {
            assert(u.drop_last() =~= t);
            assert(u.last() == combo@);
            assert(u =~= t.push(combo@));
            assert forall|j: int| 0 <= j < t.len() implies #[trigger] t[j] == u[j] by {}
            assert(u[i as int] == combo@);
        }
        if combo_has_managed(combo) && combo_has_ap(combo) {
            supports = true;
        }
        proof {
            assert(supports == any_pairs(u)) by {
                if any_pairs(u) && !pairs_client_and_ap(combo@) {
                    let j = choose|j: int| 0 <= j < u.len() && pairs_client_and_ap(#[trigger] u[j]);
                    assert(t[j] == u[j]);
                }
                if any_pairs(t) {
                    let j = choose|j: int| 0 <= j < t.len() && pairs_client_and_ap(#[trigger] t[j]);
                    assert(pairs_client_and_ap(u[j]));
                }
            }
        }
        if let Some(n) = parse_channel_count(combo) {
            if n > most {
                most = n;
            }
        }
        i += 1;
    }
    proof {
        assert(all.take(i as int) =~= all);
    }
    PhyCapability {
        phy: phy_name.to_owned(),
        supports_managed_plus_ap: supports,
        max_channels: most,
        interface_modes,
        bands: parse_phy_band_support(raw),
    }
}

// Interfaces.

/// The radio that a line names, where it starts a radio's section.
pub open spec fn section_phy(line: Seq<char>) -> Option<Seq<char>> {
    match after_prefix(trimmed(line), "phy#"@) {
        Some(rest) => Some("phy"@ + trimmed(rest)),
        None => None,
    }
}

fn section_phy_of(line: &str) -> (r: Option<String>)
    ensures
        opt_text(r) == section_phy(line@),
{
    match strip_prefix(trim(line), "phy#") {
        Some(rest) => Some(cat("phy", trim(rest))),
        None => None,
    }
}

/// The radio of the section in which the lines end, and the radio of each interface.
pub open spec fn phys_after(ls: Seq<Seq<char>>) -> (Option<Seq<char>>, Map<Seq<char>, Seq<char>>)
    decreases ls.len(),
{
    if ls.len() == 0 {
        (None, Map::empty())
    } else {
        let (phy, map) = phys_after(ls.drop_last());
        let line = ls.last();
        match section_phy(line) {
            Some(p) => (Some(p), map),
            None => match (after_prefix(trimmed(line), "Interface "@), phy) {
                (Some(rest), Some(p)) => (phy, map.insert(trimmed(rest), p)),
                _ => (phy, map),
            },
        }
    }
}

/// Reads the radio of each interface.
pub fn parse_iface_to_phy_map(raw: &str) -> (r: TextMap)
    ensures
        r.wf(),
        r@ == phys_after(lines(raw@)).1,
{
    let ls = lines_of(raw);
    let mut map = TextMap::new();
    let mut phy: Option<String> = None;
    let mut i: usize = 0;
    proof {
        assert(slices(ls@).take(0) =~= Seq::<Seq<char>>::empty());
    }
    while i < ls.len()
        invariant
            i <= ls.len(),
            slices(ls@) == lines(raw@),
            map.wf(),
            (opt_text(phy), map@) == phys_after(slices(ls@).take(i as int)),
        decreases ls.len() - i,
    {
        let line = ls[i];
        proof {
            let t = slices(ls@).take(i as int + 1);
            assert(t.drop_last() =~= slices(ls@).take(i as int));
            assert(t.last() == line@);
        }
        match section_phy_of(line) {
            Some(p) => {
                phy = Some(p);
            },
            None => {
                if let Some(rest) = strip_prefix(trim(line), "Interface ") {
                    if let Some(p) = &phy {
                        map.insert(trim(rest).to_owned(), p.clone());
                    }
                }
            },
        }
        i += 1;
    }
    proof {
        assert(slices(ls@).take(i as int) =~= slices(ls@));
    }
    map
}

/// An interface.
#[derive(Debug, Clone)]
pub struct WifiDev {
    /// The interface's name.
    pub ifname: String,
    /// The radio behind it.
    pub phy: String,
    /// What it is used as.
    pub iftype: String,
}

/// [`WifiDev`] over character sequences.
#[verifier::ext_equal]
pub struct DevView {
    pub ifname: Seq<char>,
    pub phy: Seq<char>,
    pub iftype: Seq<char>,
}

impl View for WifiDev {
    type V = DevView;

    open spec fn view(&self) -> DevView {
        DevView { ifname: self.ifname@, phy: self.phy@, iftype: self.iftype@ }
    }
}

/// The views of interfaces.
pub open spec fn dev_views(v: Seq<WifiDev>) -> Seq<DevView> {
    v.map_values(|d: WifiDev| d@)
}

/// The state of reading interfaces: those that are complete, and what is known of the
/// one that is being read.
#[verifier::ext_equal]
pub struct DevsView {
    pub rows: Seq<DevView>,
    pub phy: Option<Seq<char>>,
    pub iface: Option<Seq<char>>,
    pub iftype: Option<Seq<char>>,
}

impl DevsView {
    /// With the one being read complete, where enough is known of it, and forgotten
    /// else.
    pub open spec fn flushed(self) -> DevsView {
        DevsView {
            rows: match (self.iface, self.iftype, self.phy) {
                (Some(ifname), Some(iftype), Some(phy)) => self.rows.push(DevView { ifname, phy, iftype }),
                _ => self.rows,
            },
            phy: self.phy,
            iface: None,
            iftype: None,
        }
    }
}

/// The state of reading interfaces after the lines.
pub open spec fn devs_after(ls: Seq<Seq<char>>) -> DevsView
    decreases ls.len(),
{
    if ls.len() == 0 {
        DevsView { rows: seq![], phy: None, iface: None, iftype: None }
    } else {
        let s = devs_after(ls.drop_last());
        let line = ls.last();
        match section_phy(line) {
            Some(p) => DevsView { phy: Some(p), ..s.flushed() },
            None => match after_prefix(trimmed(line), "Interface "@) {
                Some(rest) => DevsView { iface: Some(trimmed(rest)), ..s.flushed() },
                None => match after_prefix(trimmed(line), "type "@) {
                    Some(rest) => DevsView { iftype: Some(trimmed(rest)), ..s },
                    None => s,
                },
            },
        }
    }
}

/// The interfaces that `iw dev` lists.
pub open spec fn devs_in(raw: Seq<char>) -> Seq<DevView> {
    devs_after(lines(raw)).flushed().rows
}

/// Completes the interface that is being read.
pub fn flush_wifi_dev(
    rows: &mut Vec<WifiDev>,
    phy: &Option<String>,
    iface: &mut Option<String>,
    iftype: &mut Option<String>,
)
    ensures
        (DevsView {
            rows: dev_views(final(rows)@),
            phy: opt_text(*phy),
            iface: opt_text(*final(iface)),
            iftype: opt_text(*final(iftype)),
        }) == (DevsView {
            rows: dev_views(old(rows)@),
            phy: opt_text(*phy),
            iface: opt_text(*old(iface)),
            iftype: opt_text(*old(iftype)),
        }).flushed(),
{
    let ghost before = rows@;
    let name = iface.take();
    let kind = iftype.take();
    if let (Some(ifname), Some(ty)) = (name, kind) {
        if let Some(p) = phy {
            rows.push(WifiDev { ifname, phy: p.clone(), iftype: ty });
            proof {
                assert(dev_views(rows@) =~= dev_views(before).push(rows@.last()@));
            }
        }
    }
}

/// Reads the interfaces that `iw dev` lists.
pub fn parse_wifi_devices(raw: &str) -> (r: Vec<WifiDev>)
    ensures
        dev_views(r@) == devs_in(raw@),
{
    let ls = lines_of(raw);
    let mut rows: Vec<WifiDev> = Vec::new();
    let mut phy: Option<String> = None;
    let mut iface: Option<String> = None;
    let mut iftype: Option<String> = None;
    let mut i: usize = 0;
    proof {
        assert(slices(ls@).take(0) =~= Seq::<Seq<char>>::empty());
        assert(dev_views(rows@) =~= Seq::<DevView>::empty());
    }
    while i < ls.len()
        invariant
            i <= ls.len(),
            slices(ls@) == lines(raw@),
            devs_after(slices(ls@).take(i as int)) == (DevsView {
                rows: dev_views(rows@),
                phy: opt_text(phy),
                iface: opt_text(iface),
                iftype: opt_text(iftype),
            }),
        decreases ls.len() - i,
    {
        let line = ls[i];
        proof {
            let t = slices(ls@).take(i as int + 1);
            assert(t.drop_last() =~= slices(ls@).take(i as int));
            assert(t.last() == line@);
        }
        let lt = trim(line);
        match section_phy_of(line) {
            Some(p) => {
                flush_wifi_dev(&mut rows, &phy, &mut iface, &mut iftype);
                phy = Some(p);
            },
            None => match strip_prefix(lt, "Interface ") {
                Some(rest) => {
                    flush_wifi_dev(&mut rows, &phy, &mut iface, &mut iftype);
                    iface = Some(trim(rest).to_owned());
                },
                None => {
                    if let Some(rest) = strip_prefix(lt, "type ") {
                        iftype = Some(trim(rest).to_owned());
                    }
                },
            },
        }
        i += 1;
    }
    proof {
        assert(slices(ls@).take(i as int) =~= slices(ls@));
    }
    flush_wifi_dev(&mut rows, &phy, &mut iface, &mut iftype);
    rows
}

// Links.

/// The channel of a frequency in MHz.
pub open spec fn channel_of(mhz: u32) -> Option<int> {
    if 2412 <= mhz <= 2472 {
        Some((mhz - 2407) / 5)
    } else if mhz == 2484 {
        Some(14)
    } else if 5000 <= mhz <= 5895 {
        Some((mhz - 5000) / 5)
    } else if 5955 <= mhz <= 7115 {
        Some((mhz - 5950) / 5)
    } else {
        None
    }
}

/// The channel of a frequency.
pub fn freq_to_channel(mhz: u32) -> (r: Option<u32>)
    ensures
        match r {
            Some(c) => channel_of(mhz) == Some(c as int),
            None => channel_of(mhz) is None,
        },
{
    if 2412 <= mhz && mhz <= 2472 {
        Some((mhz - 2407) / 5)
    } else if mhz == 2484 {
        Some(14)
    } else if 5000 <= mhz && mhz <= 5895 {
        Some((mhz - 5000) / 5)
    } else if 5955 <= mhz && mhz <= 7115 {
        Some((mhz - 5950) / 5)
    } else {
        None
    }
}

/// The NetworkManager band of a frequency in MHz.
pub open spec fn nm_band_of(mhz: u32) -> Seq<char> {
    if mhz < 3000 {
        "bg"@
    } else if mhz < 5900 {
        "a"@
    } else {
        "6GHz"@
    }
}

/// The NetworkManager band of a frequency.
pub fn freq_to_band(mhz: u32) -> (r: Option<String>)
    ensures
        opt_text(r) == Some(nm_band_of(mhz)),
{
    if mhz < 3000 {
        Some("bg".to_owned())
    } else if mhz < 5900 {
        Some("a".to_owned())
    } else {
        Some("6GHz".to_owned())
    }
}

/// The link of the client.
#[derive(Debug, Clone)]
pub struct StaLinkInfo {
    /// Whether it is up.
    pub connected: bool,
    /// Its frequency in MHz.
    pub freq_mhz: Option<u32>,
    /// Its channel.
    pub channel: Option<u32>,
    /// Its band.
    pub band: Option<String>,
}

/// [`StaLinkInfo`] over mathematical values.
#[verifier::ext_equal]
pub struct StaLinkView {
    pub connected: bool,
    pub freq_mhz: Option<u32>,
    pub channel: Option<int>,
    pub band: Option<Seq<char>>,
}

/// The view of an optional channel.
pub open spec fn opt_channel(c: Option<u32>) -> Option<int> {
    match c {
        Some(c) => Some(c as int),
        None => None,
    }
}

impl View for StaLinkInfo {
    type V = StaLinkView;

    open spec fn view(&self) -> StaLinkView {
        StaLinkView {
            connected: self.connected,
            freq_mhz: self.freq_mhz,
            channel: opt_channel(self.channel),
            band: opt_text(self.band),
        }
    }
}

/// A link of which nothing is known.
pub open spec fn no_link() -> StaLinkView {
    StaLinkView { connected: false, freq_mhz: None, channel: None, band: None }
}

impl Default for StaLinkInfo {
    fn default() -> (r: Self)
        ensures
            r@ == no_link(),
    {
        StaLinkInfo { connected: false, freq_mhz: None, channel: None, band: None }
    }
}

/// A link with a frequency.
pub open spec fn with_freq(l: StaLinkView, mhz: u32) -> StaLinkView {
    StaLinkView {
        freq_mhz: Some(mhz),
        channel: channel_of(mhz),
        band: Some(nm_band_of(mhz)),
        ..l
    }
}

/// The frequency that a line gives.
pub open spec fn freq_in(line: Seq<char>) -> Option<u32> {
    match after_prefix(trimmed(line), "freq:"@) {
        Some(rest) => number_in(trimmed(rest)),
        None => None,
    }
}

/// The link after a line.
pub open spec fn link_with(l: StaLinkView, line: Seq<char>) -> StaLinkView {
    let up = if has_prefix(trimmed(line), "Connected to"@) {
        StaLinkView { connected: true, ..l }
    } else {
        l
    };
    match freq_in(line) {
        Some(mhz) => with_freq(up, mhz),
        None => up,
    }
}

/// The link after the rest of the lines; nothing behind `Not connected` counts.
pub open spec fn link_after(l: StaLinkView, ls: Seq<Seq<char>>) -> StaLinkView
    decreases ls.len(),
{
    if ls.len() == 0 {
        l
    } else if has_prefix(trimmed(ls[0]), "Not connected"@) {
        StaLinkView { connected: false, ..l }
    } else {
        link_after(link_with(l, ls[0]), ls.drop_first())
    }
}

/// Reads the link that `iw dev <if> link` describes.
pub fn parse_sta_link_info(raw: &str) -> (r: StaLinkInfo)
    ensures
        r@ == link_after(no_link(), lines(raw@)),
{
    let ls = lines_of(raw);
    let mut info = StaLinkInfo::default();
    let mut i: usize = 0;
    proof {
        assert(slices(ls@).skip(0) =~= slices(ls@));
    }
    while i < ls.len()
        invariant
            i <= ls.len(),
            slices(ls@) == lines(raw@),
            link_after(no_link(), slices(ls@)) == link_after(info@, slices(ls@).skip(i as int)),
        decreases ls.len() - i,
    {
        let lt = trim(ls[i]);
        proof {
            assert(slices(ls@).skip(i as int)[0] == ls@[i as int]@);
            assert(slices(ls@).skip(i as int).drop_first() =~= slices(ls@).skip(i as int + 1));
        }
        if starts_with(lt, "Not connected") {
            info.connected = false;
            return info;
        }
        if starts_with(lt, "Connected to") {
            info.connected = true;
        }
        if let Some(rest) = strip_prefix(lt, "freq:") {
            if let Some(mhz) = parse_u32(trim(rest)) {
                info.freq_mhz = Some(mhz);
                info.channel = freq_to_channel(mhz);
                info.band = freq_to_band(mhz);
            }
        }
        i += 1;
    }
    info
}

// Running `iw`.

/// How `iw` is run.
pub struct IwRunner<'c> {
    pub strategy: Strategy,
    pub path: &'c str,
    pub timeout_ms: u64,
}

/// [`IwRunner`] over mathematical values.
#[verifier::ext_equal]
pub struct IwView {
    pub strategy: Strategy,
    pub path: Seq<char>,
    pub timeout_ms: u64,
}

impl<'c> View for IwRunner<'c> {
    type V = IwView;

    open spec fn view(&self) -> IwView {
        IwView { strategy: self.strategy, path: self.path@, timeout_ms: self.timeout_ms }
    }
}

/// What `iw` prints, or why it failed.
pub open spec fn iw(h: Seq<Reply>, m: Mark, w: IwView, args: Seq<Seq<char>>) -> Progress<Result<Seq<char>, ErrorView>> {
    match dispatched(h, m, w.strategy, w.path, args, w.timeout_ms) {
        Progress::Go(m1, Ok(o)) => if o.success {
            Progress::Go(m1, Ok(o.stdout))
        } else {
            Progress::Go(
                m1,
                Err(
                    ErrorView::Transient(
                        "iw "@ + listed(args, " "@) + " failed (exit "@ + signed_decimal(
                            match o.code {
                                Some(c) => c as int,
                                None => -1,
                            },
                        ) + "): "@ + trimmed(o.stderr) + "\n"@ + trimmed(o.stdout),
                    ),
                ),
            )
        },
        Progress::Go(m1, Err(e)) => Progress::Go(m1, Err(e)),
        Progress::Need(a) => Progress::Need(a),
        Progress::Fail(e) => Progress::Fail(e),
    }
}

/// The view of what `iw` prints.
pub open spec fn iw_result(r: Result<&String, PluginError>) -> Result<Seq<char>, ErrorView> {
    match r {
        Ok(s) => Ok(s@),
        Err(e) => Err(e@),
    }
}

/// Runs `iw`.
pub fn iw_output<'a>(run: &mut Run<'a>, w: &IwRunner, args: Vec<String>) -> (r: Result<Result<&'a String, PluginError>, Halt>)
    requires
        old(run).wf(),
    ensures
        final(run).follows(old(run)),
        match r {
            Ok(v) => iw(old(run).replies@, old(run)@, w@, texts(args@)) == Progress::Go(final(run)@, iw_result(v)),
            Err(h) => iw(old(run).replies@, old(run)@, w@, texts(args@)) == h.stop::<Result<Seq<char>, ErrorView>>(),
        },
{
    let shown = list_texts(&args, " ");
    let o = match w.strategy.dispatch(run, w.path, args, w.timeout_ms) {
        Ok(Ok(o)) => o,
        Ok(Err(e)) => return Ok(Err(e)),
        Err(h) => return Err(h),
    };
    if !o.success {
        let code: i64 = match o.code {
            Some(c) => c as i64,
            None => -1,
        };
        let head = cat4("iw ", shown.as_str(), " failed (exit ", to_signed_decimal(code).as_str());
        return Ok(
            Err(
                PluginError::Transient(
                    cat5(
                        head.as_str(),
                        "): ",
                        trim(o.stderr.as_str()),
                        "\n",
                        trim(o.stdout.as_str()),
                    ),
                ),
            ),
        );
    }
    Ok(Ok(&o.stdout))
}

/// A text without a prefix, however often it stands at the start.
pub open spec fn without_prefixes(s: Seq<char>, p: Seq<char>) -> Seq<char>
    decreases s.len(),
{
    if p.len() > 0 && has_prefix(s, p) {
        without_prefixes(s.skip(p.len() as int), p)
    } else {
        s
    }
}

fn strip_prefixes<'a>(s: &'a str, p: &str) -> (r: &'a str)
    ensures
        r@ == without_prefixes(s@, p@),
    decreases s@.len(),
{
    if p.is_empty() {
        return s;
    }
    match strip_prefix(s, p) {
        Some(rest) => strip_prefixes(rest, p),
        None => s,
    }
}

/// The kernel's name of a radio, however it is written.
pub open spec fn phy_arg(phy: Seq<char>) -> Seq<char> {
    "phy"@ + without_prefixes(trimmed(phy), "phy"@)
}

/// What a radio can do, at this point.
pub open spec fn capability(h: Seq<Reply>, m: Mark, w: IwView, phy: Seq<char>) -> Progress<Result<PhyView, ErrorView>> {
    match iw(h, m, w, seq![phy_arg(phy), "info"@]) {
        Progress::Go(m1, Ok(raw)) => Progress::Go(m1, Ok(phy_in(phy_arg(phy), raw))),
        Progress::Go(m1, Err(e)) => Progress::Go(m1, Err(e)),
        Progress::Need(a) => Progress::Need(a),
        Progress::Fail(e) => Progress::Fail(e),
    }
}

/// The view of a radio or an error.
pub open spec fn phy_result(r: Result<PhyCapability, PluginError>) -> Result<PhyView, ErrorView> {
    match r {
        Ok(p) => Ok(p@),
        Err(e) => Err(e@),
    }
}

/// Asks what a radio can do.
pub fn phy_capability(run: &mut Run, w: &IwRunner, phy: &str) -> (r: Result<Result<PhyCapability, PluginError>, Halt>)
    requires
        old(run).wf(),
    ensures
        final(run).follows(old(run)),
        match r {
            Ok(v) => capability(old(run).replies@, old(run)@, w@, phy@) == Progress::Go(final(run)@, phy_result(v)),
            Err(h) => capability(old(run).replies@, old(run)@, w@, phy@) == h.stop::<Result<PhyView, ErrorView>>(),
        },
{
    let arg = cat("phy", strip_prefixes(trim(phy), "phy"));
    let args = owned(vec![arg.as_str(), "info"]);
    proof {
        assert(texts(args@) =~= seq![phy_arg(phy@), "info"@]);
    }
    match iw_output(run, w, args) {
        Ok(Ok(raw)) => Ok(Ok(parse_phy_info(arg.as_str(), raw.as_str()))),
        Ok(Err(e)) => Ok(Err(e)),
        Err(h) => Err(h),
    }
}

/// The radio of each interface, at this point.
pub open spec fn phy_map(h: Seq<Reply>, m: Mark, w: IwView) -> Progress<Result<Map<Seq<char>, Seq<char>>, ErrorView>> {
    match iw(h, m, w, seq!["dev"@]) {
        Progress::Go(m1, Ok(raw)) => Progress::Go(m1, Ok(phys_after(lines(raw)).1)),
        Progress::Go(m1, Err(e)) => Progress::Go(m1, Err(e)),
        Progress::Need(a) => Progress::Need(a),
        Progress::Fail(e) => Progress::Fail(e),
    }
}

/// The view of a map or an error.
pub open spec fn map_result(r: Result<TextMap, PluginError>) -> Result<Map<Seq<char>, Seq<char>>, ErrorView> {
    match r {
        Ok(p) => Ok(p@),
        Err(e) => Err(e@),
    }
}

/// Asks for the radio of each interface.
pub fn wifi_iface_to_phy_map(run: &mut Run, w: &IwRunner) -> (r: Result<Result<TextMap, PluginError>, Halt>)
    requires
        old(run).wf(),
    ensures
        final(run).follows(old(run)),
        match r {
            Ok(v) => phy_map(old(run).replies@, old(run)@, w@) == Progress::Go(final(run)@, map_result(v)),
            Err(h) => phy_map(old(run).replies@, old(run)@, w@) == h.stop::<
                Result<Map<Seq<char>, Seq<char>>, ErrorView>,
            >(),
        },
{
    let args = owned(vec!["dev"]);
    proof {
        assert(texts(args@) =~= seq!["dev"@]);
    }
    match iw_output(run, w, args) {
        Ok(Ok(raw)) => Ok(Ok(parse_iface_to_phy_map(raw.as_str()))),
        Ok(Err(e)) => Ok(Err(e)),
        Err(h) => Err(h),
    }
}

/// The radio of an interface, at this point.
pub open spec fn phy_of(h: Seq<Reply>, m: Mark, w: IwView, ifname: Seq<char>) -> Progress<Result<Option<Seq<char>>, ErrorView>> {
    match phy_map(h, m, w) {
        Progress::Go(m1, Ok(map)) => Progress::Go(
            m1,
            Ok(
                if map.contains_key(trimmed(ifname)) {
                    Some(map[trimmed(ifname)])
                } else {
                    None
                },
            ),
        ),
        Progress::Go(m1, Err(e)) => Progress::Go(m1, Err(e)),
        Progress::Need(a) => Progress::Need(a),
        Progress::Fail(e) => Progress::Fail(e),
    }
}

/// The view of an optional name or an error.
pub open spec fn opt_result(r: Result<Option<String>, PluginError>) -> Result<Option<Seq<char>>, ErrorView> {
    match r {
        Ok(p) => Ok(opt_text(p)),
        Err(e) => Err(e@),
    }
}

/// Asks for the radio of an interface.
pub fn phy_for_ifname(run: &mut Run, w: &IwRunner, ifname: &str) -> (r: Result<Result<Option<String>, PluginError>, Halt>)
    requires
        old(run).wf(),
    ensures
        final(run).follows(old(run)),
        match r {
            Ok(v) => phy_of(old(run).replies@, old(run)@, w@, ifname@) == Progress::Go(final(run)@, opt_result(v)),
            Err(h) => phy_of(old(run).replies@, old(run)@, w@, ifname@) == h.stop::<Result<Option<Seq<char>>, ErrorView>>(),
        },
{
    match wifi_iface_to_phy_map(run, w) {
        Ok(Ok(map)) => match map.get(trim(ifname)) {
            Some(p) => Ok(Ok(Some(p.clone()))),
            None => Ok(Ok(None)),
        },
        Ok(Err(e)) => Ok(Err(e)),
        Err(h) => Err(h),
    }
}

/// The interfaces, at this point.
pub open spec fn devices(h: Seq<Reply>, m: Mark, w: IwView) -> Progress<Result<Seq<DevView>, ErrorView>> {
    match iw(h, m, w, seq!["dev"@]) {
        Progress::Go(m1, Ok(raw)) => Progress::Go(m1, Ok(devs_in(raw))),
        Progress::Go(m1, Err(e)) => Progress::Go(m1, Err(e)),
        Progress::Need(a) => Progress::Need(a),
        Progress::Fail(e) => Progress::Fail(e),
    }
}

/// The view of interfaces or an error.
pub open spec fn devs_result(r: Result<Vec<WifiDev>, PluginError>) -> Result<Seq<DevView>, ErrorView> {
    match r {
        Ok(p) => Ok(dev_views(p@)),
        Err(e) => Err(e@),
    }
}

/// Asks for the interfaces.
pub fn list_wifi_devices(run: &mut Run, w: &IwRunner) -> (r: Result<Result<Vec<WifiDev>, PluginError>, Halt>)
    requires
        old(run).wf(),
    ensures
        final(run).follows(old(run)),
        match r {
            Ok(v) => devices(old(run).replies@, old(run)@, w@) == Progress::Go(final(run)@, devs_result(v)),
            Err(h) => devices(old(run).replies@, old(run)@, w@) == h.stop::<Result<Seq<DevView>, ErrorView>>(),
        },
{
    let args = owned(vec!["dev"]);
    proof {
        assert(texts(args@) =~= seq!["dev"@]);
    }
    match iw_output(run, w, args) {
        Ok(Ok(raw)) => Ok(Ok(parse_wifi_devices(raw.as_str()))),
        Ok(Err(e)) => Ok(Err(e)),
        Err(h) => Err(h),
    }
}

/// Whether an interface is there, at this point.
pub open spec fn dev_exists(h: Seq<Reply>, m: Mark, w: IwView, ifname: Seq<char>) -> Progress<bool> {
    if is_blank(ifname) {
        Progress::Go(m, false)
    } else {
        match phy_map(h, m, w) {
            Progress::Go(m1, Ok(map)) => Progress::Go(m1, map.contains_key(trimmed(ifname))),
            Progress::Go(m1, Err(_)) => Progress::Go(m1, false),
            Progress::Need(a) => Progress::Need(a),
            Progress::Fail(e) => Progress::Fail(e),
        }
    }
}

/// Asks whether an interface is there.
pub fn iw_dev_exists(run: &mut Run, w: &IwRunner, ifname: &str) -> (r: Result<bool, Halt>)
    requires
        old(run).wf(),
    ensures
        final(run).follows(old(run)),
        match r {
            Ok(v) => dev_exists(old(run).replies@, old(run)@, w@, ifname@) == Progress::Go(final(run)@, v),
            Err(h) => dev_exists(old(run).replies@, old(run)@, w@, ifname@) == h.stop::<bool>(),
        },
{
    let name = trim(ifname);
    if name.is_empty() {
        return Ok(false);
    }
    match wifi_iface_to_phy_map(run, w) {
        Ok(Ok(map)) => Ok(map.get(name).is_some()),
        Ok(Err(_)) => Ok(false),
        Err(h) => Err(h),
    }
}

/// The first interface of a name.
pub open spec fn dev_named(devs: Seq<DevView>, name: Seq<char>) -> Option<DevView>
    decreases devs.len(),
{
    if devs.len() == 0 {
        None
    } else if devs[0].ifname == name {
        Some(devs[0])
    } else {
        dev_named(devs.drop_first(), name)
    }
}

fn find_dev<'d>(devs: &'d Vec<WifiDev>, name: &str) -> (r: Option<&'d WifiDev>)
    ensures
        match r {
            Some(d) => dev_named(dev_views(devs@), name@) == Some(d@),
            None => dev_named(dev_views(devs@), name@) is None,
        },
{
    let mut i: usize = 0;
    let ghost views = dev_views(devs@);
    proof {
        assert(views.skip(0) =~= views);
    }
    while i < devs.len()
        invariant
            i <= devs.len(),
            views == dev_views(devs@),
            dev_named(views, name@) == dev_named(views.skip(i as int), name@),
        decreases devs.len() - i,
    {
        proof {
            assert(views.skip(i as int)[0] == devs@[i as int]@);
            assert(views.skip(i as int).drop_first() =~= views.skip(i as int + 1));
        }
        if text_eq(devs[i].ifname.as_str(), name) {
            return Some(&devs[i]);
        }
        i += 1;
    }
    None
}

/// Whether one of the modes is that of a client.
pub open spec fn lists_managed(modes: Seq<Seq<char>>) -> bool {
    exists|i: int| 0 <= i < modes.len() && same_ignoring_case(#[trigger] modes[i], "managed"@)
}

fn has_managed(modes: &Vec<String>) -> (r: bool)
    ensures
        r == lists_managed(texts(modes@)),
{
    let mut i: usize = 0;
    while i < modes.len()
        invariant
            i <= modes.len(),
            forall|j: int| 0 <= j < i ==> !same_ignoring_case(#[trigger] texts(modes@)[j], "managed"@),
        decreases modes.len() - i,
    {
        proof {
            assert(texts(modes@)[i as int] == modes@[i as int]@);
        }
        if eq_ignoring_case(modes[i].as_str(), "managed") {
            return true;
        }
        i += 1;
    }
    false
}

/// Whether an interface can be a client: by what it is used as, and where that does not
/// tell, by what its radio can do.
pub open spec fn sta_capable(h: Seq<Reply>, m: Mark, w: IwView, ifname: Seq<char>) -> Progress<bool> {
    if is_blank(ifname) {
        Progress::Go(m, false)
    } else {
        match devices(h, m, w) {
            Progress::Go(m1, Ok(devs)) => match dev_named(devs, trimmed(ifname)) {
                Some(d) => {
                    let kind = lowered(d.iftype);
                    if kind == "ap"@ || has_part(kind, "__ap"@) {
                        Progress::Go(m1, false)
                    } else if kind == "managed"@ {
                        Progress::Go(m1, true)
                    } else {
                        match capability(h, m1, w, d.phy) {
                            Progress::Go(m2, Ok(cap)) => Progress::Go(m2, lists_managed(cap.interface_modes)),
                            Progress::Go(m2, Err(_)) => Progress::Go(m2, false),
                            Progress::Need(a) => Progress::Need(a),
                            Progress::Fail(e) => Progress::Fail(e),
                        }
                    }
                },
                None => Progress::Go(m1, false),
            },
            Progress::Go(m1, Err(_)) => Progress::Go(m1, false),
            Progress::Need(a) => Progress::Need(a),
            Progress::Fail(e) => Progress::Fail(e),
        }
    }
}

/// Asks whether an interface can be a client.
pub fn is_sta_capable(run: &mut Run, w: &IwRunner, ifname: &str) -> (r: Result<bool, Halt>)
    requires
        old(run).wf(),
    ensures
        final(run).follows(old(run)),
        match r {
            Ok(v) => sta_capable(old(run).replies@, old(run)@, w@, ifname@) == Progress::Go(final(run)@, v),
            Err(h) => sta_capable(old(run).replies@, old(run)@, w@, ifname@) == h.stop::<bool>(),
        },
{
    let name = trim(ifname);
    if name.is_empty() {
        return Ok(false);
    }
    let devs = match list_wifi_devices(run, w) {
        Ok(Ok(v)) => v,
        Ok(Err(_)) => return Ok(false),
        Err(h) => return Err(h),
    };
    let dev = match find_dev(&devs, name) {
        Some(d) => d,
        None => return Ok(false),
    };
    let kind = to_lower(dev.iftype.as_str());
    if text_eq(kind.as_str(), "ap") || contains(kind.as_str(), "__ap") {
        return Ok(false);
    }
    if text_eq(kind.as_str(), "managed") {
        return Ok(true);
    }
    match phy_capability(run, w, dev.phy.as_str()) {
        Ok(Ok(cap)) => Ok(has_managed(&cap.interface_modes)),
        Ok(Err(_)) => Ok(false),
        Err(h) => Err(h),
    }
}

/// Running `iw` for its effect alone.
pub open spec fn iw_done(h: Seq<Reply>, m: Mark, w: IwView, args: Seq<Seq<char>>) -> Progress<()> {
    match iw(h, m, w, args) {
        Progress::Go(m1, Ok(_)) => Progress::Go(m1, ()),
        Progress::Go(m1, Err(e)) => Progress::Fail(e),
        Progress::Need(a) => Progress::Need(a),
        Progress::Fail(e) => Progress::Fail(e),
    }
}

fn iw_effect(run: &mut Run, w: &IwRunner, args: Vec<String>) -> (r: Result<(), Halt>)
    requires
        old(run).wf(),
    ensures
        final(run).follows(old(run)),
        match r {
            Ok(v) => iw_done(old(run).replies@, old(run)@, w@, texts(args@)) == Progress::Go(final(run)@, v),
            Err(h) => iw_done(old(run).replies@, old(run)@, w@, texts(args@)) == h.stop::<()>(),
        },
{
    match iw_output(run, w, args) {
        Ok(Ok(_)) => Ok(()),
        Ok(Err(e)) => Err(Halt::Fail(e)),
        Err(h) => Err(h),
    }
}

/// Creating the hotspot's interface on the radio of the client's, where it is not there.
pub open spec fn vif_made(h: Seq<Reply>, m: Mark, w: IwView, sta: Seq<char>, ap: Seq<char>) -> Progress<()> {
    if is_blank(sta) || is_blank(ap) || trimmed(sta) == trimmed(ap) {
        Progress::Go(m, ())
    } else {
        match dev_exists(h, m, w, trimmed(ap)) {
            Progress::Go(m1, true) => Progress::Go(m1, ()),
            Progress::Go(m1, false) => iw_done(
                h,
                m1,
                w,
                seq!["dev"@, trimmed(sta), "interface"@, "add"@, trimmed(ap), "type"@, "__ap"@],
            ),
            Progress::Need(a) => Progress::Need(a),
            Progress::Fail(e) => Progress::Fail(e),
        }
    }
}

/// Creates the hotspot's interface.
pub fn ensure_ap_vif_present(run: &mut Run, w: &IwRunner, sta_if: &str, ap_if: &str) -> (r: Result<(), Halt>)
    requires
        old(run).wf(),
    ensures
        final(run).follows(old(run)),
        match r {
            Ok(v) => vif_made(old(run).replies@, old(run)@, w@, sta_if@, ap_if@) == Progress::Go(final(run)@, v),
            Err(h) => vif_made(old(run).replies@, old(run)@, w@, sta_if@, ap_if@) == h.stop::<()>(),
        },
{
    let sta = trim(sta_if);
    let ap = trim(ap_if);
    if sta.is_empty() || ap.is_empty() || text_eq(sta, ap) {
        return Ok(());
    }
    match iw_dev_exists(run, w, ap) {
        Ok(true) => Ok(()),
        Ok(false) => {
            let args = owned(vec!["dev", sta, "interface", "add", ap, "type", "__ap"]);
            proof {
                assert(texts(args@) =~= seq!["dev"@, sta@, "interface"@, "add"@, ap@, "type"@, "__ap"@]);
            }
            iw_effect(run, w, args)
        },
        Err(h) => Err(h),
    }
}

/// Removing the hotspot's interface, where it is there.
pub open spec fn vif_removed(h: Seq<Reply>, m: Mark, w: IwView, ap: Seq<char>) -> Progress<()> {
    if is_blank(ap) {
        Progress::Go(m, ())
    } else {
        match dev_exists(h, m, w, trimmed(ap)) {
            Progress::Go(m1, true) => iw_done(h, m1, w, seq!["dev"@, trimmed(ap), "del"@]),
            Progress::Go(m1, false) => Progress::Go(m1, ()),
            Progress::Need(a) => Progress::Need(a),
            Progress::Fail(e) => Progress::Fail(e),
        }
    }
}

/// Removes the hotspot's interface.
pub fn ensure_ap_vif_absent(run: &mut Run, w: &IwRunner, ap_if: &str) -> (r: Result<(), Halt>)
    requires
        old(run).wf(),
    ensures
        final(run).follows(old(run)),
        match r {
            Ok(v) => vif_removed(old(run).replies@, old(run)@, w@, ap_if@) == Progress::Go(final(run)@, v),
            Err(h) => vif_removed(old(run).replies@, old(run)@, w@, ap_if@) == h.stop::<()>(),
        },
{
    let ap = trim(ap_if);
    if ap.is_empty() {
        return Ok(());
    }
    match iw_dev_exists(run, w, ap) {
        Ok(true) => {
            let args = owned(vec!["dev", ap, "del"]);
            proof {
                assert(texts(args@) =~= seq!["dev"@, ap@, "del"@]);
            }
            iw_effect(run, w, args)
        },
        Ok(false) => Ok(()),
        Err(h) => Err(h),
    }
}

/// The client's link, at this point; nothing is known of it where `iw` fails.
pub open spec fn link_of(h: Seq<Reply>, m: Mark, w: IwView, sta: Seq<char>) -> Progress<StaLinkView> {
    if is_blank(sta) {
        Progress::Go(m, no_link())
    } else {
        match iw(h, m, w, seq!["dev"@, trimmed(sta), "link"@]) {
            Progress::Go(m1, Ok(raw)) => Progress::Go(m1, link_after(no_link(), lines(raw))),
            Progress::Go(m1, Err(_)) => Progress::Go(m1, no_link()),
            Progress::Need(a) => Progress::Need(a),
            Progress::Fail(e) => Progress::Fail(e),
        }
    }
}

/// Asks for the client's link.
pub fn sta_link_info(run: &mut Run, w: &IwRunner, sta_if: &str) -> (r: Result<StaLinkInfo, Halt>)
    requires
        old(run).wf(),
    ensures
        final(run).follows(old(run)),
        match r {
            Ok(v) => link_of(old(run).replies@, old(run)@, w@, sta_if@) == Progress::Go(final(run)@, v@),
            Err(h) => link_of(old(run).replies@, old(run)@, w@, sta_if@) == h.stop::<StaLinkView>(),
        },
{
    let sta = trim(sta_if);
    if sta.is_empty() {
        return Ok(StaLinkInfo::default());
    }
    let args = owned(vec!["dev", sta, "link"]);
    proof {
        assert(texts(args@) =~= seq!["dev"@, sta@, "link"@]);
    }
    match iw_output(run, w, args) {
        Ok(Ok(raw)) => Ok(parse_sta_link_info(raw.as_str())),
        Ok(Err(_)) => Ok(StaLinkInfo::default()),
        Err(h) => Err(h),
    }
}

/// Whether the radio of a client can be an access point too, at this point.
pub open spec fn sta_concurrent(h: Seq<Reply>, m: Mark, w: IwView, sta: Seq<char>) -> Progress<bool> {
    match phy_of(h, m, w, sta) {
        Progress::Go(m1, Ok(Some(phy))) => match capability(h, m1, w, phy) {
            Progress::Go(m2, Ok(cap)) => Progress::Go(m2, cap.supports_managed_plus_ap),
            Progress::Go(m2, Err(_)) => Progress::Go(m2, false),
            Progress::Need(a) => Progress::Need(a),
            Progress::Fail(e) => Progress::Fail(e),
        },
        Progress::Go(m1, _) => Progress::Go(m1, false),
        Progress::Need(a) => Progress::Need(a),
        Progress::Fail(e) => Progress::Fail(e),
    }
}

/// Asks whether the radio of a client can be an access point too.
pub fn sta_phy_supports_concurrent_sta_ap(run: &mut Run, w: &IwRunner, sta_if: &str) -> (r: Result<bool, Halt>)
    requires
        old(run).wf(),
    ensures
        final(run).follows(old(run)),
        match r {
            Ok(v) => sta_concurrent(old(run).replies@, old(run)@, w@, sta_if@) == Progress::Go(final(run)@, v),
            Err(h) => sta_concurrent(old(run).replies@, old(run)@, w@, sta_if@) == h.stop::<bool>(),
        },
{
    let phy = match phy_for_ifname(run, w, sta_if) {
        Ok(Ok(Some(p))) => p,
        Ok(_) => return Ok(false),
        Err(h) => return Err(h),
    };
    match phy_capability(run, w, phy.as_str()) {
        Ok(Ok(cap)) => Ok(cap.supports_managed_plus_ap),
        Ok(Err(_)) => Ok(false),
        Err(h) => Err(h),
    }
}

/// In each band every frequency that has a channel has the one that its neighbour five
/// megahertz below has, plus one.
pub proof fn channels_are_five_megahertz_apart(mhz: u32)
    requires
        mhz <= u32::MAX - 5,
        2412 <= mhz < mhz + 5 <= 2472 || 5000 <= mhz < mhz + 5 <= 5895 || 5955 <= mhz < mhz + 5 <= 7115,
    ensures
        channel_of((mhz + 5) as u32) == Some(channel_of(mhz)->0 + 1),
{
}

/// The channels of the three bands lie where they lie: those of 2.4 GHz five megahertz
/// apart from 2412 on, but the last; those of 5 GHz counted from 5000, those of 6 GHz
/// from 5950. Each frequency belongs to the band that it lies in.
pub proof fn channels_are_where_they_are(n: u32)
    ensures
        1 <= n <= 13 ==> channel_of((2407 + 5 * n) as u32) == Some(n as int) && nm_band_of((2407 + 5 * n) as u32) == "bg"@,
        channel_of(2484) == Some(14int),
        nm_band_of(2484) == "bg"@,
        n <= 179 ==> channel_of((5000 + 5 * n) as u32) == Some(n as int) && nm_band_of((5000 + 5 * n) as u32) == "a"@,
        1 <= n <= 233 ==> channel_of((5950 + 5 * n) as u32) == Some(n as int) && nm_band_of((5950 + 5 * n) as u32)
            == "6GHz"@,
        n < 2412 || n > 7115 ==> channel_of(n) is None,
        2472 < n < 5000 && n != 2484 ==> channel_of(n) is None,
        5895 < n < 5955 ==> channel_of(n) is None,
{
}

/// A radio's bands are those of its usable frequencies: a band is supported only where
/// a listed frequency lies in it.
pub proof fn bands_have_a_frequency(ls: Seq<Seq<char>>)
    ensures
        bands_after(ls).1.ghz_2_4 ==> lists_between(ls, 2400, 2500),
        bands_after(ls).1.ghz_5 ==> lists_between(ls, 4900, 5900),
        bands_after(ls).1.ghz_6 ==> lists_between(ls, 5901, 7200),
    decreases ls.len(),
{
    if ls.len() > 0 {
        let before = ls.drop_last();
        bands_have_a_frequency(before);
        lemma_lists_on(before, ls, 2400, 2500);
        lemma_lists_on(before, ls, 4900, 5900);
        lemma_lists_on(before, ls, 5901, 7200);
        if let Some(mhz) = usable_freq(ls.last()) {
            assert(usable_freq(ls[ls.len() - 1]) == Some(mhz));
        }
    }
}

/// A line gives a usable frequency between the two.
pub open spec fn lists_between(ls: Seq<Seq<char>>, low: u32, high: u32) -> bool {
    exists|i: int|
        0 <= i < ls.len() && (usable_freq(#[trigger] ls[i]) matches Some(mhz) && low <= mhz <= high)
}

proof fn lemma_lists_on(before: Seq<Seq<char>>, ls: Seq<Seq<char>>, low: u32, high: u32)
    requires
        ls.len() > 0,
        before == ls.drop_last(),
    ensures
        lists_between(before, low, high) ==> lists_between(ls, low, high),
{
    if lists_between(before, low, high) {
        let i = choose|i: int|
            0 <= i < before.len() && (usable_freq(#[trigger] before[i]) matches Some(mhz) && low <= mhz <= high);
        assert(ls[i] == before[i]);
    }
}

/// Every usable frequency of a list counts for its band, and a band that was found stays
/// found.
pub proof fn listed_frequencies_count(ls: Seq<Seq<char>>, line: Seq<char>, mhz: u32)
    ensures
        bands_after(ls).1.ghz_2_4 ==> bands_after(ls.push(line)).1.ghz_2_4,
        bands_after(ls).1.ghz_5 ==> bands_after(ls.push(line)).1.ghz_5,
        bands_after(ls).1.ghz_6 ==> bands_after(ls.push(line)).1.ghz_6,
        bands_after(ls).0 matches Some(heading) ==> (usable_freq(line) == Some(mhz) && !ends_list(heading, line)
            && !has_prefix(trimmed(line), "Frequencies:"@) ==> {
            &&& 2400 <= mhz <= 2500 ==> bands_after(ls.push(line)).1.ghz_2_4
            &&& 4900 <= mhz <= 5900 ==> bands_after(ls.push(line)).1.ghz_5
            &&& 5900 < mhz <= 7200 ==> bands_after(ls.push(line)).1.ghz_6
            &&& bands_after(ls.push(line)).0 == Some(heading)
        }),
        has_prefix(trimmed(line), "Frequencies:"@) ==> bands_after(ls.push(line)).0 == Some(indent(line)),
        bands_after(ls).0 is None && !has_prefix(trimmed(line), "Frequencies:"@) ==> bands_after(ls.push(line))
            == bands_after(ls),
{
    assert(ls.push(line).drop_last() =~= ls);
}

/// A frequency is usable where its line is an item, does not call it disabled, and has
/// the number as its first word.
pub proof fn disabled_frequencies_are_not_used(before: Seq<char>, after: Seq<char>, n: u32, rest: Seq<char>)
    requires
        trimmed("* "@ + before + "(disabled)"@ + after) == "* "@ + before + "(disabled)"@ + after,
        trimmed("* "@ + rest) == "* "@ + rest,
        !has_part(rest, "(disabled)"@),
        words(rest).len() > 0,
        words(rest)[0] == decimal(n as nat),
    ensures
        usable_freq("* "@ + before + "(disabled)"@ + after) is None,
        usable_freq("* "@ + rest) == Some(n),
{
    let item = before + "(disabled)"@ + after;
    assert("* "@ + before + "(disabled)"@ + after =~= "* "@ + item);
    pieces_are_found("* "@, item, seq![]);
    pieces_are_found("* "@, rest, seq![]);
    pieces_are_found(before, "(disabled)"@, after);
    decimal_reads_back(n as nat);
}

/// A list ends at the first line that is not blank and is not indented, or is no deeper
/// than its heading and no item.
pub proof fn lists_end_where_they_do(heading: nat, line: Seq<char>)
    requires
        trimmed(line).len() > 0,
    ensures
        line[0] != ' ' && line[0] != '\t' ==> ends_list(heading, line),
        (line[0] == ' ' || line[0] == '\t') && indent(line) > heading ==> !ends_list(heading, line),
        (line[0] == ' ' || line[0] == '\t') && has_prefix(trimmed(line), "* "@) ==> !ends_list(heading, line),
        (line[0] == ' ' || line[0] == '\t') && indent(line) <= heading && !has_prefix(trimmed(line), "* "@)
            ==> ends_list(heading, line),
{
    if line.len() == 0 {
        assert(trimmed(line).len() == 0);
    }
}

/// A line is indented by the spaces and tabs before its first other character.
pub proof fn indents_are_counted(gap: Seq<char>, rest: Seq<char>)
    requires
        forall|i: int| 0 <= i < gap.len() ==> (#[trigger] gap[i] == ' ' || gap[i] == '\t'),
        rest.len() > 0 ==> rest[0] != ' ' && rest[0] != '\t',
    ensures
        indent(gap + rest) == gap.len(),
    decreases gap.len(),
{
    if gap.len() > 0 {
        assert(gap[0] == ' ' || gap[0] == '\t');
        assert((gap + rest).drop_first() =~= gap.drop_first() + rest);
        assert forall|i: int| 0 <= i < gap.drop_first().len() implies (#[trigger] gap.drop_first()[i] == ' '
            || gap.drop_first()[i] == '\t') by {
            assert(gap.drop_first()[i] == gap[i + 1]);
        }
        indents_are_counted(gap.drop_first(), rest);
    } else {
        assert(gap + rest =~= rest);
    }
}

/// Every item of the list of modes is read, without its mark, in its place; the list
/// starts at its heading, lasts over blank lines, and ends at any other line that is no
/// item.
pub proof fn listed_modes_are_read(ls: Seq<Seq<char>>, line: Seq<char>)
    ensures
        trimmed(line) == "Supported interface modes:"@ ==> modes_after(ls.push(line)) == (true, modes_after(ls).1),
        trimmed(line) != "Supported interface modes:"@ ==> {
            &&& !modes_after(ls).0 ==> modes_after(ls.push(line)) == (false, modes_after(ls).1)
            &&& modes_after(ls).0 && trimmed(line).len() == 0 ==> modes_after(ls.push(line)) == modes_after(ls)
            &&& modes_after(ls).0 && trimmed(line).len() > 0 && trimmed(line)[0] == '*' ==> modes_after(ls.push(line)).0
                && modes_after(ls.push(line)).1 == modes_after(ls).1.push(trimmed(trimmed(line).skip(1)))
            &&& modes_after(ls).0 && trimmed(line).len() > 0 && trimmed(line)[0] != '*' ==> modes_after(ls.push(line)) == (
                false,
                modes_after(ls).1,
            )
        },
{
    reveal_strlit("*");
    assert(ls.push(line).drop_last() =~= ls);
    let t = trimmed(line);
    if t.len() > 0 {
        assert(t.take(1) =~= seq![t[0]]);
        assert("*"@ =~= seq!['*']);
        if t[0] != '*' {
            assert(t.take(1)[0] != "*"@[0]);
        }
    }
}

/// A combination is an item and the lines that go on with it, each after a space. The
/// next item, or the end of the list, closes it.
pub proof fn combinations_are_joined(ls: Seq<Seq<char>>, line: Seq<char>)
    requires
        trimmed(line).len() > 0,
        trimmed(line) != "valid interface combinations:"@,
        combos_after(ls).inside is Some,
    ensures
        ({
            let s = combos_after(ls);
            let next = combos_after(ls.push(line));
            let t = trimmed(line);
            let item = t.len() >= 2 && t[0] == '*' && t[1] == ' ';
            let over = ends_list(s.inside->0, line);
            &&& over || item ==> next.done == (if s.current.len() > 0 {
                s.done.push(s.current)
            } else {
                s.done
            })
            &&& over ==> next.inside is None && next.current.len() == 0
            &&& !over ==> next.inside == s.inside
            &&& !over && item ==> next.current == t.skip(2)
            &&& !over && !item ==> next.done == s.done && next.current == s.current + " "@ + t
        }),
{
    reveal_strlit("* ");
    reveal_strlit(" ");
    assert(ls.push(line).drop_last() =~= ls);
    let t = trimmed(line);
    assert("* "@ =~= seq!['*', ' ']);
    assert(" "@ =~= seq![' ']);
    let s = combos_after(ls);
    assert(s.current.push(' ') + t =~= s.current + " "@ + t);
    if t.len() >= 2 {
        assert(t.take(2) =~= seq![t[0], t[1]]);
        if t[0] != '*' || t[1] != ' ' {
            assert(t.take(2)[0] == t[0] && t.take(2)[1] == t[1]);
            assert("* "@[0] == '*' && "* "@[1] == ' ');
            assert(t.take(2) != "* "@);
        }
    }
}

/// Combinations are read below their heading only, and a blank line is passed over.
pub proof fn combinations_have_a_heading(ls: Seq<Seq<char>>, line: Seq<char>)
    ensures
        combos_after(Seq::<Seq<char>>::empty()).inside is None,
        combos_after(Seq::<Seq<char>>::empty()).done.len() == 0,
        combos_after(Seq::<Seq<char>>::empty()).current.len() == 0,
        trimmed(line) == "valid interface combinations:"@ ==> combos_after(ls.push(line)).inside == Some(indent(line))
            && combos_after(ls.push(line)).done == combos_after(ls).done && combos_after(ls.push(line)).current
            == combos_after(ls).current,
        trimmed(line) != "valid interface combinations:"@ && combos_after(ls).inside is None ==> combos_after(
            ls.push(line),
        ) == combos_after(ls),
        trimmed(line) != "valid interface combinations:"@ && trimmed(line).len() == 0 ==> combos_after(ls.push(line))
            == combos_after(ls),
{
    assert(ls.push(line).drop_last() =~= ls);
}

/// The last combination is closed at the end of the text.
pub proof fn last_combination_is_closed(raw: Seq<char>)
    ensures
        combos_after(lines(raw)).current.len() > 0 ==> combos_in(raw) == combos_after(lines(raw)).done.push(
            combos_after(lines(raw)).current,
        ),
        combos_after(lines(raw)).current.len() == 0 ==> combos_in(raw) == combos_after(lines(raw)).done,
{
}

/// A mode is named where its name stands alone: at an end of the text, or between white
/// space, commas, slashes or brackets. Part of a longer name is not it.
pub proof fn mode_names_stand_alone(before: Seq<char>, name: Seq<char>, after: Seq<char>)
    requires
        before.len() == 0 || [' ', ',', '{', '(', '/']@.contains(before.last()),
        after.len() == 0 || [' ', ',', '}', ')', '/']@.contains(after[0]),
    ensures
        has_token(before + name + after, name),
{
    let s = before + name + after;
    let i = before.len() as int;
    assert(s.subrange(i, i + name.len()) =~= name);
    if before.len() > 0 {
        assert(s[i - 1] == before.last());
    }
    if after.len() > 0 {
        assert(s[i + name.len()] == after[0]);
    }
    assert(token_at(s, name, i));
}

/// Where a mode is named, its name stands alone somewhere.
pub proof fn named_modes_stand_alone(s: Seq<char>, name: Seq<char>) -> (i: int)
    requires
        has_token(s, name),
    ensures
        0 <= i,
        i + name.len() <= s.len(),
        s == s.take(i) + name + s.skip(i + name.len()),
        i > 0 ==> s[i - 1] == ' ' || s[i - 1] == ',' || s[i - 1] == '{' || s[i - 1] == '(' || s[i - 1] == '/',
        i + name.len() < s.len() ==> s[i + name.len()] == ' ' || s[i + name.len()] == ',' || s[i + name.len()] == '}'
            || s[i + name.len()] == ')' || s[i + name.len()] == '/',
{
    let i = choose|i: int| #[trigger] token_at(s, name, i);
    assert(s =~= s.take(i) + s.subrange(i, i + name.len()) + s.skip(i + name.len()));
    i
}

proof fn lemma_leading_digits(d: Seq<char>, after: Seq<char>)
    requires
        forall|i: int| 0 <= i < d.len() ==> is_digit(#[trigger] d[i]),
        after.len() > 0 ==> !is_digit(after[0]),
    ensures
        leading_digits(d + after) == d,
    decreases d.len(),
{
    if d.len() > 0 {
        let rest = d.drop_first();
        assert((d + after).drop_first() =~= rest + after);
        assert forall|i: int| 0 <= i < rest.len() implies is_digit(#[trigger] rest[i]) by {
            assert(rest[i] == d[i + 1]);
        }
        lemma_leading_digits(rest, after);
        assert(is_digit(d[0]));
        assert(seq![d[0]] + rest =~= d);
    } else {
        assert(d + after =~= after);
        assert(leading_digits(after) =~= d);
    }
}

/// A combination's channels are the number behind its first limit on them; without such a
/// limit it has none.
pub proof fn channel_limits_read_back(before: Seq<char>, n: u32, after: Seq<char>)
    requires
        after.len() > 0 ==> !is_digit(after[0]),
        forall|j: int| #[trigger] stands_at(before + "#channels <="@ + " "@ + decimal(n as nat) + after, "#channels <="@, j)
            ==> before.len() <= j,
    ensures
        channel_count(before + "#channels <="@ + " "@ + decimal(n as nat) + after) == Some(n),
        !has_part(before, "#channels <="@) ==> channel_count(before) is None,
{
    reveal_strlit(" ");
    reveal_strlit("#channels <=");
    let needle = "#channels <="@;
    let d = decimal(n as nat);
    let s = before + needle + " "@ + d + after;
    decimal_reads_back(n as nat);
    assert(s.subrange(before.len() as int, (before.len() + needle.len()) as int) =~= needle);
    assert(first_at(s, needle, before.len() as int));
    let i = choose|i: int| first_at(s, needle, i);
    assert(first_at(s, needle, i));
    assert(i == before.len());
    let rest = s.skip(i + needle.len());
    assert(rest =~= seq![' '] + d + after);
    assert(rest.drop_first() =~= d + after);
    assert(is_digit(d[0]));
    assert((d + after)[0] == d[0]);
    assert(!is_space((d + after)[0]));
    reveal_with_fuel(trim_start, 2);
    assert(trim_start(rest) == d + after);
    lemma_leading_digits(d, after);
}

/// A radio's channels are the most that one of its combinations allows.
pub proof fn most_channels_are_counted(combos: Seq<Seq<char>>)
    ensures
        allows_at_most(combos, most_channels(combos)),
        most_channels(combos) > 0 ==> allows_just(combos, most_channels(combos)),
    decreases combos.len(),
{
    if combos.len() > 0 {
        let before = combos.drop_last();
        most_channels_are_counted(before);
        assert forall|i: int| 0 <= i < combos.len() implies (channel_count(#[trigger] combos[i]) matches Some(n) ==> n
            <= most_channels(combos)) by {
            if i < before.len() {
                assert(before[i] == combos[i]);
            }
        }
        if most_channels(combos) == most_channels(before) && most_channels(combos) > 0 {
            let i = choose|i: int| 0 <= i < before.len() && channel_count(#[trigger] before[i]) == Some(
                most_channels(before),
            );
            assert(combos[i] == before[i]);
        } else if most_channels(combos) > 0 {
            assert(channel_count(combos[combos.len() - 1]) == Some(most_channels(combos)));
        }
    }
}

/// No combination allows more channels.
pub open spec fn allows_at_most(combos: Seq<Seq<char>>, most: u32) -> bool {
    forall|i: int| 0 <= i < combos.len() ==> (channel_count(#[trigger] combos[i]) matches Some(n) ==> n <= most)
}

/// A combination allows just that many channels.
pub open spec fn allows_just(combos: Seq<Seq<char>>, most: u32) -> bool {
    exists|i: int| 0 <= i < combos.len() && channel_count(#[trigger] combos[i]) == Some(most)
}

/// A radio can be client and access point at once exactly where one and the same
/// combination names both modes. The rest of what is told of it is what was listed.
pub proof fn radios_pair_what_one_combination_names(name: Seq<char>, raw: Seq<char>, i: int)
    ensures
        0 <= i < combos_in(raw).len() && has_token(combos_in(raw)[i], "managed"@) && has_token(combos_in(raw)[i], "AP"@)
            ==> phy_in(name, raw).supports_managed_plus_ap,
        phy_in(name, raw).supports_managed_plus_ap ==> names_both(combos_in(raw)),
        phy_in(name, raw).phy == name,
        phy_in(name, raw).interface_modes == modes_after(lines(raw)).1,
        phy_in(name, raw).bands == bands_after(lines(raw)).1,
        allows_at_most(combos_in(raw), phy_in(name, raw).max_channels),
{
    most_channels_are_counted(combos_in(raw));
    let combos = combos_in(raw);
    if any_pairs(combos) {
        let k = choose|k: int| 0 <= k < combos.len() && pairs_client_and_ap(#[trigger] combos[k]);
        assert(has_token(combos[k], "managed"@) && has_token(combos[k], "AP"@));
    }
    if 0 <= i < combos.len() && has_token(combos[i], "managed"@) && has_token(combos[i], "AP"@) {
        assert(pairs_client_and_ap(combos[i]));
    }
}

/// One combination names both modes.
pub open spec fn names_both(combos: Seq<Seq<char>>) -> bool {
    exists|i: int|
        0 <= i < combos.len() && has_token(#[trigger] combos[i], "managed"@) && has_token(combos[i], "AP"@)
}

/// An interface belongs to the radio whose section it stands in; what is told of others
/// does not change.
pub proof fn interfaces_belong_to_the_radio_above(ls: Seq<Seq<char>>, line: Seq<char>, rest: Seq<char>, other: Seq<char>)
    ensures
        trimmed(line) == "phy#"@ + rest ==> phys_after(ls.push(line)).0 == Some("phy"@ + trimmed(rest)) && phys_after(
            ls.push(line),
        ).1 == phys_after(ls).1,
        trimmed(line) == "Interface "@ + rest ==> {
            &&& phys_after(ls.push(line)).0 == phys_after(ls).0
            &&& phys_after(ls).0 matches Some(phy) ==> phys_after(ls.push(line)).1.contains_key(trimmed(rest))
                && phys_after(ls.push(line)).1[trimmed(rest)] == phy
            &&& other != trimmed(rest) && phys_after(ls).1.contains_key(other) ==> phys_after(ls.push(line)).1.contains_key(
                other,
            ) && phys_after(ls.push(line)).1[other] == phys_after(ls).1[other]
        },
        !has_prefix(trimmed(line), "phy#"@) && !has_prefix(trimmed(line), "Interface "@) ==> phys_after(ls.push(line))
            == phys_after(ls),
{
    reveal_strlit("phy#");
    reveal_strlit("Interface ");
    assert(ls.push(line).drop_last() =~= ls);
    if trimmed(line) == "phy#"@ + rest {
        pieces_are_found("phy#"@, rest, seq![]);
    }
    if trimmed(line) == "Interface "@ + rest {
        pieces_are_found("Interface "@, rest, seq![]);
        assert(trimmed(line)[0] == 'I');
        if has_prefix(trimmed(line), "phy#"@) {
            assert(trimmed(line).take(4)[0] == "phy#"@[0]);
        }
    }
}

proof fn lemma_section_line(ls: Seq<Seq<char>>, line: Seq<char>, rest: Seq<char>)
    requires
        trimmed(line) == "phy#"@ + rest,
    ensures
        devs_after(ls.push(line)) == (DevsView { phy: Some("phy"@ + trimmed(rest)), ..devs_after(ls).flushed() }),
{
    assert(ls.push(line).drop_last() =~= ls);
    pieces_are_found("phy#"@, rest, seq![]);
}

proof fn lemma_interface_line(ls: Seq<Seq<char>>, line: Seq<char>, rest: Seq<char>)
    requires
        trimmed(line) == "Interface "@ + rest,
    ensures
        devs_after(ls.push(line)) == (DevsView { iface: Some(trimmed(rest)), ..devs_after(ls).flushed() }),
{
    reveal_strlit("phy#");
    reveal_strlit("Interface ");
    assert(ls.push(line).drop_last() =~= ls);
    pieces_are_found("Interface "@, rest, seq![]);
    assert(trimmed(line)[0] == 'I');
    if has_prefix(trimmed(line), "phy#"@) {
        assert(trimmed(line).take(4)[0] == "phy#"@[0]);
    }
}

proof fn lemma_type_line(ls: Seq<Seq<char>>, line: Seq<char>, rest: Seq<char>)
    requires
        trimmed(line) == "type "@ + rest,
    ensures
        devs_after(ls.push(line)) == (DevsView { iftype: Some(trimmed(rest)), ..devs_after(ls) }),
{
    reveal_strlit("phy#");
    reveal_strlit("Interface ");
    reveal_strlit("type ");
    assert(ls.push(line).drop_last() =~= ls);
    pieces_are_found("type "@, rest, seq![]);
    assert(trimmed(line)[0] == 't');
    if has_prefix(trimmed(line), "phy#"@) {
        assert(trimmed(line).take(4)[0] == "phy#"@[0]);
    }
    if has_prefix(trimmed(line), "Interface "@) {
        assert(trimmed(line).take(10)[0] == "Interface "@[0]);
    }
}

/// A device is told by its interface and its type, below the section of its radio: the
/// three lines add it to those that were told before, and so do the last two in the same
/// section.
pub proof fn devices_are_told_with_their_radio(
    ls: Seq<Seq<char>>,
    section: Seq<char>,
    named: Seq<char>,
    typed: Seq<char>,
    phy: Seq<char>,
    name: Seq<char>,
    kind: Seq<char>,
)
    requires
        trimmed(section) == "phy#"@ + phy,
        trimmed(named) == "Interface "@ + name,
        trimmed(typed) == "type "@ + kind,
    ensures
        devs_after(ls.push(section).push(named).push(typed)).flushed().rows == devs_after(ls).flushed().rows.push(
            (DevView { ifname: trimmed(name), phy: "phy"@ + trimmed(phy), iftype: trimmed(kind) }),
        ),
        devs_after(ls).phy matches Some(p) ==> devs_after(ls.push(named).push(typed)).flushed().rows == devs_after(
            ls,
        ).flushed().rows.push((DevView { ifname: trimmed(name), phy: p, iftype: trimmed(kind) })),
        devs_after(ls.push(named).push(typed)).phy == devs_after(ls).phy,
        devs_after(ls.push(section).push(named)).flushed().rows == devs_after(ls).flushed().rows,
{
    lemma_section_line(ls, section, phy);
    lemma_interface_line(ls.push(section), named, name);
    lemma_type_line(ls.push(section).push(named), typed, kind);
    lemma_interface_line(ls, named, name);
    lemma_type_line(ls.push(named), typed, kind);
}

/// A line says that the link is down.
pub open spec fn says_down(ls: Seq<Seq<char>>) -> bool {
    exists|i: int| 0 <= i < ls.len() && has_prefix(trimmed(#[trigger] ls[i]), "Not connected"@)
}

/// A line says that the link is up.
pub open spec fn says_up(ls: Seq<Seq<char>>) -> bool {
    exists|i: int| 0 <= i < ls.len() && has_prefix(trimmed(#[trigger] ls[i]), "Connected to"@)
}

/// A link is up exactly where some line says so and none says the opposite.
pub proof fn links_are_up_where_it_is_said(l: StaLinkView, ls: Seq<Seq<char>>)
    ensures
        link_after(l, ls).connected <==> (l.connected || says_up(ls)) && !says_down(ls),
    decreases ls.len(),
{
    reveal_strlit("Not connected");
    reveal_strlit("Connected to");
    if ls.len() > 0 {
        let rest = ls.drop_first();
        let t = trimmed(ls[0]);
        if has_prefix(t, "Not connected"@) {
            assert(says_down(ls));
        } else {
            links_are_up_where_it_is_said(link_with(l, ls[0]), rest);
            if says_down(rest) {
                let i = choose|i: int| 0 <= i < rest.len() && has_prefix(trimmed(#[trigger] rest[i]), "Not connected"@);
                assert(ls[i + 1] == rest[i]);
            }
            if says_down(ls) {
                let i = choose|i: int| 0 <= i < ls.len() && has_prefix(trimmed(#[trigger] ls[i]), "Not connected"@);
                assert(rest[i - 1] == ls[i]);
            }
            if says_up(rest) {
                let i = choose|i: int| 0 <= i < rest.len() && has_prefix(trimmed(#[trigger] rest[i]), "Connected to"@);
                assert(ls[i + 1] == rest[i]);
            }
            if says_up(ls) {
                let i = choose|i: int| 0 <= i < ls.len() && has_prefix(trimmed(#[trigger] ls[i]), "Connected to"@);
                if i > 0 {
                    assert(rest[i - 1] == ls[i]);
                }
            }
        }
    }
}

/// A line that tells a frequency sets the link's frequency, its channel and its band
/// together, and leaves alone whether it is up; what no line tells stays untold.
pub proof fn links_tell_their_channel(l: StaLinkView, line: Seq<char>, rest: Seq<char>, n: u32)
    ensures
        trimmed(line) == "freq:"@ + rest && trimmed(rest) == decimal(n as nat) ==> {
            &&& link_with(l, line).freq_mhz == Some(n)
            &&& link_with(l, line).channel == channel_of(n)
            &&& link_with(l, line).band == Some(nm_band_of(n))
            &&& link_with(l, line).connected == l.connected
        },
        !has_prefix(trimmed(line), "freq:"@) ==> {
            &&& link_with(l, line).freq_mhz == l.freq_mhz
            &&& link_with(l, line).channel == l.channel
            &&& link_with(l, line).band == l.band
        },
        !has_prefix(trimmed(line), "freq:"@) && !has_prefix(trimmed(line), "Connected to"@) ==> link_with(l, line) == l,
        !has_prefix(trimmed(line), "Not connected"@) ==> link_after(l, seq![line]) == link_with(l, line),
        no_link().freq_mhz is None,
        no_link().channel is None,
        no_link().band is None,
        !no_link().connected,
{
    reveal_strlit("freq:");
    reveal_strlit("Connected to");
    reveal_with_fuel(link_after, 2);
    if trimmed(line) == "freq:"@ + rest && trimmed(rest) == decimal(n as nat) {
        pieces_are_found("freq:"@, rest, seq![]);
        decimal_reads_back(n as nat);
        assert(trimmed(line)[0] == 'f');
        if has_prefix(trimmed(line), "Connected to"@) {
            assert(trimmed(line).take(12)[0] == "Connected to"@[0]);
        }
    }
    assert(seq![line].drop_first() =~= Seq::<Seq<char>>::empty());
}

/// A radio is asked about by its name, which starts with "phy" once, whether or not it
/// was given so.
pub proof fn radios_are_named_once(name: Seq<char>)
    requires
        name.len() > 0,
        !is_space(name[0]),
        !is_space(name.last()),
        !has_prefix(name, "phy"@),
    ensures
        phy_arg(name) == "phy"@ + name,
        phy_arg("phy"@ + name) == "phy"@ + name,
{
    reveal_strlit("phy");
    lemma_trim_fixed(name);
    lemma_trim_fixed("phy"@ + name);
    pieces_are_found("phy"@, name, seq![]);
    reveal_with_fuel(without_prefixes, 2);
}

/// What is asked of `iw` is answered with what it printed where it ended well; where it
/// did not, the complaint holds the command, its exit code and what it printed.
pub proof fn radio_questions_are_answered(
    h: Seq<Reply>,
    m: Mark,
    w: IwView,
    phy: Seq<char>,
    ifname: Seq<char>,
    m1: Mark,
    raw: Seq<char>,
)
    ensures
        iw(h, m, w, seq![phy_arg(phy), "info"@]) == Progress::Go(m1, Ok::<Seq<char>, ErrorView>(raw)) ==> capability(
            h,
            m,
            w,
            phy,
        ) == Progress::Go(m1, Ok::<PhyView, ErrorView>(phy_in(phy_arg(phy), raw))),
        iw(h, m, w, seq!["dev"@]) == Progress::Go(m1, Ok::<Seq<char>, ErrorView>(raw)) ==> {
            &&& devices(h, m, w) == Progress::Go(m1, Ok::<Seq<DevView>, ErrorView>(devs_in(raw)))
            &&& phys_after(lines(raw)).1.contains_key(trimmed(ifname)) ==> phy_of(h, m, w, ifname) == Progress::Go(
                m1,
                Ok::<Option<Seq<char>>, ErrorView>(Some(phys_after(lines(raw)).1[trimmed(ifname)])),
            )
            &&& !phys_after(lines(raw)).1.contains_key(trimmed(ifname)) ==> phy_of(h, m, w, ifname) == Progress::Go(
                m1,
                Ok::<Option<Seq<char>>, ErrorView>(None),
            )
            &&& !is_blank(ifname) ==> dev_exists(h, m, w, ifname) == Progress::Go(
                m1,
                phys_after(lines(raw)).1.contains_key(trimmed(ifname)),
            )
        },
        !is_blank(ifname) && iw(h, m, w, seq!["dev"@, trimmed(ifname), "link"@]) == Progress::Go(
            m1,
            Ok::<Seq<char>, ErrorView>(raw),
        ) ==> link_of(h, m, w, ifname) == Progress::Go(m1, link_after(no_link(), lines(raw))),
        is_blank(ifname) ==> link_of(h, m, w, ifname) == Progress::Go(m, no_link()) && dev_exists(h, m, w, ifname)
            == Progress::Go(m, false),
{
}

/// The access point's interface is added to the client's radio where there is none of
/// that name yet, and taken away where there is one; nothing is done without a name, or
/// where both are the same interface.
pub proof fn virtual_interfaces_are_made_once(
    h: Seq<Reply>,
    m: Mark,
    w: IwView,
    sta: Seq<char>,
    ap: Seq<char>,
    m1: Mark,
    there: bool,
    m2: Mark,
    said: Seq<char>,
)
    requires
        dev_exists(h, m, w, trimmed(ap)) == Progress::Go(m1, there),
    ensures
        is_blank(sta) || is_blank(ap) || trimmed(sta) == trimmed(ap) ==> vif_made(h, m, w, sta, ap) == Progress::Go(m, ()),
        !is_blank(sta) && !is_blank(ap) && trimmed(sta) != trimmed(ap) ==> {
            &&& there ==> vif_made(h, m, w, sta, ap) == Progress::Go(m1, ())
            &&& !there && iw(
                h,
                m1,
                w,
                seq!["dev"@, trimmed(sta), "interface"@, "add"@, trimmed(ap), "type"@, "__ap"@],
            ) == Progress::Go(m2, Ok::<Seq<char>, ErrorView>(said)) ==> vif_made(h, m, w, sta, ap) == Progress::Go(m2, ())
            &&& !there && vif_made(h, m, w, sta, ap) is Go ==> (iw(
                h,
                m1,
                w,
                seq!["dev"@, trimmed(sta), "interface"@, "add"@, trimmed(ap), "type"@, "__ap"@],
            ) matches Progress::Go(_, r) && r is Ok)
        },
        is_blank(ap) ==> vif_removed(h, m, w, ap) == Progress::Go(m, ()),
        !is_blank(ap) && !there ==> vif_removed(h, m, w, ap) == Progress::Go(m1, ()),
        !is_blank(ap) && there && vif_removed(h, m, w, ap) is Go ==> (iw(
            h,
            m1,
            w,
            seq!["dev"@, trimmed(ap), "del"@],
        ) matches Progress::Go(_, r) && r is Ok),
        !is_blank(ap) && there && iw(h, m1, w, seq!["dev"@, trimmed(ap), "del"@]) == Progress::Go(
            m2,
            Ok::<Seq<char>, ErrorView>(said),
        ) ==> vif_removed(h, m, w, ap) == Progress::Go(m2, ()),
{
}

/// The device of a name is the first one that has it.
pub proof fn devices_are_found_by_name(devs: Seq<DevView>, name: Seq<char>)
    ensures
        dev_named(devs, name) matches Some(d) ==> d.ifname == name && devs.contains(d),
        dev_named(devs, name) is None <==> lacks_dev(devs, name),
        devs.len() > 0 && devs[0].ifname == name ==> dev_named(devs, name) == Some(devs[0]),
    decreases devs.len(),
{
    if devs.len() > 0 {
        let rest = devs.drop_first();
        devices_are_found_by_name(rest, name);
        if devs[0].ifname != name {
            if let Some(d) = dev_named(rest, name) {
                let k = choose|k: int| 0 <= k < rest.len() && rest[k] == d;
                assert(devs[k + 1] == d);
            }
            assert forall|i: int| 0 <= i < devs.len() && lacks_dev(rest, name) implies (#[trigger] devs[i]).ifname
                != name by {
                if i > 0 {
                    assert(rest[i - 1] == devs[i]);
                }
            }
            assert forall|i: int| 0 <= i < rest.len() && lacks_dev(devs, name) implies (#[trigger] rest[i]).ifname
                != name by {
                assert(devs[i + 1] == rest[i]);
            }
        } else {
            assert(devs.contains(devs[0]));
            assert(!lacks_dev(devs, name));
        }
    }
}

/// No device has the name.
pub open spec fn lacks_dev(devs: Seq<DevView>, name: Seq<char>) -> bool {
    forall|i: int| 0 <= i < devs.len() ==> (#[trigger] devs[i]).ifname != name
}

/// An interface can be a client where it is one, in whatever case that is written, and
/// never where it is an access point; of any other its radio's list of modes decides. One
/// that is not there cannot.
pub proof fn clients_are_told_by_their_type(
    h: Seq<Reply>,
    m: Mark,
    w: IwView,
    ifname: Seq<char>,
    m1: Mark,
    devs: Seq<DevView>,
    d: DevView,
    m2: Mark,
    cap: PhyView,
)
    requires
        !is_blank(ifname),
        devices(h, m, w) == Progress::Go(m1, Ok::<Seq<DevView>, ErrorView>(devs)),
    ensures
        dev_named(devs, trimmed(ifname)) is None ==> sta_capable(h, m, w, ifname) == Progress::Go(m1, false),
        dev_named(devs, trimmed(ifname)) == Some(d) ==> {
            &&& lowered(d.iftype) == "ap"@ || has_part(lowered(d.iftype), "__ap"@) ==> sta_capable(h, m, w, ifname)
                == Progress::Go(m1, false)
            &&& lowered(d.iftype) == "managed"@ ==> sta_capable(h, m, w, ifname) == Progress::Go(m1, true)
            &&& lowered(d.iftype) != "ap"@ && !has_part(lowered(d.iftype), "__ap"@) && lowered(d.iftype) != "managed"@
                && capability(h, m1, w, d.phy) == Progress::Go(m2, Ok::<PhyView, ErrorView>(cap)) ==> {
                &&& sta_capable(h, m, w, ifname) == Progress::Go(m2, lists_managed(cap.interface_modes))
            }
        },
{
    reveal_strlit("ap");
    reveal_strlit("__ap");
    reveal_strlit("managed");
    let kind = lowered(d.iftype);
    if kind == "managed"@ {
        assert("managed"@.len() == 7 && "ap"@.len() == 2);
        assert(!has_part(kind, "__ap"@)) by {
            if has_part(kind, "__ap"@) {
                let i = choose|i: int| stands_at(kind, "__ap"@, i);
                assert(kind.subrange(i, i + 4)[0] == '_');
                assert(kind[i] == '_');
            }
        }
    }
}

/// Client and access point can run at once where the radio behind the client's interface
/// can pair them; without a radio, or without an answer, they cannot.
pub proof fn radios_are_shared_where_they_can_be(
    h: Seq<Reply>,
    m: Mark,
    w: IwView,
    sta: Seq<char>,
    m1: Mark,
    phy: Seq<char>,
    m2: Mark,
    cap: PhyView,
)
    ensures
        phy_of(h, m, w, sta) == Progress::Go(m1, Ok::<Option<Seq<char>>, ErrorView>(Some(phy))) && capability(h, m1, w, phy)
            == Progress::Go(m2, Ok::<PhyView, ErrorView>(cap)) ==> sta_concurrent(h, m, w, sta) == Progress::Go(
            m2,
            cap.supports_managed_plus_ap,
        ),
        phy_of(h, m, w, sta) == Progress::Go(m1, Ok::<Option<Seq<char>>, ErrorView>(None)) ==> sta_concurrent(h, m, w, sta)
            == Progress::Go(m1, false),
{
}

/// Each field is seen under its own name, as it is.
pub proof fn fields_are_seen_under_their_names(
    phy_capability: PhyCapability,
    wifi_dev: WifiDev,
    sta_link_info: StaLinkInfo,
)
    ensures
        phy_capability@.phy == phy_capability.phy@,
        phy_capability@.supports_managed_plus_ap == phy_capability.supports_managed_plus_ap,
        phy_capability@.max_channels == phy_capability.max_channels,
        phy_capability@.interface_modes == texts(phy_capability.interface_modes@),
        phy_capability@.bands == phy_capability.bands,
        wifi_dev@.ifname == wifi_dev.ifname@,
        wifi_dev@.phy == wifi_dev.phy@,
        wifi_dev@.iftype == wifi_dev.iftype@,
        sta_link_info@.connected == sta_link_info.connected,
        sta_link_info@.freq_mhz == sta_link_info.freq_mhz,
        sta_link_info@.channel == opt_channel(sta_link_info.channel),
        sta_link_info@.band == opt_text(sta_link_info.band),
{
}

} // verus!
