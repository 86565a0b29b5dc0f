//! Reading what `nmcli`, `iw` and `curl` print.

use crate::network::intent::{StaSelectionMode, WifiIntent, WifiView};
use crate::number::{
    decimal, decimal_reads_back, is_digit, number_in, parse_u16, parse_u32, parse_u8, parsed, parsed_up_to, to_decimal,
};
use crate::text::{
    after_prefix, blank, cat, columns_come_apart, contains, eq_ignoring_case, has_part, has_prefix, is_blank,
    lemma_trim_fixed, lines, lines_come_apart, lines_of, lowered, opt_text, part, part_of, pieces_are_found, push_text,
    same_ignoring_case, slices, split_n, splitn, strip_prefix, text_eq, texts, to_lower,
    trim, trimmed,
};
use vstd::prelude::*;

verus! {

/// One row of NetworkManager's device table.
#[derive(Debug, Clone)]
pub struct DeviceRow {
    pub device: String,
    pub kind: String,
    pub state: String,
    pub connection: String,
}

/// [`DeviceRow`] over character sequences.
#[verifier::ext_equal]
pub struct DeviceView {
    pub device: Seq<char>,
    pub kind: Seq<char>,
    pub state: Seq<char>,
    pub connection: Seq<char>,
}

impl View for DeviceRow {
    type V = DeviceView;

    open spec fn view(&self) -> DeviceView {
        DeviceView { device: self.device@, kind: self.kind@, state: self.state@, connection: self.connection@ }
    }
}

/// The views of device rows.
pub open spec fn device_views(v: Seq<DeviceRow>) -> Seq<DeviceView> {
    v.map_values(|d: DeviceRow| d@)
}

/// The row that a line `device:type:state:connection` denotes.
pub open spec fn device_row(line: Seq<char>) -> DeviceView {
    let p = split_n(line, 4, ':');
    DeviceView { device: part(p, 0), kind: part(p, 1), state: part(p, 2), connection: part(p, 3) }
}

/// The rows of the lines that are not blank.
pub open spec fn device_rows(ls: Seq<Seq<char>>) -> Seq<DeviceView>
    decreases ls.len(),
{
    if ls.len() == 0 {
        seq![]
    } else if is_blank(ls.last()) {
        device_rows(ls.drop_last())
    } else {
        device_rows(ls.drop_last()).push(device_row(ls.last()))
    }
}

/// Reads the device table.
pub fn parse_device_table(raw: &str) -> (r: Vec<DeviceRow>)
    ensures
        device_views(r@) == device_rows(lines(raw@)),
{
    let ls = lines_of(raw);
    let mut rows: Vec<DeviceRow> = Vec::new();
    let mut i: usize = 0;
    proof {
        assert(slices(ls@).take(0) =~= Seq::<Seq<char>>::empty());
        assert(device_views(rows@) =~= Seq::<DeviceView>::empty());
    }
    while i < ls.len()
        invariant
            i <= ls.len(),
            slices(ls@) == lines(raw@),
            device_views(rows@) == device_rows(slices(ls@).take(i as int)),
        decreases ls.len() - i,
    {
        let line = ls[i];
        let ghost seen = rows@;
        proof {
            let t = slices(ls@).take(i as int + 1);
            assert(t.drop_last() =~= slices(ls@).take(i as int));
            assert(t.last() == line@);
        }
        if !blank(line) {
            let p = splitn(line, 4, ':');
            rows.push(
                DeviceRow {
                    device: part_of(&p, 0).to_owned(),
                    kind: part_of(&p, 1).to_owned(),
                    state: part_of(&p, 2).to_owned(),
                    connection: part_of(&p, 3).to_owned(),
                },
            );
            proof {
                assert(device_views(rows@) =~= device_views(seen).push(device_row(line@)));
            }
        }
        i += 1;
    }
    proof {
        assert(slices(ls@).take(i as int) =~= slices(ls@));
    }
    rows
}

/// Whether a row is a wired interface other than the loopback.
pub open spec fn is_wired(d: DeviceView) -> bool {
    same_ignoring_case(d.kind, "ethernet"@) && d.device != "lo"@
}

/// The first wired interface of a device table.
pub open spec fn first_wired(rows: Seq<DeviceView>) -> Option<Seq<char>>
    decreases rows.len(),
{
    if rows.len() == 0 {
        None
    } else if is_wired(rows[0]) {
        Some(rows[0].device)
    } else {
        first_wired(rows.drop_first())
    }
}

/// Finds the first wired interface.
pub fn first_ethernet_device(devices: &Vec<DeviceRow>) -> (r: Option<String>)
    ensures
        opt_text(r) == first_wired(device_views(devices@)),
{
    let mut i: usize = 0;
    proof {
        assert(device_views(devices@).skip(0) =~= device_views(devices@));
    }
    while i < devices.len()
        invariant
            i <= devices.len(),
            first_wired(device_views(devices@)) == first_wired(device_views(devices@).skip(i as int)),
        decreases devices.len() - i,
    {
        let d = &devices[i];
        proof {
            assert(device_views(devices@).skip(i as int)[0] == d@);
            assert(device_views(devices@).skip(i as int).drop_first() =~= device_views(devices@).skip(i as int + 1));
        }
        if eq_ignoring_case(d.kind.as_str(), "ethernet") && !text_eq(d.device.as_str(), "lo") {
            return Some(d.device.clone());
        }
        i += 1;
    }
    None
}

/// The bars shown for a signal strength in percent.
pub open spec fn bars(pct: Option<u8>) -> u8 {
    match pct {
        None => 0,
        Some(p) => if p == 0 {
            0
        } else if p >= 80 {
            5
        } else {
            (1 + p / 20) as u8
        },
    }
}

/// The bars of a signal strength: none without a reading, then one for each fifth
/// begun.
pub fn signal_bars_from_pct(pct: Option<u8>) -> (r: u8)
    ensures
        r == bars(pct),
{
    match pct {
        None => 0,
        Some(p) => if p >= 80 {
            5
        } else if p >= 60 {
            4
        } else if p >= 40 {
            3
        } else if p >= 20 {
            2
        } else if p > 0 {
            1
        } else {
            0
        },
    }
}

/// The label of a network's security, as the interface shows it.
pub open spec fn security_of(nm: Seq<char>) -> Seq<char> {
    let s = lowered(nm);
    if s.len() == 0 || has_part(s, "--"@) {
        "open"@
    } else if has_part(s, "wpa3"@) {
        "wpa3"@
    } else if has_part(s, "wpa2"@) || has_part(s, "wpa"@) {
        "wpa2"@
    } else if has_part(s, "wep"@) {
        "wep"@
    } else {
        "open"@
    }
}

/// The label of NetworkManager's security column.
pub fn security_label(nm: &str) -> (r: &'static str)
    ensures
        r@ == security_of(nm@),
{
    let s = to_lower(nm);
    if s.as_str().is_empty() || contains(s.as_str(), "--") {
        "open"
    } else if contains(s.as_str(), "wpa3") {
        "wpa3"
    } else if contains(s.as_str(), "wpa2") || contains(s.as_str(), "wpa") {
        "wpa2"
    } else if contains(s.as_str(), "wep") {
        "wep"
    } else {
        "open"
    }
}

/// A network as the interface lists it.
#[derive(Debug, Clone)]
pub struct ScanRow {
    pub ssid: String,
    pub signal: u8,
    pub security: String,
    pub active: bool,
}

/// [`ScanRow`] over character sequences.
#[verifier::ext_equal]
pub struct ScanRowView {
    pub ssid: Seq<char>,
    pub signal: u8,
    pub security: Seq<char>,
    pub active: bool,
}

impl View for ScanRow {
    type V = ScanRowView;

    open spec fn view(&self) -> ScanRowView {
        ScanRowView { ssid: self.ssid@, signal: self.signal, security: self.security@, active: self.active }
    }
}

/// The views of scan rows.
pub open spec fn scan_views(v: Seq<ScanRow>) -> Seq<ScanRowView> {
    v.map_values(|d: ScanRow| d@)
}

/// A `u8` in decimal, where the text is one.
pub open spec fn byte_in(s: Seq<char>) -> Option<u8> {
    match parsed_up_to(s, 0xff) {
        Some(v) => Some(v as u8),
        None => None,
    }
}

/// Whether a column says yes.
pub open spec fn says_yes(s: Seq<char>) -> bool {
    let v = lowered(trimmed(s));
    v == "yes"@ || v == "y"@
}

fn yes_of(s: &str) -> (r: bool)
    ensures
        r == says_yes(s@),
{
    let v = to_lower(trim(s));
    text_eq(v.as_str(), "yes") || text_eq(v.as_str(), "y")
}

/// The row that a line `ssid:signal:security:active` denotes.
pub open spec fn scan_row(line: Seq<char>) -> ScanRowView {
    let p = split_n(line, 4, ':');
    ScanRowView {
        ssid: trimmed(part(p, 0)),
        signal: bars(byte_in(trimmed(part(p, 1)))),
        security: security_of(trimmed(part(p, 2))),
        active: says_yes(part(p, 3)),
    }
}

/// Whether one of the rows carries the name.
pub open spec fn lists_ssid(rows: Seq<ScanRowView>, ssid: Seq<char>) -> bool {
    exists|i: int| 0 <= i < rows.len() && (#[trigger] rows[i]).ssid == ssid
}

/// The rows of the lines that carry a name, each name where it comes first.
pub open spec fn scan_rows(ls: Seq<Seq<char>>) -> Seq<ScanRowView>
    decreases ls.len(),
{
    if ls.len() == 0 {
        seq![]
    } else {
        let before = scan_rows(ls.drop_last());
        let row = scan_row(ls.last());
        if is_blank(ls.last()) || row.ssid.len() == 0 || lists_ssid(before, row.ssid) {
            before
        } else {
            before.push(row)
        }
    }
}

/// No name stands twice in a list of networks, and none is empty.
pub proof fn scan_names_are_unique(ls: Seq<Seq<char>>)
    ensures
        forall|i: int| 0 <= i < scan_rows(ls).len() ==> (#[trigger] scan_rows(ls)[i]).ssid.len() > 0,
        forall|i: int, j: int|
            0 <= i < j < scan_rows(ls).len() ==> (#[trigger] scan_rows(ls)[i]).ssid != (#[trigger] scan_rows(ls)[j]).ssid,
    decreases ls.len(),
{
    if ls.len() > 0 {
        scan_names_are_unique(ls.drop_last());
        let before = scan_rows(ls.drop_last());
        let rows = scan_rows(ls);
        assert(rows == before || rows == before.push(scan_row(ls.last())));
        assert forall|i: int, j: int| 0 <= i < j < rows.len() implies (#[trigger] rows[i]).ssid != (
        #[trigger] rows[j]).ssid by {
            assert(rows[i] == before[i]);
            if j < before.len() {
                assert(rows[j] == before[j]);
            }
        }
        assert forall|i: int| 0 <= i < rows.len() implies (#[trigger] rows[i]).ssid.len() > 0 by {
            if i < before.len() {
                assert(rows[i] == before[i]);
            }
        }
    }
}

fn has_ssid(rows: &Vec<ScanRow>, ssid: &str) -> (r: bool)
    ensures
        r == lists_ssid(scan_views(rows@), ssid@),
{
    let mut i: usize = 0;
    while i < rows.len()
        invariant
            i <= rows.len(),
            forall|j: int| 0 <= j < i ==> (#[trigger] scan_views(rows@)[j]).ssid != ssid@,
        decreases rows.len() - i,
    {
        proof {
            assert(scan_views(rows@)[i as int].ssid == rows@[i as int].ssid@);
        }
        if text_eq(rows[i].ssid.as_str(), ssid) {
            return true;
        }
        i += 1;
    }
    false
}

/// Reads the list of networks.
pub fn parse_scan_rows(raw: &str) -> (r: Vec<ScanRow>)
    ensures
        scan_views(r@) == scan_rows(lines(raw@)),
{
    let ls = lines_of(raw);
    let mut rows: Vec<ScanRow> = Vec::new();
    let mut i: usize = 0;
    proof {
        assert(slices(ls@).take(0) =~= Seq::<Seq<char>>::empty());
        assert(scan_views(rows@) =~= Seq::<ScanRowView>::empty());
    }
    while i < ls.len()
        invariant
            i <= ls.len(),
            slices(ls@) == lines(raw@),
            scan_views(rows@) == scan_rows(slices(ls@).take(i as int)),
        decreases ls.len() - i,
    {
        let line = ls[i];
        let ghost seen = rows@;
        proof {
            let t = slices(ls@).take(i as int + 1);
            assert(t.drop_last() =~= slices(ls@).take(i as int));
            assert(t.last() == line@);
        }
        if !blank(line) {
            let p = splitn(line, 4, ':');
            let ssid = trim(part_of(&p, 0));
            if !ssid.is_empty() && !has_ssid(&rows, ssid) {
                let row = ScanRow {
                    ssid: ssid.to_owned(),
                    signal: signal_bars_from_pct(parse_u8(trim(part_of(&p, 1)))),
                    security: security_label(trim(part_of(&p, 2))).to_owned(),
                    active: yes_of(part_of(&p, 3)),
                };
                rows.push(row);
                proof {
                    assert(scan_views(rows@) =~= scan_views(seen).push(scan_row(line@)));
                }
            }
        }
        i += 1;
    }
    proof {
        assert(slices(ls@).take(i as int) =~= slices(ls@));
    }
    rows
}

/// A Wi-Fi band.
#[derive(Debug, Clone, Copy, PartialEq, Eq, Structural)]
pub enum BandClass {
    Ghz2_4,
    Ghz5,
    Ghz6,
    Unknown,
}

/// The band of a frequency in MHz.
pub open spec fn band_of(freq_mhz: Option<u32>) -> BandClass {
    match freq_mhz {
        Some(v) => if 2412 <= v <= 2484 {
            BandClass::Ghz2_4
        } else if 5000 <= v <= 5895 {
            BandClass::Ghz5
        } else if 5925 <= v <= 7125 {
            BandClass::Ghz6
        } else {
            BandClass::Unknown
        },
        None => BandClass::Unknown,
    }
}

/// The band of a frequency.
pub fn band_from_freq(freq_mhz: Option<u32>) -> (r: BandClass)
    ensures
        r == band_of(freq_mhz),
{
    match freq_mhz {
        Some(v) => if 2412 <= v && v <= 2484 {
            BandClass::Ghz2_4
        } else if 5000 <= v && v <= 5895 {
            BandClass::Ghz5
        } else if 5925 <= v && v <= 7125 {
            BandClass::Ghz6
        } else {
            BandClass::Unknown
        },
        None => BandClass::Unknown,
    }
}

/// An access point that could be joined.
#[derive(Debug, Clone)]
pub struct WifiStaCandidate {
    pub bssid: String,
    pub ssid: String,
    pub signal_pct: u8,
    pub freq_mhz: Option<u32>,
    pub band: BandClass,
    pub active: bool,
}

/// [`WifiStaCandidate`] over character sequences.
#[verifier::ext_equal]
pub struct CandidateView {
    pub bssid: Seq<char>,
    pub ssid: Seq<char>,
    pub signal_pct: u8,
    pub freq_mhz: Option<u32>,
    pub band: BandClass,
    pub active: bool,
}

impl View for WifiStaCandidate {
    type V = CandidateView;

    open spec fn view(&self) -> CandidateView {
        CandidateView {
            bssid: self.bssid@,
            ssid: self.ssid@,
            signal_pct: self.signal_pct,
            freq_mhz: self.freq_mhz,
            band: self.band,
            active: self.active,
        }
    }
}

impl WifiStaCandidate {
    /// A copy.
    pub fn duplicate(&self) -> (r: WifiStaCandidate)
        ensures
            r@ == self@,
    {
        WifiStaCandidate {
            bssid: self.bssid.clone(),
            ssid: self.ssid.clone(),
            signal_pct: self.signal_pct,
            freq_mhz: self.freq_mhz,
            band: self.band,
            active: self.active,
        }
    }
}

/// The views of candidates.
pub open spec fn candidate_views(v: Seq<WifiStaCandidate>) -> Seq<CandidateView> {
    v.map_values(|d: WifiStaCandidate| d@)
}

/// The candidate that a line `bssid:ssid:signal:freq:active` denotes.
pub open spec fn candidate_row(line: Seq<char>) -> CandidateView {
    let p = split_n(line, 5, ':');
    let freq = number_in(trimmed(part(p, 3)));
    CandidateView {
        bssid: trimmed(part(p, 0)),
        ssid: trimmed(part(p, 1)),
        signal_pct: match byte_in(trimmed(part(p, 2))) {
            Some(v) => v,
            None => 0,
        },
        freq_mhz: freq,
        band: band_of(freq),
        active: says_yes(part(p, 4)),
    }
}

/// The candidates of the lines that carry both names.
pub open spec fn candidate_rows(ls: Seq<Seq<char>>) -> Seq<CandidateView>
    decreases ls.len(),
{
    if ls.len() == 0 {
        seq![]
    } else {
        let before = candidate_rows(ls.drop_last());
        let row = candidate_row(ls.last());
        if is_blank(ls.last()) || row.bssid.len() == 0 || row.ssid.len() == 0 {
            before
        } else {
            before.push(row)
        }
    }
}

/// Reads the access points.
pub fn parse_candidates(raw: &str) -> (r: Vec<WifiStaCandidate>)
    ensures
        candidate_views(r@) == candidate_rows(lines(raw@)),
{
    let ls = lines_of(raw);
    let mut rows: Vec<WifiStaCandidate> = Vec::new();
    let mut i: usize = 0;
    proof {
        assert(slices(ls@).take(0) =~= Seq::<Seq<char>>::empty());
        assert(candidate_views(rows@) =~= Seq::<CandidateView>::empty());
    }
    while i < ls.len()
        invariant
            i <= ls.len(),
            slices(ls@) == lines(raw@),
            candidate_views(rows@) == candidate_rows(slices(ls@).take(i as int)),
        decreases ls.len() - i,
    {
        let line = ls[i];
        let ghost seen = rows@;
        proof {
            let t = slices(ls@).take(i as int + 1);
            assert(t.drop_last() =~= slices(ls@).take(i as int));
            assert(t.last() == line@);
        }
        if !blank(line) {
            let p = splitn(line, 5, ':');
            let bssid = trim(part_of(&p, 0));
            let ssid = trim(part_of(&p, 1));
            if !bssid.is_empty() && !ssid.is_empty() {
                let freq_mhz = parse_u32(trim(part_of(&p, 3)));
                let row = WifiStaCandidate {
                    bssid: bssid.to_owned(),
                    ssid: ssid.to_owned(),
                    signal_pct: match parse_u8(trim(part_of(&p, 2))) {
                        Some(v) => v,
                        None => 0,
                    },
                    freq_mhz,
                    band: band_from_freq(freq_mhz),
                    active: yes_of(part_of(&p, 4)),
                };
                rows.push(row);
                proof {
                    assert(candidate_views(rows@) =~= candidate_views(seen).push(candidate_row(line@)));
                }
            }
        }
        i += 1;
    }
    proof {
        assert(slices(ls@).take(i as int) =~= slices(ls@));
    }
    rows
}

/// The NetworkManager band of a setting, where it is one of the three.
pub open spec fn ap_band_of(raw: Seq<char>) -> Option<Seq<char>> {
    let t = trimmed(raw);
    if same_ignoring_case(t, "bg"@) {
        Some("bg"@)
    } else if same_ignoring_case(t, "a"@) {
        Some("a"@)
    } else if same_ignoring_case(t, "6ghz"@) {
        Some("6GHz"@)
    } else {
        None
    }
}

/// The NetworkManager band of a setting.
pub fn normalize_nm_ap_band(raw: &str) -> (r: Option<&'static str>)
    ensures
        crate::text::opt_slice(r) == ap_band_of(raw@),
{
    let t = trim(raw);
    if eq_ignoring_case(t, "bg") {
        Some("bg")
    } else if eq_ignoring_case(t, "a") {
        Some("a")
    } else if eq_ignoring_case(t, "6ghz") {
        Some("6GHz")
    } else {
        None
    }
}

/// The band that a preference names.
pub open spec fn preferred_band(raw: Seq<char>) -> Option<BandClass> {
    let t = trimmed(raw);
    if same_ignoring_case(t, "2.4"@) || same_ignoring_case(t, "2.4ghz"@) || same_ignoring_case(t, "2g"@)
        || same_ignoring_case(t, "bg"@) {
        Some(BandClass::Ghz2_4)
    } else if same_ignoring_case(t, "5"@) || same_ignoring_case(t, "5ghz"@) || same_ignoring_case(t, "5g"@)
        || same_ignoring_case(t, "a"@) {
        Some(BandClass::Ghz5)
    } else if same_ignoring_case(t, "6"@) || same_ignoring_case(t, "6ghz"@) || same_ignoring_case(t, "6g"@) {
        Some(BandClass::Ghz6)
    } else {
        None
    }
}

/// The band that a preference names.
pub fn normalize_band_pref(raw: &str) -> (r: Option<BandClass>)
    ensures
        r == preferred_band(raw@),
{
    let t = trim(raw);
    if eq_ignoring_case(t, "2.4") || eq_ignoring_case(t, "2.4ghz") || eq_ignoring_case(t, "2g") || eq_ignoring_case(
        t,
        "bg",
    ) {
        Some(BandClass::Ghz2_4)
    } else if eq_ignoring_case(t, "5") || eq_ignoring_case(t, "5ghz") || eq_ignoring_case(t, "5g")
        || eq_ignoring_case(t, "a") {
        Some(BandClass::Ghz5)
    } else if eq_ignoring_case(t, "6") || eq_ignoring_case(t, "6ghz") || eq_ignoring_case(t, "6g") {
        Some(BandClass::Ghz6)
    } else {
        None
    }
}

/// What a band is worth where a stable link is wanted.
pub open spec fn stable_weight(band: BandClass) -> int {
    match band {
        BandClass::Ghz2_4 => 120,
        BandClass::Ghz5 => 100,
        BandClass::Ghz6 => 80,
        BandClass::Unknown => 0,
    }
}

/// What a band is worth where a fast link is wanted.
pub open spec fn performance_weight(band: BandClass) -> int {
    match band {
        BandClass::Ghz2_4 => 100,
        BandClass::Ghz5 => 220,
        BandClass::Ghz6 => 260,
        BandClass::Unknown => 0,
    }
}

/// What a band is worth where a stable link is wanted.
pub fn band_weight_stable(band: &BandClass) -> (r: i32)
    ensures
        r == stable_weight(*band),
        0 <= r <= 120,
{
    match band {
        BandClass::Ghz2_4 => 120,
        BandClass::Ghz5 => 100,
        BandClass::Ghz6 => 80,
        BandClass::Unknown => 0,
    }
}

/// What a band is worth where a fast link is wanted.
pub fn band_weight_performance(band: &BandClass) -> (r: i32)
    ensures
        r == performance_weight(*band),
        0 <= r <= 260,
{
    match band {
        BandClass::Ghz2_4 => 100,
        BandClass::Ghz5 => 220,
        BandClass::Ghz6 => 260,
        BandClass::Unknown => 0,
    }
}

/// The score of a candidate under a selection mode.
pub open spec fn score(c: CandidateView, mode: StaSelectionMode, preferred: Option<BandClass>) -> int {
    match mode {
        StaSelectionMode::Legacy => c.signal_pct as int,
        StaSelectionMode::AutoStable => c.signal_pct * 3 + stable_weight(c.band),
        StaSelectionMode::AutoPerformance => c.signal_pct * 2 + performance_weight(c.band),
        StaSelectionMode::PreferBand => c.signal_pct * 2 + if preferred == Some(c.band) {
            2000int
        } else {
            0int
        },
        StaSelectionMode::LockBssid => c.signal_pct as int,
    }
}

/// The score of a candidate.
pub fn sta_candidate_score(c: &WifiStaCandidate, mode: &StaSelectionMode, preferred_band: Option<BandClass>) -> (r: i32)
    ensures
        r == score(c@, *mode, preferred_band),
{
    let signal: i32 = c.signal_pct as i32;
    let pref: i32 = match preferred_band {
        Some(b) => if b == c.band {
            2000
        } else {
            0
        },
        None => 0,
    };
    match mode {
        StaSelectionMode::Legacy => signal,
        StaSelectionMode::AutoStable => signal * 3 + band_weight_stable(&c.band),
        StaSelectionMode::AutoPerformance => signal * 2 + band_weight_performance(&c.band),
        StaSelectionMode::PreferBand => signal * 2 + pref,
        StaSelectionMode::LockBssid => signal,
    }
}

/// Whether `a` is preferred to `b`: by score, then by being in use, then by signal.
pub open spec fn better(a: CandidateView, b: CandidateView, mode: StaSelectionMode, preferred: Option<BandClass>) -> bool {
    let sa = score(a, mode, preferred);
    let sb = score(b, mode, preferred);
    sa > sb || (sa == sb && ((a.active && !b.active) || (a.active == b.active && a.signal_pct > b.signal_pct)))
}

/// The best of the candidates of a name; of equals, the one that comes first.
pub open spec fn best(cs: Seq<CandidateView>, ssid: Seq<char>, mode: StaSelectionMode, preferred: Option<BandClass>) -> Option<
    CandidateView,
>
    decreases cs.len(),
{
    if cs.len() == 0 {
        None
    } else {
        let before = best(cs.drop_last(), ssid, mode, preferred);
        let c = cs.last();
        if c.ssid == ssid && match before {
            Some(b) => better(c, b, mode, preferred),
            None => true,
        } {
            Some(c)
        } else {
            before
        }
    }
}

/// The first candidate of a name at a given access point.
pub open spec fn locked(cs: Seq<CandidateView>, ssid: Seq<char>, bssid: Seq<char>) -> Option<CandidateView>
    decreases cs.len(),
{
    if cs.len() == 0 {
        None
    } else if cs[0].ssid == ssid && same_ignoring_case(cs[0].bssid, bssid) {
        Some(cs[0])
    } else {
        locked(cs.drop_first(), ssid, bssid)
    }
}

/// The candidate to join: none without a name, the locked access point where one is
/// set, else the best.
pub open spec fn selected(wifi: WifiView, cs: Seq<CandidateView>) -> Option<CandidateView> {
    let ssid = trimmed(wifi.sta_ssid);
    let lock = trimmed(wifi.sta_lock_bssid);
    if ssid.len() == 0 {
        None
    } else if lock.len() > 0 {
        locked(cs, ssid, lock)
    } else {
        best(cs, ssid, wifi.sta_selection_mode, preferred_band(wifi.sta_preferred_band))
    }
}

/// The best candidate carries the wanted name, none of that name is better, and there
/// is one as soon as the name is on the list.
pub proof fn best_is_unbeaten(cs: Seq<CandidateView>, ssid: Seq<char>, mode: StaSelectionMode, preferred: Option<BandClass>)
    ensures
        match best(cs, ssid, mode, preferred) {
            Some(b) => {
                &&& cs.contains(b)
                &&& b.ssid == ssid
                &&& forall|i: int| 0 <= i < cs.len() && (#[trigger] cs[i]).ssid == ssid ==> !better(cs[i], b, mode, preferred)
            },
            None => forall|i: int| 0 <= i < cs.len() ==> (#[trigger] cs[i]).ssid != ssid,
        },
    decreases cs.len(),
{
    if cs.len() > 0 {
        let init = cs.drop_last();
        best_is_unbeaten(init, ssid, mode, preferred);
        let b = best(cs, ssid, mode, preferred);
        assert forall|i: int| 0 <= i < cs.len() - 1 implies #[trigger] cs[i] == init[i] by {}
        if let Some(v) = b {
            if v == cs.last() && cs.last().ssid == ssid {
                assert(cs[cs.len() - 1] == v);
            } else {
                assert(init.contains(v));
                let k = choose|k: int| 0 <= k < init.len() && init[k] == v;
                assert(cs[k] == v);
            }
        }
    }
}

/// Chooses the candidate to join, as [`selected`] says.
pub fn choose_candidate(wifi: &WifiIntent, candidates: &Vec<WifiStaCandidate>) -> (r: Option<WifiStaCandidate>)
    ensures
        match r {
            Some(c) => selected(wifi@, candidate_views(candidates@)) == Some(c@),
            None => selected(wifi@, candidate_views(candidates@)) is None,
        },
{
    let ssid = trim(wifi.sta_ssid.as_str());
    if ssid.is_empty() {
        return None;
    }
    let lock = trim(wifi.sta_lock_bssid.as_str());
    let ghost views = candidate_views(candidates@);
    if !lock.is_empty() {
        let mut i: usize = 0;
        proof {
            assert(views.skip(0) =~= views);
        }
        while i < candidates.len()
            invariant
                i <= candidates.len(),
                views == candidate_views(candidates@),
                ssid@ == trimmed(wifi@.sta_ssid),
                ssid@.len() > 0,
                lock@ == trimmed(wifi@.sta_lock_bssid),
                lock@.len() > 0,
                locked(views, ssid@, lock@) == locked(views.skip(i as int), ssid@, lock@),
            decreases candidates.len() - i,
        {
            let c = &candidates[i];
            proof {
                assert(views.skip(i as int)[0] == c@);
                assert(views.skip(i as int).drop_first() =~= views.skip(i as int + 1));
            }
            if text_eq(c.ssid.as_str(), ssid) && eq_ignoring_case(c.bssid.as_str(), lock) {
                let found = c.duplicate();
                proof {
                    assert(locked(views, ssid@, lock@) == Some(c@));
                }
                return Some(found);
            }
            i += 1;
        }
        return None;
    }
    let pref = normalize_band_pref(wifi.sta_preferred_band.as_str());
    let mut i: usize = 0;
    let mut found: Option<usize> = None;
    proof {
        assert(views.take(0) =~= Seq::<CandidateView>::empty());
    }
    while i < candidates.len()
        invariant
            i <= candidates.len(),
            views == candidate_views(candidates@),
            pref == preferred_band(wifi@.sta_preferred_band),
            match found {
                Some(k) => k < i && best(views.take(i as int), ssid@, wifi.sta_selection_mode, pref) == Some(
                    candidates@[k as int]@,
                ),
                None => best(views.take(i as int), ssid@, wifi.sta_selection_mode, pref) is None,
            },
        decreases candidates.len() - i,
    {
        let c = &candidates[i];
        proof {
            assert(views.take(i as int + 1).drop_last() =~= views.take(i as int));
            assert(views.take(i as int + 1).last() == c@);
        }
        if text_eq(c.ssid.as_str(), ssid) {
            match found {
                None => {
                    found = Some(i);
                },
                Some(k) => {
                    let b = &candidates[k];
                    let sc: i32 = sta_candidate_score(c, &wifi.sta_selection_mode, pref);
                    let sb: i32 = sta_candidate_score(b, &wifi.sta_selection_mode, pref);
                    if sc > sb || (sc == sb && ((c.active && !b.active) || (c.active == b.active && c.signal_pct
                        > b.signal_pct))) {
                        found = Some(i);
                    }
                },
            }
        }
        i += 1;
    }
    proof {
        assert(views.take(i as int) =~= views);
    }
    match found {
        Some(k) => Some(candidates[k].duplicate()),
        None => None,
    }
}

/// The band and channel arguments of a hotspot profile; none where the channel is 0
/// or does not tell its band.
pub open spec fn ap_channel_args(wifi: WifiView) -> Seq<Seq<char>> {
    let ch = wifi.ap_channel;
    let band = match ap_band_of(wifi.ap_band) {
        Some(b) => Some(b),
        None => if !is_blank(wifi.ap_band) {
            None
        } else if 1 <= ch <= 14 {
            Some("bg"@)
        } else if 36 <= ch <= 177 {
            Some("a"@)
        } else {
            None
        },
    };
    match band {
        Some(b) => if ch == 0 {
            seq![]
        } else {
            seq!["802-11-wireless.band"@, b, "802-11-wireless.channel"@, decimal(ch as nat)]
        },
        None => seq![],
    }
}

/// Appends the band and channel of a hotspot profile.
pub fn push_nm_ap_channel(seq: &mut Vec<String>, wifi: &WifiIntent)
    ensures
        texts(final(seq)@) == texts(old(seq)@) + ap_channel_args(wifi@),
{
    let ch: u32 = wifi.ap_channel;
    let band: Option<&'static str> = match normalize_nm_ap_band(wifi.ap_band.as_str()) {
        Some(b) => Some(b),
        None => if !blank(wifi.ap_band.as_str()) {
            None
        } else if 1 <= ch && ch <= 14 {
            Some("bg")
        } else if 36 <= ch && ch <= 177 {
            Some("a")
        } else {
            None
        },
    };
    let ghost before = texts(seq@);
    if ch != 0 {
        if let Some(b) = band {
            push_text(seq, "802-11-wireless.band");
            push_text(seq, b);
            push_text(seq, "802-11-wireless.channel");
            push_text(seq, to_decimal(ch as u64).as_str());
        }
    }
    proof {
        assert(texts(seq@) =~= before + ap_channel_args(wifi@));
    }
}

/// The status code and the address that a probe printed as `code|url`.
pub open spec fn probe_metrics(raw: Seq<char>) -> (Option<u16>, Option<Seq<char>>) {
    let p = split_n(raw, 2, '|');
    let code = match parsed_up_to(trimmed(part(p, 0)), 0xffff) {
        Some(v) => Some(v as u16),
        None => None,
    };
    let url = trimmed(part(p, 1));
    (code, if url.len() == 0 {
        None
    } else {
        Some(url)
    })
}

/// Reads what a probe printed.
pub fn parse_http_probe_metrics(raw: &str) -> (r: (Option<u16>, Option<String>))
    ensures
        (r.0, opt_text(r.1)) == probe_metrics(raw@),
{
    let p = splitn(raw, 2, '|');
    let code = parse_u16(trim(part_of(&p, 0)));
    let url = trim(part_of(&p, 1));
    if url.is_empty() {
        (code, None)
    } else {
        (code, Some(url.to_owned()))
    }
}

/// The connectivity that NetworkManager printed on its first line.
pub open spec fn connectivity_in(raw: Seq<char>) -> Option<Seq<char>> {
    let ls = lines(raw);
    let v = lowered(trimmed(part(ls, 0)));
    if v.len() == 0 {
        None
    } else {
        Some(v)
    }
}

/// Reads the connectivity.
pub fn parse_connectivity(raw: &str) -> (r: Option<String>)
    ensures
        opt_text(r) == connectivity_in(raw@),
{
    let ls = lines_of(raw);
    let v = to_lower(trim(part_of(&ls, 0)));
    if v.as_str().is_empty() {
        None
    } else {
        Some(v)
    }
}

/// The connection that a line `name:device` gives for an interface.
pub open spec fn active_on(line: Seq<char>, ifname: Seq<char>) -> Option<Seq<char>> {
    let p = split_n(line, 2, ':');
    let name = trimmed(part(p, 0));
    if name.len() > 0 && trimmed(part(p, 1)) == trimmed(ifname) {
        Some(name)
    } else {
        None
    }
}

/// The connections that are active on an interface.
pub open spec fn active_names(ls: Seq<Seq<char>>, ifname: Seq<char>) -> Seq<Seq<char>>
    decreases ls.len(),
{
    if ls.len() == 0 {
        seq![]
    } else {
        match active_on(ls.last(), ifname) {
            Some(n) => active_names(ls.drop_last(), ifname).push(n),
            None => active_names(ls.drop_last(), ifname),
        }
    }
}

/// Reads the connections that are active on an interface.
pub fn parse_active_names(raw: &str, ifname: &str) -> (r: Vec<String>)
    ensures
        texts(r@) == active_names(lines(raw@), ifname@),
{
    let ls = lines_of(raw);
    let want = trim(ifname);
    let mut out: Vec<String> = Vec::new();
    let mut i: usize = 0;
    proof {
        assert(slices(ls@).take(0) =~= Seq::<Seq<char>>::empty());
        assert(texts(out@) =~= Seq::<Seq<char>>::empty());
    }
    while i < ls.len()
        invariant
            i <= ls.len(),
            slices(ls@) == lines(raw@),
            want@ == trimmed(ifname@),
            texts(out@) == active_names(slices(ls@).take(i as int), ifname@),
        decreases ls.len() - i,
    {
        let line = ls[i];
        proof {
            let t = slices(ls@).take(i as int + 1);
            assert(t.drop_last() =~= slices(ls@).take(i as int));
            assert(t.last() == line@);
        }
        let p = splitn(line, 2, ':');
        let name = trim(part_of(&p, 0));
        if !name.is_empty() && text_eq(trim(part_of(&p, 1)), want) {
            push_text(&mut out, name);
        }
        i += 1;
    }
    proof {
        assert(slices(ls@).take(i as int) =~= slices(ls@));
    }
    out
}

/// The kernel's name of the radio, as `iw dev <if> info` prints it.
pub open spec fn wiphy_name(ls: Seq<Seq<char>>) -> Option<Seq<char>>
    decreases ls.len(),
{
    if ls.len() == 0 {
        None
    } else {
        match after_prefix(trimmed(ls[0]), "wiphy"@) {
            Some(v) => if is_blank(v) {
                wiphy_name(ls.drop_first())
            } else {
                Some("phy"@ + trimmed(v))
            },
            None => wiphy_name(ls.drop_first()),
        }
    }
}

/// Reads the kernel's name of the radio.
pub fn parse_wiphy_name(raw: &str) -> (r: Option<String>)
    ensures
        opt_text(r) == wiphy_name(lines(raw@)),
{
    let ls = lines_of(raw);
    let mut i: usize = 0;
    proof {
        assert(slices(ls@).skip(0) =~= slices(ls@));
    }
    while i < ls.len()
        invariant
            i <= ls.len(),
            slices(ls@) == lines(raw@),
            wiphy_name(slices(ls@)) == wiphy_name(slices(ls@).skip(i as int)),
        decreases ls.len() - i,
    {
        proof {
            assert(slices(ls@).skip(i as int)[0] == ls@[i as int]@);
            assert(slices(ls@).skip(i as int).drop_first() =~= slices(ls@).skip(i as int + 1));
        }
        if let Some(v) = strip_prefix(trim(ls[i]), "wiphy") {
            let n = trim(v);
            if !n.is_empty() {
                return Some(cat("phy", n));
            }
        }
        i += 1;
    }
    None
}

/// Whether the description of a radio allows a client and an access point at once.
pub open spec fn mentions_concurrency(raw: Seq<char>) -> bool {
    let t = lowered(raw);
    has_part(t, "valid interface combinations"@) && has_part(t, "managed"@) && has_part(t, " ap"@)
}

/// Decides [`mentions_concurrency`].
pub fn allows_concurrency(raw: &str) -> (r: bool)
    ensures
        r == mentions_concurrency(raw@),
{
    let t = to_lower(raw);
    contains(t.as_str(), "valid interface combinations") && contains(t.as_str(), "managed") && contains(
        t.as_str(),
        " ap",
    )
}

/// The channel and the NetworkManager band of a frequency in MHz.
pub open spec fn channel_and_band(freq: u32) -> Option<(int, Seq<char>)> {
    if 2412 <= freq <= 2484 {
        Some((if freq == 2484 {
            14
        } else {
            (freq - 2407) / 5
        }, "bg"@))
    } else if 5000 <= freq <= 5895 {
        Some(((freq - 5000) / 5, "a"@))
    } else if 5925 <= freq <= 7125 {
        Some(((freq - 5950) / 5, "6GHz"@))
    } else {
        None
    }
}

/// Whether a frequency lies in the 6 GHz band below its first channel, where no
/// channel number is defined.
pub open spec fn below_first_channel(freq: u32) -> bool {
    5925 <= freq < 5950
}

/// The channel and the NetworkManager band of a frequency.
pub fn freq_to_channel_and_band(freq: u32) -> (r: Option<(u32, String)>)
    requires
        !below_first_channel(freq),
    ensures
        match r {
            Some((ch, b)) => channel_and_band(freq) == Some((ch as int, b@)),
            None => channel_and_band(freq) is None,
        },
{
    if 2412 <= freq && freq <= 2484 {
        let ch: u32 = if freq == 2484 {
            14
        } else {
            (freq - 2407) / 5
        };
        return Some((ch, "bg".to_owned()));
    }
    if 5000 <= freq && freq <= 5895 {
        return Some(((freq - 5000) / 5, "a".to_owned()));
    }
    if 5925 <= freq && freq <= 7125 {
        return Some(((freq - 5950) / 5, "6GHz".to_owned()));
    }
    None
}

/// The frequency that a line of `iw dev <if> link` gives.
pub open spec fn link_freq(line: Seq<char>) -> Option<u32> {
    match after_prefix(trimmed(line), "freq:"@) {
        Some(v) => number_in(trimmed(v)),
        None => None,
    }
}

fn link_freq_of(line: &str) -> (r: Option<u32>)
    ensures
        r == link_freq(line@),
{
    match strip_prefix(trim(line), "freq:") {
        Some(v) => parse_u32(trim(v)),
        None => None,
    }
}

/// The channel and band of the last line that gives them.
pub open spec fn link_channel(ls: Seq<Seq<char>>) -> Option<(int, Seq<char>)>
    decreases ls.len(),
{
    if ls.len() == 0 {
        None
    } else {
        match link_freq(ls.last()) {
            Some(f) => match channel_and_band(f) {
                Some(cb) => Some(cb),
                None => link_channel(ls.drop_last()),
            },
            None => link_channel(ls.drop_last()),
        }
    }
}

/// Whether every frequency in the description of a link has a channel number where its
/// band has one.
pub open spec fn link_numbered(ls: Seq<Seq<char>>) -> bool {
    forall|i: int|
        0 <= i < ls.len() ==> !(link_freq(#[trigger] ls[i]) matches Some(f) && below_first_channel(f))
}

/// The link of the client interface: whether it is up, and its channel.
#[derive(Debug, Clone)]
pub struct LinkReading {
    pub connected: bool,
    pub channel: Option<u32>,
    pub band: Option<String>,
}

/// [`LinkReading`] over mathematical values.
#[verifier::ext_equal]
pub struct LinkView {
    pub connected: bool,
    pub channel: Option<(int, Seq<char>)>,
}

impl View for LinkReading {
    type V = LinkView;

    open spec fn view(&self) -> LinkView {
        LinkView {
            connected: self.connected,
            channel: match (self.channel, self.band) {
                (Some(c), Some(b)) => Some((c as int, b@)),
                _ => None,
            },
        }
    }
}

/// The link that `iw dev <if> link` describes.
pub open spec fn link_reading(raw: Seq<char>) -> LinkView {
    LinkView { connected: has_part(raw, "Connected to"@), channel: link_channel(lines(raw)) }
}

/// Decides [`link_numbered`].
pub fn link_has_channel_numbers(raw: &str) -> (r: bool)
    ensures
        r == link_numbered(lines(raw@)),
{
    let ls = lines_of(raw);
    let mut i: usize = 0;
    while i < ls.len()
        invariant
            i <= ls.len(),
            slices(ls@) == lines(raw@),
            forall|j: int|
                0 <= j < i ==> !(link_freq(#[trigger] slices(ls@)[j]) matches Some(f) && below_first_channel(f)),
        decreases ls.len() - i,
    {
        let freq = link_freq_of(ls[i]);
        proof {
            assert(slices(ls@)[i as int] == ls@[i as int]@);
        }
        if let Some(f) = freq {
            if 5925 <= f && f < 5950 {
                return false;
            }
        }
        i += 1;
    }
    true
}

/// Reads the link of the client interface.
pub fn parse_link(raw: &str) -> (r: LinkReading)
    requires
        link_numbered(lines(raw@)),
    ensures
        r@ == link_reading(raw@),
        r.channel is Some == r.band is Some,
{
    let connected = contains(raw, "Connected to");
    let ls = lines_of(raw);
    let mut channel: Option<u32> = None;
    let mut band: Option<String> = None;
    let mut i: usize = 0;
    proof {
        assert(slices(ls@).take(0) =~= Seq::<Seq<char>>::empty());
    }
    while i < ls.len()
        invariant
            i <= ls.len(),
            slices(ls@) == lines(raw@),
            link_numbered(lines(raw@)),
            channel is Some == band is Some,
            match (channel, band) {
                (Some(c), Some(b)) => link_channel(slices(ls@).take(i as int)) == Some((c as int, b@)),
                _ => link_channel(slices(ls@).take(i as int)) is None,
            },
        decreases ls.len() - i,
    {
        proof {
            let t = slices(ls@).take(i as int + 1);
            assert(t.drop_last() =~= slices(ls@).take(i as int));
            assert(t.last() == ls@[i as int]@);
            assert(slices(ls@)[i as int] == ls@[i as int]@);
        }
        if let Some(f) = link_freq_of(ls[i]) {
            if let Some((c, b)) = freq_to_channel_and_band(f) {
                channel = Some(c);
                band = Some(b);
            }
        }
        i += 1;
    }
    proof {
        assert(slices(ls@).take(i as int) =~= slices(ls@));
    }
    LinkReading { connected, channel, band }
}

// What holds of readings.

/// A row of the device table is read back from its columns.
pub proof fn device_rows_read_back(device: Seq<char>, kind: Seq<char>, state: Seq<char>, connection: Seq<char>)
    requires
        !device.contains(':'),
        !kind.contains(':'),
        !state.contains(':'),
    ensures
        device_row(device + seq![':'] + (kind + seq![':'] + (state + seq![':'] + connection))) == (DeviceView {
            device,
            kind,
            state,
            connection,
        }),
{
    let last = state + seq![':'] + connection;
    let rest = kind + seq![':'] + last;
    columns_come_apart(device, rest, 4, ':');
    columns_come_apart(kind, last, 3, ':');
    columns_come_apart(state, connection, 2, ':');
    assert(split_n(connection, 1, ':') =~= seq![connection]);
}

/// A row of the list of access points is read back from its columns: the access point, the
/// network, the signal, the frequency with its band, and whether it is in use.
pub proof fn candidates_read_back(bssid: Seq<char>, ssid: Seq<char>, signal: u8, freq: u32, used: bool)
    requires
        !bssid.contains(':'),
        !ssid.contains(':'),
        trimmed(bssid) == bssid,
        trimmed(ssid) == ssid,
    ensures
        ({
            let column = if used {
                "yes"@
            } else {
                "no"@
            };
            let tail = decimal(signal as nat) + seq![':'] + (decimal(freq as nat) + seq![':'] + column);
            let c = candidate_row(bssid + seq![':'] + (ssid + seq![':'] + tail));
            &&& c.bssid == bssid
            &&& c.ssid == ssid
            &&& c.signal_pct == signal
            &&& c.freq_mhz == Some(freq)
            &&& c.band == band_of(Some(freq))
            &&& c.active == used
        }),
{
    let column = if used {
        "yes"@
    } else {
        "no"@
    };
    reveal_strlit("yes");
    reveal_strlit("no");
    reveal_strlit("y");
    let ds = decimal(signal as nat);
    let df = decimal(freq as nat);
    let last = df + seq![':'] + column;
    let tail = ds + seq![':'] + last;
    let rest = ssid + seq![':'] + tail;
    lemma_number_column(signal as nat);
    lemma_number_column(freq as nat);
    columns_come_apart(bssid, rest, 5, ':');
    columns_come_apart(ssid, tail, 4, ':');
    columns_come_apart(ds, last, 3, ':');
    columns_come_apart(df, column, 2, ':');
    assert(split_n(column, 1, ':') =~= seq![column]);
    lemma_trim_fixed(column);
    if used {
        assert(lowered(column) =~= "yes"@);
    } else {
        assert(lowered(column).len() == 2);
    }
}

proof fn lemma_number_column(n: nat)
    ensures
        !decimal(n).contains(':'),
        trimmed(decimal(n)) == decimal(n),
        parsed(decimal(n)) == Some(n),
{
    let d = decimal(n);
    decimal_reads_back(n);
    assert forall|i: int| 0 <= i < d.len() implies d[i] != ':' by {
        assert(is_digit(d[i]));
    }
    assert(is_digit(d[0]));
    assert(is_digit(d[d.len() - 1]));
    lemma_trim_fixed(d);
}

/// The bands lie where they lie: 2.4, 5 and 6 GHz, and nothing between them.
pub proof fn bands_are_where_they_are(mhz: u32)
    ensures
        band_of(Some(mhz)) == BandClass::Ghz2_4 <==> 2412 <= mhz <= 2484,
        band_of(Some(mhz)) == BandClass::Ghz5 <==> 5000 <= mhz <= 5895,
        band_of(Some(mhz)) == BandClass::Ghz6 <==> 5925 <= mhz <= 7125,
        band_of(None) == BandClass::Unknown,
{
}

/// The stronger of two alike is never passed over: in every selection mode, no access
/// point of the wanted name in the same band, and in use or not like the one that is
/// chosen, has a stronger signal.
pub proof fn stronger_signals_are_chosen(wifi: WifiView, cs: Seq<CandidateView>, i: int)
    requires
        0 <= i < cs.len(),
        is_blank(wifi.sta_lock_bssid),
        !is_blank(wifi.sta_ssid),
        cs[i].ssid == trimmed(wifi.sta_ssid),
    ensures
        selected(wifi, cs) matches Some(b) && b.ssid == cs[i].ssid && cs.contains(b) && (b.band == cs[i].band && b.active
            == cs[i].active ==> b.signal_pct >= cs[i].signal_pct),
{
    best_is_unbeaten(cs, trimmed(wifi.sta_ssid), wifi.sta_selection_mode, preferred_band(wifi.sta_preferred_band));
}

/// What is chosen for a stable link: one more point of signal weighs as much as three of
/// the band, of which 2.4 GHz has 20 more than 5 GHz, 40 more than 6 GHz and 120 more than
/// an unknown one.
pub proof fn stable_links_are_chosen(wifi: WifiView, cs: Seq<CandidateView>, i: int)
    requires
        0 <= i < cs.len(),
        is_blank(wifi.sta_lock_bssid),
        !is_blank(wifi.sta_ssid),
        wifi.sta_selection_mode == StaSelectionMode::AutoStable,
        cs[i].ssid == trimmed(wifi.sta_ssid),
    ensures
        selected(wifi, cs) matches Some(b) && {
            let c = cs[i];
            let ahead = 3 * (c.signal_pct - b.signal_pct);
            &&& b.band == BandClass::Ghz2_4 && c.band == BandClass::Ghz5 ==> ahead <= 20
            &&& b.band == BandClass::Ghz5 && c.band == BandClass::Ghz2_4 ==> ahead <= -20
            &&& b.band == BandClass::Ghz2_4 && c.band == BandClass::Ghz6 ==> ahead <= 40
            &&& b.band == BandClass::Ghz6 && c.band == BandClass::Ghz2_4 ==> ahead <= -40
            &&& b.band == BandClass::Ghz5 && c.band == BandClass::Ghz6 ==> ahead <= 20
            &&& b.band == BandClass::Ghz6 && c.band == BandClass::Ghz5 ==> ahead <= -20
            &&& b.band == BandClass::Ghz2_4 && c.band == BandClass::Unknown ==> ahead <= 120
            &&& b.band == BandClass::Unknown && c.band == BandClass::Ghz2_4 ==> ahead <= -120
            &&& b.band == c.band ==> ahead <= 0
        },
{
    best_is_unbeaten(cs, trimmed(wifi.sta_ssid), wifi.sta_selection_mode, preferred_band(wifi.sta_preferred_band));
}

/// What is chosen for a fast link: one more point of signal weighs as much as two of the
/// band, of which 6 GHz has 40 more than 5 GHz, 160 more than 2.4 GHz and 260 more than an
/// unknown one.
pub proof fn fast_links_are_chosen(wifi: WifiView, cs: Seq<CandidateView>, i: int)
    requires
        0 <= i < cs.len(),
        is_blank(wifi.sta_lock_bssid),
        !is_blank(wifi.sta_ssid),
        wifi.sta_selection_mode == StaSelectionMode::AutoPerformance,
        cs[i].ssid == trimmed(wifi.sta_ssid),
    ensures
        selected(wifi, cs) matches Some(b) && {
            let c = cs[i];
            let ahead = 2 * (c.signal_pct - b.signal_pct);
            &&& b.band == BandClass::Ghz6 && c.band == BandClass::Ghz5 ==> ahead <= 40
            &&& b.band == BandClass::Ghz5 && c.band == BandClass::Ghz6 ==> ahead <= -40
            &&& b.band == BandClass::Ghz6 && c.band == BandClass::Ghz2_4 ==> ahead <= 160
            &&& b.band == BandClass::Ghz2_4 && c.band == BandClass::Ghz6 ==> ahead <= -160
            &&& b.band == BandClass::Ghz5 && c.band == BandClass::Ghz2_4 ==> ahead <= 120
            &&& b.band == BandClass::Ghz2_4 && c.band == BandClass::Ghz5 ==> ahead <= -120
            &&& b.band == BandClass::Ghz6 && c.band == BandClass::Unknown ==> ahead <= 260
            &&& b.band == BandClass::Unknown && c.band == BandClass::Ghz6 ==> ahead <= -260
            &&& b.band == c.band ==> ahead <= 0
        },
{
    best_is_unbeaten(cs, trimmed(wifi.sta_ssid), wifi.sta_selection_mode, preferred_band(wifi.sta_preferred_band));
}

/// A preferred band is preferred: as soon as an access point of the wanted name is in it,
/// one in it is chosen, whatever the signals; and where the mode looks at the signal
/// alone, nothing but the signal counts.
pub proof fn preferred_bands_are_chosen(wifi: WifiView, cs: Seq<CandidateView>, i: int)
    requires
        0 <= i < cs.len(),
        is_blank(wifi.sta_lock_bssid),
        !is_blank(wifi.sta_ssid),
        cs[i].ssid == trimmed(wifi.sta_ssid),
    ensures
        selected(wifi, cs) matches Some(b) && {
            &&& wifi.sta_selection_mode == StaSelectionMode::PreferBand && preferred_band(wifi.sta_preferred_band) == Some(
                cs[i].band,
            ) ==> b.band == cs[i].band && b.signal_pct >= cs[i].signal_pct
            &&& wifi.sta_selection_mode == StaSelectionMode::PreferBand && preferred_band(wifi.sta_preferred_band) is None
                ==> b.signal_pct >= cs[i].signal_pct
            &&& wifi.sta_selection_mode == StaSelectionMode::Legacy || wifi.sta_selection_mode
                == StaSelectionMode::LockBssid ==> b.signal_pct >= cs[i].signal_pct
            &&& b.band == cs[i].band && b.signal_pct == cs[i].signal_pct ==> b.active || !cs[i].active
        },
{
    best_is_unbeaten(cs, trimmed(wifi.sta_ssid), wifi.sta_selection_mode, preferred_band(wifi.sta_preferred_band));
}

/// Nothing but the wanted network is joined, and where an access point is locked, nothing
/// but that one: the first of its name on the list, and none where it is not on it.
pub proof fn only_the_wanted_network_is_joined(wifi: WifiView, cs: Seq<CandidateView>)
    ensures
        is_blank(wifi.sta_ssid) ==> selected(wifi, cs) is None,
        selected(wifi, cs) matches Some(b) ==> b.ssid == trimmed(wifi.sta_ssid) && cs.contains(b) && (!is_blank(
            wifi.sta_lock_bssid,
        ) ==> lowered(b.bssid) == lowered(trimmed(wifi.sta_lock_bssid))),
        !is_blank(wifi.sta_ssid) && !is_blank(wifi.sta_lock_bssid) && selected(wifi, cs) is None ==> forall|i: int|
            0 <= i < cs.len() ==> (#[trigger] cs[i]).ssid != trimmed(wifi.sta_ssid) || lowered(cs[i].bssid) != lowered(
                trimmed(wifi.sta_lock_bssid),
            ),
{
    best_is_unbeaten(cs, trimmed(wifi.sta_ssid), wifi.sta_selection_mode, preferred_band(wifi.sta_preferred_band));
    lemma_locked(cs, trimmed(wifi.sta_ssid), trimmed(wifi.sta_lock_bssid));
}

proof fn lemma_locked(cs: Seq<CandidateView>, ssid: Seq<char>, bssid: Seq<char>)
    ensures
        match locked(cs, ssid, bssid) {
            Some(c) => cs.contains(c) && c.ssid == ssid && lowered(c.bssid) == lowered(bssid),
            None => forall|i: int|
                0 <= i < cs.len() ==> (#[trigger] cs[i]).ssid != ssid || lowered(cs[i].bssid) != lowered(bssid),
        },
    decreases cs.len(),
{
    if cs.len() > 0 {
        let rest = cs.drop_first();
        lemma_locked(rest, ssid, bssid);
        assert(cs.contains(cs[0]));
        match locked(rest, ssid, bssid) {
            Some(c) => {
                let k = choose|k: int| 0 <= k < rest.len() && rest[k] == c;
                assert(cs[k + 1] == c);
            },
            None => {
                assert forall|i: int| 0 <= i < cs.len() && locked(cs, ssid, bssid) is None implies (#[trigger] cs[i]).ssid
                    != ssid || lowered(cs[i].bssid) != lowered(bssid) by {
                    if i > 0 {
                        assert(rest[i - 1] == cs[i]);
                    }
                }
            },
        }
    }
}

/// The wired interface of a table is its first: it is in the table, it is wired and not the
/// loopback, no wired one stands before it, and there is none where none is wired.
pub proof fn first_wire_is_found(rows: Seq<DeviceView>)
    ensures
        match first_wired(rows) {
            Some(name) => exists|i: int|
                0 <= i < rows.len() && (#[trigger] rows[i]).device == name && lowered(rows[i].kind) == lowered("ethernet"@)
                    && name != "lo"@ && forall|j: int|
                    0 <= j < i ==> lowered((#[trigger] rows[j]).kind) != lowered("ethernet"@) || rows[j].device == "lo"@,
            None => forall|j: int|
                0 <= j < rows.len() ==> lowered((#[trigger] rows[j]).kind) != lowered("ethernet"@) || rows[j].device
                    == "lo"@,
        },
    decreases rows.len(),
{
    if rows.len() > 0 && !is_wired(rows[0]) {
        let rest = rows.drop_first();
        first_wire_is_found(rest);
        match first_wired(rest) {
            Some(name) => {
                let i = choose|i: int|
                    0 <= i < rest.len() && (#[trigger] rest[i]).device == name && lowered(rest[i].kind) == lowered(
                        "ethernet"@,
                    ) && name != "lo"@ && forall|j: int|
                        0 <= j < i ==> lowered((#[trigger] rest[j]).kind) != lowered("ethernet"@) || rest[j].device
                            == "lo"@;
                assert(rows[i + 1] == rest[i]);
                assert forall|j: int| 0 <= j < i + 1 implies lowered((#[trigger] rows[j]).kind) != lowered("ethernet"@)
                    || rows[j].device == "lo"@ by {
                    if j > 0 {
                        assert(rest[j - 1] == rows[j]);
                    }
                }
            },
            None => {
                assert forall|j: int| 0 <= j < rows.len() implies lowered((#[trigger] rows[j]).kind) != lowered(
                    "ethernet"@,
                ) || rows[j].device == "lo"@ by {
                    if j > 0 {
                        assert(rest[j - 1] == rows[j]);
                    }
                }
            },
        }
    }
}

/// More signal never shows fewer bars: none without a signal, five from 80 percent on, and
/// one more at 20, 40 and 60.
pub proof fn bars_grow_with_the_signal(a: u8, b: u8)
    requires
        a <= b,
    ensures
        bars(Some(a)) <= bars(Some(b)) <= 5,
        bars(None) == 0,
        bars(Some(a)) == 0 <==> a == 0,
        bars(Some(a)) >= 2 <==> a >= 20,
        bars(Some(a)) >= 3 <==> a >= 40,
        bars(Some(a)) >= 4 <==> a >= 60,
        bars(Some(a)) == 5 <==> a >= 80,
{
}

/// Channels lie five megahertz apart in their band: the next one, where it is in the same
/// band, has the next number; 2412, 5180 and 5955 MHz are the channels 1, 36 and 1.
pub proof fn channels_count_by_five(freq: u32)
    requires
        freq < 0xffff_0000,
    ensures
        2412 <= freq <= 2467 ==> channel_and_band((freq + 5) as u32) == Some(((channel_and_band(freq)->0).0 + 1, "bg"@)),
        5000 <= freq <= 5890 ==> channel_and_band((freq + 5) as u32) == Some(((channel_and_band(freq)->0).0 + 1, "a"@)),
        5950 <= freq <= 7120 ==> channel_and_band((freq + 5) as u32) == Some(((channel_and_band(freq)->0).0 + 1, "6GHz"@)),
        channel_and_band(2412) == Some((1int, "bg"@)),
        channel_and_band(2484) == Some((14int, "bg"@)),
        channel_and_band(5180) == Some((36int, "a"@)),
        channel_and_band(5955) == Some((1int, "6GHz"@)),
        channel_and_band(freq) is Some <==> band_of(Some(freq)) != BandClass::Unknown,
{
}

/// A line of the scan reads back: the name, the signal as bars, the security as a label,
/// and whether the network is the one in use.
pub proof fn scan_lines_read_back(ssid: Seq<char>, pct: u8, security: Seq<char>, active: Seq<char>)
    requires
        !ssid.contains(':'),
        !security.contains(':'),
    ensures
        ({
            let row = scan_row(ssid + seq![':'] + (decimal(pct as nat) + seq![':'] + (security + seq![':'] + active)));
            &&& row.ssid == trimmed(ssid)
            &&& row.signal == bars(Some(pct))
            &&& row.security == security_of(trimmed(security))
            &&& row.active == says_yes(active)
        }),
{
    let d = decimal(pct as nat);
    decimal_reads_back(pct as nat);
    assert forall|i: int| 0 <= i < d.len() implies d[i] != ':' by {
        assert(is_digit(d[i]));
    }
    assert(!d.contains(':'));
    assert(is_digit(d[0]) && is_digit(d[d.len() - 1]));
    lemma_trim_fixed(d);
    let c = security + seq![':'] + active;
    let b = d + seq![':'] + c;
    let a = ssid + seq![':'] + b;
    columns_come_apart(ssid, b, 4, ':');
    columns_come_apart(d, c, 3, ':');
    columns_come_apart(security, active, 2, ':');
    assert(split_n(active, 1, ':') =~= seq![active]);
    let p = split_n(a, 4, ':');
    assert(p =~= seq![ssid, d, security, active]);
}

/// Each network is listed once, where it is first seen; lines without a name list none.
pub proof fn networks_are_listed_where_first_seen(ls: Seq<Seq<char>>, line: Seq<char>)
    ensures
        is_blank(line) || scan_row(line).ssid.len() == 0 ==> scan_rows(ls.push(line)) == scan_rows(ls),
        !is_blank(line) && scan_row(line).ssid.len() > 0 && lists_ssid(scan_rows(ls), scan_row(line).ssid) ==> scan_rows(
            ls.push(line),
        ) == scan_rows(ls),
        !is_blank(line) && scan_row(line).ssid.len() > 0 && !lists_ssid(scan_rows(ls), scan_row(line).ssid) ==> scan_rows(
            ls.push(line),
        ) == scan_rows(ls).push(scan_row(line)),
{
    assert(ls.push(line).drop_last() =~= ls);
}

/// Every access point that has an address and a name is listed, in its place.
pub proof fn access_points_are_all_listed(ls: Seq<Seq<char>>, line: Seq<char>)
    ensures
        is_blank(line) || candidate_row(line).bssid.len() == 0 || candidate_row(line).ssid.len() == 0 ==> candidate_rows(
            ls.push(line),
        ) == candidate_rows(ls),
        !is_blank(line) && candidate_row(line).bssid.len() > 0 && candidate_row(line).ssid.len() > 0 ==> candidate_rows(
            ls.push(line),
        ) == candidate_rows(ls).push(candidate_row(line)),
{
    assert(ls.push(line).drop_last() =~= ls);
}

/// A network's security is the strongest that its description names, in whatever case;
/// one that names none, or says so with dashes, is open.
pub proof fn security_is_the_strongest_named(nm: Seq<char>)
    ensures
        nm.len() == 0 || has_part(lowered(nm), "--"@) ==> security_of(nm) == "open"@,
        nm.len() > 0 && !has_part(lowered(nm), "--"@) ==> {
            &&& has_part(lowered(nm), "wpa3"@) ==> security_of(nm) == "wpa3"@
            &&& !has_part(lowered(nm), "wpa3"@) && has_part(lowered(nm), "wpa"@) ==> security_of(nm) == "wpa2"@
            &&& !has_part(lowered(nm), "wpa3"@) && !has_part(lowered(nm), "wpa2"@) && !has_part(lowered(nm), "wpa"@)
                && has_part(lowered(nm), "wep"@) ==> security_of(nm) == "wep"@
            &&& !has_part(lowered(nm), "wpa3"@) && !has_part(lowered(nm), "wpa2"@) && !has_part(lowered(nm), "wpa"@)
                && !has_part(lowered(nm), "wep"@) ==> security_of(nm) == "open"@
        },
{
    assert(lowered(nm).len() == nm.len());
}

/// Yes is said with a word or its first letter, in whatever case.
pub proof fn yes_is_said_in_two_ways(s: Seq<char>)
    ensures
        says_yes(s) <==> lowered(trimmed(s)) == "yes"@ || lowered(trimmed(s)) == "y"@,
{
}

/// The hotspot's channel is set together with its band: the one that the intent names,
/// or else the one that the channel lies in. A channel of no known band is not set, nor
/// is channel nought.
pub proof fn hotspot_channels_come_with_their_band(wifi: WifiView)
    ensures
        wifi.ap_channel == 0 ==> ap_channel_args(wifi).len() == 0,
        wifi.ap_channel > 0 ==> {
            &&& ap_band_of(wifi.ap_band) matches Some(b) ==> ap_channel_args(wifi) == seq![
                "802-11-wireless.band"@,
                b,
                "802-11-wireless.channel"@,
                decimal(wifi.ap_channel as nat),
            ]
            &&& ap_band_of(wifi.ap_band) is None && !is_blank(wifi.ap_band) ==> ap_channel_args(wifi).len() == 0
            &&& ap_band_of(wifi.ap_band) is None && is_blank(wifi.ap_band) && wifi.ap_channel <= 14 ==> ap_channel_args(wifi)
                == seq!["802-11-wireless.band"@, "bg"@, "802-11-wireless.channel"@, decimal(wifi.ap_channel as nat)]
            &&& ap_band_of(wifi.ap_band) is None && is_blank(wifi.ap_band) && 36 <= wifi.ap_channel <= 177
                ==> ap_channel_args(wifi) == seq![
                "802-11-wireless.band"@,
                "a"@,
                "802-11-wireless.channel"@,
                decimal(wifi.ap_channel as nat),
            ]
            &&& ap_band_of(wifi.ap_band) is None && is_blank(wifi.ap_band) && (14 < wifi.ap_channel < 36 || wifi.ap_channel
                > 177) ==> ap_channel_args(wifi).len() == 0
        },
{
}

/// A hotspot's band has one of three names, in whatever case.
pub proof fn hotspot_bands_have_three_names(raw: Seq<char>)
    ensures
        lowered(trimmed(raw)) == "bg"@ ==> ap_band_of(raw) == Some("bg"@),
        lowered(trimmed(raw)) == "a"@ ==> ap_band_of(raw) == Some("a"@),
        lowered(trimmed(raw)) == "6ghz"@ ==> ap_band_of(raw) == Some("6GHz"@),
        lowered(trimmed(raw)) != "bg"@ && lowered(trimmed(raw)) != "a"@ && lowered(trimmed(raw)) != "6ghz"@ ==> ap_band_of(raw)
            is None,
{
    reveal_strlit("bg");
    reveal_strlit("a");
    reveal_strlit("6ghz");
    assert(lowered("bg"@) =~= "bg"@);
    assert(lowered("a"@) =~= "a"@);
    assert(lowered("6ghz"@) =~= "6ghz"@);
    assert("bg"@.len() == 2 && "a"@.len() == 1 && "6ghz"@.len() == 4);
}

/// A preferred band is named by its frequency, with or without its unit, or by the letter
/// of its standard, in whatever case; anything else prefers none.
pub proof fn preferred_bands_are_named(raw: Seq<char>)
    ensures
        ({
            let t = lowered(trimmed(raw));
            let low = t == "2.4"@ || t == "2.4ghz"@ || t == "2g"@ || t == "bg"@;
            let mid = t == "5"@ || t == "5ghz"@ || t == "5g"@ || t == "a"@;
            let high = t == "6"@ || t == "6ghz"@ || t == "6g"@;
            &&& preferred_band(raw) == Some(BandClass::Ghz2_4) <==> low
            &&& preferred_band(raw) == Some(BandClass::Ghz5) <==> mid
            &&& preferred_band(raw) == Some(BandClass::Ghz6) <==> high
            &&& preferred_band(raw) is None <==> !low && !mid && !high
        }),
{
    reveal_strlit("2.4");
    reveal_strlit("2.4ghz");
    reveal_strlit("2g");
    reveal_strlit("bg");
    reveal_strlit("5");
    reveal_strlit("5ghz");
    reveal_strlit("5g");
    reveal_strlit("a");
    reveal_strlit("6");
    reveal_strlit("6ghz");
    reveal_strlit("6g");
    assert(lowered("2.4"@) =~= "2.4"@);
    assert(lowered("2.4ghz"@) =~= "2.4ghz"@);
    assert(lowered("2g"@) =~= "2g"@);
    assert(lowered("bg"@) =~= "bg"@);
    assert(lowered("5"@) =~= "5"@);
    assert(lowered("5ghz"@) =~= "5ghz"@);
    assert(lowered("5g"@) =~= "5g"@);
    assert(lowered("a"@) =~= "a"@);
    assert(lowered("6"@) =~= "6"@);
    assert(lowered("6ghz"@) =~= "6ghz"@);
    assert(lowered("6g"@) =~= "6g"@);
    assert("2.4"@[0] == '2' && "2.4ghz"@[0] == '2' && "2g"@[0] == '2' && "bg"@[0] == 'b');
    assert("5"@[0] == '5' && "5ghz"@[0] == '5' && "5g"@[0] == '5' && "a"@[0] == 'a');
    assert("6"@[0] == '6' && "6ghz"@[0] == '6' && "6g"@[0] == '6');
}

/// A lock on an access point takes the first one of that address in the wanted network,
/// whatever the case of the address; and no other where there is none.
pub proof fn locks_take_their_access_point(cs: Seq<CandidateView>, ssid: Seq<char>, bssid: Seq<char>, i: int)
    ensures
        locked(cs, ssid, bssid) matches Some(c) ==> cs.contains(c) && c.ssid == ssid && lowered(c.bssid) == lowered(bssid),
        0 <= i < cs.len() && cs[i].ssid == ssid && lowered(cs[i].bssid) == lowered(bssid) ==> locked(cs, ssid, bssid) is Some,
        cs.len() > 0 && cs[0].ssid == ssid && lowered(cs[0].bssid) == lowered(bssid) ==> locked(cs, ssid, bssid) == Some(cs[0]),
    decreases cs.len(),
{
    if cs.len() > 0 {
        let rest = cs.drop_first();
        locks_take_their_access_point(rest, ssid, bssid, i - 1);
        if cs[0].ssid == ssid && same_ignoring_case(cs[0].bssid, bssid) {
            assert(cs.contains(cs[0]));
        } else {
            if let Some(c) = locked(rest, ssid, bssid) {
                let k = choose|k: int| 0 <= k < rest.len() && rest[k] == c;
                assert(cs[k + 1] == c);
            }
            if 0 < i < cs.len() {
                assert(rest[i - 1] == cs[i]);
            }
        }
    }
}

/// Connectivity is the first line of the answer, in small letters; nothing said is
/// nothing known.
pub proof fn connectivity_is_the_first_line(first: Seq<char>, rest: Seq<char>)
    requires
        !first.contains('\n'),
        first.len() > 0,
        first.last() != '\r',
    ensures
        is_blank(first) ==> connectivity_in(first + seq!['\n'] + rest) is None && connectivity_in(first) is None,
        !is_blank(first) ==> connectivity_in(first + seq!['\n'] + rest) == Some(lowered(trimmed(first))) && connectivity_in(
            first,
        ) == Some(lowered(trimmed(first))),
        connectivity_in(Seq::<char>::empty()) is None,
{
    lines_come_apart(first, rest);
    assert(lowered(trimmed(first)).len() == trimmed(first).len());
    let ls = lines(first + seq!['\n'] + rest);
    assert(ls[0] == first);
    assert(lines(first)[0] == first);
    assert(lowered(trimmed(Seq::<char>::empty())) =~= Seq::<char>::empty());
}

/// The profiles that are active on an interface are those whose line names it.
pub proof fn active_profiles_are_those_of_the_interface(
    ls: Seq<Seq<char>>,
    name: Seq<char>,
    device: Seq<char>,
    ifname: Seq<char>,
)
    requires
        !name.contains(':'),
    ensures
        ({
            let more = active_names(ls.push(name + seq![':'] + device), ifname);
            &&& !is_blank(name) && trimmed(device) == trimmed(ifname) ==> more == active_names(ls, ifname).push(
                trimmed(name),
            )
            &&& is_blank(name) || trimmed(device) != trimmed(ifname) ==> more == active_names(ls, ifname)
        }),
{
    let line = name + seq![':'] + device;
    assert(ls.push(line).drop_last() =~= ls);
    columns_come_apart(name, device, 2, ':');
    assert(split_n(device, 1, ':') =~= seq![device]);
    assert(split_n(line, 2, ':') =~= seq![name, device]);
}

/// The radio behind an interface is the one that the first line which names one names.
pub proof fn radios_are_named_by_their_number(ls: Seq<Seq<char>>, line: Seq<char>, rest: Seq<char>)
    ensures
        trimmed(line) == "wiphy"@ + rest && !is_blank(rest) ==> wiphy_name(seq![line] + ls) == Some("phy"@ + trimmed(rest)),
        trimmed(line) == "wiphy"@ + rest && is_blank(rest) ==> wiphy_name(seq![line] + ls) == wiphy_name(ls),
        !has_prefix(trimmed(line), "wiphy"@) ==> wiphy_name(seq![line] + ls) == wiphy_name(ls),
        wiphy_name(Seq::<Seq<char>>::empty()) is None,
{
    assert((seq![line] + ls).drop_first() =~= ls);
    pieces_are_found("wiphy"@, rest, seq![]);
}

/// A radio's description allows sharing where it lists combinations, and a client and an
/// access point somewhere, in whatever case.
pub proof fn sharing_is_read_from_the_description(raw: Seq<char>)
    ensures
        mentions_concurrency(raw) <==> has_part(lowered(raw), "valid interface combinations"@) && has_part(
            lowered(raw),
            "managed"@,
        ) && has_part(lowered(raw), " ap"@),
{
}

/// A link's channel and band are those of the last frequency that lies in a band; it is
/// up where it is said to be connected.
pub proof fn links_are_on_their_last_channel(ls: Seq<Seq<char>>, line: Seq<char>, rest: Seq<char>, n: u32, raw: Seq<char>)
    ensures
        trimmed(line) == "freq:"@ + rest && trimmed(rest) == decimal(n as nat) ==> {
            &&& channel_and_band(n) is Some ==> link_channel(ls.push(line)) == channel_and_band(n)
            &&& channel_and_band(n) is None ==> link_channel(ls.push(line)) == link_channel(ls)
        },
        !has_prefix(trimmed(line), "freq:"@) ==> link_channel(ls.push(line)) == link_channel(ls),
        link_reading(raw).connected <==> has_part(raw, "Connected to"@),
        link_reading(raw).channel == link_channel(lines(raw)),
{
    assert(ls.push(line).drop_last() =~= ls);
    pieces_are_found("freq:"@, rest, seq![]);
    decimal_reads_back(n as nat);
}

/// Each field is seen under its own name, as it is.
pub proof fn fields_are_seen_under_their_names(
    device_row: DeviceRow,
    scan_row: ScanRow,
    wifi_sta_candidate: WifiStaCandidate,
)
    ensures
        device_row@.device == device_row.device@,
        device_row@.kind == device_row.kind@,
        device_row@.state == device_row.state@,
        device_row@.connection == device_row.connection@,
        scan_row@.ssid == scan_row.ssid@,
        scan_row@.signal == scan_row.signal,
        scan_row@.security == scan_row.security@,
        scan_row@.active == scan_row.active,
        wifi_sta_candidate@.bssid == wifi_sta_candidate.bssid@,
        wifi_sta_candidate@.ssid == wifi_sta_candidate.ssid@,
        wifi_sta_candidate@.signal_pct == wifi_sta_candidate.signal_pct,
        wifi_sta_candidate@.freq_mhz == wifi_sta_candidate.freq_mhz,
        wifi_sta_candidate@.band == wifi_sta_candidate.band,
        wifi_sta_candidate@.active == wifi_sta_candidate.active,
{
}

} // verus!
