//! The kernel's radio blocks.

use crate::number::{debug_text, decimal, decimal_reads_back, parse_u32, parsed_up_to, quoted};
use crate::text::{after_prefix, cat, has_prefix, pieces_are_found, strip_prefix, text_eq, trim, trimmed, trimming_is_idempotent};
use vstd::prelude::*;

verus! {

/// A family of radios.
#[derive(Debug, Clone, PartialEq, Eq, Hash)]
pub enum RadioKind {
    /// Wi-Fi.
    Wlan,
    /// Bluetooth.
    Bluetooth,
    /// Cellular modems.
    Wwan,
    /// Any other family, by the kernel's name.
    Unknown(String),
}

/// [`RadioKind`] over character sequences.
#[verifier::ext_equal]
pub enum KindView {
    Wlan,
    Bluetooth,
    Wwan,
    Unknown(Seq<char>),
}

impl View for RadioKind {
    type V = KindView;

    open spec fn view(&self) -> KindView {
        match self {
            RadioKind::Wlan => KindView::Wlan,
            RadioKind::Bluetooth => KindView::Bluetooth,
            RadioKind::Wwan => KindView::Wwan,
            RadioKind::Unknown(s) => KindView::Unknown(s@),
        }
    }
}

/// The family of a kernel name.
pub open spec fn kind_named(s: Seq<char>) -> KindView {
    let t = trimmed(s);
    if t == "wlan"@ {
        KindView::Wlan
    } else if t == "bluetooth"@ {
        KindView::Bluetooth
    } else if t == "wwan"@ {
        KindView::Wwan
    } else {
        KindView::Unknown(t)
    }
}

/// The label that the operator sees.
pub open spec fn label(k: KindView) -> Seq<char> {
    match k {
        KindView::Wlan => "wifi"@,
        KindView::Bluetooth => "bluetooth"@,
        KindView::Wwan => "wwan"@,
        KindView::Unknown(s) => s,
    }
}

impl RadioKind {
    /// The family of a kernel name; an unknown one is kept as it is.
    pub fn from_kernel_str(s: &str) -> (r: RadioKind)
        ensures
            r@ == kind_named(s@),
    {
        let t = trim(s);
        if text_eq(t, "wlan") {
            RadioKind::Wlan
        } else if text_eq(t, "bluetooth") {
            RadioKind::Bluetooth
        } else if text_eq(t, "wwan") {
            RadioKind::Wwan
        } else {
            RadioKind::Unknown(t.to_owned())
        }
    }

    /// The label that the operator sees.
    pub fn operator_label(&self) -> (r: &str)
        ensures
            r@ == label(self@),
    {
        match self {
            RadioKind::Wlan => "wifi",
            RadioKind::Bluetooth => "bluetooth",
            RadioKind::Wwan => "wwan",
            RadioKind::Unknown(s) => s.as_str(),
        }
    }

    fn same(&self, other: &RadioKind) -> (r: bool)
        ensures
            r == (self@ == other@),
    {
        match (self, other) {
            (RadioKind::Wlan, RadioKind::Wlan) => true,
            (RadioKind::Bluetooth, RadioKind::Bluetooth) => true,
            (RadioKind::Wwan, RadioKind::Wwan) => true,
            (RadioKind::Unknown(a), RadioKind::Unknown(b)) => text_eq(a.as_str(), b.as_str()),
            _ => false,
        }
    }
}

/// One radio.
#[derive(Debug, Clone, PartialEq, Eq)]
pub struct RfkillEntry {
    /// The kernel's number.
    pub index: u32,
    /// The kernel's name.
    pub name: String,
    /// The family.
    pub kind: RadioKind,
    /// Whether the kernel blocks it.
    pub soft_blocked: bool,
    /// Whether the hardware blocks it.
    pub hard_blocked: bool,
}

/// [`RfkillEntry`] over mathematical values.
#[verifier::ext_equal]
pub struct EntryView {
    pub index: u32,
    pub name: Seq<char>,
    pub kind: KindView,
    pub soft_blocked: bool,
    pub hard_blocked: bool,
}

impl View for RfkillEntry {
    type V = EntryView;

    open spec fn view(&self) -> EntryView {
        EntryView {
            index: self.index,
            name: self.name@,
            kind: self.kind@,
            soft_blocked: self.soft_blocked,
            hard_blocked: self.hard_blocked,
        }
    }
}

/// The views of radios.
pub open spec fn entry_views(v: Seq<RfkillEntry>) -> Seq<EntryView> {
    v.map_values(|e: RfkillEntry| e@)
}

/// A directory of the kernel's radio class: its name, and the text of each of its four
/// files or why it could not be read.
#[derive(Debug)]
pub struct RfkillDir {
    pub file_name: String,
    pub name: Result<String, String>,
    pub kind: Result<String, String>,
    pub soft: Result<String, String>,
    pub hard: Result<String, String>,
}

/// The view of a text or why it is not there.
pub open spec fn file_view(r: Result<String, String>) -> Result<Seq<char>, Seq<char>> {
    match r {
        Ok(s) => Ok(s@),
        Err(e) => Err(e@),
    }
}

/// The truth value in a file.
pub open spec fn flag_in(r: Result<Seq<char>, Seq<char>>) -> Result<bool, Seq<char>> {
    match r {
        Ok(s) => if trimmed(s) == "0"@ {
            Ok(false)
        } else if trimmed(s) == "1"@ {
            Ok(true)
        } else {
            Err("expected 0 or 1, got "@ + debug_text(trimmed(s)))
        },
        Err(e) => Err(e),
    }
}

/// Reads the truth value in a file.
pub fn read_bool(file: &Result<String, String>) -> (r: Result<bool, String>)
    ensures
        match r {
            Ok(b) => flag_in(file_view(*file)) == Ok::<bool, Seq<char>>(b),
            Err(e) => flag_in(file_view(*file)) == Err::<bool, Seq<char>>(e@),
        },
{
    match file {
        Ok(s) => {
            let t = trim(s.as_str());
            if text_eq(t, "0") {
                Ok(false)
            } else if text_eq(t, "1") {
                Ok(true)
            } else {
                let shown = quoted(t);
                Err(cat("expected 0 or 1, got ", shown.as_str()))
            }
        },
        Err(e) => Err(e.clone()),
    }
}

/// The radio of a directory, or the first complaint about its files.
pub open spec fn entry_in(d: RfkillDir, index: u32) -> Result<EntryView, Seq<char>> {
    match file_view(d.name) {
        Err(e) => Err("name: "@ + e),
        Ok(name) => match file_view(d.kind) {
            Err(e) => Err("type: "@ + e),
            Ok(kind) => match flag_in(file_view(d.soft)) {
                Err(e) => Err("soft: "@ + e),
                Ok(soft) => match flag_in(file_view(d.hard)) {
                    Err(e) => Err("hard: "@ + e),
                    Ok(hard) => Ok(
                        EntryView {
                            index,
                            name: trimmed(name),
                            kind: kind_named(trimmed(kind)),
                            soft_blocked: soft,
                            hard_blocked: hard,
                        },
                    ),
                },
            },
        },
    }
}

/// Reads the radio of a directory.
pub fn parse_one(dir: &RfkillDir, index: u32) -> (r: Result<RfkillEntry, String>)
    ensures
        match r {
            Ok(v) => entry_in(*dir, index) == Ok::<EntryView, Seq<char>>(v@),
            Err(e) => entry_in(*dir, index) == Err::<EntryView, Seq<char>>(e@),
        },
{
    let name = match &dir.name {
        Ok(s) => trim(s.as_str()).to_owned(),
        Err(e) => return Err(cat("name: ", e.as_str())),
    };
    let kind = match &dir.kind {
        Ok(s) => RadioKind::from_kernel_str(trim(s.as_str())),
        Err(e) => return Err(cat("type: ", e.as_str())),
    };
    let soft_blocked = match read_bool(&dir.soft) {
        Ok(b) => b,
        Err(e) => return Err(cat("soft: ", e.as_str())),
    };
    let hard_blocked = match read_bool(&dir.hard) {
        Ok(b) => b,
        Err(e) => return Err(cat("hard: ", e.as_str())),
    };
    Ok(RfkillEntry { index, name, kind, soft_blocked, hard_blocked })
}

/// The number in a directory's name `rfkillN`.
pub open spec fn dir_index(name: Seq<char>) -> Option<u32> {
    match after_prefix(name, "rfkill"@) {
        Some(s) => match parsed_up_to(s, 0xffff_ffff) {
            Some(v) => Some(v as u32),
            None => None,
        },
        None => None,
    }
}

/// The radio of a directory, where it is one and can be read.
pub open spec fn readable(d: RfkillDir) -> Option<EntryView> {
    match dir_index(d.file_name@) {
        Some(i) => match entry_in(d, i) {
            Ok(e) => Some(e),
            Err(_) => None,
        },
        None => None,
    }
}

/// A list in the order of numbers with one more radio, behind those of its number.
pub open spec fn placed(s: Seq<EntryView>, e: EntryView) -> Seq<EntryView>
    decreases s.len(),
{
    if s.len() > 0 && s.last().index > e.index {
        placed(s.drop_last(), e).push(s.last())
    } else {
        s.push(e)
    }
}

/// The radios of the directories, in the order of their numbers; directories that
/// cannot be read are left out.
pub open spec fn entries_of(ds: Seq<RfkillDir>) -> Seq<EntryView>
    decreases ds.len(),
{
    if ds.len() == 0 {
        seq![]
    } else {
        match readable(ds.last()) {
            Some(e) => placed(entries_of(ds.drop_last()), e),
            None => entries_of(ds.drop_last()),
        }
    }
}

/// Whether the numbers do not descend.
pub open spec fn in_order(s: Seq<EntryView>) -> bool {
    forall|i: int, j: int| 0 <= i <= j < s.len() ==> (#[trigger] s[i]).index <= (#[trigger] s[j]).index
}

proof fn lemma_placed(s: Seq<EntryView>, e: EntryView)
    requires
        in_order(s),
    ensures
        in_order(placed(s, e)),
        placed(s, e).to_multiset() == s.to_multiset().insert(e),
        placed(s, e).len() == s.len() + 1,
        forall|i: int| 0 <= i < placed(s, e).len() ==> (#[trigger] placed(s, e)[i]).index <= (if s.len() > 0
            && s.last().index > e.index {
            s.last().index
        } else {
            e.index
        }),
    decreases s.len(),
{
    broadcast use vstd::seq_lib::group_to_multiset_ensures;

    if s.len() > 0 && s.last().index > e.index {
        let init = s.drop_last();
        lemma_placed(init, e);
        assert(init.push(s.last()) =~= s);
        let p = placed(init, e);
        assert(placed(s, e) == p.push(s.last()));
        assert forall|i: int| 0 <= i < p.len() implies (#[trigger] p[i]).index <= s.last().index by {
            if init.len() > 0 && init.last().index > e.index {
                assert(s[init.len() - 1].index <= s[s.len() - 1].index);
            }
        }
        assert(placed(s, e).to_multiset() =~= s.to_multiset().insert(e));
    } else {
        assert forall|i: int| 0 <= i < s.len() implies (#[trigger] s[i]).index <= e.index by {
            assert(s[i].index <= s[s.len() - 1].index);
        }
    }
}

/// The radios come in the order of their numbers, and each directory that can be read
/// is among them: one that cannot does not hide the others.
pub proof fn radios_are_ordered_and_complete(ds: Seq<RfkillDir>)
    ensures
        in_order(entries_of(ds)),
        forall|i: int| 0 <= i < ds.len() ==> (readable(#[trigger] ds[i]) matches Some(e) ==> entries_of(ds).contains(e)),
    decreases ds.len(),
{
    broadcast use vstd::seq_lib::group_to_multiset_ensures;

    if ds.len() > 0 {
        let init = ds.drop_last();
        radios_are_ordered_and_complete(init);
        let before = entries_of(init);
        if let Some(e) = readable(ds.last()) {
            lemma_placed(before, e);
        }
        let after = entries_of(ds);
        assert forall|i: int| 0 <= i < ds.len() implies (readable(#[trigger] ds[i]) matches Some(e) ==> after.contains(
            e,
        )) by {
            if let Some(e) = readable(ds[i]) {
                if i < ds.len() - 1 {
                    assert(init[i] == ds[i]);
                    assert(before.contains(e));
                    assert(before.to_multiset().contains(e));
                }
                assert(after.to_multiset().contains(e));
                assert(after.contains(e));
            }
        }
    }
}

fn place(out: &mut Vec<RfkillEntry>, e: RfkillEntry)
    ensures
        entry_views(final(out)@) == placed(entry_views(old(out)@), e@),
{
    let ghost before = entry_views(out@);
    let ghost new = e@;
    let mut k: usize = out.len();
    proof {
        assert(before.take(k as int) =~= before);
        assert(placed(before.take(k as int), new) + before.skip(k as int) =~= placed(before, new));
    }
    while k > 0 && out[k - 1].index > e.index
        invariant
            k <= out.len(),
            before == entry_views(out@),
            new == e@,
            placed(before, new) == placed(before.take(k as int), new) + before.skip(k as int),
        decreases k,
    {
        proof {
            let t = before.take(k as int);
            assert(t.last() == out@[k - 1]@);
            assert(t.drop_last() =~= before.take(k as int - 1));
            assert(placed(t, new) == placed(t.drop_last(), new).push(t.last()));
            assert(placed(before.take(k as int - 1), new) + before.skip(k as int - 1) =~= placed(t, new) + before.skip(
                k as int,
            ));
        }
        k -= 1;
    }
    proof {
        let t = before.take(k as int);
        if k > 0 {
            assert(t.last() == out@[k - 1]@);
        }
        assert(placed(t, new) == t.push(new));
    }
    out.insert(k, e);
    proof {
        assert(entry_views(out@) =~= before.take(k as int).push(new) + before.skip(k as int));
    }
}

/// The radios of the directories, as [`entries_of`] says.
pub fn read_all(dirs: &Vec<RfkillDir>) -> (r: Vec<RfkillEntry>)
    ensures
        entry_views(r@) == entries_of(dirs@),
{
    let mut out: Vec<RfkillEntry> = Vec::new();
    let mut i: usize = 0;
    proof {
        assert(dirs@.take(0) =~= Seq::<RfkillDir>::empty());
        assert(entry_views(out@) =~= Seq::<EntryView>::empty());
    }
    while i < dirs.len()
        invariant
            i <= dirs.len(),
            entry_views(out@) == entries_of(dirs@.take(i as int)),
        decreases dirs.len() - i,
    {
        let d = &dirs[i];
        proof {
            assert(dirs@.take(i as int + 1).drop_last() =~= dirs@.take(i as int));
            assert(dirs@.take(i as int + 1).last() == *d);
        }
        if let Some(rest) = strip_prefix(d.file_name.as_str(), "rfkill") {
            if let Some(index) = parse_u32(rest) {
                match parse_one(d, index) {
                    Ok(e) => place(&mut out, e),
                    Err(_) => {},
                }
            }
        }
        i += 1;
    }
    proof {
        assert(dirs@.take(i as int) =~= dirs@);
    }
    out
}

/// The blocks of a family.
#[derive(Debug, Clone, Copy, PartialEq, Eq, Structural)]
pub struct RadioBlockState {
    /// Whether the kernel blocks one of its radios.
    pub soft_blocked: bool,
    /// Whether the hardware blocks one of its radios.
    pub hard_blocked: bool,
}

impl RadioBlockState {
    /// Whether nothing blocks the family.
    pub fn is_clear(&self) -> (r: bool)
        ensures
            r == (!self.soft_blocked && !self.hard_blocked),
    {
        !self.soft_blocked && !self.hard_blocked
    }
}

/// Whether a radio of the family is on the list.
pub open spec fn has_kind(s: Seq<EntryView>, kind: KindView) -> bool {
    exists|i: int| 0 <= i < s.len() && (#[trigger] s[i]).kind == kind
}

/// Whether the kernel blocks a radio of the family.
pub open spec fn soft_of(s: Seq<EntryView>, kind: KindView) -> bool {
    exists|i: int| 0 <= i < s.len() && (#[trigger] s[i]).kind == kind && s[i].soft_blocked
}

/// Whether the hardware blocks a radio of the family.
pub open spec fn hard_of(s: Seq<EntryView>, kind: KindView) -> bool {
    exists|i: int| 0 <= i < s.len() && (#[trigger] s[i]).kind == kind && s[i].hard_blocked
}

/// The blocks of a family: nothing is known where it has no radio; else a block of one
/// radio is a block of the family.
pub fn aggregate_for(entries: &[RfkillEntry], kind: &RadioKind) -> (r: Option<RadioBlockState>)
    ensures
        match r {
            Some(b) => {
                &&& has_kind(entry_views(entries@), kind@)
                &&& b.soft_blocked == soft_of(entry_views(entries@), kind@)
                &&& b.hard_blocked == hard_of(entry_views(entries@), kind@)
            },
            None => !has_kind(entry_views(entries@), kind@),
        },
{
    let mut any = false;
    let mut soft = false;
    let mut hard = false;
    let ghost views = entry_views(entries@);
    let mut i: usize = 0;
    while i < entries.len()
        invariant
            i <= entries.len(),
            views == entry_views(entries@),
            any == has_kind(views.take(i as int), kind@),
            soft == soft_of(views.take(i as int), kind@),
            hard == hard_of(views.take(i as int), kind@),
        decreases entries.len() - i,
    {
        let e = &entries[i];
        let ghost t = views.take(i as int);
        let ghost u = views.take(i as int + 1);
        proof {
            assert(u =~= t.push(e@));
            assert(u[i as int] == e@);
            assert forall|j: int| 0 <= j < t.len() implies #[trigger] t[j] == u[j] by {}
            assert forall|j: int| 0 <= j < u.len() - 1 implies #[trigger] u[j] == t[j] by {}
        }
        if e.kind.same(kind) {
            any = true;
            soft = soft || e.soft_blocked;
            hard = hard || e.hard_blocked;
        }
        proof {
            assert(any == has_kind(u, kind@));
            assert(soft == soft_of(u, kind@));
            assert(hard == hard_of(u, kind@));
        }
        i += 1;
    }
    proof {
        assert(views.take(i as int) =~= views);
    }
    if any {
        Some(RadioBlockState { soft_blocked: soft, hard_blocked: hard })
    } else {
        None
    }
}

/// The kernel's names of radios are read with white space around them, and operators
/// read their own name for Wi-Fi.
pub proof fn radio_families_have_names(s: Seq<char>)
    ensures
        kind_named(s) == KindView::Wlan <==> trimmed(s) == "wlan"@,
        kind_named(s) == KindView::Bluetooth <==> trimmed(s) == "bluetooth"@,
        kind_named(s) == KindView::Wwan <==> trimmed(s) == "wwan"@,
        trimmed(s) == "wlan"@ ==> label(kind_named(s)) == "wifi"@,
        trimmed(s) != "wlan"@ ==> label(kind_named(s)) == trimmed(s),
{
    reveal_strlit("wlan");
    reveal_strlit("wwan");
    reveal_strlit("bluetooth");
    assert("wlan"@[1] == 'l' && "wwan"@[1] == 'w');
    assert("wlan"@.len() == 4 && "bluetooth"@.len() == 9);
}

/// A radio's directory is read as it stands: its number out of its name, its name, its
/// family, and each of the two blocks out of the file of its own, as nought or one.
pub proof fn radios_are_read_as_they_stand(d: RfkillDir, i: u32)
    requires
        d.file_name@ == "rfkill"@ + decimal(i as nat),
        d.name is Ok,
        d.kind is Ok,
        d.soft is Ok,
        d.hard is Ok,
    ensures
        readable(d) is Some <==> (trimmed(d.soft->Ok_0@) == "0"@ || trimmed(d.soft->Ok_0@) == "1"@) && (trimmed(
            d.hard->Ok_0@,
        ) == "0"@ || trimmed(d.hard->Ok_0@) == "1"@),
        readable(d) matches Some(e) ==> {
            &&& e.index == i
            &&& e.name == trimmed(d.name->Ok_0@)
            &&& e.kind == kind_named(d.kind->Ok_0@)
            &&& e.soft_blocked <==> trimmed(d.soft->Ok_0@) == "1"@
            &&& e.hard_blocked <==> trimmed(d.hard->Ok_0@) == "1"@
        },
{
    reveal_strlit("0");
    reveal_strlit("1");
    assert("0"@[0] == '0' && "1"@[0] == '1');
    pieces_are_found("rfkill"@, decimal(i as nat), seq![]);
    decimal_reads_back(i as nat);
    trimming_is_idempotent(d.kind->Ok_0@);
}

/// A radio that cannot be read whole is left out, and so is every other directory.
pub proof fn unreadable_radios_are_left_out(d: RfkillDir)
    ensures
        d.name is Err || d.kind is Err || d.soft is Err || d.hard is Err ==> readable(d) is None,
        !has_prefix(d.file_name@, "rfkill"@) ==> readable(d) is None,
{
}

/// Nothing is read but what the directories give, and each of them once.
pub proof fn radios_come_from_directories(ds: Seq<RfkillDir>, e: EntryView)
    requires
        entries_of(ds).contains(e),
    ensures
        gives(ds, e),
        entries_of(ds).len() <= ds.len(),
    decreases ds.len(),
{
    if ds.len() > 0 {
        let before = ds.drop_last();
        radios_are_ordered_and_complete(before);
        let all = entries_of(ds);
        if let Some(l) = readable(ds.last()) {
            lemma_placed(entries_of(before), l);
            broadcast use vstd::seq_lib::group_to_multiset_ensures;

            assert(all.to_multiset().contains(e));
            if e == l {
                assert(readable(ds[ds.len() - 1]) == Some(e));
            } else {
                assert(entries_of(before).to_multiset().contains(e));
                assert(entries_of(before).contains(e));
            }
        }
        if entries_of(before).contains(e) {
            radios_come_from_directories(before, e);
            let i = choose|i: int| 0 <= i < before.len() && readable(#[trigger] before[i]) == Some(e);
            assert(ds[i] == before[i]);
        }
        lemma_no_more_radios(ds);
    }
}

/// A directory gives the entry.
pub open spec fn gives(ds: Seq<RfkillDir>, e: EntryView) -> bool {
    exists|i: int| 0 <= i < ds.len() && readable(#[trigger] ds[i]) == Some(e)
}

proof fn lemma_no_more_radios(ds: Seq<RfkillDir>)
    ensures
        entries_of(ds).len() <= ds.len(),
    decreases ds.len(),
{
    if ds.len() > 0 {
        lemma_no_more_radios(ds.drop_last());
        radios_are_ordered_and_complete(ds.drop_last());
        if let Some(l) = readable(ds.last()) {
            lemma_placed(entries_of(ds.drop_last()), l);
        }
    }
}

/// A family has a block where one of its radios has it, and the two kinds of block are
/// kept apart: a radio that was not there before adds its own and takes none away.
pub proof fn one_block_blocks_the_family(s: Seq<EntryView>, e: EntryView, kind: KindView)
    ensures
        has_kind(s.push(e), kind) <==> has_kind(s, kind) || e.kind == kind,
        soft_of(s.push(e), kind) <==> soft_of(s, kind) || (e.kind == kind && e.soft_blocked),
        hard_of(s.push(e), kind) <==> hard_of(s, kind) || (e.kind == kind && e.hard_blocked),
        !has_kind(Seq::<EntryView>::empty(), kind),
        !soft_of(Seq::<EntryView>::empty(), kind),
        !hard_of(Seq::<EntryView>::empty(), kind),
{
    let t = s.push(e);
    assert(t[s.len() as int] == e);
    if has_kind(s, kind) {
        let i = choose|i: int| 0 <= i < s.len() && (#[trigger] s[i]).kind == kind;
        assert(t[i] == s[i]);
    }
    if soft_of(s, kind) {
        let i = choose|i: int| 0 <= i < s.len() && (#[trigger] s[i]).kind == kind && s[i].soft_blocked;
        assert(t[i] == s[i]);
    }
    if hard_of(s, kind) {
        let i = choose|i: int| 0 <= i < s.len() && (#[trigger] s[i]).kind == kind && s[i].hard_blocked;
        assert(t[i] == s[i]);
    }
    if has_kind(t, kind) {
        let i = choose|i: int| 0 <= i < t.len() && (#[trigger] t[i]).kind == kind;
        if i < s.len() {
            assert(s[i] == t[i]);
        }
    }
    if soft_of(t, kind) {
        let i = choose|i: int| 0 <= i < t.len() && (#[trigger] t[i]).kind == kind && t[i].soft_blocked;
        if i < s.len() {
            assert(s[i] == t[i]);
        }
    }
    if hard_of(t, kind) {
        let i = choose|i: int| 0 <= i < t.len() && (#[trigger] t[i]).kind == kind && t[i].hard_blocked;
        if i < s.len() {
            assert(s[i] == t[i]);
        }
    }
}

/// Each field is seen under its own name, as it is.
pub proof fn fields_are_seen_under_their_names(rfkill_entry: RfkillEntry)
    ensures
        rfkill_entry@.index == rfkill_entry.index,
        rfkill_entry@.name == rfkill_entry.name@,
        rfkill_entry@.kind == rfkill_entry.kind@,
        rfkill_entry@.soft_blocked == rfkill_entry.soft_blocked,
        rfkill_entry@.hard_blocked == rfkill_entry.hard_blocked,
{
}

} // verus!
