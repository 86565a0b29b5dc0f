//! Where two sources disagree.

use crate::text::{cat, cat4, slices, text_eq};
use vstd::prelude::*;

verus! {

/// A daemon's verdict on connectivity.
#[derive(Debug, Clone, Copy, PartialEq, Eq, Structural)]
pub enum ConnectivityVerdict {
    /// Fully functional.
    Full,
    /// A captive portal is in the way.
    Portal,
    /// The link is up but its probe target is out of reach.
    Limited,
    /// No connectivity.
    NoConnectivity,
    /// The daemon could not tell.
    Unknown,
}

/// Whether a verdict claims that the link is up.
pub open spec fn claims_up(v: ConnectivityVerdict) -> bool {
    v is Full || v is Portal || v is Limited
}

impl ConnectivityVerdict {
    /// Whether the verdict claims that the link is up.
    pub fn is_up(self) -> (r: bool)
        ensures
            r == claims_up(self),
    {
        match self {
            ConnectivityVerdict::Full => true,
            ConnectivityVerdict::Portal => true,
            ConnectivityVerdict::Limited => true,
            ConnectivityVerdict::NoConnectivity => false,
            ConnectivityVerdict::Unknown => false,
        }
    }
}

/// The name of a verdict.
pub open spec fn verdict_name(v: ConnectivityVerdict) -> Seq<char> {
    match v {
        ConnectivityVerdict::Full => "Full"@,
        ConnectivityVerdict::Portal => "Portal"@,
        ConnectivityVerdict::Limited => "Limited"@,
        ConnectivityVerdict::NoConnectivity => "None"@,
        ConnectivityVerdict::Unknown => "Unknown"@,
    }
}

fn verdict_label(v: ConnectivityVerdict) -> (r: &'static str)
    ensures
        r@ == verdict_name(v),
{
    match v {
        ConnectivityVerdict::Full => "Full",
        ConnectivityVerdict::Portal => "Portal",
        ConnectivityVerdict::Limited => "Limited",
        ConnectivityVerdict::NoConnectivity => "None",
        ConnectivityVerdict::Unknown => "Unknown",
    }
}

/// What a source reported last.
#[derive(Debug, Clone, Copy, PartialEq, Eq, Structural)]
pub struct LinkSourceView {
    /// Whether there is carrier, where the source observes it.
    pub carrier_up: Option<bool>,
    /// Whether an address is attached, where the source observes it.
    pub address_attached: Option<bool>,
    /// Whether Wi-Fi is associated, where the source observes it.
    pub wifi_associated: Option<bool>,
    /// The verdict on connectivity, where the source has one.
    pub connectivity_verdict: Option<ConnectivityVerdict>,
    /// When the source reported, in milliseconds of a clock that only moves forward.
    pub updated_at: Option<u64>,
}

impl Default for LinkSourceView {
    fn default() -> (r: Self)
        ensures
            r.carrier_up is None,
            r.address_attached is None,
            r.wifi_associated is None,
            r.connectivity_verdict is None,
            r.updated_at is None,
    {
        LinkSourceView {
            carrier_up: None,
            address_attached: None,
            wifi_associated: None,
            connectivity_verdict: None,
            updated_at: None,
        }
    }
}

/// One source's last report.
#[derive(Debug, Clone)]
pub struct SourceReport {
    pub source: &'static str,
    pub view: LinkSourceView,
}

/// The last report of each source; each source stands once.
#[derive(Debug, Clone)]
pub struct SourceViews {
    pub reports: Vec<SourceReport>,
}

/// The report of a source.
pub open spec fn report_of(s: Seq<SourceReport>, source: Seq<char>) -> Option<LinkSourceView>
    decreases s.len(),
{
    if s.len() == 0 {
        None
    } else if s[0].source@ == source {
        Some(s[0].view)
    } else {
        report_of(s.drop_first(), source)
    }
}

proof fn lemma_report_push(s: Seq<SourceReport>, r: SourceReport, source: Seq<char>)
    ensures
        report_of(s.push(r), source) == match report_of(s, source) {
            Some(v) => Some(v),
            None => if r.source@ == source {
                Some(r.view)
            } else {
                None
            },
        },
    decreases s.len(),
{
    if s.len() == 0 {
        assert(s.push(r).drop_first() =~= s);
        assert(s.push(r)[0] == r);
    } else {
        assert(s.push(r).drop_first() =~= s.drop_first().push(r));
        assert(s.push(r)[0] == s[0]);
        lemma_report_push(s.drop_first(), r, source);
    }
}

proof fn lemma_report_update(s: Seq<SourceReport>, i: int, r: SourceReport, source: Seq<char>)
    requires
        0 <= i < s.len(),
        s[i].source@ == r.source@,
        forall|j: int| 0 <= j < i ==> (#[trigger] s[j]).source@ != r.source@,
    ensures
        report_of(s.update(i, r), source) == if source == r.source@ {
            Some(r.view)
        } else {
            report_of(s, source)
        },
    decreases s.len(),
{
    if i == 0 {
        assert(s.update(i, r).drop_first() =~= s.drop_first());
    } else {
        assert(s.update(i, r).drop_first() =~= s.drop_first().update(i - 1, r));
        assert forall|j: int| 0 <= j < i - 1 implies (#[trigger] s.drop_first()[j]).source@ != r.source@ by {
            assert(s.drop_first()[j] == s[j + 1]);
        }
        lemma_report_update(s.drop_first(), i - 1, r, source);
    }
}

impl View for SourceViews {
    type V = Map<Seq<char>, LinkSourceView>;

    open spec fn view(&self) -> Map<Seq<char>, LinkSourceView> {
        Map::new(
            |k: Seq<char>| report_of(self.reports@, k) is Some,
            |k: Seq<char>| report_of(self.reports@, k)->0,
        )
    }
}

/// The report of a source, where there is one.
pub open spec fn seen(m: Map<Seq<char>, LinkSourceView>, source: Seq<char>) -> Option<LinkSourceView> {
    if m.contains_key(source) {
        Some(m[source])
    } else {
        None
    }
}

impl SourceViews {
    /// No reports.
    pub fn new() -> (r: SourceViews)
        ensures
            r@ == Map::<Seq<char>, LinkSourceView>::empty(),
    {
        let r = SourceViews { reports: Vec::new() };
        proof {
            assert(r@ =~= Map::<Seq<char>, LinkSourceView>::empty());
        }
        r
    }

    /// The last report of a source.
    pub fn get(&self, source: &str) -> (r: Option<LinkSourceView>)
        ensures
            r == seen(self@, source@),
    {
        let mut i: usize = 0;
        proof {
            assert(self.reports@.skip(0) =~= self.reports@);
        }
        while i < self.reports.len()
            invariant
                i <= self.reports.len(),
                report_of(self.reports@, source@) == report_of(self.reports@.skip(i as int), source@),
            decreases self.reports.len() - i,
        {
            proof {
                assert(self.reports@.skip(i as int).drop_first() =~= self.reports@.skip(i as int + 1));
            }
            if text_eq(self.reports[i].source, source) {
                return Some(self.reports[i].view);
            }
            i += 1;
        }
        None
    }

    /// Takes a source's report, in place of the one before.
    pub fn insert(&mut self, source: &'static str, view: LinkSourceView)
        ensures
            final(self)@ == old(self)@.insert(source@, view),
    {
        let ghost before = self.reports@;
        let mut i: usize = 0;
        while i < self.reports.len() && !text_eq(self.reports[i].source, source)
            invariant
                i <= self.reports.len(),
                self.reports@ == before,
                forall|j: int| 0 <= j < i ==> (#[trigger] before[j]).source@ != source@,
            decreases self.reports.len() - i,
        {
            i += 1;
        }
        let report = SourceReport { source, view };
        if i < self.reports.len() {
            self.reports.set(i, report);
            proof {
                assert forall|k: Seq<char>| #[trigger] report_of(self.reports@, k) == (if k == source@ {
                    Some(view)
                } else {
                    report_of(before, k)
                }) by {
                    lemma_report_update(before, i as int, report, k);
                }
            }
        } else {
            self.reports.push(report);
            proof {
                lemma_absent(before, source@);
                assert forall|k: Seq<char>| #[trigger] report_of(self.reports@, k) == (if k == source@ {
                    Some(view)
                } else {
                    report_of(before, k)
                }) by {
                    lemma_report_push(before, report, k);
                }
            }
        }
        proof {
            assert(self@ =~= old(self)@.insert(source@, view));
        }
    }
}

proof fn lemma_absent(s: Seq<SourceReport>, source: Seq<char>)
    requires
        forall|j: int| 0 <= j < s.len() ==> (#[trigger] s[j]).source@ != source,
    ensures
        report_of(s, source) is None,
    decreases s.len(),
{
    if s.len() > 0 {
        assert forall|j: int| 0 <= j < s.drop_first().len() implies (#[trigger] s.drop_first()[j]).source@ != source by {
            assert(s.drop_first()[j] == s[j + 1]);
        }
        lemma_absent(s.drop_first(), source);
    }
}

/// The kinds of disagreement.
#[derive(Debug, Clone, Copy, PartialEq, Eq, Structural)]
pub enum DiscrepancyKind {
    /// The kernel sees no carrier, but a daemon claims connectivity.
    CarrierDownButDaemonReportsUp,
    /// The kernel sees carrier and an address, but a daemon reports none.
    CarrierUpButDaemonReportsDown,
    /// Two daemons contradict each other.
    DaemonsDisagree,
}

/// A rule by which sources are compared.
#[derive(Debug, Clone)]
pub struct ReconciliationRule {
    /// The identifier.
    pub id: &'static str,
    /// What the rule detects.
    pub description: &'static str,
    /// The sources that it compares.
    pub sources: Vec<&'static str>,
    /// The kind of disagreement that it detects.
    pub kind: DiscrepancyKind,
}

/// The view of a rule: its identifier, its description, its sources and its kind.
pub open spec fn rule_view(r: ReconciliationRule) -> (Seq<char>, Seq<char>, Seq<Seq<char>>, DiscrepancyKind) {
    (r.id@, r.description@, slices(r.sources@), r.kind)
}

/// The rules, in the order in which they are applied.
pub fn rules() -> (r: Vec<ReconciliationRule>)
    ensures
        r@.len() == 3,
        rule_view(r@[0]) == (
            "carrier_down_but_daemon_full"@,
            "Kernel reports no carrier on any observed interface, but a userspace daemon advertises Full / Portal / Limited connectivity. Trust the kernel — the daemon is mid-transition or stuck."@,
            seq!["rtnetlink"@, "network-manager"@],
            DiscrepancyKind::CarrierDownButDaemonReportsUp,
        ),
        rule_view(r@[1]) == (
            "carrier_up_but_daemon_none"@,
            "Kernel reports carrier-up + an IP address attached, but a userspace daemon advertises None connectivity. The daemon is still probing or silently stuck — wait for it to converge before raising a recovery action."@,
            seq!["rtnetlink"@, "network-manager"@],
            DiscrepancyKind::CarrierUpButDaemonReportsDown,
        ),
        rule_view(r@[2]) == (
            "daemons_disagree"@,
            "Two userspace daemon sources report contradictory connectivity verdicts. Surface the disagreement; the kernel-side reconciliation rules above carry the trust decision when one daemon also contradicts the kernel."@,
            seq!["network-manager"@, "connman"@, "systemd-networkd"@],
            DiscrepancyKind::DaemonsDisagree,
        ),
{
    let mut out: Vec<ReconciliationRule> = Vec::new();
    out.push(
        ReconciliationRule {
            id: "carrier_down_but_daemon_full",
            description: "Kernel reports no carrier on any observed interface, but a userspace daemon advertises Full / Portal / Limited connectivity. Trust the kernel — the daemon is mid-transition or stuck.",
            sources: vec!["rtnetlink", "network-manager"],
            kind: DiscrepancyKind::CarrierDownButDaemonReportsUp,
        },
    );
    out.push(
        ReconciliationRule {
            id: "carrier_up_but_daemon_none",
            description: "Kernel reports carrier-up + an IP address attached, but a userspace daemon advertises None connectivity. The daemon is still probing or silently stuck — wait for it to converge before raising a recovery action.",
            sources: vec!["rtnetlink", "network-manager"],
            kind: DiscrepancyKind::CarrierUpButDaemonReportsDown,
        },
    );
    out.push(
        ReconciliationRule {
            id: "daemons_disagree",
            description: "Two userspace daemon sources report contradictory connectivity verdicts. Surface the disagreement; the kernel-side reconciliation rules above carry the trust decision when one daemon also contradicts the kernel.",
            sources: vec!["network-manager", "connman", "systemd-networkd"],
            kind: DiscrepancyKind::DaemonsDisagree,
        },
    );
    proof {
        assert(slices(out@[0].sources@) =~= seq!["rtnetlink"@, "network-manager"@]);
        assert(slices(out@[1].sources@) =~= seq!["rtnetlink"@, "network-manager"@]);
        assert(slices(out@[2].sources@) =~= seq!["network-manager"@, "connman"@, "systemd-networkd"@]);
    }
    out
}

/// A disagreement.
#[derive(Debug, Clone)]
pub struct Discrepancy {
    /// The rule that fired.
    pub rule: &'static str,
    /// The kind of disagreement.
    pub kind: DiscrepancyKind,
    /// What was observed.
    pub detail: String,
    /// The source that is believed, empty where none is.
    pub trusted: &'static str,
    /// The source that is not believed, empty where none is.
    pub untrusted: &'static str,
}

/// [`Discrepancy`] over character sequences.
#[verifier::ext_equal]
pub struct DiscrepancyView {
    pub rule: Seq<char>,
    pub kind: DiscrepancyKind,
    pub detail: Seq<char>,
    pub trusted: Seq<char>,
    pub untrusted: Seq<char>,
}

impl View for Discrepancy {
    type V = DiscrepancyView;

    open spec fn view(&self) -> DiscrepancyView {
        DiscrepancyView {
            rule: self.rule@,
            kind: self.kind,
            detail: self.detail@,
            trusted: self.trusted@,
            untrusted: self.untrusted@,
        }
    }
}

/// The views of disagreements.
pub open spec fn discrepancy_views(v: Seq<Discrepancy>) -> Seq<DiscrepancyView> {
    v.map_values(|d: Discrepancy| d@)
}

/// The disagreement by the first rule.
pub open spec fn carrier_down_rule(m: Map<Seq<char>, LinkSourceView>) -> Seq<DiscrepancyView> {
    match (seen(m, "rtnetlink"@), seen(m, "network-manager"@)) {
        (Some(k), Some(d)) => match d.connectivity_verdict {
            Some(v) => if k.carrier_up == Some(false) && claims_up(v) {
                seq![
                    DiscrepancyView {
                        rule: "carrier_down_but_daemon_full"@,
                        kind: DiscrepancyKind::CarrierDownButDaemonReportsUp,
                        detail: "rtnetlink: carrier_up = false; network-manager: connectivity = "@ + verdict_name(v),
                        trusted: "rtnetlink"@,
                        untrusted: "network-manager"@,
                    },
                ]
            } else {
                seq![]
            },
            None => seq![],
        },
        _ => seq![],
    }
}

/// The disagreement by the second rule.
pub open spec fn carrier_up_rule(m: Map<Seq<char>, LinkSourceView>) -> Seq<DiscrepancyView> {
    match (seen(m, "rtnetlink"@), seen(m, "network-manager"@)) {
        (Some(k), Some(d)) => if k.carrier_up == Some(true) && k.address_attached == Some(true)
            && d.connectivity_verdict == Some(ConnectivityVerdict::NoConnectivity) {
            seq![
                DiscrepancyView {
                    rule: "carrier_up_but_daemon_none"@,
                    kind: DiscrepancyKind::CarrierUpButDaemonReportsDown,
                    detail: "rtnetlink: carrier_up + address_attached; network-manager: connectivity = None"@,
                    trusted: "rtnetlink"@,
                    untrusted: "network-manager"@,
                },
            ]
        } else {
            seq![]
        },
        _ => seq![],
    }
}

/// The verdict of a daemon, where it has one.
pub open spec fn verdict_of(m: Map<Seq<char>, LinkSourceView>, source: Seq<char>) -> Option<ConnectivityVerdict> {
    match seen(m, source) {
        Some(v) => v.connectivity_verdict,
        None => None,
    }
}

/// The disagreement of two daemons, where both have a verdict.
pub open spec fn daemons_rule(a: Seq<char>, x: Option<ConnectivityVerdict>, b: Seq<char>, y: Option<ConnectivityVerdict>) -> Seq<
    DiscrepancyView,
> {
    match (x, y) {
        (Some(v), Some(w)) => if v != w {
            seq![
                DiscrepancyView {
                    rule: "daemons_disagree"@,
                    kind: DiscrepancyKind::DaemonsDisagree,
                    detail: a + ": "@ + verdict_name(v) + "; "@ + b + ": "@ + verdict_name(w),
                    trusted: ""@,
                    untrusted: ""@,
                },
            ]
        } else {
            seq![]
        },
        _ => seq![],
    }
}

/// The disagreement by the third rule: of the daemons, each that has a verdict is
/// compared with the next that has one, and the first two that disagree are reported.
pub open spec fn daemons_rules(m: Map<Seq<char>, LinkSourceView>) -> Seq<DiscrepancyView> {
    let n = verdict_of(m, "network-manager"@);
    let c = verdict_of(m, "connman"@);
    let s = verdict_of(m, "systemd-networkd"@);
    if n is Some && c is Some && n != c {
        daemons_rule("network-manager"@, n, "connman"@, c)
    } else if c is Some {
        daemons_rule("connman"@, c, "systemd-networkd"@, s)
    } else {
        daemons_rule("network-manager"@, n, "systemd-networkd"@, s)
    }
}

/// The place of a kind of disagreement among the rules.
pub open spec fn rule_rank(k: DiscrepancyKind) -> int {
    match k {
        DiscrepancyKind::CarrierDownButDaemonReportsUp => 0,
        DiscrepancyKind::CarrierUpButDaemonReportsDown => 1,
        DiscrepancyKind::DaemonsDisagree => 2,
    }
}

/// Every disagreement, rule by rule.
pub open spec fn discrepancies(m: Map<Seq<char>, LinkSourceView>) -> Seq<DiscrepancyView> {
    carrier_down_rule(m) + carrier_up_rule(m) + daemons_rules(m)
}

fn compare_daemons(
    out: &mut Vec<Discrepancy>,
    a: &'static str,
    x: Option<ConnectivityVerdict>,
    b: &'static str,
    y: Option<ConnectivityVerdict>,
)
    ensures
        discrepancy_views(final(out)@) == discrepancy_views(old(out)@) + daemons_rule(a@, x, b@, y),
{
    let ghost before = out@;
    if let (Some(v), Some(w)) = (x, y) {
        if v != w {
            let head = cat4(a, ": ", verdict_label(v), "; ");
            let d = Discrepancy {
                rule: "daemons_disagree",
                kind: DiscrepancyKind::DaemonsDisagree,
                detail: cat4(head.as_str(), b, ": ", verdict_label(w)),
                trusted: "",
                untrusted: "",
            };
            out.push(d);
        }
    }
    proof {
        assert(discrepancy_views(out@) =~= discrepancy_views(before) + daemons_rule(a@, x, b@, y));
    }
}

fn verdict(views: &SourceViews, source: &str) -> (r: Option<ConnectivityVerdict>)
    ensures
        r == verdict_of(views@, source@),
{
    match views.get(source) {
        Some(v) => v.connectivity_verdict,
        None => None,
    }
}

/// Finds every disagreement, as [`discrepancies`] says.
pub fn detect_discrepancies(views: &SourceViews) -> (r: Vec<Discrepancy>)
    ensures
        discrepancy_views(r@) == discrepancies(views@),
{
    let mut out: Vec<Discrepancy> = Vec::new();
    let kernel = views.get("rtnetlink");
    let nm = views.get("network-manager");
    proof {
        assert(discrepancy_views(out@) =~= Seq::<DiscrepancyView>::empty());
    }
    if let (Some(k), Some(d)) = (kernel, nm) {
        if let (Some(up), Some(v)) = (k.carrier_up, d.connectivity_verdict) {
            if !up && v.is_up() {
                out.push(
                    Discrepancy {
                        rule: "carrier_down_but_daemon_full",
                        kind: DiscrepancyKind::CarrierDownButDaemonReportsUp,
                        detail: cat(
                            "rtnetlink: carrier_up = false; network-manager: connectivity = ",
                            verdict_label(v),
                        ),
                        trusted: "rtnetlink",
                        untrusted: "network-manager",
                    },
                );
            }
        }
    }
    proof {
        assert(discrepancy_views(out@) =~= carrier_down_rule(views@));
    }
    if let (Some(k), Some(d)) = (kernel, nm) {
        if let (Some(up), Some(address), Some(v)) = (k.carrier_up, k.address_attached, d.connectivity_verdict) {
            if up && address && v == ConnectivityVerdict::NoConnectivity {
                out.push(
                    Discrepancy {
                        rule: "carrier_up_but_daemon_none",
                        kind: DiscrepancyKind::CarrierUpButDaemonReportsDown,
                        detail: "rtnetlink: carrier_up + address_attached; network-manager: connectivity = None".to_owned(),
                        trusted: "rtnetlink",
                        untrusted: "network-manager",
                    },
                );
            }
        }
    }
    proof {
        assert(discrepancy_views(out@) =~= carrier_down_rule(views@) + carrier_up_rule(views@));
    }
    let n = verdict(views, "network-manager");
    let c = verdict(views, "connman");
    let s = verdict(views, "systemd-networkd");
    let first = match (n, c) {
        (Some(v), Some(w)) => v != w,
        _ => false,
    };
    if first {
        compare_daemons(&mut out, "network-manager", n, "connman", c);
    } else if c.is_some() {
        compare_daemons(&mut out, "connman", c, "systemd-networkd", s);
    } else {
        compare_daemons(&mut out, "network-manager", n, "systemd-networkd", s);
    }
    proof {
        assert(discrepancy_views(out@) =~= discrepancies(views@));
    }
    out
}

/// Each rule finds one disagreement at most, and they come in the order of the rules.
pub proof fn rules_fire_once_and_in_order(m: Map<Seq<char>, LinkSourceView>)
    ensures
        carrier_down_rule(m).len() <= 1,
        carrier_up_rule(m).len() <= 1,
        daemons_rules(m).len() <= 1,
        discrepancies(m) == carrier_down_rule(m) + carrier_up_rule(m) + daemons_rules(m),
        forall|i: int, j: int|
            0 <= i < j < discrepancies(m).len() ==> rule_rank(#[trigger] discrepancies(m)[i].kind) < rule_rank(
                #[trigger] discrepancies(m)[j].kind,
            ),
{
}

/// One source alone never disagrees, and of kernel and daemon the kernel is believed.
pub proof fn kernel_is_trusted(m: Map<Seq<char>, LinkSourceView>)
    ensures
        forall|i: int|
            0 <= i < discrepancies(m).len() && (#[trigger] discrepancies(m)[i]).kind != DiscrepancyKind::DaemonsDisagree
                ==> discrepancies(m)[i].trusted == "rtnetlink"@ && discrepancies(m)[i].untrusted == "network-manager"@
                && m.contains_key("rtnetlink"@) && m.contains_key("network-manager"@),
        carrier_down_rule(m).len() + carrier_up_rule(m).len() <= 1,
{
}

/// Some disagreement of that kind was found.
pub open spec fn finds(v: Seq<DiscrepancyView>, k: DiscrepancyKind) -> bool {
    exists|i: int| 0 <= i < v.len() && (#[trigger] v[i]).kind == k
}

/// The kernel and NetworkManager disagree in two ways and no others: the kernel sees no
/// carrier and the daemon claims to be connected, be it fully, to a portal or within
/// limits; or the kernel sees carrier and an address and the daemon claims that there is
/// none.
pub proof fn kernel_and_daemon_disagree_where_they_do(m: Map<Seq<char>, LinkSourceView>, k: LinkSourceView, d: LinkSourceView)
    requires
        m.contains_key("rtnetlink"@),
        m["rtnetlink"@] == k,
        m.contains_key("network-manager"@),
        m["network-manager"@] == d,
    ensures
        finds(discrepancies(m), DiscrepancyKind::CarrierDownButDaemonReportsUp) <==> k.carrier_up == Some(false) && (
        d.connectivity_verdict == Some(ConnectivityVerdict::Full) || d.connectivity_verdict == Some(
            ConnectivityVerdict::Portal,
        ) || d.connectivity_verdict == Some(ConnectivityVerdict::Limited)),
        finds(discrepancies(m), DiscrepancyKind::CarrierUpButDaemonReportsDown) <==> k.carrier_up == Some(true)
            && k.address_attached == Some(true) && d.connectivity_verdict == Some(ConnectivityVerdict::NoConnectivity),
{
    let a = carrier_down_rule(m);
    let b = carrier_up_rule(m);
    let c = daemons_rules(m);
    let all = discrepancies(m);
    if a.len() > 0 {
        assert(all[0] == a[0]);
    }
    if b.len() > 0 {
        assert(all[a.len() as int] == b[0]);
    }
    assert forall|i: int| 0 <= i < all.len() implies (#[trigger] all[i] == if i < a.len() {
        a[i]
    } else if i < a.len() + b.len() {
        b[i - a.len()]
    } else {
        c[i - a.len() - b.len()]
    }) by {}
}

/// Without a report of the kernel, or without one of NetworkManager, neither is said to
/// contradict the other.
pub proof fn silence_is_no_disagreement(m: Map<Seq<char>, LinkSourceView>)
    requires
        !m.contains_key("rtnetlink"@) || !m.contains_key("network-manager"@),
    ensures
        !finds(discrepancies(m), DiscrepancyKind::CarrierDownButDaemonReportsUp),
        !finds(discrepancies(m), DiscrepancyKind::CarrierUpButDaemonReportsDown),
{
    assert(discrepancies(m) =~= daemons_rules(m));
}

/// Two daemons disagree where their verdicts differ, and what was observed names both
/// with their verdicts. Of three, NetworkManager and ConnMan are held against each other
/// first.
pub proof fn daemons_disagree_where_verdicts_differ(m: Map<Seq<char>, LinkSourceView>)
    ensures
        ({
            let n = verdict_of(m, "network-manager"@);
            let c = verdict_of(m, "connman"@);
            let s = verdict_of(m, "systemd-networkd"@);
            let found = daemons_rules(m);
            &&& n is Some && c is Some && n != c ==> found.len() == 1 && found[0].detail == "network-manager"@ + ": "@
                + verdict_name(n->0) + "; "@ + "connman"@ + ": "@ + verdict_name(c->0)
            &&& (n is None || n == c) && c is Some && s is Some && c != s ==> found.len() == 1 && found[0].detail
                == "connman"@ + ": "@ + verdict_name(c->0) + "; "@ + "systemd-networkd"@ + ": "@ + verdict_name(s->0)
            &&& n is Some && c is None && s is Some && n != s ==> found.len() == 1 && found[0].detail
                == "network-manager"@ + ": "@ + verdict_name(n->0) + "; "@ + "systemd-networkd"@ + ": "@ + verdict_name(
                s->0,
            )
            &&& found.len() == 1 ==> found[0].kind == DiscrepancyKind::DaemonsDisagree && found[0].rule
                == "daemons_disagree"@ && found[0].trusted == ""@ && found[0].untrusted == ""@
            &&& (n is None || c is None || n == c) && (c is None || s is None || c == s) && (n is None || s is None || n
                == s) ==> found.len() == 0
        }),
{
}

/// What was observed of the carrier is told with the daemon's verdict.
pub proof fn carrier_disagreements_are_told(m: Map<Seq<char>, LinkSourceView>)
    ensures
        carrier_down_rule(m).len() == 1 ==> carrier_down_rule(m)[0].detail
            == "rtnetlink: carrier_up = false; network-manager: connectivity = "@ + verdict_name(
            m["network-manager"@].connectivity_verdict->0,
        ) && carrier_down_rule(m)[0].rule == "carrier_down_but_daemon_full"@,
        carrier_up_rule(m).len() == 1 ==> carrier_up_rule(m)[0].detail
            == "rtnetlink: carrier_up + address_attached; network-manager: connectivity = None"@ && carrier_up_rule(
            m,
        )[0].rule == "carrier_up_but_daemon_none"@,
        verdict_name(ConnectivityVerdict::Full) == "Full"@,
        verdict_name(ConnectivityVerdict::Portal) == "Portal"@,
        verdict_name(ConnectivityVerdict::Limited) == "Limited"@,
        verdict_name(ConnectivityVerdict::NoConnectivity) == "None"@,
        verdict_name(ConnectivityVerdict::Unknown) == "Unknown"@,
{
}

/// Each field is seen under its own name, as it is.
pub proof fn fields_are_seen_under_their_names(discrepancy: Discrepancy)
    ensures
        discrepancy@.rule == discrepancy.rule@,
        discrepancy@.kind == discrepancy.kind,
        discrepancy@.detail == discrepancy.detail@,
        discrepancy@.trusted == discrepancy.trusted@,
        discrepancy@.untrusted == discrepancy.untrusted@,
{
}

} // verus!
