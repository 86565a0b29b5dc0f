//! The second interface of a radio that is client and access point at once.

use crate::network::readings::{
    allows_concurrency, link_numbered, link_reading, mentions_concurrency, parse_link, parse_wiphy_name, wiphy_name,
    LinkReading, LinkView,
};
use crate::network::transcript::{linked, probed, ran, read_text, reply_at, Ask, Finished, Halt, Mark, Progress, Reply, Run, RunView};
use crate::text::{blank, cat, is_blank, lines, opt_text, owned, text_eq, texts, trim, trimmed};
use vstd::prelude::*;

verus! {

/// The environment variable that says a radio can be both.
pub const ENV_ASSUME_CONCURRENT: &'static str = "EVO_NETWORK_ASSUME_CONCURRENT_STA_AP";

/// Whether a program ran and exited without an error.
pub open spec fn succeeded(r: RunView) -> bool {
    r matches RunView::Output(o) && o.success
}

/// Whether an interface exists.
pub open spec fn iface_exists(h: Seq<Reply>, m: Mark, ifname: Seq<char>) -> Progress<bool> {
    probed(h, m, "/sys/class/net/"@ + trimmed(ifname))
}

/// Asks whether an interface exists.
pub fn wifi_iface_exists(run: &mut Run, ifname: &str) -> (r: Result<bool, Halt>)
    requires
        old(run).wf(),
    ensures
        final(run).follows(old(run)),
        match r {
            Ok(v) => iface_exists(old(run).replies@, old(run)@, ifname@) == Progress::Go(final(run)@, v),
            Err(h) => iface_exists(old(run).replies@, old(run)@, ifname@) == h.stop::<bool>(),
        },
{
    run.probe(cat("/sys/class/net/", trim(ifname)).as_str())
}

/// The success of `iw` with the given arguments.
pub open spec fn iw_succeeds(h: Seq<Reply>, m: Mark, args: Seq<Seq<char>>) -> Progress<bool> {
    match ran(h, m, "iw"@, args, None) {
        Progress::Go(m1, r) => Progress::Go(m1, succeeded(r)),
        Progress::Need(a) => Progress::Need(a),
        Progress::Fail(e) => Progress::Fail(e),
    }
}

fn iw_success(run: &mut Run, args: Vec<String>) -> (r: Result<bool, Halt>)
    requires
        old(run).wf(),
    ensures
        final(run).follows(old(run)),
        match r {
            Ok(v) => iw_succeeds(old(run).replies@, old(run)@, texts(args@)) == Progress::Go(final(run)@, v),
            Err(h) => iw_succeeds(old(run).replies@, old(run)@, texts(args@)) == h.stop::<bool>(),
        },
{
    match run.run("iw", args, None) {
        Ok(Finished::Output(o)) => Ok(o.success),
        Ok(_) => Ok(false),
        Err(h) => Err(h),
    }
}

/// Removes an interface where it exists; tells whether it is gone.
pub open spec fn vif_absent(h: Seq<Reply>, m: Mark, ap: Seq<char>) -> Progress<bool> {
    if is_blank(ap) {
        Progress::Go(m, false)
    } else {
        match iface_exists(h, m, ap) {
            Progress::Go(m1, true) => iw_succeeds(h, m1, seq!["dev"@, ap, "del"@]),
            Progress::Go(m1, false) => Progress::Go(m1, true),
            Progress::Need(a) => Progress::Need(a),
            Progress::Fail(e) => Progress::Fail(e),
        }
    }
}

/// Removes the hotspot's interface.
pub fn ensure_ap_vif_absent(run: &mut Run, ap_ifname: &str) -> (r: Result<bool, Halt>)
    requires
        old(run).wf(),
    ensures
        final(run).follows(old(run)),
        match r {
            Ok(v) => vif_absent(old(run).replies@, old(run)@, ap_ifname@) == Progress::Go(final(run)@, v),
            Err(h) => vif_absent(old(run).replies@, old(run)@, ap_ifname@) == h.stop::<bool>(),
        },
{
    if blank(ap_ifname) {
        return Ok(false);
    }
    match wifi_iface_exists(run, ap_ifname) {
        Ok(true) => {
            let args = owned(vec!["dev", ap_ifname, "del"]);
            proof {
                assert(texts(args@) =~= seq!["dev"@, ap_ifname@, "del"@]);
            }
            iw_success(run, args)
        },
        Ok(false) => Ok(true),
        Err(h) => Err(h),
    }
}

/// Creates an interface on the radio of another where it does not exist; tells whether
/// it is there.
pub open spec fn vif_present(h: Seq<Reply>, m: Mark, sta: Seq<char>, ap: Seq<char>) -> Progress<bool> {
    if is_blank(sta) || is_blank(ap) {
        Progress::Go(m, false)
    } else {
        match iface_exists(h, m, ap) {
            Progress::Go(m1, true) => Progress::Go(m1, true),
            Progress::Go(m1, false) => iw_succeeds(
                h,
                m1,
                seq!["dev"@, sta, "interface"@, "add"@, ap, "type"@, "__ap"@],
            ),
            Progress::Need(a) => Progress::Need(a),
            Progress::Fail(e) => Progress::Fail(e),
        }
    }
}

/// Creates the hotspot's interface.
pub fn ensure_ap_vif_present(run: &mut Run, sta_ifname: &str, ap_ifname: &str) -> (r: Result<bool, Halt>)
    requires
        old(run).wf(),
    ensures
        final(run).follows(old(run)),
        match r {
            Ok(v) => vif_present(old(run).replies@, old(run)@, sta_ifname@, ap_ifname@) == Progress::Go(final(run)@, v),
            Err(h) => vif_present(old(run).replies@, old(run)@, sta_ifname@, ap_ifname@) == h.stop::<bool>(),
        },
{
    if blank(sta_ifname) || blank(ap_ifname) {
        return Ok(false);
    }
    match wifi_iface_exists(run, ap_ifname) {
        Ok(true) => Ok(true),
        Ok(false) => {
            let args = owned(vec!["dev", sta_ifname, "interface", "add", ap_ifname, "type", "__ap"]);
            proof {
                assert(texts(args@) =~= seq!["dev"@, sta_ifname@, "interface"@, "add"@, ap_ifname@, "type"@, "__ap"@]);
            }
            iw_success(run, args)
        },
        Err(h) => Err(h),
    }
}

/// Whether the radio with this kernel name can be both, at this point.
pub open spec fn phy_concurrent(h: Seq<Reply>, m: Mark, phy: Seq<char>) -> Progress<bool> {
    match ran(h, m, "iw"@, seq!["phy"@, phy, "info"@], None) {
        Progress::Go(m1, RunView::Output(o)) => Progress::Go(m1, o.success && mentions_concurrency(o.stdout)),
        Progress::Go(m1, _) => Progress::Go(m1, false),
        Progress::Need(a) => Progress::Need(a),
        Progress::Fail(e) => Progress::Fail(e),
    }
}

/// Whether the radio of a client interface can be an access point at the same time:
/// where the environment says so, or where `iw` does.
pub open spec fn concurrent(h: Seq<Reply>, m: Mark, sta: Seq<char>) -> Progress<bool> {
    match read_text(h, m, Ask::ReadVar { name: ENV_ASSUME_CONCURRENT@ }) {
        Progress::Go(m1, v) => if v == Some("1"@) {
            Progress::Go(m1, true)
        } else {
            match ran(h, m1, "iw"@, seq!["dev"@, sta, "info"@], None) {
                Progress::Go(m2, RunView::Output(o)) => if !o.success {
                    Progress::Go(m2, false)
                } else {
                    match wiphy_name(lines(o.stdout)) {
                        Some(phy) => phy_concurrent(h, m2, phy),
                        None => Progress::Go(m2, false),
                    }
                },
                Progress::Go(m2, _) => Progress::Go(m2, false),
                Progress::Need(a) => Progress::Need(a),
                Progress::Fail(e) => Progress::Fail(e),
            }
        },
        Progress::Need(a) => Progress::Need(a),
        Progress::Fail(e) => Progress::Fail(e),
    }
}

/// Asks whether the radio of a client interface can be an access point too.
pub fn sta_phy_supports_concurrent_sta_ap(run: &mut Run, sta_ifname: &str) -> (r: Result<bool, Halt>)
    requires
        old(run).wf(),
    ensures
        final(run).follows(old(run)),
        match r {
            Ok(v) => concurrent(old(run).replies@, old(run)@, sta_ifname@) == Progress::Go(final(run)@, v),
            Err(h) => concurrent(old(run).replies@, old(run)@, sta_ifname@) == h.stop::<bool>(),
        },
{
    let assumed = match run.read_var(ENV_ASSUME_CONCURRENT) {
        Ok(v) => match v {
            Some(s) => text_eq(s.as_str(), "1"),
            None => false,
        },
        Err(h) => return Err(h),
    };
    if assumed {
        return Ok(true);
    }
    let args = owned(vec!["dev", sta_ifname, "info"]);
    proof {
        assert(texts(args@) =~= seq!["dev"@, sta_ifname@, "info"@]);
    }
    let info = match run.run("iw", args, None) {
        Ok(Finished::Output(o)) => o,
        Ok(_) => return Ok(false),
        Err(h) => return Err(h),
    };
    if !info.success {
        return Ok(false);
    }
    let phy = match parse_wiphy_name(info.stdout.as_str()) {
        Some(p) => p,
        None => return Ok(false),
    };
    let args = owned(vec!["phy", phy.as_str(), "info"]);
    proof {
        assert(texts(args@) =~= seq!["phy"@, phy@, "info"@]);
    }
    match run.run("iw", args, None) {
        Ok(Finished::Output(o)) => Ok(o.success && allows_concurrency(o.stdout.as_str())),
        Ok(_) => Ok(false),
        Err(h) => Err(h),
    }
}

/// Whether every link in the replies has channel numbers.
pub open spec fn links_numbered(h: Seq<Reply>) -> bool {
    forall|i: int|
        0 <= i < h.len() ==> (#[trigger] h[i] matches Reply::Link(Some(s)) ==> link_numbered(lines(s@)))
}

/// The client's link at this point, where `iw` could be started.
pub open spec fn sta_link(h: Seq<Reply>, m: Mark, sta: Seq<char>) -> Progress<Option<LinkView>> {
    match linked(h, m, sta) {
        Progress::Go(m1, Some(body)) => Progress::Go(m1, Some(link_reading(body))),
        Progress::Go(m1, None) => Progress::Go(m1, None),
        Progress::Need(a) => Progress::Need(a),
        Progress::Fail(e) => Progress::Fail(e),
    }
}

/// The view of an optional link.
pub open spec fn link_view(l: Option<LinkReading>) -> Option<LinkView> {
    match l {
        Some(l) => Some(l@),
        None => None,
    }
}

/// Asks for the client's link.
pub fn sta_link_info(run: &mut Run, sta_ifname: &str) -> (r: Result<Option<LinkReading>, Halt>)
    requires
        old(run).wf(),
        links_numbered(old(run).replies@),
    ensures
        final(run).follows(old(run)),
        match r {
            Ok(v) => {
                &&& sta_link(old(run).replies@, old(run)@, sta_ifname@) == Progress::Go(final(run)@, link_view(v))
                &&& v matches Some(l) ==> l.channel is Some == l.band is Some
            },
            Err(h) => sta_link(old(run).replies@, old(run)@, sta_ifname@) == h.stop::<Option<LinkView>>(),
        },
{
    match run.link(sta_ifname) {
        Ok(v) => match v {
            Some(body) => Ok(Some(parse_link(body.as_str()))),
            None => Ok(None),
        },
        Err(h) => Err(h),
    }
}

/// The hotspot's interface is added to the client's radio where it is missing, and taken
/// away where it is there; an interface that is as it should be is left alone, and one
/// without a name is never touched.
pub proof fn hotspot_interfaces_come_and_go(
    h: Seq<Reply>,
    m: Mark,
    sta: Seq<char>,
    ap: Seq<char>,
)
    requires
        !is_blank(sta),
        !is_blank(ap),
    ensures
        reply_at(h, m.pos) is None ==> vif_present(h, m, sta, ap) == Progress::<bool>::Need(
            Ask::Probe { path: "/sys/class/net/"@ + trimmed(ap) },
        ) && vif_absent(h, m, ap) == Progress::<bool>::Need(Ask::Probe { path: "/sys/class/net/"@ + trimmed(ap) }),
        reply_at(h, m.pos) == Some(Reply::Present(true)) ==> {
            &&& vif_present(h, m, sta, ap) == Progress::Go(m.read(), true)
            &&& reply_at(h, m.pos + 1) is None ==> vif_absent(h, m, ap) == Progress::<bool>::Need(
                Ask::Run { program: "iw"@, args: seq!["dev"@, ap, "del"@], timeout_ms: None },
            )
            &&& reply_at(h, m.pos + 1) matches Some(Reply::Ran(o)) ==> vif_absent(h, m, ap) == Progress::Go(
                m.read().read(),
                o@.success,
            )
        },
        reply_at(h, m.pos) == Some(Reply::Present(false)) ==> {
            &&& vif_absent(h, m, ap) == Progress::Go(m.read(), true)
            &&& reply_at(h, m.pos + 1) is None ==> vif_present(h, m, sta, ap) == Progress::<bool>::Need(
                Ask::Run {
                    program: "iw"@,
                    args: seq!["dev"@, sta, "interface"@, "add"@, ap, "type"@, "__ap"@],
                    timeout_ms: None,
                },
            )
            &&& reply_at(h, m.pos + 1) matches Some(Reply::Ran(o)) ==> vif_present(h, m, sta, ap) == Progress::Go(
                m.read().read(),
                o@.success,
            )
        },
{
}

/// An interface without a name is neither added nor taken away.
pub proof fn nameless_interfaces_are_left_alone(h: Seq<Reply>, m: Mark, sta: Seq<char>, ap: Seq<char>)
    ensures
        is_blank(sta) || is_blank(ap) ==> vif_present(h, m, sta, ap) == Progress::Go(m, false),
        is_blank(ap) ==> vif_absent(h, m, ap) == Progress::Go(m, false),
{
}

/// A radio is shared where the operator says so, or else where `iw` says of the radio
/// behind the client's interface that it can be; a question that fails is a no.
pub proof fn radios_are_asked_whether_they_share(h: Seq<Reply>, m: Mark, sta: Seq<char>, phy: Seq<char>)
    ensures
        reply_at(h, m.pos) is None ==> concurrent(h, m, sta) == Progress::<bool>::Need(
            Ask::ReadVar { name: "EVO_NETWORK_ASSUME_CONCURRENT_STA_AP"@ },
        ),
        reply_at(h, m.pos) matches Some(Reply::Text(v)) ==> {
            &&& opt_text(v) == Some("1"@) ==> concurrent(h, m, sta) == Progress::Go(m.read(), true)
            &&& opt_text(v) != Some("1"@) ==> {
                &&& reply_at(h, m.pos + 1) is None ==> concurrent(h, m, sta) == Progress::<bool>::Need(
                    Ask::Run { program: "iw"@, args: seq!["dev"@, sta, "info"@], timeout_ms: None },
                )
                &&& reply_at(h, m.pos + 1) matches Some(Reply::Ran(o)) ==> {
                    &&& !o@.success || wiphy_name(lines(o@.stdout)) is None ==> concurrent(h, m, sta) == Progress::Go(
                        m.read().read(),
                        false,
                    )
                    &&& o@.success && wiphy_name(lines(o@.stdout)) == Some(phy) ==> {
                        &&& reply_at(h, m.pos + 2) is None ==> concurrent(h, m, sta) == Progress::<bool>::Need(
                            Ask::Run { program: "iw"@, args: seq!["phy"@, phy, "info"@], timeout_ms: None },
                        )
                        &&& reply_at(h, m.pos + 2) matches Some(Reply::Ran(q)) ==> concurrent(h, m, sta) == Progress::Go(
                            m.read().read().read(),
                            q@.success && mentions_concurrency(q@.stdout),
                        )
                    }
                }
            }
        },
{
}

} // verus!
