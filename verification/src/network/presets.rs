//! Which sources are tried on which platform.

use crate::text::{slices, text_eq};
use vstd::prelude::*;

verus! {

/// A named choice of sources.
#[derive(Debug, Clone, Copy, PartialEq, Eq, Structural)]
pub enum Preset {
    /// Linux with NetworkManager.
    LinuxSystemdNm,
    /// Linux with systemd-networkd.
    LinuxSystemdNetworkd,
    /// Yocto with ConnMan.
    LinuxYoctoConnman,
    /// Linux without a network daemon.
    LinuxBare,
    /// FreeBSD.
    Bsd,
    /// Polling alone.
    PollingOnly,
    /// An embedded real-time system.
    EmbeddedRtos,
}

/// The identifier of a preset.
pub open spec fn preset_name(p: Preset) -> Seq<char> {
    match p {
        Preset::LinuxSystemdNm => "linux-systemd-nm"@,
        Preset::LinuxSystemdNetworkd => "linux-systemd-networkd"@,
        Preset::LinuxYoctoConnman => "linux-yocto-connman"@,
        Preset::LinuxBare => "linux-bare"@,
        Preset::Bsd => "bsd"@,
        Preset::PollingOnly => "polling-only"@,
        Preset::EmbeddedRtos => "embedded-rtos"@,
    }
}

/// The preset of an identifier.
pub open spec fn preset_named(s: Seq<char>) -> Option<Preset> {
    if s == "linux-systemd-nm"@ {
        Some(Preset::LinuxSystemdNm)
    } else if s == "linux-systemd-networkd"@ {
        Some(Preset::LinuxSystemdNetworkd)
    } else if s == "linux-yocto-connman"@ {
        Some(Preset::LinuxYoctoConnman)
    } else if s == "linux-bare"@ {
        Some(Preset::LinuxBare)
    } else if s == "bsd"@ {
        Some(Preset::Bsd)
    } else if s == "polling-only"@ {
        Some(Preset::PollingOnly)
    } else if s == "embedded-rtos"@ {
        Some(Preset::EmbeddedRtos)
    } else {
        None
    }
}

/// Every preset is found again by its name, and what is found has the name that was
/// asked for.
pub proof fn preset_names_round_trip(p: Preset, s: Seq<char>)
    ensures
        preset_named(preset_name(p)) == Some(p),
        preset_named(s) matches Some(q) ==> preset_name(q) == s,
{
    reveal_strlit("linux-systemd-nm");
    reveal_strlit("linux-systemd-networkd");
    reveal_strlit("linux-yocto-connman");
    reveal_strlit("linux-bare");
    reveal_strlit("bsd");
    reveal_strlit("polling-only");
    reveal_strlit("embedded-rtos");
    assert("linux-systemd-nm"@.len() == 16);
    assert("linux-systemd-networkd"@.len() == 22);
    assert("linux-yocto-connman"@.len() == 19);
    assert("linux-bare"@.len() == 10);
    assert("bsd"@.len() == 3);
    assert("polling-only"@.len() == 12);
    assert("embedded-rtos"@.len() == 13);
}

impl Preset {
    /// The identifier of the preset.
    pub fn name(self) -> (r: &'static str)
        ensures
            r@ == preset_name(self),
    {
        match self {
            Preset::LinuxSystemdNm => "linux-systemd-nm",
            Preset::LinuxSystemdNetworkd => "linux-systemd-networkd",
            Preset::LinuxYoctoConnman => "linux-yocto-connman",
            Preset::LinuxBare => "linux-bare",
            Preset::Bsd => "bsd",
            Preset::PollingOnly => "polling-only",
            Preset::EmbeddedRtos => "embedded-rtos",
        }
    }

    /// The preset of an identifier; an unknown one gives none.
    pub fn from_name(s: &str) -> (r: Option<Preset>)
        ensures
            r == preset_named(s@),
    {
        if text_eq(s, "linux-systemd-nm") {
            Some(Preset::LinuxSystemdNm)
        } else if text_eq(s, "linux-systemd-networkd") {
            Some(Preset::LinuxSystemdNetworkd)
        } else if text_eq(s, "linux-yocto-connman") {
            Some(Preset::LinuxYoctoConnman)
        } else if text_eq(s, "linux-bare") {
            Some(Preset::LinuxBare)
        } else if text_eq(s, "bsd") {
            Some(Preset::Bsd)
        } else if text_eq(s, "polling-only") {
            Some(Preset::PollingOnly)
        } else if text_eq(s, "embedded-rtos") {
            Some(Preset::EmbeddedRtos)
        } else {
            None
        }
    }

    /// The identifier as an owned text.
    pub fn to_text(self) -> (r: String)
        ensures
            r@ == preset_name(self),
    {
        self.name().to_owned()
    }
}

/// The preset of an operating system.
pub open spec fn preset_for(os: Seq<char>) -> Preset {
    if os == "linux"@ {
        Preset::LinuxSystemdNm
    } else if os == "freebsd"@ {
        Preset::Bsd
    } else {
        Preset::PollingOnly
    }
}

/// The preset of an operating system, by the name that the compiler gives it.
pub fn default_preset(target_os: &str) -> (r: Preset)
    ensures
        r == preset_for(target_os@),
        r == if target_os@ == "linux"@ {
            Preset::LinuxSystemdNm
        } else if target_os@ == "freebsd"@ {
            Preset::Bsd
        } else {
            Preset::PollingOnly
        },
{
    if text_eq(target_os, "linux") {
        Preset::LinuxSystemdNm
    } else if text_eq(target_os, "freebsd") {
        Preset::Bsd
    } else {
        Preset::PollingOnly
    }
}

/// How the attempt to open a source ended.
#[derive(Debug, Clone)]
pub enum CandidateResult {
    /// The source is in use.
    Admitted,
    /// The source could not be opened.
    Refused {
        /// Why.
        reason: String,
    },
}

/// The attempt to open one source.
#[derive(Debug, Clone)]
pub struct CandidateOutcome {
    /// The source.
    pub name: &'static str,
    /// How the attempt ended.
    pub result: CandidateResult,
}

/// The view of an attempt: the source, and why it was refused where it was.
pub open spec fn attempt_view(o: CandidateOutcome) -> (Seq<char>, Option<Seq<char>>) {
    (
        o.name@,
        match o.result {
            CandidateResult::Admitted => None,
            CandidateResult::Refused { reason } => Some(reason@),
        },
    )
}

/// The views of attempts.
pub open spec fn attempt_views(v: Seq<CandidateOutcome>) -> Seq<(Seq<char>, Option<Seq<char>>)> {
    v.map_values(|o: CandidateOutcome| attempt_view(o))
}

/// The sources that a preset tries, in order.
pub open spec fn preset_sources(p: Preset) -> Seq<Seq<char>> {
    match p {
        Preset::LinuxSystemdNm => seq!["rtnetlink"@, "network-manager"@, "polling"@],
        Preset::LinuxSystemdNetworkd => seq!["rtnetlink"@, "polling"@],
        Preset::LinuxYoctoConnman => seq!["rtnetlink"@, "polling"@],
        Preset::LinuxBare => seq!["rtnetlink"@, "polling"@],
        Preset::Bsd => seq!["polling"@],
        Preset::PollingOnly => seq!["polling"@],
        Preset::EmbeddedRtos => seq![],
    }
}

/// Why a source was refused, where it was: polling never is.
pub open spec fn refusal(name: Seq<char>, rtnetlink: Option<Seq<char>>, network_manager: Option<Seq<char>>) -> Option<Seq<char>> {
    if name == "rtnetlink"@ {
        rtnetlink
    } else if name == "network-manager"@ {
        network_manager
    } else {
        None
    }
}

/// The attempts of a list of sources.
pub open spec fn attempts(names: Seq<Seq<char>>, rtnetlink: Option<Seq<char>>, network_manager: Option<Seq<char>>) -> Seq<
    (Seq<char>, Option<Seq<char>>),
> {
    names.map_values(|n: Seq<char>| (n, refusal(n, rtnetlink, network_manager)))
}

/// The sources of the attempts that were not refused.
pub open spec fn opened(tried: Seq<(Seq<char>, Option<Seq<char>>)>) -> Seq<Seq<char>>
    decreases tried.len(),
{
    if tried.len() == 0 {
        seq![]
    } else if tried.last().1 is None {
        opened(tried.drop_last()).push(tried.last().0)
    } else {
        opened(tried.drop_last())
    }
}

fn attempt(
    sources: &mut Vec<&'static str>,
    outcomes: &mut Vec<CandidateOutcome>,
    name: &'static str,
    refused: &Option<String>,
)
    requires
        slices(old(sources)@) == opened(attempt_views(old(outcomes)@)),
    ensures
        attempt_views(final(outcomes)@) == attempt_views(old(outcomes)@).push((name@, crate::text::opt_text(*refused))),
        slices(final(sources)@) == opened(attempt_views(final(outcomes)@)),
{
    let ghost tried = outcomes@;
    let ghost used = sources@;
    match refused {
        None => {
            sources.push(name);
            outcomes.push(CandidateOutcome { name, result: CandidateResult::Admitted });
            proof {
                assert(slices(sources@) =~= slices(used).push(name@));
            }
        },
        Some(reason) => {
            outcomes.push(CandidateOutcome { name, result: CandidateResult::Refused { reason: reason.clone() } });
        },
    }
    proof {
        assert(attempt_views(outcomes@) =~= attempt_views(tried).push((name@, crate::text::opt_text(*refused))));
        assert(attempt_views(outcomes@).drop_last() =~= attempt_views(tried));
    }
}

/// The sources of a preset that could be opened, and how each attempt ended. The
/// arguments say why the two typed sources could not be opened, where they could not.
pub fn build_sources(preset: Preset, rtnetlink: &Option<String>, network_manager: &Option<String>) -> (r: (
    Vec<&'static str>,
    Vec<CandidateOutcome>,
))
    ensures
        attempt_views(r.1@) == attempts(
            preset_sources(preset),
            crate::text::opt_text(*rtnetlink),
            crate::text::opt_text(*network_manager),
        ),
        slices(r.0@) == opened(attempt_views(r.1@)),
{
    let mut sources: Vec<&'static str> = Vec::new();
    let mut outcomes: Vec<CandidateOutcome> = Vec::new();
    proof {
        reveal_strlit("rtnetlink");
        reveal_strlit("network-manager");
        reveal_strlit("polling");
        assert("rtnetlink"@.len() == 9 && "network-manager"@.len() == 15 && "polling"@.len() == 7);
        assert(attempt_views(outcomes@) =~= Seq::<(Seq<char>, Option<Seq<char>>)>::empty());
        assert(slices(sources@) =~= Seq::<Seq<char>>::empty());
    }
    match preset {
        Preset::LinuxSystemdNm => {
            attempt(&mut sources, &mut outcomes, "rtnetlink", rtnetlink);
            attempt(&mut sources, &mut outcomes, "network-manager", network_manager);
            attempt(&mut sources, &mut outcomes, "polling", &None);
        },
        Preset::LinuxSystemdNetworkd | Preset::LinuxYoctoConnman | Preset::LinuxBare => {
            attempt(&mut sources, &mut outcomes, "rtnetlink", rtnetlink);
            attempt(&mut sources, &mut outcomes, "polling", &None);
        },
        Preset::Bsd | Preset::PollingOnly => {
            attempt(&mut sources, &mut outcomes, "polling", &None);
        },
        Preset::EmbeddedRtos => {},
    }
    proof {
        assert(attempt_views(outcomes@) =~= attempts(
            preset_sources(preset),
            crate::text::opt_text(*rtnetlink),
            crate::text::opt_text(*network_manager),
        ));
    }
    (sources, outcomes)
}

/// Polling is in use whatever the other sources do, on every preset but the embedded
/// one, which uses none.
pub proof fn polling_is_the_floor(p: Preset, rtnetlink: Option<Seq<char>>, network_manager: Option<Seq<char>>)
    ensures
        ({
            let used = opened(attempts(preset_sources(p), rtnetlink, network_manager));
            if p == Preset::EmbeddedRtos {
                used.len() == 0
            } else {
                used.len() > 0 && used.last() == "polling"@
            }
        }),
{
    reveal_strlit("rtnetlink");
    reveal_strlit("network-manager");
    reveal_strlit("polling");
    assert("rtnetlink"@.len() == 9 && "network-manager"@.len() == 15 && "polling"@.len() == 7);
    let tried = attempts(preset_sources(p), rtnetlink, network_manager);
    if p != Preset::EmbeddedRtos {
        assert(tried.last().0 == "polling"@);
        assert(tried.last().1 is None);
    }
}

/// Sources are tried in the preset's order: the kernel first, a daemon next where there is
/// one, and polling last; where the firmware reports itself, none.
pub proof fn presets_try_the_kernel_first(p: Preset)
    ensures
        p == Preset::LinuxSystemdNm ==> preset_sources(p) == seq!["rtnetlink"@, "network-manager"@, "polling"@],
        p == Preset::LinuxSystemdNetworkd || p == Preset::LinuxYoctoConnman || p == Preset::LinuxBare ==> preset_sources(p)
            == seq!["rtnetlink"@, "polling"@],
        p == Preset::Bsd || p == Preset::PollingOnly ==> preset_sources(p) == seq!["polling"@],
        p == Preset::EmbeddedRtos ==> preset_sources(p).len() == 0,
{
}

/// Every source that is tried is told, a refused one with its reason; those that were
/// not refused are opened, in the same order, and no others.
pub proof fn sources_are_opened_unless_refused(
    names: Seq<Seq<char>>,
    name: Seq<char>,
    rtnetlink: Option<Seq<char>>,
    network_manager: Option<Seq<char>>,
)
    ensures
        attempts(names, rtnetlink, network_manager).len() == names.len(),
        attempts(names.push(name), rtnetlink, network_manager) == attempts(names, rtnetlink, network_manager).push(
            (name, refusal(name, rtnetlink, network_manager)),
        ),
        refusal(name, rtnetlink, network_manager) is None ==> opened(attempts(names.push(name), rtnetlink, network_manager))
            == opened(attempts(names, rtnetlink, network_manager)).push(name),
        refusal(name, rtnetlink, network_manager) is Some ==> opened(attempts(names.push(name), rtnetlink, network_manager))
            == opened(attempts(names, rtnetlink, network_manager)),
        refusal("rtnetlink"@, rtnetlink, network_manager) == rtnetlink,
        refusal("network-manager"@, rtnetlink, network_manager) == network_manager,
        refusal("polling"@, rtnetlink, network_manager) is None,
{
    reveal_strlit("rtnetlink");
    reveal_strlit("network-manager");
    reveal_strlit("polling");
    assert("rtnetlink"@.len() == 9 && "network-manager"@.len() == 15 && "polling"@.len() == 7);
    let a = attempts(names.push(name), rtnetlink, network_manager);
    let b = attempts(names, rtnetlink, network_manager);
    assert(a =~= b.push((name, refusal(name, rtnetlink, network_manager))));
    assert(a.drop_last() =~= b);
}

/// Linux listens to the kernel and to NetworkManager, FreeBSD has a preset of its own,
/// and everything else polls.
pub proof fn systems_have_their_preset(os: Seq<char>)
    ensures
        os == "linux"@ ==> preset_for(os) == Preset::LinuxSystemdNm,
        os == "freebsd"@ ==> preset_for(os) == Preset::Bsd,
        os != "linux"@ && os != "freebsd"@ ==> preset_for(os) == Preset::PollingOnly,
{
    reveal_strlit("linux");
    reveal_strlit("freebsd");
    assert("linux"@.len() == 5 && "freebsd"@.len() == 7);
}

} // verus!
