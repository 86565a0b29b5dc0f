//! How `nmcli` is invoked: directly, or through `sudo`.

use crate::error::{ErrorView, PluginError};
use crate::network::nmcli::{command, output_result, run_command_output_with_timeout};
use crate::network::transcript::{reply_at, Ask, CommandOutput, Halt, Mark, OutputView, Progress, Reply, Run};
use crate::number::{debug_text, decimal, decimal_reads_back, parse_u32, parsed_up_to, quoted, words, words_of};
use crate::text::{
    after_prefix, cat, cat3, cat5, extend_texts, has_prefix, pieces_are_found, lines, lines_of, opt_slice, owned, slices, strip_prefix, text_eq,
    texts, trim_start, trim_start_of,
};
use vstd::prelude::*;

verus! {

/// The capability under which the host says how `nmcli` can be reached.
pub const INTENT_NMCLI_INVOCATION: &'static str = "nmcli_invocation";

/// A way to invoke a program.
#[derive(Debug, Clone, Copy, PartialEq, Eq, Structural)]
pub enum Strategy {
    Direct,
    Sudo,
}

/// The name of a strategy.
pub open spec fn strategy_text(s: Strategy) -> Seq<char> {
    match s {
        Strategy::Direct => "direct"@,
        Strategy::Sudo => "sudo"@,
    }
}

/// The program that a strategy runs.
pub open spec fn dispatched_program(s: Strategy, bin: Seq<char>) -> Seq<char> {
    match s {
        Strategy::Direct => bin,
        Strategy::Sudo => "sudo"@,
    }
}

/// The arguments that a strategy gives it.
pub open spec fn dispatched_args(s: Strategy, bin: Seq<char>, args: Seq<Seq<char>>) -> Seq<Seq<char>> {
    match s {
        Strategy::Direct => args,
        Strategy::Sudo => seq!["-n"@, bin] + args,
    }
}

/// The name under which a strategy's failures are reported.
pub open spec fn dispatched_label(s: Strategy) -> Seq<char> {
    match s {
        Strategy::Direct => "nmcli direct"@,
        Strategy::Sudo => "sudo -n nmcli"@,
    }
}

/// Running a program by a strategy.
pub open spec fn dispatched(h: Seq<Reply>, m: Mark, s: Strategy, bin: Seq<char>, args: Seq<Seq<char>>, timeout_ms: u64) -> Progress<
    Result<OutputView, ErrorView>,
> {
    command(h, m, dispatched_program(s, bin), dispatched_args(s, bin, args), timeout_ms, dispatched_label(s))
}

impl Strategy {
    /// The name of the strategy.
    pub fn strategy_name(&self) -> (r: &'static str)
        ensures
            r@ == strategy_text(*self),
    {
        match self {
            Strategy::Direct => "direct",
            Strategy::Sudo => "sudo",
        }
    }

    /// Runs a program.
    pub fn dispatch<'a>(&self, run: &mut Run<'a>, bin: &str, args: Vec<String>, timeout_ms: u64) -> (r: Result<
        Result<&'a CommandOutput, PluginError>,
        Halt,
    >)
        requires
            old(run).wf(),
        ensures
            final(run).follows(old(run)),
            match r {
                Ok(v) => dispatched(old(run).replies@, old(run)@, *self, bin@, texts(args@), timeout_ms) == Progress::Go(
                    final(run)@,
                    output_result(v),
                ),
                Err(h) => dispatched(old(run).replies@, old(run)@, *self, bin@, texts(args@), timeout_ms) == h.stop::<
                    Result<OutputView, ErrorView>,
                >(),
            },
    {
        match self {
            Strategy::Direct => run_command_output_with_timeout(run, bin, args, timeout_ms, "nmcli direct"),
            Strategy::Sudo => {
                let ghost asked = texts(args@);
                let mut all = owned(vec!["-n", bin]);
                extend_texts(&mut all, args);
                proof {
                    assert(texts(all@) =~= seq!["-n"@, bin@] + asked);
                }
                run_command_output_with_timeout(run, "sudo", all, timeout_ms, "sudo -n nmcli")
            },
        }
    }
}

/// Invokes `nmcli` directly.
#[derive(Debug, Clone, Copy, PartialEq, Eq, Structural)]
pub struct DirectNmcliDispatcher;

impl DirectNmcliDispatcher {
    /// Makes the dispatcher.
    pub fn new() -> (r: DirectNmcliDispatcher)
        ensures
            r.strategy_of() == Strategy::Direct,
    {
        DirectNmcliDispatcher
    }

    /// The strategy of the dispatcher.
    pub open spec fn strategy_of(self) -> Strategy {
        Strategy::Direct
    }

    /// The strategy of the dispatcher.
    pub fn strategy(&self) -> (r: Strategy)
        ensures
            r == self.strategy_of(),
    {
        Strategy::Direct
    }
}

/// Invokes `nmcli` through `sudo`.
#[derive(Debug, Clone, Copy, PartialEq, Eq, Structural)]
pub struct SudoNmcliDispatcher;

impl SudoNmcliDispatcher {
    /// Makes the dispatcher.
    pub fn new() -> (r: SudoNmcliDispatcher)
        ensures
            r.strategy_of() == Strategy::Sudo,
    {
        SudoNmcliDispatcher
    }

    /// The strategy of the dispatcher.
    pub open spec fn strategy_of(self) -> Strategy {
        Strategy::Sudo
    }

    /// The strategy of the dispatcher.
    pub fn strategy(&self) -> (r: Strategy)
        ensures
            r == self.strategy_of(),
    {
        Strategy::Sudo
    }
}

/// What the host found out about a capability.
#[derive(Debug, Clone)]
pub enum CapabilityResolution {
    Available { evidence: String, strategy: Option<String> },
    Unavailable { reason: String, remedy: String },
    Degraded { fallback_strategy: String, reason: String },
    NotProbed { reason: String },
}

/// [`CapabilityResolution`] over character sequences.
#[verifier::ext_equal]
pub enum ResolutionView {
    Available { evidence: Seq<char>, strategy: Option<Seq<char>> },
    Unavailable { reason: Seq<char>, remedy: Seq<char> },
    Degraded { fallback_strategy: Seq<char>, reason: Seq<char> },
    NotProbed { reason: Seq<char> },
}

impl View for CapabilityResolution {
    type V = ResolutionView;

    open spec fn view(&self) -> ResolutionView {
        match self {
            CapabilityResolution::Available { evidence, strategy } => ResolutionView::Available {
                evidence: evidence@,
                strategy: crate::text::opt_text(*strategy),
            },
            CapabilityResolution::Unavailable { reason, remedy } => ResolutionView::Unavailable {
                reason: reason@,
                remedy: remedy@,
            },
            CapabilityResolution::Degraded { fallback_strategy, reason } => ResolutionView::Degraded {
                fallback_strategy: fallback_strategy@,
                reason: reason@,
            },
            CapabilityResolution::NotProbed { reason } => ResolutionView::NotProbed { reason: reason@ },
        }
    }
}

/// The strategy where the host does not name one: by whether the process needs `sudo`.
pub open spec fn fallback_choice(needs_sudo: bool, prefix: Seq<char>) -> (Strategy, Seq<char>) {
    let s = if needs_sudo {
        Strategy::Sudo
    } else {
        Strategy::Direct
    };
    (s, prefix + "; EUID detection selected "@ + strategy_text(s))
}

/// The strategy and its rationale.
pub open spec fn resolved(resolution: Option<ResolutionView>, needs_sudo: bool) -> (Strategy, Seq<char>) {
    match resolution {
        Some(ResolutionView::Available { evidence, strategy: Some(s) }) => if s == "direct"@ {
            (Strategy::Direct, "framework-resolved strategy=direct ("@ + evidence + ")"@)
        } else if s == "sudo"@ {
            (Strategy::Sudo, "framework-resolved strategy=sudo ("@ + evidence + ")"@)
        } else {
            fallback_choice(
                needs_sudo,
                "framework-resolved strategy="@ + debug_text(s)
                    + " not recognised by this build; falling back to EUID detection"@,
            )
        },
        Some(ResolutionView::Available { evidence, strategy: None }) => fallback_choice(
            needs_sudo,
            "framework resolution Available without strategy hint ("@ + evidence
                + "); falling back to EUID detection"@,
        ),
        Some(ResolutionView::Unavailable { reason, remedy }) => (
            Strategy::Direct,
            "framework refused nmcli_invocation: "@ + reason + "; attempting direct exec anyway (remedy: "@ + remedy
                + ")"@,
        ),
        Some(ResolutionView::Degraded { fallback_strategy, reason }) => if fallback_strategy == "direct"@ {
            (Strategy::Direct, "framework degraded nmcli_invocation to direct fallback: "@ + reason)
        } else if fallback_strategy == "sudo"@ {
            (Strategy::Sudo, "framework degraded nmcli_invocation to sudo fallback: "@ + reason)
        } else {
            fallback_choice(
                needs_sudo,
                "framework degraded nmcli_invocation with unrecognised fallback="@ + debug_text(fallback_strategy)
                    + ": "@ + reason + "; falling back to EUID detection"@,
            )
        },
        Some(ResolutionView::NotProbed { reason }) => fallback_choice(
            needs_sudo,
            "framework did not probe nmcli_invocation ("@ + reason + "); falling back to EUID detection"@,
        ),
        None => fallback_choice(
            needs_sudo,
            "framework resolution map did not contain nmcli_invocation; falling back to EUID detection"@,
        ),
    }
}

/// Whether the host names a strategy that is known here.
pub open spec fn names_strategy(r: Option<ResolutionView>) -> bool {
    match r {
        Some(ResolutionView::Available { strategy: Some(s), .. }) => s == "direct"@ || s == "sudo"@,
        Some(ResolutionView::Unavailable { .. }) => true,
        Some(ResolutionView::Degraded { fallback_strategy, .. }) => fallback_strategy == "direct"@
            || fallback_strategy == "sudo"@,
        _ => false,
    }
}

/// The host's word decides where it names a strategy; else the process's identity does.
pub proof fn identity_decides_where_the_host_is_silent(r: Option<ResolutionView>, needs_sudo: bool)
    ensures
        names_strategy(r) ==> resolved(r, true) == resolved(r, false),
        !names_strategy(r) ==> resolved(r, needs_sudo).0 == if needs_sudo {
            Strategy::Sudo
        } else {
            Strategy::Direct
        },
{
}

/// The dispatcher that the host's findings and the process's identity call for.
#[derive(Debug, Clone)]
pub struct AutoNmcliDispatcher {
    pub inner: Strategy,
    pub rationale: String,
}

/// One finding of the host.
#[derive(Debug, Clone)]
pub struct CapabilityEntry {
    pub intent: String,
    pub resolution: CapabilityResolution,
}

/// The finding under an intent.
pub open spec fn finding(map: Seq<CapabilityEntry>, intent: Seq<char>) -> Option<ResolutionView>
    decreases map.len(),
{
    if map.len() == 0 {
        None
    } else if map[0].intent@ == intent {
        Some(map[0].resolution@)
    } else {
        finding(map.drop_first(), intent)
    }
}

/// The view of an optional finding.
pub open spec fn opt_resolution(r: Option<&CapabilityResolution>) -> Option<ResolutionView> {
    match r {
        Some(r) => Some(r@),
        None => None,
    }
}

impl AutoNmcliDispatcher {
    /// The dispatcher for the host's findings; `needs_sudo` is what
    /// [`process_needs_sudo`] says of the process.
    pub fn resolve(map: &Vec<CapabilityEntry>, needs_sudo: bool) -> (r: AutoNmcliDispatcher)
        ensures
            (r.inner, r.rationale@) == resolved(finding(map@, INTENT_NMCLI_INVOCATION@), needs_sudo),
    {
        let mut i: usize = 0;
        proof {
            assert(map@.skip(0) =~= map@);
        }
        while i < map.len()
            invariant
                i <= map.len(),
                finding(map@, INTENT_NMCLI_INVOCATION@) == finding(map@.skip(i as int), INTENT_NMCLI_INVOCATION@),
            decreases map.len() - i,
        {
            proof {
                assert(map@.skip(i as int).drop_first() =~= map@.skip(i as int + 1));
            }
            if text_eq(map[i].intent.as_str(), INTENT_NMCLI_INVOCATION) {
                return AutoNmcliDispatcher::resolve_with_eject(Some(&map[i].resolution), needs_sudo);
            }
            i += 1;
        }
        AutoNmcliDispatcher::resolve_with_eject(None, needs_sudo)
    }

    /// The dispatcher for one finding.
    pub fn resolve_with_eject(resolution: Option<&CapabilityResolution>, needs_sudo: bool) -> (r: AutoNmcliDispatcher)
        ensures
            (r.inner, r.rationale@) == resolved(opt_resolution(resolution), needs_sudo),
    {
        match resolution {
            Some(CapabilityResolution::Available { evidence, strategy }) => match strategy {
                Some(s) => if text_eq(s.as_str(), "direct") {
                    AutoNmcliDispatcher {
                        inner: Strategy::Direct,
                        rationale: cat3("framework-resolved strategy=direct (", evidence.as_str(), ")"),
                    }
                } else if text_eq(s.as_str(), "sudo") {
                    AutoNmcliDispatcher {
                        inner: Strategy::Sudo,
                        rationale: cat3("framework-resolved strategy=sudo (", evidence.as_str(), ")"),
                    }
                } else {
                    let shown = quoted(s.as_str());
                    AutoNmcliDispatcher::fallback(
                        needs_sudo,
                        cat3(
                            "framework-resolved strategy=",
                            shown.as_str(),
                            " not recognised by this build; falling back to EUID detection",
                        ).as_str(),
                    )
                },
                None => AutoNmcliDispatcher::fallback(
                    needs_sudo,
                    cat3(
                        "framework resolution Available without strategy hint (",
                        evidence.as_str(),
                        "); falling back to EUID detection",
                    ).as_str(),
                ),
            },
            Some(CapabilityResolution::Unavailable { reason, remedy }) => AutoNmcliDispatcher {
                inner: Strategy::Direct,
                rationale: cat5(
                    "framework refused nmcli_invocation: ",
                    reason.as_str(),
                    "; attempting direct exec anyway (remedy: ",
                    remedy.as_str(),
                    ")",
                ),
            },
            Some(CapabilityResolution::Degraded { fallback_strategy, reason }) => if text_eq(
                fallback_strategy.as_str(),
                "direct",
            ) {
                AutoNmcliDispatcher {
                    inner: Strategy::Direct,
                    rationale: cat(
                        "framework degraded nmcli_invocation to direct fallback: ",
                        reason.as_str(),
                    ),
                }
            } else if text_eq(fallback_strategy.as_str(), "sudo") {
                AutoNmcliDispatcher {
                    inner: Strategy::Sudo,
                    rationale: cat("framework degraded nmcli_invocation to sudo fallback: ", reason.as_str()),
                }
            } else {
                let shown = quoted(fallback_strategy.as_str());
                AutoNmcliDispatcher::fallback(
                    needs_sudo,
                    cat5(
                        "framework degraded nmcli_invocation with unrecognised fallback=",
                        shown.as_str(),
                        ": ",
                        reason.as_str(),
                        "; falling back to EUID detection",
                    ).as_str(),
                )
            },
            Some(CapabilityResolution::NotProbed { reason }) => AutoNmcliDispatcher::fallback(
                needs_sudo,
                cat3(
                    "framework did not probe nmcli_invocation (",
                    reason.as_str(),
                    "); falling back to EUID detection",
                ).as_str(),
            ),
            None => AutoNmcliDispatcher::fallback(
                needs_sudo,
                "framework resolution map did not contain nmcli_invocation; falling back to EUID detection",
            ),
        }
    }

    fn fallback(needs_sudo: bool, prefix: &str) -> (r: AutoNmcliDispatcher)
        ensures
            (r.inner, r.rationale@) == fallback_choice(needs_sudo, prefix@),
    {
        let inner = if needs_sudo {
            Strategy::Sudo
        } else {
            Strategy::Direct
        };
        let rationale = cat3(prefix, "; EUID detection selected ", inner.strategy_name());
        AutoNmcliDispatcher { inner, rationale }
    }

    /// Why the strategy was chosen.
    pub fn rationale(&self) -> (r: &str)
        ensures
            r@ == self.rationale@,
    {
        self.rationale.as_str()
    }

    /// The name of the strategy.
    pub fn strategy_name(&self) -> (r: &'static str)
        ensures
            r@ == strategy_text(self.inner),
    {
        self.inner.strategy_name()
    }
}

/// The effective user of a line of `/proc/self/status`, where the line gives it: the
/// second number behind `Uid:`.
pub open spec fn uid_in(line: Seq<char>) -> Option<u32> {
    match after_prefix(trim_start(line), "Uid:"@) {
        Some(rest) => if words(rest).len() > 1 {
            match parsed_up_to(words(rest)[1], 0xffff_ffff) {
                Some(v) => Some(v as u32),
                None => None,
            }
        } else {
            None
        },
        None => None,
    }
}

/// The effective user of the first line that gives it.
pub open spec fn first_uid(ls: Seq<Seq<char>>) -> Option<u32>
    decreases ls.len(),
{
    if ls.len() == 0 {
        None
    } else {
        match uid_in(ls[0]) {
            Some(u) => Some(u),
            None => first_uid(ls.drop_first()),
        }
    }
}

/// The effective user in the text of `/proc/self/status`.
pub fn linux_effective_uid(status: &str) -> (r: Option<u32>)
    ensures
        r == first_uid(lines(status@)),
{
    let ls = lines_of(status);
    let mut i: usize = 0;
    proof {
        assert(slices(ls@).skip(0) =~= slices(ls@));
    }
    while i < ls.len()
        invariant
            i <= ls.len(),
            slices(ls@) == lines(status@),
            first_uid(slices(ls@)) == first_uid(slices(ls@).skip(i as int)),
        decreases ls.len() - i,
    {
        let line = ls[i];
        proof {
            assert(slices(ls@).skip(i as int)[0] == line@);
            assert(slices(ls@).skip(i as int).drop_first() =~= slices(ls@).skip(i as int + 1));
        }
        if let Some(rest) = strip_prefix(trim_start_of(line), "Uid:") {
            let ws = words_of(rest);
            if ws.len() > 1 {
                proof {
                    assert(slices(ws@)[1] == ws@[1]@);
                }
                if let Some(u) = parse_u32(ws[1]) {
                    return Some(u);
                }
            }
        }
        i += 1;
    }
    None
}

/// Whether commands need `sudo`, by the text that tells the users of the process and the
/// user that it was started for.
pub open spec fn needs_sudo(status: Option<Seq<char>>, runtime_user: Option<Seq<char>>) -> bool {
    let uid = match status {
        Some(s) => first_uid(lines(s)),
        None => None,
    };
    match uid {
        Some(u) => u != 0,
        None => runtime_user matches Some(name) && name.len() > 0,
    }
}

/// Whether the process needs `sudo`: by its effective user where the kernel tells, else
/// by the user that the bootstrap names. The arguments are the text of
/// `/proc/self/status` and the variable `EVO_RUNTIME_USER`, where they are there.
pub fn process_needs_sudo(status: Option<&str>, runtime_user: Option<&str>) -> (r: bool)
    ensures
        r == needs_sudo(opt_slice(status), opt_slice(runtime_user)),
        r == match (match opt_slice(status) {
            Some(s) => first_uid(lines(s)),
            None => None,
        }) {
            Some(uid) => uid != 0,
            None => opt_slice(runtime_user) matches Some(u) && u.len() > 0,
        },
{
    let uid = match status {
        Some(s) => linux_effective_uid(s),
        None => None,
    };
    match uid {
        Some(u) => u != 0,
        None => match runtime_user {
            Some(u) => !u.is_empty(),
            None => false,
        },
    }
}

/// A command runs as it is, or through `sudo` without a prompt; either way it is the same
/// program with the same arguments and within the same time.
pub proof fn commands_run_as_they_are(
    h: Seq<Reply>,
    m: Mark,
    bin: Seq<char>,
    args: Seq<Seq<char>>,
    timeout_ms: u64,
)
    requires
        reply_at(h, m.pos) is None,
    ensures
        dispatched(h, m, Strategy::Direct, bin, args, timeout_ms) == Progress::<Result<OutputView, ErrorView>>::Need(
            Ask::Run { program: bin, args, timeout_ms: Some(timeout_ms) },
        ),
        dispatched(h, m, Strategy::Sudo, bin, args, timeout_ms) == Progress::<Result<OutputView, ErrorView>>::Need(
            Ask::Run { program: "sudo"@, args: seq!["-n"@, bin] + args, timeout_ms: Some(timeout_ms) },
        ),
{
}

/// What a command printed is handed on as it is, whether or not it ended well; one that
/// could not be started, and one that did not end in time, say so.
pub proof fn commands_are_answered(
    h: Seq<Reply>,
    m: Mark,
    s: Strategy,
    bin: Seq<char>,
    args: Seq<Seq<char>>,
    timeout_ms: u64,
)
    ensures
        reply_at(h, m.pos) matches Some(Reply::Ran(o)) ==> dispatched(h, m, s, bin, args, timeout_ms) == Progress::Go(
            m.read(),
            Ok::<OutputView, ErrorView>(o@),
        ),
        reply_at(h, m.pos) matches Some(Reply::SpawnFailed(e)) ==> (dispatched(h, m, s, bin, args, timeout_ms) matches
            Progress::Go(n, r) && n == m.read() && r == Err::<OutputView, ErrorView>(
            ErrorView::Transient(
                "spawn "@ + (if s is Direct {
                    "nmcli direct"@
                } else {
                    "sudo -n nmcli"@
                }) + " failed: "@ + e@,
            ),
        )),
        reply_at(h, m.pos) == Some(Reply::TimedOut) ==> (dispatched(h, m, s, bin, args, timeout_ms) matches Progress::Go(
            n,
            r,
        ) && n == m.read() && r == Err::<OutputView, ErrorView>(
            ErrorView::Transient(
                (if s is Direct {
                    "nmcli direct"@
                } else {
                    "sudo -n nmcli"@
                }) + " timed out after "@ + decimal(timeout_ms as nat) + "ms"@,
            ),
        )),
{
}

/// What the host decides is done: the strategy that it names, for now or as a fallback,
/// is taken with its reason, and a refusal leaves the direct way. Without a decision the
/// process decides by its own identity.
pub proof fn hosts_decide_how_commands_run(evidence: Seq<char>, reason: Seq<char>, remedy: Seq<char>, needs_sudo: bool)
    ensures
        resolved(Some(ResolutionView::Available { evidence, strategy: Some("direct"@) }), needs_sudo) == (
            Strategy::Direct,
            "framework-resolved strategy=direct ("@ + evidence + ")"@,
        ),
        resolved(Some(ResolutionView::Available { evidence, strategy: Some("sudo"@) }), needs_sudo) == (
            Strategy::Sudo,
            "framework-resolved strategy=sudo ("@ + evidence + ")"@,
        ),
        resolved(Some(ResolutionView::Degraded { fallback_strategy: "direct"@, reason }), needs_sudo) == (
            Strategy::Direct,
            "framework degraded nmcli_invocation to direct fallback: "@ + reason,
        ),
        resolved(Some(ResolutionView::Degraded { fallback_strategy: "sudo"@, reason }), needs_sudo) == (
            Strategy::Sudo,
            "framework degraded nmcli_invocation to sudo fallback: "@ + reason,
        ),
        resolved(Some(ResolutionView::Unavailable { reason, remedy }), needs_sudo) == (
            Strategy::Direct,
            "framework refused nmcli_invocation: "@ + reason + "; attempting direct exec anyway (remedy: "@ + remedy
                + ")"@,
        ),
        resolved(None, needs_sudo).0 == (if needs_sudo {
            Strategy::Sudo
        } else {
            Strategy::Direct
        }),
        resolved(None, needs_sudo).1
            == "framework resolution map did not contain nmcli_invocation; falling back to EUID detection"@
            + "; EUID detection selected "@ + (if needs_sudo {
            "sudo"@
        } else {
            "direct"@
        }),
        resolved(Some(ResolutionView::NotProbed { reason }), needs_sudo).1 == "framework did not probe nmcli_invocation ("@
            + reason + "); falling back to EUID detection"@ + "; EUID detection selected "@ + (if needs_sudo {
            "sudo"@
        } else {
            "direct"@
        }),
        resolved(Some(ResolutionView::Available { evidence, strategy: None }), needs_sudo).1
            == "framework resolution Available without strategy hint ("@ + evidence
            + "); falling back to EUID detection"@ + "; EUID detection selected "@ + (if needs_sudo {
            "sudo"@
        } else {
            "direct"@
        }),
        INTENT_NMCLI_INVOCATION@ == "nmcli_invocation"@,
{
    reveal_strlit("direct");
    reveal_strlit("sudo");
    assert("direct"@.len() == 6 && "sudo"@.len() == 4);
}

/// A decision is that of the first entry under its name; other entries do not matter.
pub proof fn decisions_are_found_by_name(map: Seq<CapabilityEntry>, entry: CapabilityEntry, name: Seq<char>)
    ensures
        finding(Seq::<CapabilityEntry>::empty(), name) is None,
        entry.intent@ == name ==> finding(seq![entry] + map, name) == Some(entry.resolution@),
        entry.intent@ != name ==> finding(seq![entry] + map, name) == finding(map, name),
{
    assert((seq![entry] + map).drop_first() =~= map);
}

/// The effective user is the second number of the first line that tells the users.
pub proof fn effective_user_is_the_second(ls: Seq<Seq<char>>, line: Seq<char>, rest: Seq<char>, n: u32)
    ensures
        trim_start(line) == "Uid:"@ + rest && words(rest).len() > 1 && words(rest)[1] == decimal(n as nat) ==> first_uid(
            seq![line] + ls,
        ) == Some(n),
        !has_prefix(trim_start(line), "Uid:"@) ==> first_uid(seq![line] + ls) == first_uid(ls),
        first_uid(Seq::<Seq<char>>::empty()) is None,
{
    assert((seq![line] + ls).drop_first() =~= ls);
    if trim_start(line) == "Uid:"@ + rest {
        pieces_are_found("Uid:"@, rest, seq![]);
        decimal_reads_back(n as nat);
    }
}

/// The process needs `sudo` where its effective user is not the root user; only where
/// that is not known does it matter whether it was started for another user.
pub proof fn only_root_needs_no_sudo(status: Seq<char>, user: Seq<char>)
    ensures
        first_uid(lines(status)) matches Some(uid) ==> (needs_sudo(Some(status), Some(user)) <==> uid != 0) && (needs_sudo(
            Some(status),
            None,
        ) <==> uid != 0),
        first_uid(lines(status)) is None ==> (needs_sudo(Some(status), Some(user)) <==> user.len() > 0) && !needs_sudo(
            Some(status),
            None,
        ),
        needs_sudo(None, Some(user)) <==> user.len() > 0,
        !needs_sudo(None, None),
{
}

} // verus!
