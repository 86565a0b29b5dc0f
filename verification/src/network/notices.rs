//! What the operator is told: notices, and the actions that are open to them.

use crate::network::apply::{ApplyReport, ReportView};
use crate::network::captive_state::{CaptivePhase, CaptiveSessionState, CaptiveView};
use crate::text::{contains, eq_ignoring_case, has_part, lowered, opt_slice, same_ignoring_case, texts, to_lower};
use vstd::prelude::*;

verus! {

/// A message to the operator.
#[derive(Debug, Clone)]
pub struct Notice {
    pub level: String,
    pub code: String,
    pub message: String,
}

/// [`Notice`] over character sequences.
#[verifier::ext_equal]
pub struct NoticeView {
    pub level: Seq<char>,
    pub code: Seq<char>,
    pub message: Seq<char>,
}

impl View for Notice {
    type V = NoticeView;

    open spec fn view(&self) -> NoticeView {
        NoticeView { level: self.level@, code: self.code@, message: self.message@ }
    }
}

/// The views of notices.
pub open spec fn notice_views(v: Seq<Notice>) -> Seq<NoticeView> {
    v.map_values(|n: Notice| n@)
}

/// A notice.
pub open spec fn note(level: Seq<char>, code: Seq<char>, message: Seq<char>) -> NoticeView {
    NoticeView { level, code, message }
}

fn push_notice(out: &mut Vec<Notice>, level: &str, code: &str, message: &str)
    ensures
        notice_views(final(out)@) == notice_views(old(out)@).push(note(level@, code@, message@)),
{
    let ghost before = out@;
    out.push(Notice { level: level.to_owned(), code: code.to_owned(), message: message.to_owned() });
    proof {
        assert(notice_views(out@) =~= notice_views(before).push(note(level@, code@, message@)));
    }
}

/// The notices that one reported step gives: one where it is a warning, one where it is
/// critical.
pub open spec fn step_notices(step: Seq<char>) -> Seq<NoticeView> {
    (if has_part(lowered(step), "warning:"@) {
        seq![note("warning"@, "network_apply_warning"@, step)]
    } else {
        seq![]
    }) + (if has_part(lowered(step), "critical:"@) {
        seq![note("warning"@, "network_apply_critical_recovery"@, step)]
    } else {
        seq![]
    })
}

/// The notices that the reported steps give, in order.
pub open spec fn steps_notices(steps: Seq<Seq<char>>) -> Seq<NoticeView>
    decreases steps.len(),
{
    if steps.len() == 0 {
        seq![]
    } else {
        steps_notices(steps.drop_last()) + step_notices(steps.last())
    }
}

/// The notices of a report: how it ended, and then those of its steps.
pub open spec fn apply_notices(report: ReportView) -> Seq<NoticeView> {
    let head = if report.ok {
        note("success"@, "network_apply_ok"@, "Network settings applied"@)
    } else {
        note(
            "error"@,
            "network_apply_failed"@,
            if report.steps.len() > 0 {
                report.steps.last()
            } else {
                "Network apply failed"@
            },
        )
    };
    seq![head] + steps_notices(report.steps)
}

/// The notices of a report.
pub fn build_apply_notices(report: &ApplyReport) -> (r: Vec<Notice>)
    ensures
        notice_views(r@) == apply_notices(report@),
{
    let mut out: Vec<Notice> = Vec::new();
    let n: usize = report.steps.len();
    proof {
        assert(notice_views(out@) =~= Seq::<NoticeView>::empty());
    }
    if report.ok {
        push_notice(&mut out, "success", "network_apply_ok", "Network settings applied");
    } else if n > 0 {
        push_notice(&mut out, "error", "network_apply_failed", report.steps[n - 1].as_str());
    } else {
        push_notice(&mut out, "error", "network_apply_failed", "Network apply failed");
    }
    let ghost head = notice_views(out@);
    let ghost steps = texts(report.steps@);
    proof {
        assert(steps.take(0) =~= Seq::<Seq<char>>::empty());
        assert(head =~= head + steps_notices(steps.take(0)));
    }
    let mut i: usize = 0;
    while i < n
        invariant
            i <= n,
            n == report.steps@.len(),
            steps == texts(report.steps@),
            notice_views(out@) == head + steps_notices(steps.take(i as int)),
        decreases n - i,
    {
        let s = report.steps[i].as_str();
        proof {
            assert(steps.take(i as int + 1).drop_last() =~= steps.take(i as int));
            assert(steps.take(i as int + 1).last() == s@);
        }
        let low = to_lower(s);
        if contains(low.as_str(), "warning:") {
            push_notice(&mut out, "warning", "network_apply_warning", s);
        }
        if contains(low.as_str(), "critical:") {
            push_notice(&mut out, "warning", "network_apply_critical_recovery", s);
        }
        proof {
            assert(notice_views(out@) =~= head + steps_notices(steps.take(i as int + 1)));
        }
        i += 1;
    }
    proof {
        assert(steps.take(i as int) =~= steps);
        assert(notice_views(out@) =~= apply_notices(report@));
    }
    out
}

/// The notice of the network's connectivity, where it says something.
pub open spec fn connectivity_notices(connectivity: Option<Seq<char>>) -> Seq<NoticeView> {
    match connectivity {
        Some(c) => if same_ignoring_case(c, "full"@) {
            seq![note("success"@, "network_connectivity_full"@, "Network connectivity is full"@)]
        } else if same_ignoring_case(c, "portal"@) {
            seq![note("info"@, "network_connectivity_portal"@, "Captive portal detected"@)]
        } else {
            seq![]
        },
        None => seq![],
    }
}

/// The notice of a session's phase, where it says something.
pub open spec fn phase_notices(s: CaptiveView) -> Seq<NoticeView> {
    match s.phase {
        CaptivePhase::Submitting => seq![note("info"@, "captive_submitting"@, "Submitting captive credentials"@)],
        CaptivePhase::Authenticated => seq![
            note("success"@, "captive_authenticated"@, "Captive authentication complete"@),
        ],
        CaptivePhase::Failed => seq![
            note(
                "error"@,
                "captive_failed"@,
                match s.last_error {
                    Some(e) => e,
                    None => "Captive authentication failed"@,
                },
            ),
        ],
        CaptivePhase::AwaitingCredentials => if s.requires_user_confirmation {
            seq![
                note(
                    "warning"@,
                    "captive_confirmation_required"@,
                    "Manual confirmation required before credential replay"@,
                ),
            ]
        } else {
            seq![]
        },
        _ => seq![],
    }
}

/// The notices of a captive-portal session.
pub fn build_captive_notices(state: &CaptiveSessionState, connectivity: Option<&str>) -> (r: Vec<Notice>)
    ensures
        notice_views(r@) == connectivity_notices(opt_slice(connectivity)) + phase_notices(state@),
{
    let mut out: Vec<Notice> = Vec::new();
    proof {
        assert(notice_views(out@) =~= Seq::<NoticeView>::empty());
    }
    if let Some(c) = connectivity {
        if eq_ignoring_case(c, "full") {
            push_notice(&mut out, "success", "network_connectivity_full", "Network connectivity is full");
        } else if eq_ignoring_case(c, "portal") {
            push_notice(&mut out, "info", "network_connectivity_portal", "Captive portal detected");
        }
    }
    match state.phase {
        CaptivePhase::Submitting => {
            push_notice(&mut out, "info", "captive_submitting", "Submitting captive credentials");
        },
        CaptivePhase::Authenticated => {
            push_notice(&mut out, "success", "captive_authenticated", "Captive authentication complete");
        },
        CaptivePhase::Failed => {
            match &state.last_error {
                Some(e) => push_notice(&mut out, "error", "captive_failed", e.as_str()),
                None => push_notice(&mut out, "error", "captive_failed", "Captive authentication failed"),
            }
        },
        CaptivePhase::AwaitingCredentials => {
            if state.requires_user_confirmation {
                push_notice(
                    &mut out,
                    "warning",
                    "captive_confirmation_required",
                    "Manual confirmation required before credential replay",
                );
            }
        },
        _ => {},
    }
    proof {
        assert(notice_views(out@) =~= connectivity_notices(opt_slice(connectivity)) + phase_notices(state@));
    }
    out
}

/// The request that starts a probe.
pub const REQUEST_NETWORK_CAPTIVE_START: &'static str = "network.nm.captive.start";

/// The request that submits credentials.
pub const REQUEST_NETWORK_CAPTIVE_SUBMIT: &'static str = "network.nm.captive.submit";

/// The request that ends a session.
pub const REQUEST_NETWORK_CAPTIVE_COMPLETE: &'static str = "network.nm.captive.complete";

/// What an action sets in the request that it makes.
#[derive(Debug, Clone, Copy, PartialEq, Eq, Structural)]
pub enum PayloadPatch {
    Nothing,
    ConfirmReplay(bool),
    Success(bool),
}

/// Something that the operator can do next.
#[derive(Debug, Clone)]
pub struct CaptiveAction {
    pub id: String,
    pub label: String,
    pub request_type: String,
    pub patch: PayloadPatch,
}

/// [`CaptiveAction`] over character sequences.
#[verifier::ext_equal]
pub struct ActionView {
    pub id: Seq<char>,
    pub label: Seq<char>,
    pub request_type: Seq<char>,
    pub patch: PayloadPatch,
}

impl View for CaptiveAction {
    type V = ActionView;

    open spec fn view(&self) -> ActionView {
        ActionView { id: self.id@, label: self.label@, request_type: self.request_type@, patch: self.patch }
    }
}

/// The views of actions.
pub open spec fn action_views(v: Seq<CaptiveAction>) -> Seq<ActionView> {
    v.map_values(|a: CaptiveAction| a@)
}

/// What the operator can do next: probe; confirm a replay that is held back; mark a
/// failed session as ended.
pub open spec fn captive_actions(s: CaptiveView) -> Seq<ActionView> {
    seq![
        ActionView {
            id: "captive.start_probe"@,
            label: "Probe captive connectivity"@,
            request_type: REQUEST_NETWORK_CAPTIVE_START@,
            patch: PayloadPatch::Nothing,
        },
    ] + (if s.phase == CaptivePhase::AwaitingCredentials && s.requires_user_confirmation {
        seq![
            ActionView {
                id: "captive.confirm_replay"@,
                label: "Confirm guarded credential replay"@,
                request_type: REQUEST_NETWORK_CAPTIVE_SUBMIT@,
                patch: PayloadPatch::ConfirmReplay(true),
            },
        ]
    } else {
        seq![]
    }) + (if s.phase == CaptivePhase::Failed {
        seq![
            ActionView {
                id: "captive.mark_complete_failed"@,
                label: "Mark captive flow failed"@,
                request_type: REQUEST_NETWORK_CAPTIVE_COMPLETE@,
                patch: PayloadPatch::Success(false),
            },
        ]
    } else {
        seq![]
    })
}

/// What the operator can do next.
pub fn build_captive_actions(state: &CaptiveSessionState) -> (r: Vec<CaptiveAction>)
    ensures
        action_views(r@) == captive_actions(state@),
{
    let mut out: Vec<CaptiveAction> = Vec::new();
    out.push(
        CaptiveAction {
            id: "captive.start_probe".to_owned(),
            label: "Probe captive connectivity".to_owned(),
            request_type: REQUEST_NETWORK_CAPTIVE_START.to_owned(),
            patch: PayloadPatch::Nothing,
        },
    );
    if state.phase == CaptivePhase::AwaitingCredentials && state.requires_user_confirmation {
        out.push(
            CaptiveAction {
                id: "captive.confirm_replay".to_owned(),
                label: "Confirm guarded credential replay".to_owned(),
                request_type: REQUEST_NETWORK_CAPTIVE_SUBMIT.to_owned(),
                patch: PayloadPatch::ConfirmReplay(true),
            },
        );
    }
    if state.phase == CaptivePhase::Failed {
        out.push(
            CaptiveAction {
                id: "captive.mark_complete_failed".to_owned(),
                label: "Mark captive flow failed".to_owned(),
                request_type: REQUEST_NETWORK_CAPTIVE_COMPLETE.to_owned(),
                patch: PayloadPatch::Success(false),
            },
        );
    }
    proof {
        assert(action_views(out@) =~= captive_actions(state@));
    }
    out
}

/// A session that waits for confirmation says so, and offers the confirmation; no other
/// session offers it.
pub proof fn confirmation_is_offered_where_needed(s: CaptiveView)
    ensures
        (s.phase == CaptivePhase::AwaitingCredentials && s.requires_user_confirmation) <==> (exists|i: int|
            0 <= i < captive_actions(s).len() && (#[trigger] captive_actions(s)[i]).patch
                == PayloadPatch::ConfirmReplay(true)),
{
    if s.phase == CaptivePhase::AwaitingCredentials && s.requires_user_confirmation {
        assert(captive_actions(s)[1].patch == PayloadPatch::ConfirmReplay(true));
    }
}

/// A report is announced first: as a success where it is one, else as an error with the
/// last step as its message. No other notice is a success or an error.
pub proof fn reports_are_announced_first(report: ReportView)
    ensures
        apply_notices(report).len() >= 1,
        apply_notices(report)[0].level == (if report.ok {
            "success"@
        } else {
            "error"@
        }),
        apply_notices(report)[0].code == (if report.ok {
            "network_apply_ok"@
        } else {
            "network_apply_failed"@
        }),
        report.ok ==> apply_notices(report)[0].message == "Network settings applied"@,
        !report.ok && report.steps.len() > 0 ==> apply_notices(report)[0].message == report.steps[report.steps.len() - 1],
        !report.ok && report.steps.len() == 0 ==> apply_notices(report)[0].message == "Network apply failed"@,
        only_warnings(apply_notices(report).skip(1)),
{
    lemma_steps_warn(report.steps);
    assert(apply_notices(report).skip(1) =~= steps_notices(report.steps));
}

/// Every notice is a warning, of an apply step.
pub open spec fn only_warnings(v: Seq<NoticeView>) -> bool {
    forall|i: int|
        0 <= i < v.len() ==> (#[trigger] v[i]).level == "warning"@ && (v[i].code == "network_apply_warning"@ || v[i].code
            == "network_apply_critical_recovery"@)
}

proof fn lemma_steps_warn(steps: Seq<Seq<char>>)
    ensures
        only_warnings(steps_notices(steps)),
    decreases steps.len(),
{
    if steps.len() > 0 {
        lemma_steps_warn(steps.drop_last());
    }
}

/// A step that warns, in whatever case, is told as it is, and so is one that is
/// critical; a step that is neither adds nothing.
pub proof fn warning_steps_are_told(steps: Seq<Seq<char>>, i: int)
    requires
        0 <= i < steps.len(),
    ensures
        has_part(lowered(steps[i]), "warning:"@) ==> steps_notices(steps).contains(
            (NoticeView { level: "warning"@, code: "network_apply_warning"@, message: steps[i] }),
        ),
        has_part(lowered(steps[i]), "critical:"@) ==> steps_notices(steps).contains(
            (NoticeView { level: "warning"@, code: "network_apply_critical_recovery"@, message: steps[i] }),
        ),
        !has_part(lowered(steps[steps.len() - 1]), "warning:"@) && !has_part(
            lowered(steps[steps.len() - 1]),
            "critical:"@,
        ) ==> steps_notices(steps) == steps_notices(steps.drop_last()),
    decreases steps.len(),
{
    let before = steps_notices(steps.drop_last());
    let last = step_notices(steps.last());
    let all = steps_notices(steps);
    assert(all == before + last);
    if i < steps.len() - 1 {
        warning_steps_are_told(steps.drop_last(), i);
        assert forall|n: NoticeView| before.contains(n) implies all.contains(n) by {
            let k = choose|k: int| 0 <= k < before.len() && before[k] == n;
            assert(all[k] == n);
        }
    } else {
        if has_part(lowered(steps[i]), "warning:"@) {
            assert(all[before.len() as int] == note("warning"@, "network_apply_warning"@, steps[i]));
        }
        if has_part(lowered(steps[i]), "critical:"@) {
            assert(all[all.len() - 1] == note("warning"@, "network_apply_critical_recovery"@, steps[i]));
        }
    }
    if !has_part(lowered(steps.last()), "warning:"@) && !has_part(lowered(steps.last()), "critical:"@) {
        assert(all =~= before);
    }
}

/// Each phase of a session says its own: sending and success are told, a failure with its
/// complaint, and waiting for credentials only where a replay has to be confirmed.
pub proof fn phases_are_told(s: CaptiveView)
    ensures
        phase_notices(s).len() == (if s.phase == CaptivePhase::Submitting || s.phase == CaptivePhase::Authenticated
            || s.phase == CaptivePhase::Failed || (s.phase == CaptivePhase::AwaitingCredentials
            && s.requires_user_confirmation) {
            1int
        } else {
            0
        }),
        s.phase == CaptivePhase::Submitting ==> phase_notices(s)[0].level == "info"@ && phase_notices(s)[0].code
            == "captive_submitting"@ && phase_notices(s)[0].message == "Submitting captive credentials"@,
        s.phase == CaptivePhase::Authenticated ==> phase_notices(s)[0].level == "success"@ && phase_notices(s)[0].code
            == "captive_authenticated"@ && phase_notices(s)[0].message == "Captive authentication complete"@,
        s.phase == CaptivePhase::Failed ==> phase_notices(s)[0].level == "error"@ && phase_notices(s)[0].code
            == "captive_failed"@,
        s.phase == CaptivePhase::Failed && s.last_error is Some ==> phase_notices(s)[0].message == s.last_error->0,
        s.phase == CaptivePhase::Failed && s.last_error is None ==> phase_notices(s)[0].message
            == "Captive authentication failed"@,
        s.phase == CaptivePhase::AwaitingCredentials && s.requires_user_confirmation ==> phase_notices(s)[0].level
            == "warning"@ && phase_notices(s)[0].code == "captive_confirmation_required"@ && phase_notices(s)[0].message
            == "Manual confirmation required before credential replay"@,
{
}

/// Full connectivity is told as a success and a portal as information, whatever the case
/// of the words; anything else, and nothing, is not told.
pub proof fn connectivity_is_told(c: Seq<char>)
    ensures
        connectivity_notices(None).len() == 0,
        same_ignoring_case(c, "full"@) ==> connectivity_notices(Some(c)).len() == 1 && connectivity_notices(Some(c))[0]
            == (NoticeView {
            level: "success"@,
            code: "network_connectivity_full"@,
            message: "Network connectivity is full"@,
        }),
        !same_ignoring_case(c, "full"@) && same_ignoring_case(c, "portal"@) ==> connectivity_notices(Some(c)).len() == 1
            && connectivity_notices(Some(c))[0] == (NoticeView {
            level: "info"@,
            code: "network_connectivity_portal"@,
            message: "Captive portal detected"@,
        }),
        !same_ignoring_case(c, "full"@) && !same_ignoring_case(c, "portal"@) ==> connectivity_notices(Some(c)).len() == 0,
{
}

/// A probe is always offered, and first; marking a session as ended badly is offered
/// exactly where it failed; and each action names the request that performs it.
pub proof fn actions_name_their_requests(s: CaptiveView)
    ensures
        captive_actions(s)[0].id == "captive.start_probe"@,
        captive_actions(s)[0].label == "Probe captive connectivity"@,
        captive_actions(s)[0].request_type == "network.nm.captive.start"@,
        captive_actions(s)[0].patch == PayloadPatch::Nothing,
        captive_actions(s).len() == 1 + (if s.phase == CaptivePhase::Failed || (s.phase == CaptivePhase::AwaitingCredentials
            && s.requires_user_confirmation) {
            1int
        } else {
            0
        }),
        s.phase == CaptivePhase::Failed ==> captive_actions(s)[1] == (ActionView {
            id: "captive.mark_complete_failed"@,
            label: "Mark captive flow failed"@,
            request_type: "network.nm.captive.complete"@,
            patch: PayloadPatch::Success(false),
        }),
        s.phase == CaptivePhase::AwaitingCredentials && s.requires_user_confirmation ==> captive_actions(s)[1] == (
        ActionView {
            id: "captive.confirm_replay"@,
            label: "Confirm guarded credential replay"@,
            request_type: "network.nm.captive.submit"@,
            patch: PayloadPatch::ConfirmReplay(true),
        }),
{
}

/// Each field is seen under its own name, as it is.
pub proof fn fields_are_seen_under_their_names(notice: Notice, captive_action: CaptiveAction)
    ensures
        notice@.level == notice.level@,
        notice@.code == notice.code@,
        notice@.message == notice.message@,
        captive_action@.id == captive_action.id@,
        captive_action@.label == captive_action.label@,
        captive_action@.request_type == captive_action.request_type@,
        captive_action@.patch == captive_action.patch,
{
}

} // verus!
