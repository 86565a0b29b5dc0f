//! Captive portals: finding one, and sending credentials to it within bounds.

use crate::error::{permanent, ErrorView, PluginError};
use crate::network::captive_state::{
    captive_default, CaptiveCredentialPolicy, CaptivePhase, CaptiveSessionState, CaptiveView, PortalForm,
};
use crate::network::config::{CaptiveConfig, ConfigView, PluginConfig};
use crate::network::nmcli::{command, connectivity, nm_connectivity, run_command_output_with_timeout};
use crate::network::readings::{parse_http_probe_metrics, probe_metrics};
use crate::network::storage::{captive_loaded, load_captive_state};
use crate::network::transcript::{clock, reply_at, Action, Ask, CaptiveSubmitRequest, CommandOutput, Halt, Mark, OutputView, Progress, Reply, Run};
use crate::number::{decimal, decimal_reads_back, hex_padded, is_digit, signed_decimal, to_decimal, to_hex16, to_signed_decimal};
use crate::text::{
    blank, cat3, cat4, copy_opt, is_blank, opt_slice, opt_text, owned, push_text, text_eq, texts, to_upper, trim,
    columns_come_apart, is_space, lemma_trim_fixed, split_n, trimmed, uppered,
};
use std::collections::hash_map::DefaultHasher;
use std::hash::Hasher;
use vstd::prelude::*;
use vstd::std_specs::hash::*;
use vstd::utf8::encode_utf8;

verus! {

broadcast use vstd::string::group_string_axioms;

/// The address that is probed where none is given.
pub const DEFAULT_PROBE_URL: &'static str = "http://connectivitycheck.gstatic.com/generate_204";

/// What `curl` is asked to print of a request.
pub const CURL_METRICS: &'static str = "%{http_code}|%{url_effective}";

// Fingerprints.

/// What a text adds to a digest: its bytes and an end mark.
pub open spec fn text_writes(s: Seq<char>) -> Seq<Seq<u8>> {
    seq![encode_utf8(s), seq![0xffu8]]
}

/// What the fields of a form add to a digest.
pub open spec fn form_writes(form: Seq<(Seq<char>, Seq<char>)>) -> Seq<Seq<u8>>
    decreases form.len(),
{
    if form.len() == 0 {
        seq![]
    } else {
        form_writes(form.drop_last()) + text_writes(form.last().0) + text_writes("="@) + text_writes(form.last().1)
            + text_writes("&"@)
    }
}

/// The fingerprint of a submission: a digest of the address, the method and the fields,
/// as sixteen hexadecimal digits.
pub open spec fn fingerprint(url: Seq<char>, method: Seq<char>, form: Seq<(Seq<char>, Seq<char>)>) -> Seq<char> {
    hex_padded(
        DefaultHasher::spec_finish(
            text_writes(trimmed(url)) + text_writes(uppered(trimmed(method))) + form_writes(form),
        ) as nat,
        16,
    )
}

fn hash_text(hasher: &mut DefaultHasher, s: &str)
    ensures
        final(hasher)@ == old(hasher)@ + text_writes(s@),
{
    let ghost before = hasher@;
    hasher.write(s.as_bytes());
    let end: [u8; 1] = [0xff];
    hasher.write(end.as_slice());
    proof {
        assert(end@ =~= seq![0xffu8]);
        assert(hasher@ =~= before + text_writes(s@));
    }
}

/// The fingerprint of a submission: two submissions with the same address, method and
/// fields have the same one.
pub fn captive_submit_fingerprint(url: &str, method: &str, form: &PortalForm) -> (r: String)
    ensures
        r@ == fingerprint(url@, method@, form@),
{
    let mut hasher = DefaultHasher::new();
    hash_text(&mut hasher, trim(url));
    let upper = to_upper(trim(method));
    hash_text(&mut hasher, upper.as_str());
    let ghost head = text_writes(trimmed(url@)) + text_writes(uppered(trimmed(method@)));
    proof {
        assert(hasher@ =~= head);
        assert(form@.take(0) =~= Seq::<(Seq<char>, Seq<char>)>::empty());
        assert(hasher@ =~= head + form_writes(form@.take(0)));
    }
    let mut i: usize = 0;
    while i < form.fields.len()
        invariant
            i <= form.fields.len(),
            hasher@ == head + form_writes(form@.take(i as int)),
        decreases form.fields.len() - i,
    {
        let f = &form.fields[i];
        let ghost before = hasher@;
        hash_text(&mut hasher, f.name.as_str());
        hash_text(&mut hasher, "=");
        hash_text(&mut hasher, f.value.as_str());
        hash_text(&mut hasher, "&");
        proof {
            let t = form@.take(i as int + 1);
            assert(t.drop_last() =~= form@.take(i as int));
            assert(t.last() == (f.name@, f.value@));
            assert(hasher@ =~= head + form_writes(t));
        }
        i += 1;
    }
    proof {
        assert(form@.take(i as int) =~= form@);
    }
    to_hex16(hasher.finish())
}

// Probing.

/// The address of a probe.
pub open spec fn probe_url(url: Option<Seq<char>>) -> Seq<char> {
    match url {
        Some(u) => if is_blank(u) {
            DEFAULT_PROBE_URL@
        } else {
            trimmed(u)
        },
        None => DEFAULT_PROBE_URL@,
    }
}

/// The exit code that is reported, -1 where there is none.
pub open spec fn exit_code(o: OutputView) -> int {
    match o.code {
        Some(c) => c as int,
        None => -1,
    }
}

fn exit_text(o: &CommandOutput) -> (r: String)
    ensures
        r@ == signed_decimal(exit_code(o@)),
{
    let code: i64 = match o.code {
        Some(c) => c as i64,
        None => -1,
    };
    to_signed_decimal(code)
}

/// The arguments of a probe.
pub open spec fn probe_args(url: Seq<char>) -> Seq<Seq<char>> {
    seq!["-sS"@, "-L"@, "-o"@, "/dev/null"@, "-w"@, CURL_METRICS@, "--max-time"@, "20"@, url]
}

/// What a probe finds: the status code and the address that answered.
pub open spec fn probe(h: Seq<Reply>, m: Mark, cfg: ConfigView, url: Seq<char>) -> Progress<
    Result<(Option<u16>, Option<Seq<char>>), ErrorView>,
> {
    match command(h, m, "curl"@, probe_args(url), cfg.curl_timeout_ms, "curl probe"@) {
        Progress::Go(m1, Ok(o)) => if o.success {
            Progress::Go(m1, Ok(probe_metrics(trimmed(o.stdout))))
        } else {
            Progress::Go(
                m1,
                Err(
                    ErrorView::Transient(
                        "curl probe failed (exit "@ + signed_decimal(exit_code(o)) + "): "@ + trimmed(o.stderr),
                    ),
                ),
            )
        },
        Progress::Go(m1, Err(e)) => Progress::Go(m1, Err(e)),
        Progress::Need(a) => Progress::Need(a),
        Progress::Fail(e) => Progress::Fail(e),
    }
}

/// The view of what a probe finds.
pub open spec fn metrics_result(r: Result<(Option<u16>, Option<String>), PluginError>) -> Result<
    (Option<u16>, Option<Seq<char>>),
    ErrorView,
> {
    match r {
        Ok((c, u)) => Ok((c, opt_text(u))),
        Err(e) => Err(e@),
    }
}

/// Probes an address.
pub fn curl_probe(run: &mut Run, cfg: &PluginConfig, url: &str) -> (r: Result<
    Result<(Option<u16>, Option<String>), PluginError>,
    Halt,
>)
    requires
        old(run).wf(),
    ensures
        final(run).follows(old(run)),
        match r {
            Ok(v) => probe(old(run).replies@, old(run)@, cfg@, url@) == Progress::Go(final(run)@, metrics_result(v)),
            Err(h) => probe(old(run).replies@, old(run)@, cfg@, url@) == h.stop::<
                Result<(Option<u16>, Option<Seq<char>>), ErrorView>,
            >(),
        },
{
    let args = owned(vec!["-sS", "-L", "-o", "/dev/null", "-w", CURL_METRICS, "--max-time", "20", url]);
    proof {
        assert(texts(args@) =~= probe_args(url@));
    }
    let o = match run_command_output_with_timeout(run, "curl", args, cfg.curl_timeout_ms, "curl probe") {
        Ok(Ok(o)) => o,
        Ok(Err(e)) => return Ok(Err(e)),
        Err(h) => return Err(h),
    };
    if !o.success {
        let code = exit_text(o);
        return Ok(
            Err(
                PluginError::Transient(
                    cat4("curl probe failed (exit ", code.as_str(), "): ", trim(o.stderr.as_str())),
                ),
            ),
        );
    }
    Ok(Ok(parse_http_probe_metrics(trim(o.stdout.as_str()))))
}

/// The session after a probe: a portal was met where another address answered, or the
/// answer was not an empty 204; else the way is free.
pub open spec fn after_probe(s: CaptiveView, asked: Seq<char>, code: Option<u16>, answered: Option<Seq<char>>) -> CaptiveView {
    let met = answered matches Some(u) && (trimmed(u) != asked || code != Some(204u16));
    CaptiveView {
        phase: if met {
            CaptivePhase::ProbeDetected
        } else {
            CaptivePhase::Authenticated
        },
        last_probe_url: Some(asked),
        last_http_code: code,
        portal_url: answered,
        last_error: None,
        ..s
    }
}

/// The session after a probe, as [`after_probe`] says.
pub fn note_probe(state: CaptiveSessionState, asked: &str, code: Option<u16>, answered: Option<String>) -> (r: CaptiveSessionState)
    ensures
        r@ == after_probe(state@, asked@, code, opt_text(answered)),
{
    let mut state = state;
    let free = match code {
        Some(c) => c == 204,
        None => false,
    };
    let met = match &answered {
        Some(u) => !text_eq(trim(u.as_str()), asked) || !free,
        None => false,
    };
    state.last_probe_url = Some(asked.to_owned());
    state.last_http_code = code;
    state.phase = if met {
        CaptivePhase::ProbeDetected
    } else {
        CaptivePhase::Authenticated
    };
    state.portal_url = answered;
    state.last_error = None;
    state
}

/// The session after looking for a portal.
pub open spec fn detected(h: Seq<Reply>, m: Mark, cfg: ConfigView, dir: Option<Seq<char>>, url: Option<Seq<char>>) -> Progress<
    Result<CaptiveView, ErrorView>,
> {
    match probe(h, m, cfg, probe_url(url)) {
        Progress::Go(m1, Ok((code, answered))) => if dir is None {
            Progress::Go(m1, Ok(after_probe(captive_default(), probe_url(url), code, answered)))
        } else {
            match captive_loaded(h, m1, dir) {
                Progress::Go(m2, s) => Progress::Go(m2, Ok(after_probe(s, probe_url(url), code, answered))),
                Progress::Need(a) => Progress::Need(a),
                Progress::Fail(e) => Progress::Fail(e),
            }
        },
        Progress::Go(m1, Err(e)) => Progress::Go(m1, Err(e)),
        Progress::Need(a) => Progress::Need(a),
        Progress::Fail(e) => Progress::Fail(e),
    }
}

/// The view of a session or an error.
pub open spec fn session_result(r: Result<CaptiveSessionState, PluginError>) -> Result<CaptiveView, ErrorView> {
    match r {
        Ok(s) => Ok(s@),
        Err(e) => Err(e@),
    }
}

/// Looks for a portal.
pub fn captive_detect(run: &mut Run, cfg: &PluginConfig, dir: Option<&str>, url: Option<&str>) -> (r: Result<
    Result<CaptiveSessionState, PluginError>,
    Halt,
>)
    requires
        old(run).wf(),
    ensures
        final(run).follows(old(run)),
        match r {
            Ok(v) => detected(old(run).replies@, old(run)@, cfg@, opt_slice(dir), opt_slice(url)) == Progress::Go(
                final(run)@,
                session_result(v),
            ),
            Err(h) => detected(old(run).replies@, old(run)@, cfg@, opt_slice(dir), opt_slice(url)) == h.stop::<
                Result<CaptiveView, ErrorView>,
            >(),
        },
{
    let asked = match url {
        Some(u) => if blank(u) {
            DEFAULT_PROBE_URL
        } else {
            trim(u)
        },
        None => DEFAULT_PROBE_URL,
    };
    let (code, answered) = match curl_probe(run, cfg, asked) {
        Ok(Ok(v)) => v,
        Ok(Err(e)) => return Ok(Err(e)),
        Err(h) => return Err(h),
    };
    let state = if dir.is_none() {
        CaptiveSessionState::default()
    } else {
        match load_captive_state(run, dir) {
            Ok(s) => s,
            Err(h) => return Err(h),
        }
    };
    Ok(Ok(note_probe(state, asked, code, answered)))
}

// Submitting.

/// The address to submit to: the one of the request, or else the portal that was met;
/// none where it is blank.
pub open spec fn submit_url(asked: Option<Seq<char>>, portal: Option<Seq<char>>) -> Option<Seq<char>> {
    let url = match asked {
        Some(u) => Some(u),
        None => portal,
    };
    match url {
        Some(u) => if is_blank(u) {
            None
        } else {
            Some(trimmed(u))
        },
        None => None,
    }
}

/// The method to submit with.
pub open spec fn submit_method(asked: Option<Seq<char>>) -> Seq<char> {
    match asked {
        Some(u) => if uppered(trimmed(u)).len() == 0 {
            "POST"@
        } else {
            uppered(trimmed(u))
        },
        None => "POST"@,
    }
}

/// The session with the count of attempts set back where other credentials are sent, or
/// where the last attempt lies further back than the window.
pub open spec fn refreshed(s: CaptiveView, print: Seq<char>, now: u64, window: u64) -> CaptiveView {
    if s.last_submit_fingerprint == Some(print) {
        if s.last_submit_at_epoch matches Some(last) && now - last > window {
            CaptiveView { submit_attempts: 0, last_submit_at_epoch: None, ..s }
        } else {
            s
        }
    } else {
        CaptiveView { submit_attempts: 0, last_submit_at_epoch: None, last_submit_fingerprint: Some(print), ..s }
    }
}

/// Why credentials are not sent without the operator's confirmation, where they are
/// not.
pub open spec fn replay_block(s: CaptiveView, c: CaptiveConfig, confirmed: bool) -> Option<Seq<char>> {
    if confirmed {
        None
    } else if s.submit_attempts >= c.retry_budget {
        Some(
            "captive retry budget ("@ + decimal(c.retry_budget as nat)
                + ") reached for this credential set; resend with confirm_replay=true to proceed"@,
        )
    } else if c.credential_policy == CaptiveCredentialPolicy::SingleUseTicket && s.submit_attempts > 0 {
        Some(
            "single_use_ticket policy blocks automatic credential replay; resend with confirm_replay=true only if operator confirms ticket is reusable"@,
        )
    } else if c.credential_policy == CaptiveCredentialPolicy::ManualAfterFailure && s.phase == CaptivePhase::Failed {
        Some("manual_after_failure policy requires confirm_replay=true after failure"@)
    } else {
        None
    }
}

/// The session that waits for the operator's confirmation.
pub open spec fn held_back(s: CaptiveView, why: Seq<char>) -> CaptiveView {
    CaptiveView {
        phase: CaptivePhase::AwaitingCredentials,
        requires_user_confirmation: true,
        last_error: Some(why),
        ..s
    }
}

/// The session while credentials are being sent.
pub open spec fn submitting(s: CaptiveView, print: Seq<char>, now: u64) -> CaptiveView {
    CaptiveView {
        phase: CaptivePhase::Submitting,
        requires_user_confirmation: false,
        submit_attempts: if s.submit_attempts == u32::MAX {
            u32::MAX
        } else {
            (s.submit_attempts + 1) as u32
        },
        last_submit_fingerprint: Some(print),
        last_submit_at_epoch: Some(now),
        ..s
    }
}

/// The names of the fields that are sent: those that are not blank.
pub open spec fn sent_names(form: Seq<(Seq<char>, Seq<char>)>) -> Seq<Seq<char>>
    decreases form.len(),
{
    if form.len() == 0 {
        seq![]
    } else if is_blank(form.last().0) {
        sent_names(form.drop_last())
    } else {
        sent_names(form.drop_last()).push(form.last().0)
    }
}

/// The arguments of the fields that are sent.
pub open spec fn form_args(form: Seq<(Seq<char>, Seq<char>)>) -> Seq<Seq<char>>
    decreases form.len(),
{
    if form.len() == 0 {
        seq![]
    } else if is_blank(form.last().0) {
        form_args(form.drop_last())
    } else {
        form_args(form.drop_last()).push("--data-urlencode"@).push(form.last().0 + "="@ + form.last().1)
    }
}

/// The arguments of a submission.
pub open spec fn submit_args(url: Seq<char>, method: Seq<char>, form: Seq<(Seq<char>, Seq<char>)>) -> Seq<Seq<char>> {
    (seq!["-sS"@, "-L"@, "-o"@, "/dev/null"@, "-w"@, CURL_METRICS@, "--max-time"@, "25"@, "-X"@, method] + form_args(
        form,
    )).push(url)
}

fn submit_list(url: &str, method: &str, form: &PortalForm) -> (r: (Vec<String>, Vec<String>))
    ensures
        texts(r.0@) == submit_args(url@, method@, form@),
        texts(r.1@) == sent_names(form@),
{
    let mut args = owned(
        vec!["-sS", "-L", "-o", "/dev/null", "-w", CURL_METRICS, "--max-time", "25", "-X", method],
    );
    let ghost head = texts(args@);
    let mut names: Vec<String> = Vec::new();
    let mut i: usize = 0;
    proof {
        assert(head =~= seq!["-sS"@, "-L"@, "-o"@, "/dev/null"@, "-w"@, CURL_METRICS@, "--max-time"@, "25"@, "-X"@, method@]);
        assert(form@.take(0) =~= Seq::<(Seq<char>, Seq<char>)>::empty());
        assert(texts(names@) =~= sent_names(form@.take(0)));
        assert(texts(args@) =~= head + form_args(form@.take(0)));
    }
    while i < form.fields.len()
        invariant
            i <= form.fields.len(),
            texts(names@) == sent_names(form@.take(i as int)),
            texts(args@) == head + form_args(form@.take(i as int)),
        decreases form.fields.len() - i,
    {
        let f = &form.fields[i];
        proof {
            let t = form@.take(i as int + 1);
            assert(t.drop_last() =~= form@.take(i as int));
            assert(t.last() == (f.name@, f.value@));
        }
        if !blank(f.name.as_str()) {
            push_text(&mut names, f.name.as_str());
            push_text(&mut args, "--data-urlencode");
            push_text(&mut args, cat3(f.name.as_str(), "=", f.value.as_str()).as_str());
            proof {
                assert(texts(args@) =~= head + form_args(form@.take(i as int + 1)));
            }
        }
        i += 1;
    }
    push_text(&mut args, url);
    proof {
        assert(form@.take(i as int) =~= form@);
    }
    (args, names)
}

/// The session after a submission that `curl` could not make.
pub open spec fn submit_failed(s: CaptiveView, o: OutputView, names: Seq<Seq<char>>, policy: CaptiveCredentialPolicy) -> CaptiveView {
    CaptiveView {
        phase: CaptivePhase::Failed,
        last_error: Some(
            "curl submit failed (exit "@ + signed_decimal(exit_code(o)) + "): "@ + trimmed(o.stderr),
        ),
        last_submission_fields: names,
        requires_user_confirmation: policy != CaptiveCredentialPolicy::ReplayAllowed,
        ..s
    }
}

/// The session after a submission that was answered: done where the network is fully
/// connected or the answer was an empty 204, else waiting for credentials again.
pub open spec fn submit_answered(
    s: CaptiveView,
    code: Option<u16>,
    url: Option<Seq<char>>,
    names: Seq<Seq<char>>,
    connectivity: Option<Seq<char>>,
    policy: CaptiveCredentialPolicy,
) -> CaptiveView {
    let free = connectivity == Some("full"@) || code == Some(204u16);
    CaptiveView {
        phase: if free {
            CaptivePhase::Authenticated
        } else {
            CaptivePhase::AwaitingCredentials
        },
        last_http_code: code,
        portal_url: url,
        last_submission_fields: names,
        last_error: if free {
            None
        } else {
            Some(
                "captivity may still be active; credentials might be invalid or additional portal step is required"@,
            )
        },
        requires_user_confirmation: !free && policy != CaptiveCredentialPolicy::ReplayAllowed,
        ..s
    }
}

/// The session after credentials were sent.
pub open spec fn sent(
    h: Seq<Reply>,
    m: Mark,
    cfg: ConfigView,
    s: CaptiveView,
    url: Seq<char>,
    method: Seq<char>,
    form: Seq<(Seq<char>, Seq<char>)>,
) -> Progress<CaptiveView> {
    let policy = cfg.captive.credential_policy;
    match command(h, m, "curl"@, submit_args(url, method, form), cfg.curl_timeout_ms, "curl submit"@) {
        Progress::Go(m1, Ok(o)) => if !o.success {
            Progress::Go(m1, submit_failed(s, o, sent_names(form), policy))
        } else {
            let found = probe_metrics(trimmed(o.stdout));
            match connectivity(h, m1, cfg) {
                Progress::Go(m2, c) => Progress::Go(
                    m2,
                    submit_answered(s, found.0, found.1, sent_names(form), c, policy),
                ),
                Progress::Need(a) => Progress::Need(a),
                Progress::Fail(e) => Progress::Fail(e),
            }
        },
        Progress::Go(m1, Err(e)) => Progress::Fail(e),
        Progress::Need(a) => Progress::Need(a),
        Progress::Fail(e) => Progress::Fail(e),
    }
}

/// What is asked of a submission, over mathematical values.
#[verifier::ext_equal]
pub struct SubmitView {
    pub url: Option<Seq<char>>,
    pub method: Option<Seq<char>>,
    pub form: Seq<(Seq<char>, Seq<char>)>,
    pub confirm_replay: bool,
}

impl View for CaptiveSubmitRequest {
    type V = SubmitView;

    open spec fn view(&self) -> SubmitView {
        SubmitView {
            url: opt_text(self.url),
            method: opt_text(self.method),
            form: self.form@,
            confirm_replay: self.confirm_replay,
        }
    }
}

/// The session after a submission at the time `now`: held back where it may not be
/// sent, and sent else.
pub open spec fn submitted_at(
    h: Seq<Reply>,
    m: Mark,
    cfg: ConfigView,
    s: CaptiveView,
    req: SubmitView,
    url: Seq<char>,
    now: u64,
) -> Progress<CaptiveView> {
    let method = submit_method(req.method);
    let print = fingerprint(url, method, req.form);
    let fresh = refreshed(s, print, now, cfg.captive.replay_window_sec);
    match replay_block(fresh, cfg.captive, req.confirm_replay) {
        Some(why) => Progress::Go(m, held_back(fresh, why)),
        None => sent(h, m, cfg, submitting(fresh, print, now), url, method, req.form),
    }
}

/// The session after a submission.
pub open spec fn submitted(h: Seq<Reply>, m: Mark, cfg: ConfigView, dir: Option<Seq<char>>, req: SubmitView) -> Progress<
    CaptiveView,
> {
    match captive_loaded(h, m, dir) {
        Progress::Go(m1, s) => match submit_url(req.url, s.portal_url) {
            Some(url) => match clock(h, m1, Ask::EpochSeconds) {
                Progress::Go(m2, now) => submitted_at(h, m2, cfg, s, req, url, now),
                Progress::Need(a) => Progress::Need(a),
                Progress::Fail(e) => Progress::Fail(e),
            },
            None => Progress::Fail(
                ErrorView::Permanent(
                    "captive submit requires URL (payload url or prior detected portal_url)"@,
                ),
            ),
        },
        Progress::Need(a) => Progress::Need(a),
        Progress::Fail(e) => Progress::Fail(e),
    }
}

/// Sets the count of attempts back, as [`refreshed`] says.
pub fn refresh_attempts(state: CaptiveSessionState, print: &str, now: u64, window: u64) -> (r: CaptiveSessionState)
    ensures
        r@ == refreshed(state@, print@, now, window),
{
    let mut state = state;
    let same = match &state.last_submit_fingerprint {
        Some(p) => text_eq(p.as_str(), print),
        None => false,
    };
    if same {
        if let Some(last) = state.last_submit_at_epoch {
            if now.saturating_sub(last) > window {
                state.submit_attempts = 0;
                state.last_submit_at_epoch = None;
            }
        }
    } else {
        state.submit_attempts = 0;
        state.last_submit_at_epoch = None;
        state.last_submit_fingerprint = Some(print.to_owned());
    }
    state
}

/// Decides whether credentials may be sent, as [`replay_block`] says.
pub fn blocked_by(state: &CaptiveSessionState, c: &CaptiveConfig, confirmed: bool) -> (r: Option<String>)
    ensures
        opt_text(r) == replay_block(state@, *c, confirmed),
{
    if confirmed {
        return None;
    }
    if state.submit_attempts >= c.retry_budget {
        return Some(
            cat3(
                "captive retry budget (",
                to_decimal(c.retry_budget as u64).as_str(),
                ") reached for this credential set; resend with confirm_replay=true to proceed",
            ),
        );
    }
    if c.credential_policy == CaptiveCredentialPolicy::SingleUseTicket && state.submit_attempts > 0 {
        return Some(
            "single_use_ticket policy blocks automatic credential replay; resend with confirm_replay=true only if operator confirms ticket is reusable".to_owned(),
        );
    }
    if c.credential_policy == CaptiveCredentialPolicy::ManualAfterFailure && state.phase == CaptivePhase::Failed {
        return Some("manual_after_failure policy requires confirm_replay=true after failure".to_owned());
    }
    None
}

/// The session after a submission that was answered, as [`submit_answered`] says.
pub fn note_answer(
    state: CaptiveSessionState,
    code: Option<u16>,
    url: Option<String>,
    names: Vec<String>,
    connectivity: &Option<String>,
    policy: CaptiveCredentialPolicy,
) -> (r: CaptiveSessionState)
    ensures
        r@ == submit_answered(state@, code, opt_text(url), texts(names@), opt_text(*connectivity), policy),
{
    let mut state = state;
    let full = match connectivity {
        Some(c) => text_eq(c.as_str(), "full"),
        None => false,
    };
    let empty = match code {
        Some(c) => c == 204,
        None => false,
    };
    state.last_http_code = code;
    state.portal_url = url;
    state.last_submission_fields = names;
    if full || empty {
        state.phase = CaptivePhase::Authenticated;
        state.last_error = None;
        state.requires_user_confirmation = false;
    } else {
        state.phase = CaptivePhase::AwaitingCredentials;
        state.last_error = Some(
            "captivity may still be active; credentials might be invalid or additional portal step is required".to_owned(),
        );
        state.requires_user_confirmation = policy != CaptiveCredentialPolicy::ReplayAllowed;
    }
    state
}

fn send_credentials(
    run: &mut Run,
    cfg: &PluginConfig,
    state: CaptiveSessionState,
    url: &str,
    method: &str,
    form: &PortalForm,
) -> (r: Result<CaptiveSessionState, Halt>)
    requires
        old(run).wf(),
    ensures
        final(run).follows(old(run)),
        match r {
            Ok(v) => sent(old(run).replies@, old(run)@, cfg@, state@, url@, method@, form@) == Progress::Go(
                final(run)@,
                v@,
            ),
            Err(h) => sent(old(run).replies@, old(run)@, cfg@, state@, url@, method@, form@) == h.stop::<CaptiveView>(),
        },
{
    let policy = cfg.captive.credential_policy;
    let (args, names) = submit_list(url, method, form);
    let o = match run_command_output_with_timeout(run, "curl", args, cfg.curl_timeout_ms, "curl submit") {
        Ok(Ok(o)) => o,
        Ok(Err(e)) => return Err(Halt::Fail(e)),
        Err(h) => return Err(h),
    };
    if !o.success {
        let mut state = state;
        let code = exit_text(o);
        state.phase = CaptivePhase::Failed;
        state.last_error = Some(
            cat4("curl submit failed (exit ", code.as_str(), "): ", trim(o.stderr.as_str())),
        );
        state.last_submission_fields = names;
        state.requires_user_confirmation = policy != CaptiveCredentialPolicy::ReplayAllowed;
        return Ok(state);
    }
    let (code, answered) = parse_http_probe_metrics(trim(o.stdout.as_str()));
    let c = match nm_connectivity(run, cfg) {
        Ok(c) => c,
        Err(h) => return Err(h),
    };
    Ok(note_answer(state, code, answered, names, &c, policy))
}

/// Submits credentials to a portal, as [`submitted`] says.
pub fn captive_submit(run: &mut Run, cfg: &PluginConfig, dir: Option<&str>, payload: &CaptiveSubmitRequest) -> (r: Result<
    CaptiveSessionState,
    Halt,
>)
    requires
        old(run).wf(),
    ensures
        final(run).follows(old(run)),
        match r {
            Ok(v) => submitted(old(run).replies@, old(run)@, cfg@, opt_slice(dir), payload@) == Progress::Go(
                final(run)@,
                v@,
            ),
            Err(h) => submitted(old(run).replies@, old(run)@, cfg@, opt_slice(dir), payload@) == h.stop::<CaptiveView>(),
        },
{
    let state = match load_captive_state(run, dir) {
        Ok(s) => s,
        Err(h) => return Err(h),
    };
    let wanted: Option<String> = match &payload.url {
        Some(u) => Some(u.clone()),
        None => copy_opt(&state.portal_url),
    };
    let url: String = match wanted {
        Some(u) => {
            let t = trim(u.as_str()).to_owned();
            if t.as_str().is_empty() {
                return Err(
                    Halt::Fail(
                        permanent("captive submit requires URL (payload url or prior detected portal_url)"),
                    ),
                );
            }
            t
        },
        None => {
            return Err(
                Halt::Fail(permanent("captive submit requires URL (payload url or prior detected portal_url)")),
            );
        },
    };
    let mut method: String = "POST".to_owned();
    if let Some(m) = &payload.method {
        let up = to_upper(trim(m.as_str()));
        if !up.as_str().is_empty() {
            method = up;
        }
    }
    let now: u64 = match run.now(Action::EpochSeconds) {
        Ok(t) => t,
        Err(h) => return Err(h),
    };
    let print = captive_submit_fingerprint(url.as_str(), method.as_str(), &payload.form);
    let mut state = refresh_attempts(state, print.as_str(), now, cfg.captive.replay_window_sec);
    if let Some(why) = blocked_by(&state, &cfg.captive, payload.confirm_replay) {
        state.phase = CaptivePhase::AwaitingCredentials;
        state.requires_user_confirmation = true;
        state.last_error = Some(why);
        return Ok(state);
    }
    state.phase = CaptivePhase::Submitting;
    state.requires_user_confirmation = false;
    state.submit_attempts = state.submit_attempts.saturating_add(1);
    state.last_submit_fingerprint = Some(print);
    state.last_submit_at_epoch = Some(now);
    send_credentials(run, cfg, state, url.as_str(), method.as_str(), &payload.form)
}

// Laws.

/// Without the operator's confirmation the same credentials are sent at most as often
/// as the budget allows within the window: once the count of attempts has reached it,
/// the next submission of them is held back and nothing is sent.
pub proof fn budget_is_kept(h: Seq<Reply>, m: Mark, cfg: ConfigView, s: CaptiveView, req: SubmitView, url: Seq<char>, now: u64)
    requires
        !req.confirm_replay,
        s.last_submit_fingerprint == Some(fingerprint(url, submit_method(req.method), req.form)),
        s.submit_attempts >= cfg.captive.retry_budget,
        s.last_submit_at_epoch matches Some(last) ==> now - last <= cfg.captive.replay_window_sec,
    ensures
        submitted_at(h, m, cfg, s, req, url, now) matches Progress::Go(m1, held) && m1 == m && held.phase
            == CaptivePhase::AwaitingCredentials && held.requires_user_confirmation && held.submit_attempts
            == s.submit_attempts,
{
}

/// A single-use ticket that was sent once within the window is not sent again without
/// the operator's confirmation.
pub proof fn ticket_is_sent_once(h: Seq<Reply>, m: Mark, cfg: ConfigView, s: CaptiveView, req: SubmitView, url: Seq<char>, now: u64)
    requires
        !req.confirm_replay,
        cfg.captive.credential_policy == CaptiveCredentialPolicy::SingleUseTicket,
        s.last_submit_fingerprint == Some(fingerprint(url, submit_method(req.method), req.form)),
        s.submit_attempts > 0,
        s.last_submit_at_epoch matches Some(last) ==> now - last <= cfg.captive.replay_window_sec,
    ensures
        submitted_at(h, m, cfg, s, req, url, now) matches Progress::Go(m1, held) && m1 == m
            && held.requires_user_confirmation,
{
}

/// A confirmed submission is always sent.
pub proof fn confirmation_sends(h: Seq<Reply>, m: Mark, cfg: ConfigView, s: CaptiveView, req: SubmitView, url: Seq<char>, now: u64)
    requires
        req.confirm_replay,
    ensures
        ({
            let method = submit_method(req.method);
            let print = fingerprint(url, method, req.form);
            let fresh = refreshed(s, print, now, cfg.captive.replay_window_sec);
            submitted_at(h, m, cfg, s, req, url, now) == sent(
                h,
                m,
                cfg,
                submitting(fresh, print, now),
                url,
                method,
                req.form,
            )
        }),
{
}

/// Each submission that is sent is counted, from one where the credentials are new.
pub proof fn sending_counts(s: CaptiveView, print: Seq<char>, now: u64, window: u64)
    requires
        s.submit_attempts < u32::MAX,
    ensures
        ({
            let after = submitting(refreshed(s, print, now, window), print, now);
            &&& after.submit_attempts == refreshed(s, print, now, window).submit_attempts + 1
            &&& s.last_submit_fingerprint != Some(print) ==> after.submit_attempts == 1
            &&& after.last_submit_fingerprint == Some(print)
            &&& after.last_submit_at_epoch == Some(now)
        }),
{
}

/// The fields of a form that are sent: those with a name.
pub open spec fn named_fields(form: Seq<(Seq<char>, Seq<char>)>) -> Seq<(Seq<char>, Seq<char>)> {
    form.filter(|f: (Seq<char>, Seq<char>)| trimmed(f.0).len() > 0)
}

spec fn pushed(args: Seq<Seq<char>>, names: Seq<Seq<char>>, k: int, field: (Seq<char>, Seq<char>)) -> bool {
    &&& args[2 * k] == "--data-urlencode"@
    &&& args[2 * k + 1] == field.0 + "="@ + field.1
    &&& names[k] == field.0
}

/// Whether the `k`-th data argument is that of a field: the option, and behind it a text
/// that starts with the field's name and `=` and ends with its value.
pub open spec fn carries(args: Seq<Seq<char>>, k: int, name: Seq<char>, value: Seq<char>) -> bool {
    let data = args[2 * k + 11];
    &&& args[2 * k + 10] == "--data-urlencode"@
    &&& data.len() == name.len() + 1 + value.len()
    &&& data.take(name.len() as int) == name
    &&& data[name.len() as int] == '='
    &&& data.skip(name.len() as int + 1) == value
}

proof fn lemma_form_args(form: Seq<(Seq<char>, Seq<char>)>)
    ensures
        form_args(form).len() == 2 * named_fields(form).len(),
        sent_names(form).len() == named_fields(form).len(),
        forall|k: int|
            0 <= k < named_fields(form).len() ==> pushed(
                form_args(form),
                sent_names(form),
                k,
                #[trigger] named_fields(form)[k],
            ),
    decreases form.len(),
{
    reveal(Seq::filter);
    if form.len() > 0 {
        lemma_form_args(form.drop_last());
        let before = named_fields(form.drop_last());
        let all = named_fields(form);
        assert forall|k: int| 0 <= k < all.len() implies pushed(
            form_args(form),
            sent_names(form),
            k,
            #[trigger] all[k],
        ) by {
            if k < before.len() {
                assert(before[k] == all[k]);
            }
        }
    }
}

/// A submission carries the form, and nothing but the form: behind the fixed arguments
/// stands, for every field with a name and in the order of the form, `--data-urlencode`
/// and a text that starts with the field's name and `=` and ends with its value; the
/// address comes last. The answer is not kept, redirections are followed, and what is
/// printed of it is its code and its address.
pub proof fn submissions_carry_the_form(url: Seq<char>, method: Seq<char>, form: Seq<(Seq<char>, Seq<char>)>)
    ensures
        ({
            let args = submit_args(url, method, form);
            let fields = named_fields(form);
            &&& args.len() == 2 * fields.len() + 11
            &&& args.last() == url
            &&& args[0] == "-sS"@ && args[1] == "-L"@
            &&& args[2] == "-o"@ && args[3] == "/dev/null"@
            &&& args[4] == "-w"@ && args[5] == "%{http_code}|%{url_effective}"@
            &&& args[6] == "--max-time"@ && args[7] == "25"@
            &&& args[8] == "-X"@ && args[9] == method
            &&& forall|k: int| 0 <= k < fields.len() ==> carries(args, k, (#[trigger] fields[k]).0, fields[k].1)
            &&& sent_names(form) == fields.map_values(|f: (Seq<char>, Seq<char>)| f.0)
        }),
{
    let args = submit_args(url, method, form);
    let fields = named_fields(form);
    lemma_form_args(form);
    reveal_strlit("=");
    assert forall|k: int| 0 <= k < fields.len() implies carries(args, k, (#[trigger] fields[k]).0, fields[k].1) by {
        let data = args[2 * k + 11];
        let (name, value) = fields[k];
        assert(pushed(form_args(form), sent_names(form), k, fields[k]));
        assert(args[2 * k + 10] == form_args(form)[2 * k]);
        assert(data == form_args(form)[2 * k + 1]);
        assert(data.take(name.len() as int) =~= name);
        assert(data.skip(name.len() as int + 1) =~= value);
    }
    assert forall|k: int| 0 <= k < fields.len() implies sent_names(form)[k] == (#[trigger] fields[k]).0 by {
        assert(pushed(form_args(form), sent_names(form), k, fields[k]));
    }
    assert(sent_names(form) =~= fields.map_values(|f: (Seq<char>, Seq<char>)| f.0));
}

/// A submission that is sent is sent to the portal: `curl` is run with the form, the
/// method that was asked for in capitals or else `POST`, and the address.
pub proof fn credentials_go_to_the_portal(
    h: Seq<Reply>,
    m: Mark,
    cfg: ConfigView,
    s: CaptiveView,
    req: SubmitView,
    url: Seq<char>,
    now: u64,
)
    requires
        req.confirm_replay,
        m.pos == h.len(),
    ensures
        submitted_at(h, m, cfg, s, req, url, now) matches Progress::Need(Ask::Run { program, args, timeout_ms }) && program
            == "curl"@ && timeout_ms == Some(cfg.curl_timeout_ms) && args == submit_args(
            url,
            match req.method {
                Some(asked) => if trimmed(asked).len() == 0 {
                    "POST"@
                } else {
                    uppered(trimmed(asked))
                },
                None => "POST"@,
            },
            req.form,
        ),
{
    if let Some(asked) = req.method {
        assert(uppered(trimmed(asked)).len() == trimmed(asked).len());
    }
}

/// Credentials go to the address of the request, or else to the portal that was met, and
/// a submission without either is refused.
pub proof fn portals_are_addressed(asked: Option<Seq<char>>, portal: Option<Seq<char>>)
    ensures
        asked matches Some(u) ==> submit_url(asked, portal) == (if trimmed(u).len() == 0 {
            None
        } else {
            Some(trimmed(u))
        }),
        asked is None ==> submit_url(asked, portal) == submit_url(portal, None),
        asked is None && portal is None ==> submit_url(asked, portal) is None,
{
}

/// What comes of a submission is what the portal and the network say: one that `curl`
/// could not make has failed; one that was made has opened the way exactly where the
/// network is then fully connected or the answer was a 204, and waits for credentials
/// else. Either way it is noted which fields were sent.
pub proof fn answers_decide_submissions(
    h: Seq<Reply>,
    m: Mark,
    cfg: ConfigView,
    s: CaptiveView,
    url: Seq<char>,
    method: Seq<char>,
    form: Seq<(Seq<char>, Seq<char>)>,
)
    requires
        0 <= m.pos < h.len(),
        h[m.pos] is Ran,
        sent(h, m, cfg, s, url, method, form) is Go,
    ensures
        ({
            let after = sent(h, m, cfg, s, url, method, form)->Go_1;
            let o = h[m.pos]->Ran_0;
            let found = probe_metrics(trimmed(o.stdout@));
            let again = cfg.captive.credential_policy != CaptiveCredentialPolicy::ReplayAllowed;
            &&& after.last_submission_fields == named_fields(form).map_values(|f: (Seq<char>, Seq<char>)| f.0)
            &&& after.submit_attempts == s.submit_attempts
            &&& after.last_submit_fingerprint == s.last_submit_fingerprint
            &&& after.last_submit_at_epoch == s.last_submit_at_epoch
            &&& !o.success ==> after.phase == CaptivePhase::Failed && after.last_error is Some
                && after.requires_user_confirmation == again
            &&& o.success ==> {
                &&& after.last_http_code == found.0
                &&& after.portal_url == found.1
                &&& connectivity(h, m.read(), cfg) matches Progress::Go(_, c) && {
                    let free = c == Some("full"@) || found.0 == Some(204u16);
                    &&& free ==> after.phase == CaptivePhase::Authenticated && after.last_error is None
                        && !after.requires_user_confirmation
                    &&& !free ==> after.phase == CaptivePhase::AwaitingCredentials && after.last_error is Some
                        && after.requires_user_confirmation == again
                }
            }
        }),
{
    submissions_carry_the_form(url, method, form);
}

/// A probe tells a portal from a free way: the way is free exactly where the answer was a
/// 204 from the address that was asked, or no address answered at all.
pub proof fn probes_tell_portals(s: CaptiveView, asked: Seq<char>, code: Option<u16>, answered: Option<Seq<char>>)
    ensures
        ({
            let after = after_probe(s, asked, code, answered);
            let free = answered is None || (code == Some(204u16) && trimmed(answered->0) == asked);
            &&& free ==> after.phase == CaptivePhase::Authenticated
            &&& !free ==> after.phase == CaptivePhase::ProbeDetected
            &&& after.last_probe_url == Some(asked)
            &&& after.last_http_code == code
            &&& after.portal_url == answered
            &&& after.last_error is None
            &&& after.submit_attempts == s.submit_attempts
            &&& after.last_submit_fingerprint == s.last_submit_fingerprint
            &&& after.last_submit_at_epoch == s.last_submit_at_epoch
            &&& after.last_submission_fields == s.last_submission_fields
            &&& after.requires_user_confirmation == s.requires_user_confirmation
        }),
{
}

/// A probe asks for the address it is given, or for the one that answers 204 where the way
/// is free; it follows redirections and prints the code and the address of the answer.
pub proof fn probes_ask_for_their_address(h: Seq<Reply>, m: Mark, cfg: ConfigView, dir: Option<Seq<char>>, url: Option<Seq<char>>)
    requires
        m.pos == h.len(),
    ensures
        detected(h, m, cfg, dir, url) matches Progress::Need(Ask::Run { program, args, timeout_ms }) && program == "curl"@
            && timeout_ms == Some(cfg.curl_timeout_ms) && args.len() == 9 && args[1] == "-L"@ && args[5]
            == "%{http_code}|%{url_effective}"@ && args[8] == (match url {
            Some(u) => if trimmed(u).len() == 0 {
                "http://connectivitycheck.gstatic.com/generate_204"@
            } else {
                trimmed(u)
            },
            None => "http://connectivitycheck.gstatic.com/generate_204"@,
        }),
{
}

/// What `curl` printed of a request is read back: the code and the address.
pub proof fn printed_metrics_read_back(code: u16, url: Seq<char>)
    requires
        trimmed(url) == url,
        url.len() > 0,
    ensures
        probe_metrics(decimal(code as nat) + seq!['|'] + url) == (Some(code), Some(url)),
{
    let d = decimal(code as nat);
    decimal_reads_back(code as nat);
    assert forall|i: int| 0 <= i < d.len() implies d[i] != '|' by {
        assert(is_digit(d[i]));
    }
    assert(!is_space(d[0]) && !is_space(d.last())) by {
        assert(is_digit(d[0]));
        assert(is_digit(d[d.len() - 1]));
    }
    lemma_trim_fixed(d);
    columns_come_apart(d, url, 2, '|');
    assert(split_n(url, 1, '|') =~= seq![url]);
}

/// The budget starts anew exactly where other credentials are sent, or where the last
/// attempt lies further back than the window; nothing else of the session changes.
pub proof fn windows_reset_the_budget(s: CaptiveView, print: Seq<char>, now: u64, window: u64)
    ensures
        ({
            let after = refreshed(s, print, now, window);
            let same = s.last_submit_fingerprint == Some(print);
            let past = s.last_submit_at_epoch matches Some(last) && now > last + window;
            &&& !same || past ==> after.submit_attempts == 0 && after.last_submit_at_epoch is None
            &&& same && !past ==> after == s
            &&& after.last_submit_fingerprint == Some(print)
            &&& after.phase == s.phase
            &&& after.portal_url == s.portal_url
        }),
{
}

/// A submission is held back exactly where it is not confirmed and the budget is used up,
/// or a ticket that is good for one use was sent, or the last one failed where the
/// operator wants to look at failures.
pub proof fn submissions_are_held_back_by_policy(s: CaptiveView, c: CaptiveConfig, confirmed: bool)
    ensures
        replay_block(s, c, confirmed) is Some <==> !confirmed && (s.submit_attempts >= c.retry_budget || (c.credential_policy
            == CaptiveCredentialPolicy::SingleUseTicket && s.submit_attempts > 0) || (c.credential_policy
            == CaptiveCredentialPolicy::ManualAfterFailure && s.phase == CaptivePhase::Failed)),
{
}

/// A submission that `curl` made ends as soon as the connectivity is known, and one that
/// it could not make ends at once; one that it could not even start is an error.
pub proof fn submissions_end(
    h: Seq<Reply>,
    m: Mark,
    cfg: ConfigView,
    s: CaptiveView,
    url: Seq<char>,
    method: Seq<char>,
    form: Seq<(Seq<char>, Seq<char>)>,
    m1: Mark,
    c: Option<Seq<char>>,
)
    ensures
        reply_at(h, m.pos) matches Some(Reply::Ran(o)) ==> {
            &&& !o@.success ==> (sent(h, m, cfg, s, url, method, form) matches Progress::Go(n, _) && n == m.read())
            &&& o@.success && connectivity(h, m.read(), cfg) == Progress::Go(m1, c) ==> (sent(
                h,
                m,
                cfg,
                s,
                url,
                method,
                form,
            ) matches Progress::Go(n, _) && n == m1)
        },
        reply_at(h, m.pos) matches Some(Reply::SpawnFailed(_)) ==> sent(h, m, cfg, s, url, method, form) is Fail,
        reply_at(h, m.pos) == Some(Reply::TimedOut) ==> sent(h, m, cfg, s, url, method, form) is Fail,
{
}

/// A submission that is held back is not sent: the session waits for the operator and
/// says why, and only the budget may have started anew.
pub proof fn held_back_submissions_wait(
    h: Seq<Reply>,
    m: Mark,
    cfg: ConfigView,
    s: CaptiveView,
    req: SubmitView,
    url: Seq<char>,
    now: u64,
)
    ensures
        ({
            let fresh = refreshed(
                s,
                fingerprint(url, submit_method(req.method), req.form),
                now,
                cfg.captive.replay_window_sec,
            );
            replay_block(fresh, cfg.captive, req.confirm_replay) matches Some(why) ==> (submitted_at(
                h,
                m,
                cfg,
                s,
                req,
                url,
                now,
            ) matches Progress::Go(n, after) && {
                &&& n == m
                &&& after.phase == CaptivePhase::AwaitingCredentials
                &&& after.requires_user_confirmation
                &&& after.last_error == Some(why)
                &&& after == (CaptiveView {
                    phase: after.phase,
                    requires_user_confirmation: after.requires_user_confirmation,
                    last_error: after.last_error,
                    ..fresh
                })
            })
        }),
{
}

/// A submission starts from the stored session, at the time that the clock tells, and
/// goes to the address that was asked for or to the portal that the session met; without
/// either it is refused.
pub proof fn submissions_start_from_the_session(
    h: Seq<Reply>,
    m: Mark,
    cfg: ConfigView,
    dir: Option<Seq<char>>,
    req: SubmitView,
    m1: Mark,
    s: CaptiveView,
)
    requires
        captive_loaded(h, m, dir) == Progress::Go(m1, s),
    ensures
        submit_url(req.url, s.portal_url) is None ==> submitted(h, m, cfg, dir, req) == Progress::<CaptiveView>::Fail(
            ErrorView::Permanent("captive submit requires URL (payload url or prior detected portal_url)"@),
        ),
        submit_url(req.url, s.portal_url) matches Some(url) ==> {
            &&& reply_at(h, m1.pos) is None ==> submitted(h, m, cfg, dir, req) == Progress::<CaptiveView>::Need(
                Ask::EpochSeconds,
            )
            &&& reply_at(h, m1.pos) matches Some(Reply::Now(now)) ==> submitted(h, m, cfg, dir, req) == submitted_at(
                h,
                m1.read(),
                cfg,
                s,
                req,
                url,
                now,
            )
        },
{
}

/// A probe that was answered is noted in the stored session, or in a fresh one where
/// nothing is stored; one that failed says how, and notes nothing.
pub proof fn probes_are_noted(
    h: Seq<Reply>,
    m: Mark,
    cfg: ConfigView,
    dir: Seq<char>,
    url: Seq<char>,
    m1: Mark,
    s: CaptiveView,
)
    requires
        !is_blank(url),
        captive_loaded(h, m.read(), Some(dir)) == Progress::Go(m1, s),
    ensures
        reply_at(h, m.pos) matches Some(Reply::Ran(o)) ==> {
            &&& o@.success ==> {
                let (code, answered) = probe_metrics(trimmed(o@.stdout));
                &&& detected(h, m, cfg, Some(dir), Some(url)) == Progress::Go(
                    m1,
                    Ok::<CaptiveView, ErrorView>(after_probe(s, trimmed(url), code, answered)),
                )
                &&& detected(h, m, cfg, None, Some(url)) == Progress::Go(
                    m.read(),
                    Ok::<CaptiveView, ErrorView>(after_probe(captive_default(), trimmed(url), code, answered)),
                )
            }
            &&& !o@.success ==> detected(h, m, cfg, Some(dir), Some(url)) == Progress::Go(
                m.read(),
                Err::<CaptiveView, ErrorView>(
                    ErrorView::Transient(
                        "curl probe failed (exit "@ + signed_decimal(
                            match o@.code {
                                Some(c) => c as int,
                                None => -1,
                            },
                        ) + "): "@ + trimmed(o@.stderr),
                    ),
                ),
            )
        },
{
}

/// Each field is seen under its own name, as it is.
pub proof fn fields_are_seen_under_their_names(captive_submit_request: CaptiveSubmitRequest)
    ensures
        captive_submit_request@.url == opt_text(captive_submit_request.url),
        captive_submit_request@.method == opt_text(captive_submit_request.method),
        captive_submit_request@.form == captive_submit_request.form@,
        captive_submit_request@.confirm_replay == captive_submit_request.confirm_replay,
{
}

} // verus!
