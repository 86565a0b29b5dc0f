//! Durable state: the intent, the captive-portal session and the two passphrases.

use crate::error::{permanent, ErrorView, PluginError};
use crate::network::captive_state::{captive_default, captive_result, migrate_captive_state, migrated_captive, CaptiveSessionState, CaptiveView};
use crate::network::config::{ConfigView, PluginConfig};
use crate::network::intent::{intent_default, intent_result, migrate_intent_state, migrated_intent, IntentView, NetworkIntent};
use crate::paths::{
    join_path, joined, lkg_shadow, lkg_shadow_path, parent_of, parent_path, tmp_shadow, tmp_shadow_path,
};
use crate::network::secrets::{
    decrypt_if_openable, envelope_result, fits_the_cipher, openable, opened_secret, seal_secret, sealed_secret, secret_fits,
    text_result, EnvelopeView, SecretEnvelope, ENV_SECRET_KEY, ENV_SECRET_REQUIRE,
};
use crate::network::transcript::{
    encoded, probed, read_text, reply_at, wrote, Action, Ask, Halt, Mark, Progress, Reply, Run, SecretWrite,
};
use crate::text::{
    blank, cat, cat3, cat4, cat5, is_blank, is_space, opt_slice, opt_text, trim, trim_end, trim_start, trimmed,
    trimming_is_idempotent,
};
use vstd::prelude::*;

verus! {

/// The access mode of a secret file: its owner may read and write it.
pub const SECRET_FILE_MODE: u32 = 0o600;

/// The file of the intent, below the state directory.
pub const INTENT_FILE: &'static str = "network-intent.toml";

/// The file of the client's passphrase.
pub const STA_PSK_FILE: &'static str = "wifi-sta.psk";

/// The file of the hotspot's passphrase.
pub const AP_PSK_FILE: &'static str = "wifi-ap.psk";

/// The file of the captive-portal session.
pub const CAPTIVE_FILE: &'static str = "captive-session.json";

/// The path of a state file, or the error where there is no state directory.
pub open spec fn state_file(dir: Option<Seq<char>>, name: Seq<char>) -> Result<Seq<char>, ErrorView> {
    match dir {
        Some(d) => Ok(joined(d, name)),
        None => Err(ErrorView::Permanent("state_dir not initialised"@)),
    }
}

/// The path of a state file.
pub fn state_path(dir: Option<&str>, name: &str) -> (r: Result<String, PluginError>)
    ensures
        text_result(r) == state_file(opt_slice(dir), name@),
{
    match dir {
        Some(d) => Ok(join_path(d, name)),
        None => Err(permanent("state_dir not initialised")),
    }
}

/// Writes a state file and then its shadow. A shadow that cannot be written is left at
/// that.
pub open spec fn text_written(h: Seq<Reply>, m: Mark, path: Seq<char>, data: Seq<char>) -> Progress<()> {
    match wrote(h, m, Ask::WriteText { path, tmp: tmp_shadow(path), data }) {
        Progress::Go(m1, Ok(_)) => {
            let lkg = lkg_shadow(path);
            match wrote(h, m1, Ask::WriteText { path: lkg, tmp: tmp_shadow(lkg), data }) {
                Progress::Go(m2, _) => Progress::Go(m2, ()),
                Progress::Need(a) => Progress::Need(a),
                Progress::Fail(e) => Progress::Fail(e),
            }
        },
        Progress::Go(m1, Err(e)) => Progress::Fail(
            ErrorView::Permanent("cannot write "@ + path + " atomically: "@ + e),
        ),
        Progress::Need(a) => Progress::Need(a),
        Progress::Fail(e) => Progress::Fail(e),
    }
}

/// Writes a state file and its shadow.
pub fn write_text_atomic_with_lkg(run: &mut Run, path: &str, data: &str) -> (r: Result<(), Halt>)
    requires
        old(run).wf(),
    ensures
        final(run).follows(old(run)),
        match r {
            Ok(v) => text_written(old(run).replies@, old(run)@, path@, data@) == Progress::Go(final(run)@, v),
            Err(h) => text_written(old(run).replies@, old(run)@, path@, data@) == h.stop::<()>(),
        },
{
    match run.write(
        Action::WriteText { path: path.to_owned(), tmp: tmp_shadow_path(path), data: data.to_owned() },
    ) {
        Ok(v) => match v {
            Ok(_) => {},
            Err(e) => {
                return Err(
                    Halt::Fail(PluginError::Permanent(cat4("cannot write ", path, " atomically: ", e.as_str()))),
                );
            },
        },
        Err(h) => return Err(h),
    }
    let lkg = lkg_shadow_path(path);
    let tmp = tmp_shadow_path(lkg.as_str());
    match run.write(Action::WriteText { path: lkg, tmp, data: data.to_owned() }) {
        Ok(_) => Ok(()),
        Err(h) => Err(h),
    }
}

// The intent.

/// The view of a document read with its envelope.
pub open spec fn versioned_intent(r: Result<(u32, NetworkIntent), String>) -> Result<(u32, IntentView), Seq<char>> {
    match r {
        Ok((v, i)) => Ok((v, i@)),
        Err(e) => Err(e@),
    }
}

/// The intent of a document: blank is the fresh intent, an envelope tells its schema,
/// and an intent without one is of schema 0.
pub open spec fn intent_in(
    raw: Seq<char>,
    envelope: Result<(u32, IntentView), Seq<char>>,
    bare: Result<IntentView, Seq<char>>,
) -> Result<IntentView, Seq<char>> {
    if is_blank(raw) {
        Ok(intent_default())
    } else {
        match envelope {
            Ok((v, i)) => migrated_intent(v, i),
            Err(e) => match bare {
                Ok(i) => migrated_intent(0, i),
                Err(b) => Err("intent state parse failed (envelope: "@ + e + "; legacy: "@ + b + ")"@),
            },
        }
    }
}

/// Reads the intent of a document from its text and its two readings.
pub fn parse_intent_state_toml(
    raw: &str,
    envelope: &Result<(u32, NetworkIntent), String>,
    bare: &Result<NetworkIntent, String>,
) -> (r: Result<NetworkIntent, String>)
    ensures
        intent_result(r) == intent_in(raw@, versioned_intent(*envelope), intent_result(*bare)),
{
    if blank(raw) {
        return Ok(NetworkIntent::default());
    }
    match envelope {
        Ok(p) => migrate_intent_state(p.0, p.1.duplicate()),
        Err(e) => match bare {
            Ok(i) => migrate_intent_state(0, i.duplicate()),
            Err(b) => Err(
                cat5("intent state parse failed (envelope: ", e.as_str(), "; legacy: ", b.as_str(), ")"),
            ),
        },
    }
}

/// The intent of the text at this point.
pub open spec fn intent_decoded(h: Seq<Reply>, m: Mark, raw: Seq<char>) -> Progress<Result<IntentView, Seq<char>>> {
    if is_blank(raw) {
        Progress::Go(m, Ok(intent_default()))
    } else {
        match reply_at(h, m.pos) {
            Some(Reply::IntentDoc { envelope, bare }) => Progress::Go(
                m.read(),
                intent_in(raw, versioned_intent(envelope), intent_result(bare)),
            ),
            _ => Progress::Need(Ask::DecodeIntent { raw: trimmed(raw) }),
        }
    }
}

fn decode_intent(run: &mut Run, raw: &str) -> (r: Result<Result<NetworkIntent, String>, Halt>)
    requires
        old(run).wf(),
    ensures
        final(run).follows(old(run)),
        match r {
            Ok(v) => intent_decoded(old(run).replies@, old(run)@, raw@) == Progress::Go(final(run)@, intent_result(v)),
            Err(h) => intent_decoded(old(run).replies@, old(run)@, raw@) == h.stop::<Result<IntentView, Seq<char>>>(),
        },
{
    if blank(raw) {
        return Ok(Ok(NetworkIntent::default()));
    }
    match run.next() {
        Some(Reply::IntentDoc { envelope, bare }) => Ok(parse_intent_state_toml(raw, envelope, bare)),
        _ => Err(Halt::Need(Action::DecodeIntent { raw: trim(raw).to_owned() })),
    }
}

/// The intent of the shadow file, or the fresh intent.
pub open spec fn intent_from_shadow(h: Seq<Reply>, m: Mark, path: Seq<char>) -> Progress<IntentView> {
    match read_text(h, m, Ask::ReadText { path: lkg_shadow(path) }) {
        Progress::Go(m1, Some(raw)) => match intent_decoded(h, m1, raw) {
            Progress::Go(m2, Ok(i)) => Progress::Go(m2, i),
            Progress::Go(m2, Err(_)) => Progress::Go(m2, intent_default()),
            Progress::Need(a) => Progress::Need(a),
            Progress::Fail(e) => Progress::Fail(e),
        },
        Progress::Go(m1, None) => Progress::Go(m1, intent_default()),
        Progress::Need(a) => Progress::Need(a),
        Progress::Fail(e) => Progress::Fail(e),
    }
}

/// The stored intent: that of the file; where the file is missing or cannot be read,
/// that of its shadow; where that fails too, the fresh intent.
pub open spec fn intent_loaded(h: Seq<Reply>, m: Mark, dir: Option<Seq<char>>) -> Progress<IntentView> {
    match state_file(dir, INTENT_FILE@) {
        Err(e) => Progress::Fail(e),
        Ok(path) => match read_text(h, m, Ask::ReadText { path }) {
            Progress::Go(m1, Some(raw)) => match intent_decoded(h, m1, raw) {
                Progress::Go(m2, Ok(i)) => Progress::Go(m2, i),
                Progress::Go(m2, Err(_)) => intent_from_shadow(h, m2, path),
                Progress::Need(a) => Progress::Need(a),
                Progress::Fail(e) => Progress::Fail(e),
            },
            Progress::Go(m1, None) => intent_from_shadow(h, m1, path),
            Progress::Need(a) => Progress::Need(a),
            Progress::Fail(e) => Progress::Fail(e),
        },
    }
}

/// Loads the stored intent, as [`intent_loaded`] says.
pub fn load_intent(run: &mut Run, dir: Option<&str>) -> (r: Result<NetworkIntent, Halt>)
    requires
        old(run).wf(),
    ensures
        final(run).follows(old(run)),
        match r {
            Ok(v) => intent_loaded(old(run).replies@, old(run)@, opt_slice(dir)) == Progress::Go(final(run)@, v@),
            Err(h) => intent_loaded(old(run).replies@, old(run)@, opt_slice(dir)) == h.stop::<IntentView>(),
        },
{
    let path = match state_path(dir, INTENT_FILE) {
        Ok(p) => p,
        Err(e) => return Err(Halt::Fail(e)),
    };
    match run.read_file(path.as_str()) {
        Ok(v) => match v {
            Some(raw) => match decode_intent(run, raw.as_str()) {
                Ok(Ok(i)) => return Ok(i),
                Ok(Err(_)) => {},
                Err(h) => return Err(h),
            },
            None => {},
        },
        Err(h) => return Err(h),
    }
    match run.read_file(lkg_shadow_path(path.as_str()).as_str()) {
        Ok(v) => match v {
            Some(raw) => match decode_intent(run, raw.as_str()) {
                Ok(Ok(i)) => Ok(i),
                Ok(Err(_)) => Ok(NetworkIntent::default()),
                Err(h) => Err(h),
            },
            None => Ok(NetworkIntent::default()),
        },
        Err(h) => Err(h),
    }
}

/// Storing an intent: it is serialized with its schema version and written.
pub open spec fn intent_saved(h: Seq<Reply>, m: Mark, dir: Option<Seq<char>>, intent: IntentView) -> Progress<()> {
    match state_file(dir, INTENT_FILE@) {
        Err(e) => Progress::Fail(e),
        Ok(path) => match encoded(h, m, Ask::EncodeIntent { schema_version: 1, intent }) {
            Progress::Go(m1, Ok(text)) => text_written(h, m1, path, text),
            Progress::Go(m1, Err(e)) => Progress::Fail(ErrorView::Permanent("intent serialization failed: "@ + e)),
            Progress::Need(a) => Progress::Need(a),
            Progress::Fail(e) => Progress::Fail(e),
        },
    }
}

/// Stores an intent.
pub fn save_intent(run: &mut Run, dir: Option<&str>, intent: &NetworkIntent) -> (r: Result<(), Halt>)
    requires
        old(run).wf(),
    ensures
        final(run).follows(old(run)),
        match r {
            Ok(v) => intent_saved(old(run).replies@, old(run)@, opt_slice(dir), intent@) == Progress::Go(final(run)@, v),
            Err(h) => intent_saved(old(run).replies@, old(run)@, opt_slice(dir), intent@) == h.stop::<()>(),
        },
{
    let path = match state_path(dir, INTENT_FILE) {
        Ok(p) => p,
        Err(e) => return Err(Halt::Fail(e)),
    };
    match run.encode(Action::EncodeIntent { schema_version: 1, intent: intent.duplicate() }) {
        Ok(v) => match v {
            Ok(text) => write_text_atomic_with_lkg(run, path.as_str(), text.as_str()),
            Err(e) => Err(Halt::Fail(PluginError::Permanent(cat("intent serialization failed: ", e.as_str())))),
        },
        Err(h) => Err(h),
    }
}

// The captive-portal session.

/// The view of a document read with its envelope.
pub open spec fn versioned_captive(r: Result<(u32, CaptiveSessionState), String>) -> Result<(u32, CaptiveView), Seq<char>> {
    match r {
        Ok((v, s)) => Ok((v, s@)),
        Err(e) => Err(e@),
    }
}

/// The session of a document: blank is no session, an envelope tells its schema, and a
/// session without one is of schema 0.
pub open spec fn captive_in(
    raw: Seq<char>,
    envelope: Result<(u32, CaptiveView), Seq<char>>,
    bare: Result<CaptiveView, Seq<char>>,
) -> Result<CaptiveView, Seq<char>> {
    if is_blank(raw) {
        Ok(captive_default())
    } else {
        match envelope {
            Ok((v, s)) => migrated_captive(v, s),
            Err(e) => match bare {
                Ok(s) => migrated_captive(0, s),
                Err(b) => Err("captive state parse failed (envelope: "@ + e + "; legacy: "@ + b + ")"@),
            },
        }
    }
}

/// Reads the session of a document from its text and its two readings.
pub fn parse_captive_state_json(
    raw: &str,
    envelope: &Result<(u32, CaptiveSessionState), String>,
    bare: &Result<CaptiveSessionState, String>,
) -> (r: Result<CaptiveSessionState, String>)
    ensures
        captive_result(r) == captive_in(raw@, versioned_captive(*envelope), captive_result(*bare)),
{
    if blank(raw) {
        return Ok(CaptiveSessionState::default());
    }
    match envelope {
        Ok(p) => migrate_captive_state(p.0, p.1.duplicate()),
        Err(e) => match bare {
            Ok(s) => migrate_captive_state(0, s.duplicate()),
            Err(b) => Err(
                cat5("captive state parse failed (envelope: ", e.as_str(), "; legacy: ", b.as_str(), ")"),
            ),
        },
    }
}

/// The session of the text at this point.
pub open spec fn captive_decoded(h: Seq<Reply>, m: Mark, raw: Seq<char>) -> Progress<Result<CaptiveView, Seq<char>>> {
    if is_blank(raw) {
        Progress::Go(m, Ok(captive_default()))
    } else {
        match reply_at(h, m.pos) {
            Some(Reply::CaptiveDoc { envelope, bare }) => Progress::Go(
                m.read(),
                captive_in(raw, versioned_captive(envelope), captive_result(bare)),
            ),
            _ => Progress::Need(Ask::DecodeCaptive { raw: trimmed(raw) }),
        }
    }
}

fn decode_captive(run: &mut Run, raw: &str) -> (r: Result<Result<CaptiveSessionState, String>, Halt>)
    requires
        old(run).wf(),
    ensures
        final(run).follows(old(run)),
        match r {
            Ok(v) => captive_decoded(old(run).replies@, old(run)@, raw@) == Progress::Go(final(run)@, captive_result(v)),
            Err(h) => captive_decoded(old(run).replies@, old(run)@, raw@) == h.stop::<Result<CaptiveView, Seq<char>>>(),
        },
{
    if blank(raw) {
        return Ok(Ok(CaptiveSessionState::default()));
    }
    match run.next() {
        Some(Reply::CaptiveDoc { envelope, bare }) => Ok(parse_captive_state_json(raw, envelope, bare)),
        _ => Err(Halt::Need(Action::DecodeCaptive { raw: trim(raw).to_owned() })),
    }
}

/// The session of the shadow file, or no session.
pub open spec fn captive_from_shadow(h: Seq<Reply>, m: Mark, path: Seq<char>) -> Progress<CaptiveView> {
    match read_text(h, m, Ask::ReadText { path: lkg_shadow(path) }) {
        Progress::Go(m1, Some(raw)) => match captive_decoded(h, m1, raw) {
            Progress::Go(m2, Ok(s)) => Progress::Go(m2, s),
            Progress::Go(m2, Err(_)) => Progress::Go(m2, captive_default()),
            Progress::Need(a) => Progress::Need(a),
            Progress::Fail(e) => Progress::Fail(e),
        },
        Progress::Go(m1, None) => Progress::Go(m1, captive_default()),
        Progress::Need(a) => Progress::Need(a),
        Progress::Fail(e) => Progress::Fail(e),
    }
}

/// The stored session: that of the file; where the file is missing or cannot be read,
/// that of its shadow; where that fails too, none.
pub open spec fn captive_loaded(h: Seq<Reply>, m: Mark, dir: Option<Seq<char>>) -> Progress<CaptiveView> {
    match state_file(dir, CAPTIVE_FILE@) {
        Err(e) => Progress::Fail(e),
        Ok(path) => match read_text(h, m, Ask::ReadText { path }) {
            Progress::Go(m1, Some(raw)) => match captive_decoded(h, m1, raw) {
                Progress::Go(m2, Ok(s)) => Progress::Go(m2, s),
                Progress::Go(m2, Err(_)) => captive_from_shadow(h, m2, path),
                Progress::Need(a) => Progress::Need(a),
                Progress::Fail(e) => Progress::Fail(e),
            },
            Progress::Go(m1, None) => captive_from_shadow(h, m1, path),
            Progress::Need(a) => Progress::Need(a),
            Progress::Fail(e) => Progress::Fail(e),
        },
    }
}

/// Loads the stored session, as [`captive_loaded`] says.
pub fn load_captive_state(run: &mut Run, dir: Option<&str>) -> (r: Result<CaptiveSessionState, Halt>)
    requires
        old(run).wf(),
    ensures
        final(run).follows(old(run)),
        match r {
            Ok(v) => captive_loaded(old(run).replies@, old(run)@, opt_slice(dir)) == Progress::Go(final(run)@, v@),
            Err(h) => captive_loaded(old(run).replies@, old(run)@, opt_slice(dir)) == h.stop::<CaptiveView>(),
        },
{
    let path = match state_path(dir, CAPTIVE_FILE) {
        Ok(p) => p,
        Err(e) => return Err(Halt::Fail(e)),
    };
    match run.read_file(path.as_str()) {
        Ok(v) => match v {
            Some(raw) => match decode_captive(run, raw.as_str()) {
                Ok(Ok(s)) => return Ok(s),
                Ok(Err(_)) => {},
                Err(h) => return Err(h),
            },
            None => {},
        },
        Err(h) => return Err(h),
    }
    match run.read_file(lkg_shadow_path(path.as_str()).as_str()) {
        Ok(v) => match v {
            Some(raw) => match decode_captive(run, raw.as_str()) {
                Ok(Ok(s)) => Ok(s),
                Ok(Err(_)) => Ok(CaptiveSessionState::default()),
                Err(h) => Err(h),
            },
            None => Ok(CaptiveSessionState::default()),
        },
        Err(h) => Err(h),
    }
}

/// Storing a session: it is serialized with its schema version and written.
pub open spec fn captive_saved(h: Seq<Reply>, m: Mark, dir: Option<Seq<char>>, state: CaptiveView) -> Progress<()> {
    match state_file(dir, CAPTIVE_FILE@) {
        Err(e) => Progress::Fail(e),
        Ok(path) => match encoded(h, m, Ask::EncodeCaptive { schema_version: 1, state }) {
            Progress::Go(m1, Ok(text)) => text_written(h, m1, path, text),
            Progress::Go(m1, Err(e)) => Progress::Fail(
                ErrorView::Permanent("captive state serialization failed: "@ + e),
            ),
            Progress::Need(a) => Progress::Need(a),
            Progress::Fail(e) => Progress::Fail(e),
        },
    }
}

/// Stores a session.
pub fn save_captive_state(run: &mut Run, dir: Option<&str>, state: &CaptiveSessionState) -> (r: Result<(), Halt>)
    requires
        old(run).wf(),
    ensures
        final(run).follows(old(run)),
        match r {
            Ok(v) => captive_saved(old(run).replies@, old(run)@, opt_slice(dir), state@) == Progress::Go(final(run)@, v),
            Err(h) => captive_saved(old(run).replies@, old(run)@, opt_slice(dir), state@) == h.stop::<()>(),
        },
{
    let path = match state_path(dir, CAPTIVE_FILE) {
        Ok(p) => p,
        Err(e) => return Err(Halt::Fail(e)),
    };
    match run.encode(Action::EncodeCaptive { schema_version: 1, state: state.duplicate() }) {
        Ok(v) => match v {
            Ok(text) => write_text_atomic_with_lkg(run, path.as_str(), text.as_str()),
            Err(e) => Err(
                Halt::Fail(PluginError::Permanent(cat("captive state serialization failed: ", e.as_str()))),
            ),
        },
        Err(h) => Err(h),
    }
}

// Secrets.

/// The secret in an envelope, or the error that comes instead. A text at which the
/// cipher would run past its keystream is refused as one that it did not seal.
pub open spec fn opening(envelope: EnvelopeView, key: Seq<u8>) -> Result<Seq<char>, ErrorView> {
    if openable(envelope) {
        opened_secret(envelope, key)
    } else {
        Err(ErrorView::Permanent("cannot decrypt secret value: aead::Error"@))
    }
}

fn open_envelope(envelope: &SecretEnvelope, key: &[u8; 32]) -> (r: Result<String, PluginError>)
    ensures
        text_result(r) == opening(envelope@, key@),
{
    match decrypt_if_openable(envelope, key) {
        Some(opened) => opened,
        None => Err(permanent("cannot decrypt secret value: aead::Error")),
    }
}

/// The secret in a file's text, given the envelope that it is, where it is one: an
/// envelope is opened with the key; a plain text is the secret itself, unless secrets
/// have to be sealed.
pub open spec fn secret_in(cfg: ConfigView, path: Seq<char>, raw: Seq<char>, envelope: Option<EnvelopeView>) -> Result<
    Seq<char>,
    ErrorView,
> {
    match envelope {
        Some(env) => match cfg.secret_key {
            Some(key) => opening(env, key),
            None => Err(
                ErrorView::Permanent("encrypted secret "@ + path + " requires "@ + ENV_SECRET_KEY@),
            ),
        },
        None => if cfg.require_encrypted_secrets {
            Err(
                ErrorView::Permanent("plaintext secret "@ + path + " rejected; encrypted secrets required"@),
            )
        } else {
            Ok(trimmed(raw))
        },
    }
}

/// The view of an optional envelope.
pub open spec fn opt_envelope(e: Option<SecretEnvelope>) -> Option<EnvelopeView> {
    match e {
        Some(e) => Some(e@),
        None => None,
    }
}

/// Reads the secret in a file's text, as [`secret_in`] says.
pub fn secret_of(cfg: &PluginConfig, path: &str, raw: &str, envelope: &Option<SecretEnvelope>) -> (r: Result<
    String,
    PluginError,
>)
    ensures
        text_result(r) == secret_in(cfg@, path@, raw@, opt_envelope(*envelope)),
{
    match envelope {
        Some(env) => match &cfg.secret_key {
            Some(key) => open_envelope(env, key),
            None => Err(PluginError::Permanent(cat4("encrypted secret ", path, " requires ", ENV_SECRET_KEY))),
        },
        None => if cfg.require_encrypted_secrets {
            Err(
                PluginError::Permanent(
                    cat3("plaintext secret ", path, " rejected; encrypted secrets required"),
                ),
            )
        } else {
            Ok(trim(raw).to_owned())
        },
    }
}

/// The stored secret: none where the file is missing or blank.
pub open spec fn secret_read(h: Seq<Reply>, m: Mark, cfg: ConfigView, path: Seq<char>) -> Progress<Option<Seq<char>>> {
    match read_text(h, m, Ask::ReadText { path }) {
        Progress::Go(m1, Some(raw)) => if is_blank(raw) {
            Progress::Go(m1, None)
        } else {
            match reply_at(h, m1.pos) {
                Some(Reply::SecretDoc(envelope)) => match secret_in(cfg, path, raw, opt_envelope(envelope)) {
                    Ok(s) => Progress::Go(m1.read(), Some(s)),
                    Err(e) => Progress::Fail(e),
                },
                _ => Progress::Need(Ask::DecodeSecret { raw: trimmed(raw) }),
            }
        },
        Progress::Go(m1, None) => Progress::Go(m1, None),
        Progress::Need(a) => Progress::Need(a),
        Progress::Fail(e) => Progress::Fail(e),
    }
}

/// Reads a stored secret, as [`secret_read`] says.
pub fn read_optional_secret(run: &mut Run, cfg: &PluginConfig, path: &str) -> (r: Result<Option<String>, Halt>)
    requires
        old(run).wf(),
    ensures
        final(run).follows(old(run)),
        match r {
            Ok(v) => secret_read(old(run).replies@, old(run)@, cfg@, path@) == Progress::Go(final(run)@, opt_text(v)),
            Err(h) => secret_read(old(run).replies@, old(run)@, cfg@, path@) == h.stop::<Option<Seq<char>>>(),
        },
{
    let raw = match run.read_file(path) {
        Ok(v) => match v {
            Some(s) => s,
            None => return Ok(None),
        },
        Err(h) => return Err(h),
    };
    if blank(raw.as_str()) {
        return Ok(None);
    }
    match run.next() {
        Some(Reply::SecretDoc(envelope)) => match secret_of(cfg, path, raw.as_str(), envelope) {
            Ok(s) => Ok(Some(s)),
            Err(e) => Err(Halt::Fail(e)),
        },
        _ => Err(Halt::Need(Action::DecodeSecret { raw: trim(raw.as_str()).to_owned() })),
    }
}

/// The envelope of a secret, or the error that comes instead. A secret that does not fit
/// the cipher is refused as one that is too long for it.
pub open spec fn sealing(value: Seq<char>, key: Seq<u8>, nonce: Seq<u8>) -> Result<EnvelopeView, ErrorView> {
    if secret_fits(value) {
        sealed_secret(value, key, nonce)
    } else {
        Err(ErrorView::Permanent("cannot encrypt secret value: aead::Error"@))
    }
}

fn seal(value: &str, key: &[u8; 32], nonce: &[u8; 24]) -> (r: Result<SecretEnvelope, PluginError>)
    ensures
        envelope_result(r) == sealing(value@, key@, nonce@),
        r matches Ok(env) ==> opening(env@, key@) == Ok::<Seq<char>, ErrorView>(trimmed(value@)),
{
    if fits_the_cipher(value) {
        seal_secret(value, key, nonce)
    } else {
        Err(permanent("cannot encrypt secret value: aead::Error"))
    }
}

/// The text of a secret's file: the sealed envelope where there is a key, else the
/// secret on a line, unless secrets have to be sealed.
pub open spec fn secret_payload(h: Seq<Reply>, m: Mark, cfg: ConfigView, value: Seq<char>) -> Progress<Seq<char>> {
    match cfg.secret_key {
        Some(key) => match reply_at(h, m.pos) {
            Some(Reply::Nonce(Ok(nonce))) => match sealing(value, key, nonce@) {
                Ok(envelope) => match encoded(h, m.read(), Ask::EncodeSecret { envelope }) {
                    Progress::Go(m1, Ok(text)) => Progress::Go(m1, text),
                    Progress::Go(m1, Err(e)) => Progress::Fail(
                        ErrorView::Permanent("cannot serialize encrypted secret envelope: "@ + e),
                    ),
                    Progress::Need(a) => Progress::Need(a),
                    Progress::Fail(e) => Progress::Fail(e),
                },
                Err(e) => Progress::Fail(e),
            },
            Some(Reply::Nonce(Err(e))) => Progress::Fail(e@),
            _ => Progress::Need(Ask::DrawNonce),
        },
        None => if cfg.require_encrypted_secrets {
            Progress::Fail(
                ErrorView::Permanent(ENV_SECRET_KEY@ + " required by "@ + ENV_SECRET_REQUIRE@ + " but key is missing"@),
            )
        } else {
            Progress::Go(m, value + "\n"@)
        },
    }
}

/// Whether an envelope opens, under the configured key, to a value without the white
/// space at its ends.
pub open spec fn opens_to(cfg: ConfigView, envelope: EnvelopeView, value: Seq<char>) -> bool {
    cfg.secret_key matches Some(key) && opening(envelope, key) == Ok::<Seq<char>, ErrorView>(trimmed(value))
}

fn secret_text(run: &mut Run, cfg: &PluginConfig, value: &str) -> (r: Result<String, Halt>)
    requires
        old(run).wf(),
    ensures
        final(run).follows(old(run)),
        match r {
            Ok(v) => secret_payload(old(run).replies@, old(run)@, cfg@, value@) == Progress::Go(final(run)@, v@),
            Err(h) => secret_payload(old(run).replies@, old(run)@, cfg@, value@) == h.stop::<Seq<char>>(),
        },
        r matches Err(Halt::Need(Action::EncodeSecret { envelope })) ==> opens_to(cfg@, envelope@, value@),
{
    match &cfg.secret_key {
        Some(key) => match run.next() {
            Some(Reply::Nonce(Ok(nonce))) => match seal(value, key, nonce) {
                Ok(envelope) => match run.encode(Action::EncodeSecret { envelope }) {
                    Ok(v) => match v {
                        Ok(text) => Ok(text.clone()),
                        Err(e) => Err(
                            Halt::Fail(
                                PluginError::Permanent(
                                    cat("cannot serialize encrypted secret envelope: ", e.as_str()),
                                ),
                            ),
                        ),
                    },
                    Err(h) => Err(h),
                },
                Err(e) => Err(Halt::Fail(e)),
            },
            Some(Reply::Nonce(Err(e))) => Err(Halt::Fail(e.duplicate())),
            _ => Err(Halt::Need(Action::DrawNonce)),
        },
        None => if cfg.require_encrypted_secrets {
            Err(
                Halt::Fail(
                    PluginError::Permanent(
                        cat4(ENV_SECRET_KEY, " required by ", ENV_SECRET_REQUIRE, " but key is missing"),
                    ),
                ),
            )
        } else {
            Ok(cat(value, "\n"))
        },
    }
}

/// The error of a secret file that could not be written, by the step that failed.
pub open spec fn secret_write_error(w: SecretWrite, path: Seq<char>) -> Option<ErrorView> {
    let tmp = tmp_shadow(path);
    match w {
        SecretWrite::Done => None,
        SecretWrite::ParentFailed(e) => Some(
            ErrorView::Permanent("cannot create parent "@ + parent_of(path) + ": "@ + e@),
        ),
        SecretWrite::OpenFailed(e) => Some(ErrorView::Permanent("cannot open "@ + tmp + ": "@ + e@)),
        SecretWrite::WriteFailed(e) => Some(ErrorView::Permanent("cannot write "@ + tmp + ": "@ + e@)),
        SecretWrite::FlushFailed(e) => Some(ErrorView::Permanent("cannot flush "@ + tmp + ": "@ + e@)),
        SecretWrite::SyncFailed(e) => Some(ErrorView::Permanent("cannot sync "@ + tmp + ": "@ + e@)),
        SecretWrite::RenameFailed(e) => Some(
            ErrorView::Permanent("cannot rename "@ + tmp + " -> "@ + path + ": "@ + e@),
        ),
    }
}

fn secret_write_failure(w: &SecretWrite, path: &str) -> (r: Option<PluginError>)
    ensures
        match r {
            Some(e) => secret_write_error(*w, path@) == Some(e@),
            None => secret_write_error(*w, path@) is None,
        },
{
    let tmp = tmp_shadow_path(path);
    match w {
        SecretWrite::Done => None,
        SecretWrite::ParentFailed(e) => Some(
            PluginError::Permanent(cat4("cannot create parent ", parent_path(path), ": ", e.as_str())),
        ),
        SecretWrite::OpenFailed(e) => Some(
            PluginError::Permanent(cat4("cannot open ", tmp.as_str(), ": ", e.as_str())),
        ),
        SecretWrite::WriteFailed(e) => Some(
            PluginError::Permanent(cat4("cannot write ", tmp.as_str(), ": ", e.as_str())),
        ),
        SecretWrite::FlushFailed(e) => Some(
            PluginError::Permanent(cat4("cannot flush ", tmp.as_str(), ": ", e.as_str())),
        ),
        SecretWrite::SyncFailed(e) => Some(
            PluginError::Permanent(cat4("cannot sync ", tmp.as_str(), ": ", e.as_str())),
        ),
        SecretWrite::RenameFailed(e) => {
            let head = cat5("cannot rename ", tmp.as_str(), " -> ", path, ": ");
            Some(PluginError::Permanent(cat(head.as_str(), e.as_str())))
        },
    }
}

/// Writing a secret file.
pub open spec fn secret_bytes_written(h: Seq<Reply>, m: Mark, path: Seq<char>, data: Seq<char>) -> Progress<()> {
    match reply_at(h, m.pos) {
        Some(Reply::SecretWrote(w)) => match secret_write_error(w, path) {
            Some(e) => Progress::Fail(e),
            None => Progress::Go(m.read(), ()),
        },
        _ => Progress::Need(Ask::WriteSecret { path, tmp: tmp_shadow(path), data, mode: SECRET_FILE_MODE }),
    }
}

/// Writes a secret file that only its owner can read.
pub fn write_secret_bytes_atomic(run: &mut Run, path: &str, data: String) -> (r: Result<(), Halt>)
    requires
        old(run).wf(),
    ensures
        final(run).follows(old(run)),
        match r {
            Ok(v) => secret_bytes_written(old(run).replies@, old(run)@, path@, data@) == Progress::Go(final(run)@, v),
            Err(h) => secret_bytes_written(old(run).replies@, old(run)@, path@, data@) == h.stop::<()>(),
        },
{
    match run.next() {
        Some(Reply::SecretWrote(w)) => match secret_write_failure(w, path) {
            Some(e) => Err(Halt::Fail(e)),
            None => Ok(()),
        },
        _ => Err(
            Halt::Need(
                Action::WriteSecret {
                    path: path.to_owned(),
                    tmp: tmp_shadow_path(path),
                    data,
                    mode: SECRET_FILE_MODE,
                },
            ),
        ),
    }
}

/// Storing a secret: a value is sealed and written; without one the file is removed.
pub open spec fn secret_written(h: Seq<Reply>, m: Mark, cfg: ConfigView, path: Seq<char>, value: Option<Seq<char>>) -> Progress<
    (),
> {
    if value matches Some(v) && !is_blank(v) {
        match secret_payload(h, m, cfg, trimmed(value->0)) {
            Progress::Go(m1, data) => secret_bytes_written(h, m1, path, data),
            Progress::Need(a) => Progress::Need(a),
            Progress::Fail(e) => Progress::Fail(e),
        }
    } else {
        match probed(h, m, path) {
            Progress::Go(m1, true) => match wrote(h, m1, Ask::Remove { path }) {
                Progress::Go(m2, Ok(_)) => Progress::Go(m2, ()),
                Progress::Go(m2, Err(e)) => Progress::Fail(
                    ErrorView::Permanent("cannot remove "@ + path + ": "@ + e),
                ),
                Progress::Need(a) => Progress::Need(a),
                Progress::Fail(e) => Progress::Fail(e),
            },
            Progress::Go(m1, false) => Progress::Go(m1, ()),
            Progress::Need(a) => Progress::Need(a),
            Progress::Fail(e) => Progress::Fail(e),
        }
    }
}

/// Stores a secret, as [`secret_written`] says. An envelope that is handed out to be
/// serialized opens, under the configured key, to the secret.
pub fn write_optional_secret(run: &mut Run, cfg: &PluginConfig, path: &str, value: Option<&str>) -> (r: Result<(), Halt>)
    requires
        old(run).wf(),
    ensures
        final(run).follows(old(run)),
        match r {
            Ok(v) => secret_written(old(run).replies@, old(run)@, cfg@, path@, opt_slice(value)) == Progress::Go(
                final(run)@,
                v,
            ),
            Err(h) => secret_written(old(run).replies@, old(run)@, cfg@, path@, opt_slice(value)) == h.stop::<()>(),
        },
        r matches Err(Halt::Need(Action::EncodeSecret { envelope })) ==> (value matches Some(v) && opens_to(
            cfg@,
            envelope@,
            v@,
        )),
{
    proof {
        if let Some(v) = value {
            trimming_is_idempotent(v@);
        }
    }
    if let Some(v) = value {
        let t = trim(v);
        if !t.is_empty() {
            return match secret_text(run, cfg, t) {
                Ok(data) => write_secret_bytes_atomic(run, path, data),
                Err(h) => Err(h),
            };
        }
    }
    match run.probe(path) {
        Ok(true) => match run.write(Action::Remove { path: path.to_owned() }) {
            Ok(v) => match v {
                Ok(_) => Ok(()),
                Err(e) => Err(
                    Halt::Fail(PluginError::Permanent(cat4("cannot remove ", path, ": ", e.as_str()))),
                ),
            },
            Err(h) => Err(h),
        },
        Ok(false) => Ok(()),
        Err(h) => Err(h),
    }
}

/// Whether the replies go on with a text that is read, and then with a reading of its
/// document: the text is not blank and denotes the intent, under the schema that is
/// written.
pub open spec fn holds_intent(h: Seq<Reply>, pos: int, intent: IntentView) -> bool {
    &&& reply_at(h, pos) matches Some(Reply::Text(Some(raw)))
    &&& !is_blank(raw@)
    &&& reply_at(h, pos + 1) matches Some(Reply::IntentDoc { envelope, bare })
    &&& versioned_intent(envelope) == Ok::<(u32, IntentView), Seq<char>>((1, intent))
}

/// A stored intent is loaded again. Storing writes its document under the schema's
/// version, first to the file and then to the file's shadow; and where the file that is
/// read holds a document of that version, the intent in it is the one that is loaded.
pub proof fn stored_intents_load(h: Seq<Reply>, m: Mark, dir: Seq<char>, intent: IntentView, text: String, later: Seq<Reply>, n: Mark)
    requires
        reply_at(h, m.pos) == Some(Reply::Encoded(Ok(text))),
        reply_at(h, m.pos + 1) == Some(Reply::Wrote(Ok(()))),
        reply_at(h, m.pos + 2) is None,
        intent.version != 0,
        holds_intent(later, n.pos, intent),
    ensures
        intent_saved(seq![], m, Some(dir), intent) == Progress::<()>::Need(
            Ask::EncodeIntent { schema_version: 1, intent },
        ),
        intent_saved(h.take(m.pos + 1), m, Some(dir), intent) == Progress::<()>::Need(
            Ask::WriteText {
                path: joined(dir, INTENT_FILE@),
                tmp: tmp_shadow(joined(dir, INTENT_FILE@)),
                data: text@,
            },
        ),
        intent_saved(h, m, Some(dir), intent) == Progress::<()>::Need(
            Ask::WriteText {
                path: lkg_shadow(joined(dir, INTENT_FILE@)),
                tmp: tmp_shadow(lkg_shadow(joined(dir, INTENT_FILE@))),
                data: text@,
            },
        ),
        intent_loaded(later, n, Some(dir)) == Progress::Go(n.read().read(), intent),
{
}

/// A stored intent outlives its file: where the file is missing, or what it holds cannot
/// be understood, the intent in its shadow is the one that is loaded.
pub proof fn shadows_stand_in_for_intents(h: Seq<Reply>, m: Mark, dir: Seq<char>, intent: IntentView)
    requires
        intent.version != 0,
        reply_at(h, m.pos) is Some,
        reply_at(h, m.pos)->0 is Text,
        match reply_at(h, m.pos) {
            Some(Reply::Text(None)) => holds_intent(h, m.pos + 1, intent),
            Some(Reply::Text(Some(raw))) => {
                &&& !is_blank(raw@)
                &&& reply_at(h, m.pos + 1) matches Some(Reply::IntentDoc { envelope, bare })
                &&& envelope is Err
                &&& bare is Err
                &&& holds_intent(h, m.pos + 2, intent)
            },
            _ => false,
        },
    ensures
        intent_loaded(h, m, Some(dir)) is Go,
        intent_loaded(h, m, Some(dir))->Go_1 == intent,
{
}

/// Whether the replies go on with a text that is read, and then with a reading of its
/// document: the text is not blank and denotes the session, under the schema that is
/// written.
pub open spec fn holds_session(h: Seq<Reply>, pos: int, state: CaptiveView) -> bool {
    &&& reply_at(h, pos) matches Some(Reply::Text(Some(raw)))
    &&& !is_blank(raw@)
    &&& reply_at(h, pos + 1) matches Some(Reply::CaptiveDoc { envelope, bare })
    &&& versioned_captive(envelope) == Ok::<(u32, CaptiveView), Seq<char>>((1, state))
}

/// A stored session is loaded again, as a stored intent is.
pub proof fn stored_sessions_load(h: Seq<Reply>, m: Mark, dir: Seq<char>, state: CaptiveView, text: String, later: Seq<Reply>, n: Mark)
    requires
        reply_at(h, m.pos) == Some(Reply::Encoded(Ok(text))),
        reply_at(h, m.pos + 1) == Some(Reply::Wrote(Ok(()))),
        reply_at(h, m.pos + 2) is None,
        holds_session(later, n.pos, state),
    ensures
        captive_saved(seq![], m, Some(dir), state) == Progress::<()>::Need(
            Ask::EncodeCaptive { schema_version: 1, state },
        ),
        captive_saved(h.take(m.pos + 1), m, Some(dir), state) == Progress::<()>::Need(
            Ask::WriteText {
                path: joined(dir, CAPTIVE_FILE@),
                tmp: tmp_shadow(joined(dir, CAPTIVE_FILE@)),
                data: text@,
            },
        ),
        captive_saved(h, m, Some(dir), state) == Progress::<()>::Need(
            Ask::WriteText {
                path: lkg_shadow(joined(dir, CAPTIVE_FILE@)),
                tmp: tmp_shadow(lkg_shadow(joined(dir, CAPTIVE_FILE@))),
                data: text@,
            },
        ),
        captive_loaded(later, n, Some(dir)) == Progress::Go(n.read().read(), state),
{
}

/// What is stored in plain text is read back: the file's text, the secret on a line, is
/// read as the secret.
pub proof fn plain_secret_reads_back(h: Seq<Reply>, m: Mark, cfg: ConfigView, path: Seq<char>, value: Seq<char>)
    requires
        cfg.secret_key is None,
        !cfg.require_encrypted_secrets,
        !is_blank(value),
    ensures
        ({
            let data = trimmed(value) + "\n"@;
            &&& secret_payload(h, m, cfg, trimmed(value)) == Progress::<Seq<char>>::Go(m, data)
            &&& !is_blank(data)
            &&& secret_in(cfg, path, data, None) == Ok::<Seq<char>, ErrorView>(trimmed(value))
        }),
{
    let t = trimmed(value);
    let data = t + "\n"@;
    reveal_strlit("\n");
    trimming_is_idempotent(value);
    assert(trim_start(data) == data);
    assert(data.drop_last() =~= t);
    assert(is_space(data.last()));
    assert(trim_end(data) == trim_end(t));
    assert(trim_end(t) == t);
}

/// A sealed secret is read back: a file whose envelope opens to a value is read as the
/// value without the white space at its ends.
pub proof fn sealed_secret_reads_back(cfg: ConfigView, path: Seq<char>, raw: Seq<char>, envelope: EnvelopeView, value: Seq<char>)
    requires
        opens_to(cfg, envelope, value),
    ensures
        secret_in(cfg, path, raw, Some(envelope)) == Ok::<Seq<char>, ErrorView>(trimmed(value)),
{
}

/// A plain text is never taken for a secret where secrets have to be sealed, and a
/// secret is never stored in plain text there.
pub proof fn required_sealing_is_kept(h: Seq<Reply>, m: Mark, cfg: ConfigView, path: Seq<char>, raw: Seq<char>, value: Seq<char>)
    requires
        cfg.require_encrypted_secrets,
    ensures
        secret_in(cfg, path, raw, None) is Err,
        cfg.secret_key is None ==> secret_payload(h, m, cfg, value) is Fail,
{
}

/// Everything that is stored has a file of its own below the state directory; without a
/// state directory nothing is read or written.
pub proof fn state_files_have_their_names(h: Seq<Reply>, m: Mark, dir: Seq<char>, intent: IntentView, state: CaptiveView)
    requires
        reply_at(h, m.pos) is None,
    ensures
        intent_loaded(h, m, Some(dir)) == Progress::<IntentView>::Need(
            Ask::ReadText { path: joined(dir, "network-intent.toml"@) },
        ),
        captive_loaded(h, m, Some(dir)) == Progress::<CaptiveView>::Need(
            Ask::ReadText { path: joined(dir, "captive-session.json"@) },
        ),
        intent_loaded(h, m, None) is Fail,
        captive_loaded(h, m, None) is Fail,
        intent_saved(h, m, None, intent) is Fail,
        captive_saved(h, m, None, state) is Fail,
        INTENT_FILE@ == "network-intent.toml"@,
        CAPTIVE_FILE@ == "captive-session.json"@,
        STA_PSK_FILE@ == "wifi-sta.psk"@,
        AP_PSK_FILE@ == "wifi-ap.psk"@,
{
}

/// A secret that is not blank is written without the white space around it into a file
/// that its owner alone can read and write, on a line of its own where there is no key.
pub proof fn plain_secrets_are_written_for_their_owner(
    h: Seq<Reply>,
    m: Mark,
    cfg: ConfigView,
    path: Seq<char>,
    value: Seq<char>,
)
    requires
        !is_blank(value),
        cfg.secret_key is None,
        !cfg.require_encrypted_secrets,
    ensures
        reply_at(h, m.pos) is None ==> secret_written(h, m, cfg, path, Some(value)) == Progress::<()>::Need(
            Ask::WriteSecret { path, tmp: tmp_shadow(path), data: trimmed(value) + "\n"@, mode: 0o600 },
        ),
        reply_at(h, m.pos) matches Some(Reply::SecretWrote(w)) ==> {
            &&& w is Done ==> secret_written(h, m, cfg, path, Some(value)) == Progress::Go(m.read(), ())
            &&& !(w is Done) ==> secret_written(h, m, cfg, path, Some(value)) is Fail
        },
{
}

/// Where there is a key, a secret is sealed under it with a nonce that was drawn for it,
/// and only the serialized envelope is written, into a file that its owner alone can read
/// and write.
pub proof fn sealed_secrets_are_written_for_their_owner(
    h: Seq<Reply>,
    m: Mark,
    cfg: ConfigView,
    path: Seq<char>,
    value: Seq<char>,
    key: Seq<u8>,
)
    requires
        !is_blank(value),
        cfg.secret_key == Some(key),
    ensures
        reply_at(h, m.pos) is None ==> secret_written(h, m, cfg, path, Some(value)) == Progress::<()>::Need(Ask::DrawNonce),
        reply_at(h, m.pos) matches Some(Reply::Nonce(Ok(nonce))) ==> (secret_fits(trimmed(value)) ==> (sealed_secret(
            trimmed(value),
            key,
            nonce@,
        ) matches Ok(envelope) ==> {
            &&& reply_at(h, m.pos + 1) is None ==> secret_written(h, m, cfg, path, Some(value)) == Progress::<()>::Need(
                Ask::EncodeSecret { envelope },
            )
            &&& reply_at(h, m.pos + 1) matches Some(Reply::Encoded(Ok(text))) ==> {
                &&& reply_at(h, m.pos + 2) is None ==> secret_written(h, m, cfg, path, Some(value)) == Progress::<()>::Need(
                    Ask::WriteSecret { path, tmp: tmp_shadow(path), data: text@, mode: 0o600 },
                )
                &&& reply_at(h, m.pos + 2) matches Some(Reply::SecretWrote(w)) ==> (w is Done <==> secret_written(
                    h,
                    m,
                    cfg,
                    path,
                    Some(value),
                ) is Go)
            }
        })),
        reply_at(h, m.pos) matches Some(Reply::Nonce(Err(e))) ==> secret_written(h, m, cfg, path, Some(value))
            == Progress::<()>::Fail(e@),
{
}

/// A secret that is blank or not given is taken away: its file is removed where there is
/// one, and nothing is written.
pub proof fn blank_secrets_are_removed(h: Seq<Reply>, m: Mark, cfg: ConfigView, path: Seq<char>, value: Option<Seq<char>>)
    requires
        value matches Some(v) ==> is_blank(v),
    ensures
        reply_at(h, m.pos) is None ==> secret_written(h, m, cfg, path, value) == Progress::<()>::Need(
            Ask::Probe { path },
        ),
        reply_at(h, m.pos) == Some(Reply::Present(false)) ==> secret_written(h, m, cfg, path, value) == Progress::Go(
            m.read(),
            (),
        ),
        reply_at(h, m.pos) == Some(Reply::Present(true)) ==> {
            &&& reply_at(h, m.pos + 1) is None ==> secret_written(h, m, cfg, path, value) == Progress::<()>::Need(
                Ask::Remove { path },
            )
            &&& reply_at(h, m.pos + 1) == Some(Reply::Wrote(Ok(()))) ==> secret_written(h, m, cfg, path, value)
                == Progress::Go(m.read().read(), ())
            &&& reply_at(h, m.pos + 1) matches Some(Reply::Wrote(Err(e))) ==> secret_written(h, m, cfg, path, value)
                == Progress::<()>::Fail(ErrorView::Permanent("cannot remove "@ + path + ": "@ + e@))
        },
{
}

/// A missing or blank file holds no secret; any other is read, whatever it holds, before
/// a secret is given out.
pub proof fn secrets_are_read_where_they_are(h: Seq<Reply>, m: Mark, cfg: ConfigView, path: Seq<char>)
    ensures
        reply_at(h, m.pos) is None ==> secret_read(h, m, cfg, path) == Progress::<Option<Seq<char>>>::Need(
            Ask::ReadText { path },
        ),
        reply_at(h, m.pos) == Some(Reply::Text(None)) ==> secret_read(h, m, cfg, path) == Progress::Go(
            m.read(),
            None::<Seq<char>>,
        ),
        reply_at(h, m.pos) matches Some(Reply::Text(Some(raw))) ==> {
            &&& is_blank(raw@) ==> secret_read(h, m, cfg, path) == Progress::Go(m.read(), None::<Seq<char>>)
            &&& !is_blank(raw@) ==> {
                &&& reply_at(h, m.pos + 1) is None ==> secret_read(h, m, cfg, path) == Progress::<Option<Seq<char>>>::Need(
                    Ask::DecodeSecret { raw: trimmed(raw@) },
                )
                &&& reply_at(h, m.pos + 1) == Some(Reply::SecretDoc(None)) && !cfg.require_encrypted_secrets
                    ==> secret_read(h, m, cfg, path) == Progress::Go(m.read().read(), Some(trimmed(raw@)))
                &&& reply_at(h, m.pos + 1) == Some(Reply::SecretDoc(None)) && cfg.require_encrypted_secrets
                    ==> secret_read(h, m, cfg, path) is Fail
            }
        },
{
}

/// A document without an envelope is one of the first schema, and one that is neither
/// says why it is not. A blank document is a fresh one.
pub proof fn bare_documents_are_read(raw: Seq<char>, e: Seq<char>, b: Seq<char>, intent: IntentView, state: CaptiveView)
    requires
        !is_blank(raw),
        intent.version != 0,
    ensures
        intent_in(raw, Err(e), Ok(intent)) == Ok::<IntentView, Seq<char>>(intent),
        captive_in(raw, Err(e), Ok(state)) == Ok::<CaptiveView, Seq<char>>(state),
        intent_in(raw, Ok((1u32, intent)), Err(b)) == Ok::<IntentView, Seq<char>>(intent),
        captive_in(raw, Ok((1u32, state)), Err(b)) == Ok::<CaptiveView, Seq<char>>(state),
        intent_in(raw, Err(e), Err(b)) == Err::<IntentView, Seq<char>>(
            "intent state parse failed (envelope: "@ + e + "; legacy: "@ + b + ")"@,
        ),
        captive_in(raw, Err(e), Err(b)) == Err::<CaptiveView, Seq<char>>(
            "captive state parse failed (envelope: "@ + e + "; legacy: "@ + b + ")"@,
        ),
        intent_in(seq![], Err(e), Err(b)) == Ok::<IntentView, Seq<char>>(intent_default()),
        captive_in(seq![], Err(e), Err(b)) == Ok::<CaptiveView, Seq<char>>(captive_default()),
{
}

/// A file that cannot be written is an error that names it; its shadow is written after
/// it, with the same text, and may fail.
pub proof fn files_are_written_before_their_shadows(h: Seq<Reply>, m: Mark, path: Seq<char>, data: Seq<char>)
    ensures
        reply_at(h, m.pos) is None ==> text_written(h, m, path, data) == Progress::<()>::Need(
            Ask::WriteText { path, tmp: tmp_shadow(path), data },
        ),
        reply_at(h, m.pos) matches Some(Reply::Wrote(Err(e))) ==> text_written(h, m, path, data) == Progress::<()>::Fail(
            ErrorView::Permanent("cannot write "@ + path + " atomically: "@ + e@),
        ),
        reply_at(h, m.pos) == Some(Reply::Wrote(Ok(()))) ==> {
            &&& reply_at(h, m.pos + 1) is None ==> text_written(h, m, path, data) == Progress::<()>::Need(
                Ask::WriteText { path: lkg_shadow(path), tmp: tmp_shadow(lkg_shadow(path)), data },
            )
            &&& reply_at(h, m.pos + 1) matches Some(Reply::Wrote(_)) ==> text_written(h, m, path, data) == Progress::Go(
                m.read().read(),
                (),
            )
        },
{
}

/// A secret that cannot be written says at which step.
pub proof fn failed_secrets_say_where(path: Seq<char>, e: String)
    ensures
        secret_write_error(SecretWrite::Done, path) is None,
        secret_write_error(SecretWrite::ParentFailed(e), path) == Some(
            ErrorView::Permanent("cannot create parent "@ + parent_of(path) + ": "@ + e@),
        ),
        secret_write_error(SecretWrite::OpenFailed(e), path) == Some(
            ErrorView::Permanent("cannot open "@ + tmp_shadow(path) + ": "@ + e@),
        ),
        secret_write_error(SecretWrite::WriteFailed(e), path) == Some(
            ErrorView::Permanent("cannot write "@ + tmp_shadow(path) + ": "@ + e@),
        ),
        secret_write_error(SecretWrite::FlushFailed(e), path) == Some(
            ErrorView::Permanent("cannot flush "@ + tmp_shadow(path) + ": "@ + e@),
        ),
        secret_write_error(SecretWrite::SyncFailed(e), path) == Some(
            ErrorView::Permanent("cannot sync "@ + tmp_shadow(path) + ": "@ + e@),
        ),
        secret_write_error(SecretWrite::RenameFailed(e), path) == Some(
            ErrorView::Permanent("cannot rename "@ + tmp_shadow(path) + " -> "@ + path + ": "@ + e@),
        ),
{
}

} // verus!
