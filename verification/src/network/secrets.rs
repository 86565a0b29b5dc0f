//! Secrets at rest: the sealed envelope in which a Wi-Fi passphrase is stored.

use crate::encoding::{base64_decoded, base64_encoded, decode_base64, encode_base64, in_base64_alphabet, is_base64_char, text_from_utf8, utf8_complaint};
use crate::error::{ErrorView, PluginError};
use crate::number::{decimal, to_decimal};
use crate::text::{cat, is_space, text_eq, trim, trimmed, trimming_is_idempotent, lemma_trim_fixed};
use chacha20poly1305::aead::{Aead, KeyInit};
use chacha20poly1305::{Key, XChaCha20Poly1305, XNonce};
use sha2::{Digest, Sha256};
use vstd::prelude::*;
use vstd::utf8::{decode_utf8, encode_utf8, encode_utf8_decode_utf8, encode_utf8_valid_utf8, valid_utf8};

verus! {

broadcast use vstd::string::group_string_axioms;

/// The envelope schema that is written and read.
pub const SECRET_SCHEMA_VERSION: u32 = 1;

/// The name of the cipher that seals an envelope.
pub const SECRET_CIPHER_XCHACHA20POLY1305: &'static str = "xchacha20poly1305";

/// The environment variable that holds the key material.
pub const ENV_SECRET_KEY: &'static str = "EVO_NETWORK_SECRET_KEY";

/// The environment variable that forbids secrets in plain text.
pub const ENV_SECRET_REQUIRE: &'static str = "EVO_NETWORK_SECRET_REQUIRE";

/// A sealed secret as it stands in its file.
#[derive(Debug, Clone)]
pub struct SecretEnvelope {
    pub schema_version: u32,
    pub cipher: String,
    pub nonce_b64: String,
    pub ciphertext_b64: String,
}

/// [`SecretEnvelope`] over character sequences.
#[verifier::ext_equal]
pub struct EnvelopeView {
    pub schema_version: u32,
    pub cipher: Seq<char>,
    pub nonce_b64: Seq<char>,
    pub ciphertext_b64: Seq<char>,
}

impl View for SecretEnvelope {
    type V = EnvelopeView;

    open spec fn view(&self) -> EnvelopeView {
        EnvelopeView {
            schema_version: self.schema_version,
            cipher: self.cipher@,
            nonce_b64: self.nonce_b64@,
            ciphertext_b64: self.ciphertext_b64@,
        }
    }
}

/// The schema version of an envelope that says none.
pub fn default_secret_schema_version() -> (r: u32)
    ensures
        r == SECRET_SCHEMA_VERSION,
{
    SECRET_SCHEMA_VERSION
}

/// The SHA-256 digest of a message.
pub uninterp spec fn sha256(message: Seq<u8>) -> Seq<u8>;

/// `sha2::Sha256::digest`: the 32-byte digest, which depends on the message alone.
#[verifier::external_body]
fn digest_of(message: &[u8]) -> (r: [u8; 32])
    ensures
        r@ == sha256(message@),
{
    Sha256::digest(message).into()
}

/// What XChaCha20-Poly1305 makes of a message under a key and a nonce.
pub uninterp spec fn xchacha_sealed(key: Seq<u8>, nonce: Seq<u8>, message: Seq<u8>) -> Seq<u8>;

/// The message in a sealed text, where key and nonce are those it was sealed with.
pub uninterp spec fn xchacha_opened(key: Seq<u8>, nonce: Seq<u8>, sealed: Seq<u8>) -> Option<Seq<u8>>;

/// Whether a message is short enough for the cipher's block counter.
pub open spec fn within_cipher_limit(len: nat) -> bool {
    len / 64 < 0xffff_ffff
}

/// Whether a message of this length runs past the end of the keystream although the
/// cipher does not refuse it: its last block, which is not full, is one too many.
pub open spec fn overruns_keystream(len: int) -> bool {
    len / 64 == 0xffff_fffe && len % 64 != 0
}

fn keystream_overrun(len: usize) -> (r: bool)
    ensures
        r == overruns_keystream(len as int),
{
    let n: u64 = len as u64;
    n / 64 == 0xffff_fffe && n % 64 != 0
}

/// `XChaCha20Poly1305::encrypt`: the sealed text, 16 bytes longer than the message,
/// from which opening under the same key and nonce gives the message back. The
/// cipher refuses a message beyond its block counter, with `aead::Error`, and nothing
/// else. It panics at the end of its keystream: messages of the lengths that reach it
/// are left out.
#[verifier::external_body]
fn encrypt_bytes(key: &[u8; 32], nonce: &[u8; 24], message: &[u8]) -> (r: Result<Vec<u8>, String>)
    requires
        message@.len() + 16 <= isize::MAX,
        !overruns_keystream(message@.len() as int),
    ensures
        match r {
            Ok(b) => {
                &&& within_cipher_limit(message@.len())
                &&& b@ == xchacha_sealed(key@, nonce@, message@)
                &&& b@.len() == message@.len() + 16
                &&& xchacha_opened(key@, nonce@, b@) == Some(message@)
            },
            Err(e) => !within_cipher_limit(message@.len()) && e@ == "aead::Error"@,
        },
{
    let cipher = XChaCha20Poly1305::new(Key::from_slice(key));
    cipher.encrypt(XNonce::from_slice(nonce), message).map_err(|e| e.to_string())
}

/// `XChaCha20Poly1305::decrypt`: the message, or `aead::Error` where the text was not
/// sealed under this key and nonce. It panics at the end of its keystream: texts of the
/// lengths that reach it, 16 bytes longer than the message, are left out.
#[verifier::external_body]
fn decrypt_bytes(key: &[u8; 32], nonce: &[u8], sealed: &[u8]) -> (r: Result<Vec<u8>, String>)
    requires
        nonce@.len() == 24,
        !overruns_keystream(sealed@.len() - 16),
    ensures
        match r {
            Ok(b) => xchacha_opened(key@, nonce@, sealed@) == Some(b@),
            Err(e) => xchacha_opened(key@, nonce@, sealed@) is None && e@ == "aead::Error"@,
        },
{
    let cipher = XChaCha20Poly1305::new(Key::from_slice(key));
    cipher.decrypt(XNonce::from_slice(nonce), sealed).map_err(|e| e.to_string())
}

/// `getrandom::fill` on a fresh nonce: random bytes of the system, or its error as
/// text. Nothing is known of the bytes.
#[verifier::external_body]
fn random_bytes() -> (r: Result<[u8; 24], String>)
{
    let mut nonce = [0u8; 24];
    getrandom::fill(&mut nonce).map(|_| nonce).map_err(|e| e.to_string())
}

/// What stands before the key material when a key is derived from it.
pub open spec fn key_domain() -> Seq<char> {
    "org.evoframework.network.nm:secret-key:v1:"@
}

/// Derives the sealing key from key material: the digest of the material, white
/// space at its ends left out, behind a fixed prefix.
pub fn derive_secret_key(raw: &str) -> (r: [u8; 32])
    ensures
        r@ == sha256(encode_utf8(key_domain()) + encode_utf8(trimmed(raw@))),
{
    let prefix = "org.evoframework.network.nm:secret-key:v1:";
    let mut message: Vec<u8> = Vec::new();
    message.extend_from_slice(prefix.as_bytes());
    message.extend_from_slice(trim(raw).as_bytes());
    proof {
        assert(message@ =~= encode_utf8(key_domain()) + encode_utf8(trimmed(raw@)));
    }
    digest_of(message.as_slice())
}

/// The error where no nonce could be drawn, with what the system said of it.
pub open spec fn no_nonce(why: Seq<char>) -> ErrorView {
    ErrorView::Permanent("cannot generate secret nonce: "@ + why)
}

/// The nonce that was drawn, or the error where none could be.
pub fn nonce_drawn(drawn: Result<[u8; 24], String>) -> (r: Result<[u8; 24], PluginError>)
    ensures
        match drawn {
            Ok(n) => r == Ok::<[u8; 24], PluginError>(n),
            Err(why) => r is Err && r->Err_0@ == no_nonce(why@),
        },
{
    match drawn {
        Ok(n) => Ok(n),
        Err(e) => Err(PluginError::Permanent(cat("cannot generate secret nonce: ", e.as_str()))),
    }
}

/// Draws a nonce for [`seal_secret`]: it succeeds or not as the system's source of
/// randomness does, and says why where it does not.
pub fn fresh_nonce() -> (r: Result<[u8; 24], PluginError>)
    ensures
        r matches Err(e) ==> exists|why: Seq<char>| e@ == #[trigger] no_nonce(why),
{
    nonce_drawn(random_bytes())
}

/// The bytes of a secret: white space at its ends is no part of it.
pub open spec fn secret_bytes(plain: Seq<char>) -> Seq<u8> {
    encode_utf8(trimmed(plain))
}

/// Whether a secret can be sealed, or is refused by the cipher: the sealed secret and
/// its base64 notation fit in memory, and the cipher does not run past its keystream.
pub open spec fn secret_fits(plain: Seq<char>) -> bool {
    (secret_bytes(plain).len() + 18) / 3 * 4 <= isize::MAX && !overruns_keystream(secret_bytes(plain).len() as int)
}

/// The envelope of a secret under a key and a nonce, or the error that comes instead.
pub open spec fn sealed_secret(plain: Seq<char>, key: Seq<u8>, nonce: Seq<u8>) -> Result<
    EnvelopeView,
    ErrorView,
> {
    if within_cipher_limit(secret_bytes(plain).len()) {
        Ok(
            EnvelopeView {
                schema_version: SECRET_SCHEMA_VERSION,
                cipher: SECRET_CIPHER_XCHACHA20POLY1305@,
                nonce_b64: base64_encoded(nonce),
                ciphertext_b64: base64_encoded(xchacha_sealed(key, nonce, secret_bytes(plain))),
            },
        )
    } else {
        Err(ErrorView::Permanent("cannot encrypt secret value: "@ + "aead::Error"@))
    }
}

/// The views of a sealing.
pub open spec fn envelope_result(r: Result<SecretEnvelope, PluginError>) -> Result<EnvelopeView, ErrorView> {
    match r {
        Ok(e) => Ok(e@),
        Err(e) => Err(e@),
    }
}

/// Decides [`secret_fits`].
pub fn fits_the_cipher(plain: &str) -> (r: bool)
    ensures
        r == secret_fits(plain@),
{
    let n: usize = trim(plain).as_bytes().len();
    let units: u128 = (n as u128 + 18) / 3;
    units * 4 <= isize::MAX as u128 && !keystream_overrun(n)
}

proof fn lemma_base64_unspaced(s: Seq<char>)
    requires
        in_base64_alphabet(s),
    ensures
        trimmed(s) == s,
{
    if s.len() > 0 {
        assert(is_base64_char(s[0]));
        assert(is_base64_char(s[s.len() - 1]));
        assert(!is_space(s[0]));
        assert(!is_space(s.last()));
    }
    lemma_trim_fixed(s);
}

/// Seals a secret under a key and a nonce. What comes out opens again, under the same
/// key, to the secret without the white space at its ends.
pub fn seal_secret(plain: &str, key: &[u8; 32], nonce: &[u8; 24]) -> (r: Result<SecretEnvelope, PluginError>)
    requires
        secret_fits(plain@),
    ensures
        envelope_result(r) == sealed_secret(plain@, key@, nonce@),
        r matches Ok(env) ==> openable(env@) && opened_secret(env@, key@) == Ok::<Seq<char>, ErrorView>(
            trimmed(plain@),
        ),
{
    let body = trim(plain).as_bytes();
    let sealed = match encrypt_bytes(key, nonce, body) {
        Ok(b) => b,
        Err(e) => return Err(PluginError::Permanent(cat("cannot encrypt secret value: ", e.as_str()))),
    };
    let nonce_b64 = encode_base64(nonce.as_slice());
    let ciphertext_b64 = encode_base64(sealed.as_slice());
    let env = SecretEnvelope {
        schema_version: SECRET_SCHEMA_VERSION,
        cipher: SECRET_CIPHER_XCHACHA20POLY1305.to_owned(),
        nonce_b64,
        ciphertext_b64,
    };
    proof {
        lemma_base64_unspaced(env.nonce_b64@);
        lemma_base64_unspaced(env.ciphertext_b64@);
        reveal_strlit("xchacha20poly1305");
        lemma_trim_fixed(env.cipher@);
        encode_utf8_valid_utf8(trimmed(plain@));
        encode_utf8_decode_utf8(trimmed(plain@));
        trimming_is_idempotent(plain@);
    }
    Ok(env)
}

/// Seals a secret under a key and a nonce of the system's randomness. Where the
/// randomness cannot be had, or the cipher refuses the secret's length, there is no
/// envelope; whichever nonce was drawn, the envelope opens to the secret.
pub fn encrypt_secret_value(plain: &str, key: &[u8; 32]) -> (r: Result<SecretEnvelope, PluginError>)
    requires
        secret_fits(plain@),
    ensures
        match r {
            Ok(env) => {
                &&& within_cipher_limit(secret_bytes(plain@).len())
                &&& exists|nonce: [u8; 24]|
                    sealed_secret(plain@, key@, #[trigger] nonce@) == Ok::<EnvelopeView, ErrorView>(env@)
                &&& openable(env@)
                &&& opened_secret(env@, key@) == Ok::<Seq<char>, ErrorView>(trimmed(plain@))
            },
            Err(e) => {
                ||| exists|why: Seq<char>| e@ == #[trigger] no_nonce(why)
                ||| !within_cipher_limit(secret_bytes(plain@).len()) && e@ == ErrorView::Permanent(
                    "cannot encrypt secret value: "@ + "aead::Error"@,
                )
            },
        },
{
    let nonce = match fresh_nonce() {
        Ok(n) => n,
        Err(e) => return Err(e),
    };
    let r = seal_secret(plain, key, &nonce);
    proof {
        if r is Ok {
            assert(sealed_secret(plain@, key@, nonce@) == Ok::<EnvelopeView, ErrorView>(r->Ok_0@));
        }
    }
    r
}

/// The nonce and the sealed text in an envelope, or the error that comes instead: the
/// schema, the cipher's name, the two base64 notations and the nonce's length are held
/// to, the nonce before the text.
pub open spec fn unpacked(env: EnvelopeView) -> Result<(Seq<u8>, Seq<u8>), ErrorView> {
    if env.schema_version != SECRET_SCHEMA_VERSION {
        Err(ErrorView::Permanent("unsupported secret schema_version "@ + decimal(env.schema_version as nat)))
    } else if trimmed(env.cipher) != SECRET_CIPHER_XCHACHA20POLY1305@ {
        Err(ErrorView::Permanent("unsupported secret cipher "@ + env.cipher))
    } else {
        match base64_decoded(trimmed(env.nonce_b64)) {
            Err(e) => Err(ErrorView::Permanent("invalid secret nonce encoding: "@ + e)),
            Ok(nonce) => if nonce.len() != 24 {
                Err(ErrorView::Permanent("invalid secret nonce length "@ + decimal(nonce.len())))
            } else {
                match base64_decoded(trimmed(env.ciphertext_b64)) {
                    Err(e) => Err(ErrorView::Permanent("invalid secret ciphertext encoding: "@ + e)),
                    Ok(sealed) => Ok((nonce, sealed)),
                }
            },
        }
    }
}

/// The secret in an envelope, or the error that comes instead: after what [`unpacked`]
/// says, the seal and the encoding are held to.
pub open spec fn opened_secret(env: EnvelopeView, key: Seq<u8>) -> Result<Seq<char>, ErrorView> {
    match unpacked(env) {
        Err(e) => Err(e),
        Ok((nonce, sealed)) => match xchacha_opened(key, nonce, sealed) {
            None => Err(ErrorView::Permanent("cannot decrypt secret value: "@ + "aead::Error"@)),
            Some(bytes) => if valid_utf8(bytes) {
                Ok(trimmed(decode_utf8(bytes)))
            } else {
                Err(ErrorView::Permanent("secret payload is not UTF-8: "@ + utf8_complaint(bytes)))
            },
        },
    }
}

/// Whether an envelope can be opened, or is refused: the text in it, where it comes to
/// that, is of a length at which the cipher does not run past its keystream.
pub open spec fn openable(env: EnvelopeView) -> bool {
    match unpacked(env) {
        Ok((_, sealed)) => !overruns_keystream(sealed.len() - 16),
        Err(_) => true,
    }
}

/// The views of an unpacking.
pub open spec fn unpacked_view(r: Result<(Vec<u8>, Vec<u8>), PluginError>) -> Result<(Seq<u8>, Seq<u8>), ErrorView> {
    match r {
        Ok((nonce, sealed)) => Ok((nonce@, sealed@)),
        Err(e) => Err(e@),
    }
}

/// Unpacks an envelope, as [`unpacked`] says.
fn unpack(env: &SecretEnvelope) -> (r: Result<(Vec<u8>, Vec<u8>), PluginError>)
    ensures
        unpacked_view(r) == unpacked(env@),
{
    if env.schema_version != SECRET_SCHEMA_VERSION {
        return Err(
            PluginError::Permanent(
                cat("unsupported secret schema_version ", to_decimal(env.schema_version as u64).as_str()),
            ),
        );
    }
    if !text_eq(trim(env.cipher.as_str()), SECRET_CIPHER_XCHACHA20POLY1305) {
        return Err(PluginError::Permanent(cat("unsupported secret cipher ", env.cipher.as_str())));
    }
    let nonce = match decode_base64(trim(env.nonce_b64.as_str())) {
        Ok(n) => n,
        Err(e) => return Err(PluginError::Permanent(cat("invalid secret nonce encoding: ", e.as_str()))),
    };
    if nonce.len() != 24 {
        return Err(
            PluginError::Permanent(
                cat("invalid secret nonce length ", to_decimal(nonce.len() as u64).as_str()),
            ),
        );
    }
    match decode_base64(trim(env.ciphertext_b64.as_str())) {
        Ok(sealed) => Ok((nonce, sealed)),
        Err(e) => Err(PluginError::Permanent(cat("invalid secret ciphertext encoding: ", e.as_str()))),
    }
}

/// The views of an opening.
pub open spec fn text_result(r: Result<String, PluginError>) -> Result<Seq<char>, ErrorView> {
    match r {
        Ok(s) => Ok(s@),
        Err(e) => Err(e@),
    }
}

/// Opens an envelope, as [`opened_secret`] says.
pub fn decrypt_secret_value(env: &SecretEnvelope, key: &[u8; 32]) -> (r: Result<String, PluginError>)
    requires
        openable(env@),
    ensures
        text_result(r) == opened_secret(env@, key@),
{
    let (nonce, sealed) = match unpack(env) {
        Ok(parts) => parts,
        Err(e) => return Err(e),
    };
    let bytes = match decrypt_bytes(key, nonce.as_slice(), sealed.as_slice()) {
        Ok(b) => b,
        Err(e) => return Err(PluginError::Permanent(cat("cannot decrypt secret value: ", e.as_str()))),
    };
    match text_from_utf8(bytes) {
        Ok(s) => Ok(trim(s.as_str()).to_owned()),
        Err(e) => Err(PluginError::Permanent(cat("secret payload is not UTF-8: ", e.as_str()))),
    }
}

/// Opens an envelope that [`decrypt_secret_value`] takes, and gives nothing for
/// another.
pub fn decrypt_if_openable(env: &SecretEnvelope, key: &[u8; 32]) -> (r: Option<Result<String, PluginError>>)
    ensures
        match r {
            Some(opened) => openable(env@) && text_result(opened) == opened_secret(env@, key@),
            None => !openable(env@),
        },
{
    if let Ok((_, sealed)) = unpack(env) {
        if sealed.len() >= 16 && keystream_overrun(sealed.len() - 16) {
            return None;
        }
    }
    Some(decrypt_secret_value(env, key))
}

/// A sealed secret says how it was sealed and carries its nonce; what is sealed is the
/// secret without the white space around it.
pub proof fn envelopes_say_how_they_were_sealed(plain: Seq<char>, key: Seq<u8>, nonce: Seq<u8>, env: EnvelopeView)
    requires
        sealed_secret(plain, key, nonce) == Ok::<EnvelopeView, ErrorView>(env),
    ensures
        env.schema_version == 1,
        env.cipher == "xchacha20poly1305"@,
        env.nonce_b64 == base64_encoded(nonce),
        env.ciphertext_b64 == base64_encoded(xchacha_sealed(key, nonce, encode_utf8(trimmed(plain)))),
        sealed_secret(trimmed(plain), key, nonce) == Ok::<EnvelopeView, ErrorView>(env),
{
    trimming_is_idempotent(plain);
}

/// An envelope of another schema or another cipher is not opened, nor one whose nonce is
/// not twenty-four bytes or whose texts cannot be decoded, nor one that the key does not
/// open.
pub proof fn foreign_envelopes_stay_closed(env: EnvelopeView, key: Seq<u8>)
    ensures
        env.schema_version != 1 ==> opened_secret(env, key) is Err,
        trimmed(env.cipher) != "xchacha20poly1305"@ ==> opened_secret(env, key) is Err,
        base64_decoded(trimmed(env.nonce_b64)) is Err ==> opened_secret(env, key) is Err,
        base64_decoded(trimmed(env.nonce_b64)) matches Ok(nonce) ==> nonce.len() != 24 ==> opened_secret(env, key) is Err,
        base64_decoded(trimmed(env.ciphertext_b64)) is Err ==> opened_secret(env, key) is Err,
        opened_secret(env, key) matches Ok(text) ==> (base64_decoded(trimmed(env.nonce_b64)) matches Ok(nonce)
            && base64_decoded(trimmed(env.ciphertext_b64)) matches Ok(sealed) && xchacha_opened(key, nonce, sealed) matches
            Some(bytes) && text == trimmed(decode_utf8(bytes))),
{
}

/// A key is made of the passphrase without the white space around it, under a name of
/// this use alone.
pub proof fn key_domain_is_this_use()
    ensures
        key_domain() == "org.evoframework.network.nm:secret-key:v1:"@,
        ENV_SECRET_KEY@ == "EVO_NETWORK_SECRET_KEY"@,
        ENV_SECRET_REQUIRE@ == "EVO_NETWORK_SECRET_REQUIRE"@,
{
}

/// Each field is seen under its own name, as it is.
pub proof fn fields_are_seen_under_their_names(secret_envelope: SecretEnvelope)
    ensures
        secret_envelope@.schema_version == secret_envelope.schema_version,
        secret_envelope@.cipher == secret_envelope.cipher@,
        secret_envelope@.nonce_b64 == secret_envelope.nonce_b64@,
        secret_envelope@.ciphertext_b64 == secret_envelope.ciphertext_b64@,
{
}

} // verus!
