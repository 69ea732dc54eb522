//! Authenticity checks of extractor plugins: a plugin's WASM module must be
//! signed with Ed25519 by the key its manifest names.
use vstd::prelude::*;
use crate::client::EngineError;
use ed25519_dalek::Verifier;

verus! {

/// The manifest that describes a plugin.
#[derive(Debug, Clone)]
pub struct PluginManifest {
    pub name: String,
    pub version: String,
    pub wasm_file: String,
    pub public_key_hex: String,
    pub signature_hex: String,
}

/// The value of a hexadecimal digit (either case).
pub open spec fn hex_digit_value(c: char) -> Option<u8> {
    if '0' <= c && c <= '9' {
        Some((c as u32 - '0' as u32) as u8)
    } else if 'a' <= c && c <= 'f' {
        Some((c as u32 - 'a' as u32 + 10) as u8)
    } else if 'A' <= c && c <= 'F' {
        Some((c as u32 - 'A' as u32 + 10) as u8)
    } else {
        None
    }
}

/// The bytes a hexadecimal string stands for: it decodes when it has an even
/// number of characters, all of them hexadecimal digits; each pair of digits
/// gives one byte, high digit first.
pub open spec fn hex_decoded(s: Seq<char>) -> Option<Seq<u8>> {
    if s.len() % 2 == 0 && forall|i: int| 0 <= i < s.len() ==> (#[trigger] hex_digit_value(s[i])) is Some {
        Some(
            Seq::new(
                s.len() / 2,
                |i: int|
                    (hex_digit_value(s[2 * i])->0 * 16 + hex_digit_value(s[2 * i + 1])->0) as u8,
            ),
        )
    } else {
        None
    }
}

/// Calls `hex::decode`. The crate accepts an even number of bytes that are
/// all ASCII hexadecimal digits (either case) and turns each pair into one
/// byte, high digit first; anything else is an error.
#[verifier::external_body]
fn hex_decode(s: &str) -> (r: Option<Vec<u8>>)
    ensures
        match r {
            Some(v) => hex_decoded(s@) == Some(v@),
            None => hex_decoded(s@) is None,
        },
{
    hex::decode(s).ok()
}

/// What `VerifyingKey::from_bytes` of ed25519-dalek reports for the 32 bytes
/// `key`: `None` when they are a valid compressed Edwards point, otherwise the
/// text of the error.
pub uninterp spec fn ed25519_key_rejection(key: Seq<u8>) -> Option<Seq<char>>;

/// Whether ed25519-dalek's `VerifyingKey::verify` accepts `signature` on
/// `message` under the key given by its 32 bytes `key`.
pub uninterp spec fn ed25519_signature_valid(key: Seq<u8>, message: Seq<u8>, signature: Seq<u8>) -> bool;

#[verifier::external_type_specification]
#[verifier::external_body]
pub struct ExVerifyingKey(ed25519_dalek::VerifyingKey);

#[verifier::external_type_specification]
#[verifier::external_body]
pub struct ExSignature(ed25519_dalek::Signature);

/// A public key together with the bytes it was decoded from.
pub struct PublicKey {
    key: ed25519_dalek::VerifyingKey,
    bytes: Vec<u8>,
}

impl View for PublicKey {
    type V = Seq<u8>;

    closed spec fn view(&self) -> Seq<u8> {
        self.bytes@
    }
}

/// A signature together with its bytes.
pub struct SignatureBytes {
    sig: ed25519_dalek::Signature,
    bytes: Vec<u8>,
}

impl View for SignatureBytes {
    type V = Seq<u8>;

    closed spec fn view(&self) -> Seq<u8> {
        self.bytes@
    }
}

/// Calls `VerifyingKey::from_bytes` on the 32 bytes `bytes`; the error is
/// turned into its text. Whether a key is accepted is ed25519-dalek's point
/// decompression and is named [`ed25519_key_rejection`].
#[verifier::external_body]
fn verifying_key_from_bytes(bytes: &[u8]) -> (r: Result<PublicKey, String>)
    requires
        bytes@.len() == 32,
    ensures
        match r {
            Ok(k) => ed25519_key_rejection(bytes@) is None && k@ == bytes@,
            Err(m) => ed25519_key_rejection(bytes@) == Some(m@),
        },
{
    let arr: [u8; 32] = bytes.try_into().unwrap();
    match ed25519_dalek::VerifyingKey::from_bytes(&arr) {
        Ok(key) => Ok(PublicKey { key, bytes: bytes.to_vec() }),
        Err(e) => Err(e.to_string()),
    }
}

/// Calls `Signature::from_bytes` on the 64 bytes `bytes` (infallible).
#[verifier::external_body]
fn signature_from_bytes(bytes: &[u8]) -> (s: SignatureBytes)
    requires
        bytes@.len() == 64,
    ensures
        s@ == bytes@,
{
    let arr: [u8; 64] = bytes.try_into().unwrap();
    SignatureBytes { sig: ed25519_dalek::Signature::from_bytes(&arr), bytes: bytes.to_vec() }
}

/// Calls `VerifyingKey::verify` (the `Verifier` trait) of ed25519-dalek. The
/// outcome is named [`ed25519_signature_valid`] over the key's bytes, the
/// message and the signature's bytes.
#[verifier::external_body]
fn verify_signature(key: &PublicKey, message: &[u8], signature: &SignatureBytes) -> (b: bool)
    ensures
        b == ed25519_signature_valid(key@, message@, signature@),
{
    key.key.verify(message, &signature.sig).is_ok()
}

/// The outcome of checking a plugin module against its manifest: the key
/// and the signature must decode from hex, have 32 and 64 bytes, the key
/// must be a valid Ed25519 key and the signature must verify on the module.
pub open spec fn plugin_check(public_key_hex: Seq<char>, signature_hex: Seq<char>, wasm: Seq<u8>) -> Result<(), Seq<char>> {
    match hex_decoded(public_key_hex) {
        None => Err("Failed to decode public key hex"@),
        Some(key) => match hex_decoded(signature_hex) {
            None => Err("Failed to decode signature hex"@),
            Some(sig) => if key.len() != 32 {
                Err("Invalid Ed25519 public key length"@)
            } else if sig.len() != 64 {
                Err("Invalid Ed25519 signature length"@)
            } else {
                match ed25519_key_rejection(key) {
                    Some(why) => Err("Malformed public key: "@ + why),
                    None => if ed25519_signature_valid(key, wasm, sig) {
                        Ok(())
                    } else {
                        Err("Plugin signature verification failed! Untrusted extractor."@)
                    },
                }
            },
        },
    }
}

/// Checks that the plugin module `wasm_bytes` carries a valid Ed25519
/// signature by the key of its manifest (see [`plugin_check`]); every
/// failure is an `OsApiError` with the reason.
pub fn verify_plugin(manifest: &PluginManifest, wasm_bytes: &[u8]) -> (r: Result<(), EngineError>)
    ensures
        match plugin_check(manifest.public_key_hex@, manifest.signature_hex@, wasm_bytes@) {
            Ok(()) => r is Ok,
            Err(why) => r matches Err(EngineError::OsApiError(m)) && m@ == why,
        },
{
    let key_bytes = match hex_decode(manifest.public_key_hex.as_str()) {
        Some(b) => b,
        None => {
            return Err(EngineError::OsApiError(String::from_str("Failed to decode public key hex")));
        },
    };
    let sig_bytes = match hex_decode(manifest.signature_hex.as_str()) {
        Some(b) => b,
        None => {
            return Err(EngineError::OsApiError(String::from_str("Failed to decode signature hex")));
        },
    };
    if key_bytes.len() != 32 {
        return Err(EngineError::OsApiError(String::from_str("Invalid Ed25519 public key length")));
    }
    if sig_bytes.len() != 64 {
        return Err(EngineError::OsApiError(String::from_str("Invalid Ed25519 signature length")));
    }
    let key = match verifying_key_from_bytes(key_bytes.as_slice()) {
        Ok(k) => k,
        Err(e) => {
            let m = String::from_str("Malformed public key: ").concat(e.as_str());
            return Err(EngineError::OsApiError(m));
        },
    };
    let sig = signature_from_bytes(sig_bytes.as_slice());
    if verify_signature(&key, wasm_bytes, &sig) {
        Ok(())
    } else {
        Err(
            EngineError::OsApiError(
                String::from_str("Plugin signature verification failed! Untrusted extractor."),
            ),
        )
    }
}

} // verus!
