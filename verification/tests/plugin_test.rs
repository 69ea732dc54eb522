use ed25519_dalek::{Signer, SigningKey};
use mm_dlp_core::client::EngineError;
use mm_dlp_core::plugin::manifest::{verify_plugin, PluginManifest};

fn manifest(key: &str, sig: &str) -> PluginManifest {
    PluginManifest {
        name: "p".into(),
        version: "1".into(),
        wasm_file: "p.wasm".into(),
        public_key_hex: key.into(),
        signature_hex: sig.into(),
    }
}

fn reason(r: Result<(), EngineError>) -> String {
    match r {
        Err(EngineError::OsApiError(m)) => m,
        other => panic!("unexpected {:?}", other),
    }
}

#[test]
fn signed_plugin_is_accepted_and_tampering_refused() {
    let signing = SigningKey::from_bytes(&[7u8; 32]);
    let wasm = b"\0asm module bytes";
    let sig = signing.sign(wasm);
    let key_hex = hex::encode(signing.verifying_key().to_bytes());
    let sig_hex = hex::encode(sig.to_bytes());
    assert!(verify_plugin(&manifest(&key_hex, &sig_hex), wasm).is_ok());
    assert!(verify_plugin(&manifest(&key_hex.to_uppercase(), &sig_hex), wasm).is_ok());
    assert_eq!(
        reason(verify_plugin(&manifest(&key_hex, &sig_hex), b"other bytes")),
        "Plugin signature verification failed! Untrusted extractor."
    );
}

#[test]
fn malformed_manifests_are_refused() {
    let good_sig = "00".repeat(64);
    assert_eq!(reason(verify_plugin(&manifest("zz", &good_sig), b"")), "Failed to decode public key hex");
    assert_eq!(reason(verify_plugin(&manifest("00", "0"), b"")), "Failed to decode signature hex");
    assert_eq!(reason(verify_plugin(&manifest("00", &good_sig), b"")), "Invalid Ed25519 public key length");
    assert_eq!(reason(verify_plugin(&manifest(&"00".repeat(32), "00"), b"")), "Invalid Ed25519 signature length");
}
