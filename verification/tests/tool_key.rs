use std::future::Future;
use std::pin::Pin;
use std::sync::Arc;
use std::task::{Context, Poll, Wake, Waker};

use aws_lc_rs::encoding::{AsDer, Pkcs8V1Der};
use aws_lc_rs::rsa::{KeyPair, KeySize};
use base64::prelude::BASE64_URL_SAFE_NO_PAD;
use base64::Engine;
use tobira_lti::config::LtiConfig;
use tobira_lti::http::Reply;
use tobira_lti::launch::is_raw_jwt;
use tobira_lti::tool_key::{
    attach_signature, completed_jwt, handle_jwks, jwt_signing_input, publish, LtiToolKey,
    RsaPublicKey, ToolKeyError,
};

/// A PEM document with a fresh RSA key.
fn fresh_pem() -> String {
    let keypair = KeyPair::generate(KeySize::Rsa2048).unwrap();
    let der: Pkcs8V1Der = keypair.as_der().unwrap();
    pem_rfc7468::encode_string("PRIVATE KEY", pem_rfc7468::LineEnding::LF, der.as_ref()).unwrap()
}

fn generated() -> LtiToolKey {
    LtiToolKey::generate().ok().unwrap()
}

fn signed(key: &LtiToolKey, payload: &str) -> String {
    key.sign_jwt(payload).ok().unwrap()
}

fn json(text: &str) -> serde_json::Value {
    serde_json::from_str(text).unwrap()
}

fn configured() -> LtiConfig {
    LtiConfig { enabled: true, platforms: vec![], tool_key: Some("key.pem".to_owned()) }
}

struct Ignored;

impl Wake for Ignored {
    fn wake(self: Arc<Self>) {}
}

/// Runs a future that never has to wait.
fn finished<T>(future: impl Future<Output = T>) -> T {
    let mut future: Pin<Box<dyn Future<Output = T> + '_>> = Box::pin(future);
    let waker = Waker::from(Arc::new(Ignored));
    match future.as_mut().poll(&mut Context::from_waker(&waker)) {
        Poll::Ready(value) => value,
        Poll::Pending => panic!("the future waits"),
    }
}

#[test]
fn tool_jwks_has_one_rsa_signing_key() {
    let key = generated();
    let doc = json(key.jwks());
    let jwk = &doc["keys"][0];

    assert_eq!(jwk["kty"], "RSA");
    assert_eq!(jwk["use"], "sig");
    assert_eq!(jwk["alg"], "RS256");
    // 2048-bit modulus, base64url-encoded, is well over 300 chars.
    assert!(jwk["n"].as_str().unwrap().len() > 300);
    assert!(!jwk["e"].as_str().unwrap().is_empty());
    assert!(!jwk["kid"].as_str().unwrap().is_empty());
}

#[test]
fn tool_key_loads_from_pem_and_rejects_garbage() {
    // A throwaway RSA key generated purely as a test fixture.
    let key = LtiToolKey::from_pem(fresh_pem().as_bytes()).ok().unwrap();
    assert!(!key.is_ephemeral());
    // The JWKS must describe the loaded key, same shape as a generated one.
    let doc = json(key.jwks());
    assert_eq!(doc["keys"][0]["kty"], "RSA");
    assert!(doc["keys"][0]["n"].as_str().unwrap().len() > 300);

    assert!(LtiToolKey::from_pem(b"not a pem").is_err());
    assert!(generated().is_ephemeral());
}

/// The round trip a platform performs: our signed JWT must verify against
/// our own published JWKS, using the same verification code (`jwtea`)
/// that we use for incoming tokens.
#[test]
fn signed_jwt_verifies_against_own_jwks() {
    let key = generated();
    let now = chrono::Utc::now().timestamp();
    let jwt = signed(&key, &format!("{{\"answer\":42,\"exp\":{}}}", now + 60));

    let jwks: jwtea::Jwks = serde_json::from_str(key.jwks()).unwrap();
    let keys: Vec<_> = jwks.to_verifying_keys().filter_map(|k| k.ok()).collect();
    assert!(!keys.is_empty());

    let validator = jwtea::BasicValidator { allowed_clock_skew: 10 };
    let raw = jwtea::RawJwt::new(jwt).unwrap();
    let claims = finished(raw.decode::<(), serde_json::Value, _>(
        keys.as_slice(),
        &validator,
        |_header, payload| payload.extra_fields,
    ))
    .expect("own JWT must verify against own JWKS");
    assert_eq!(claims["answer"], 42);

    // A signature from a *different* key must be rejected.
    let other = generated();
    let forged = signed(&other, &format!("{{\"exp\":{}}}", now + 60));
    let raw = jwtea::RawJwt::new(forged).unwrap();
    assert!(finished(raw.decode::<(), serde_json::Value, _>(
        keys.as_slice(),
        &validator,
        |_header, payload| payload.extra_fields,
    ))
    .is_err());
}

#[test]
fn public_key_is_published_member_by_member() {
    let public = RsaPublicKey {
        modulus: vec![0xfb, 0xff, 0x00],
        exponent: vec![1, 0, 1],
        der: b"abc".to_vec(),
    };
    let published = publish(&public);
    assert_eq!(published.kid, "ungWv48Bz-pBQUDeXa4iI7ADYaOWF3qctBD_YfIAFa0");
    assert_eq!(
        published.jwks,
        "{\"keys\":[{\"alg\":\"RS256\",\"e\":\"AQAB\",\
            \"kid\":\"ungWv48Bz-pBQUDeXa4iI7ADYaOWF3qctBD_YfIAFa0\",\
            \"kty\":\"RSA\",\"n\":\"-_8A\",\"use\":\"sig\"}]}",
    );
}

#[test]
fn different_keys_have_different_documents() {
    let (a, b) = (generated(), generated());
    assert_ne!(a.jwks(), b.jwks());
    assert_ne!(a.kid(), b.kid());
}

#[test]
fn key_id_is_stable() {
    let pem = fresh_pem();
    let load = || LtiToolKey::load(&configured(), Some(Ok(pem.as_bytes().to_vec())));
    let first = load().ok().unwrap();
    let second = load().ok().unwrap();
    assert!(!first.is_ephemeral());
    assert_eq!(first.kid(), second.kid());
    assert_eq!(first.jwks(), second.jwks());
    assert_eq!(json(first.jwks())["keys"][0]["kid"], first.kid());
    // The digest has 32 bytes.
    assert_eq!(first.kid().len(), 43);
    assert_eq!(BASE64_URL_SAFE_NO_PAD.decode(first.kid()).unwrap().len(), 32);
}

#[test]
fn key_is_generated_without_a_document() {
    let config = LtiConfig { enabled: true, platforms: vec![], tool_key: None };
    assert!(LtiToolKey::load(&config, None).ok().unwrap().is_ephemeral());
}

#[test]
fn unusable_file_is_not_replaced_by_a_generated_key() {
    let error = LtiToolKey::load(&configured(), Some(Err("gone".to_owned()))).err().unwrap();
    assert!(matches!(error, ToolKeyError::Unreadable { .. }));
    assert_eq!(error.message(), "failed to read `auth.lti.tool_key` file 'key.pem': gone");
    let error = LtiToolKey::load(&configured(), Some(Ok(b"not a pem".to_vec()))).err().unwrap();
    assert!(matches!(error, ToolKeyError::NotPem(_)));
}

#[test]
fn jwt_header_names_the_published_key() {
    let key = generated();
    let jwt = signed(&key, "{\"a\":1}");
    let parts: Vec<&str> = jwt.split('.').collect();
    assert_eq!(parts.len(), 3);
    assert!(is_raw_jwt(&jwt));
    let decode = |part: &str| {
        String::from_utf8(BASE64_URL_SAFE_NO_PAD.decode(part).unwrap()).unwrap()
    };
    assert_eq!(
        decode(parts[0]),
        format!("{{\"alg\":\"RS256\",\"kid\":\"{}\",\"typ\":\"JWT\"}}", key.kid()),
    );
    assert_eq!(decode(parts[1]), "{\"a\":1}");
    // As many bytes as the modulus has.
    assert_eq!(BASE64_URL_SAFE_NO_PAD.decode(parts[2]).unwrap().len(), 256);
}

#[test]
fn signing_is_deterministic() {
    let key = generated();
    assert_eq!(signed(&key, "{}"), signed(&key, "{}"));
    assert_ne!(signed(&key, "{}"), signed(&key, "{\"a\":1}"));
}

#[test]
fn signing_input_is_header_and_payload() {
    let input = jwt_signing_input("k\"\\\u{8}\u{c}\n\r\t\u{1}\u{1f}\u{7f}ä", "{}");
    let (header, payload) = input.split_once('.').unwrap();
    assert_eq!(
        BASE64_URL_SAFE_NO_PAD.decode(header).unwrap(),
        "{\"alg\":\"RS256\",\"kid\":\"k\\\"\\\\\\b\\f\\n\\r\\t\\u0001\\u001f\u{7f}ä\",\"typ\":\"JWT\"}"
            .as_bytes(),
    );
    assert_eq!(payload, "e30");
}

#[test]
fn signature_is_attached_in_base64() {
    assert_eq!(attach_signature("a.b", &[]), "a.b.");
    assert_eq!(attach_signature("a.b", &[0xff]), "a.b._w");
    assert_eq!(attach_signature("a.b", &[0xff, 0xfe]), "a.b.__4");
    assert_eq!(attach_signature("a.b", b"foobar"), "a.b.Zm9vYmFy");
}

#[test]
fn there_is_a_jwt_just_if_there_is_a_signature() {
    assert_eq!(completed_jwt("a.b", Ok(vec![0xff])).ok().as_deref(), Some("a.b._w"));
    let failed = completed_jwt("a.b", Err(aws_lc_rs::error::Unspecified));
    assert!(matches!(failed, Err(ToolKeyError::SigningFailed)));
}

#[test]
fn there_is_a_key_just_if_there_is_a_document() {
    let pem = fresh_pem();
    let (_, pkcs8) = pem_rfc7468::decode_vec(pem.as_bytes()).unwrap();
    let key = LtiToolKey::generated_from(Ok(pkcs8)).ok().unwrap();
    assert!(key.is_ephemeral());
    assert_eq!(key.jwks(), LtiToolKey::from_pem(pem.as_bytes()).ok().unwrap().jwks());
    for outcome in [Ok(b"no key".to_vec()), Err(aws_lc_rs::error::Unspecified)] {
        let failed = LtiToolKey::generated_from(outcome);
        assert!(matches!(failed, Err(ToolKeyError::GenerationFailed)));
    }
}

#[test]
fn unusable_keys_are_told_apart() {
    let error = LtiToolKey::from_pem(b"not a pem").err().unwrap();
    assert!(matches!(error, ToolKeyError::NotPem(_)));
    assert!(error.message().starts_with("`auth.lti.tool_key` is not a valid PEM document: "));

    let pem = pem_rfc7468::encode_string("PRIVATE KEY", pem_rfc7468::LineEnding::LF, b"no key")
        .unwrap();
    let error = LtiToolKey::from_pem(pem.as_bytes()).err().unwrap();
    assert!(matches!(error, ToolKeyError::NotRsaKey(_)));
    assert!(error.message().starts_with("`auth.lti.tool_key` is not a valid RSA key: "));

    assert_eq!(
        ToolKeyError::GenerationFailed.message(),
        "failed to generate LTI tool RSA key",
    );
    assert_eq!(ToolKeyError::SigningFailed.message(), "failed to RS256-sign LTI JWT");
}

#[test]
fn jwks_is_served_only_while_enabled() {
    let key = generated();
    let config = |enabled| LtiConfig { enabled, platforms: vec![], tool_key: None };
    match handle_jwks(&config(true), &key) {
        Reply::Json(document) => assert_eq!(document, key.jwks()),
        _ => panic!("expected the document"),
    }
    assert!(matches!(handle_jwks(&config(false), &key), Reply::NotFound));
}
