//! The RSA key pair of the tool.
//!
//! LTI tools sign their messages with RSA (RS256). Platforms fetch the public
//! key of the tool as a JWKS document, to verify what it signs.

use crate::base64url::{
    base64url, encode, encoded_text_is_url_safe, encoding_is_injective, is_symbol,
};
use crate::config::LtiConfig;
use crate::http::{Reply, ReplyModel};
use crate::json::{json_string, symbols_are_not_escaped, to_json};
use crate::launch::dots;
use crate::login::check_enabled;
use crate::text::concat;
use aws_lc_rs::encoding::{AsDer, Pkcs8V1Der};
use aws_lc_rs::rsa::{KeyPair, KeySize};
use aws_lc_rs::signature::KeyPair as _;
use vstd::arithmetic::power::pow;
use vstd::prelude::*;
use vstd::utf8::{encode_utf8, encode_utf8_decode_utf8};

verus! {

/// The public half of an RSA key pair.
pub struct RsaPublicKey {
    /// The modulus, big-endian, without leading zeros.
    pub modulus: Vec<u8>,
    /// The public exponent, big-endian, without leading zeros.
    pub exponent: Vec<u8>,
    /// The key in DER, as a PKCS #1 `RSAPublicKey`.
    pub der: Vec<u8>,
}

/// [`RsaPublicKey`] with sequences in place of vectors.
pub struct RsaModel {
    pub modulus: Seq<u8>,
    pub exponent: Seq<u8>,
    pub der: Seq<u8>,
}

impl View for RsaPublicKey {
    type V = RsaModel;

    open spec fn view(&self) -> RsaModel {
        RsaModel { modulus: self.modulus@, exponent: self.exponent@, der: self.der@ }
    }
}

/// What `pem_rfc7468::decode_vec` finds in a PEM document, or its complaint.
pub uninterp spec fn pem_content(pem: Seq<u8>) -> Result<Seq<u8>, Seq<char>>;

/// The public half of the key pair that `aws_lc_rs::rsa::KeyPair::from_pkcs8`
/// reads from a PKCS#8 document, or its complaint.
pub uninterp spec fn rsa_key(pkcs8: Seq<u8>) -> Result<RsaModel, Seq<char>>;

/// What `aws_lc_rs::digest::digest` computes with `SHA256`.
pub uninterp spec fn sha256(data: Seq<u8>) -> Seq<u8>;

/// The signature that `aws_lc_rs::rsa::KeyPair::sign` makes with
/// `RSA_PKCS1_SHA256` and the key pair of a PKCS#8 document.
pub uninterp spec fn rsa_signature(pkcs8: Seq<u8>, message: Seq<u8>) -> Seq<u8>;

/// Calls `pem_rfc7468::decode_vec`. Claimed: the outcome depends on the
/// document alone. The label of the document is left aside.
#[verifier::external_body]
fn decode_pem(pem: &[u8]) -> (res: Result<Vec<u8>, String>)
    ensures
        match (res, pem_content(pem@)) {
            (Ok(content), Ok(expected)) => content@ == expected,
            (Err(complaint), Err(expected)) => complaint@ == expected,
            _ => false,
        },
{
    match pem_rfc7468::decode_vec(pem) {
        Ok((_label, content)) => Ok(content),
        Err(e) => Err(e.to_string()),
    }
}

/// Calls `aws_lc_rs::rsa::KeyPair::from_pkcs8` and reads the public half of
/// the key pair. Claimed: the outcome depends on the document alone; the
/// modulus has 2048 to 8192 bits, and the exponent is not empty.
#[verifier::external_body]
fn read_rsa_key(pkcs8: &[u8]) -> (res: Result<RsaPublicKey, String>)
    ensures
        match (res, rsa_key(pkcs8@)) {
            (Ok(key), Ok(expected)) => key@ == expected,
            (Err(complaint), Err(expected)) => complaint@ == expected,
            _ => false,
        },
        res matches Ok(key) ==> 256 <= key.modulus@.len() <= 1024 && key.exponent@.len() > 0,
{
    let keypair = KeyPair::from_pkcs8(pkcs8).map_err(|e| e.to_string())?;
    let public = keypair.public_key();
    Ok(RsaPublicKey {
        modulus: public.modulus().big_endian_without_leading_zero().to_vec(),
        exponent: public.exponent().big_endian_without_leading_zero().to_vec(),
        der: public.as_ref().to_vec(),
    })
}

/// Calls `aws_lc_rs::rsa::KeyPair::generate` for a key of 2048 bits, and
/// writes the key pair as PKCS#8. Claimed: if it succeeds, the document can be
/// read again, and the modulus has 256 bytes. The key itself is random.
#[verifier::external_body]
fn generate_pkcs8() -> (res: Result<Vec<u8>, aws_lc_rs::error::Unspecified>)
    ensures
        res matches Ok(pkcs8) ==> rsa_key(pkcs8@) is Ok && rsa_key(
            pkcs8@,
        )->Ok_0.modulus.len() == 256,
{
    let keypair = KeyPair::generate(KeySize::Rsa2048)?;
    let der: Pkcs8V1Der = keypair.as_der()?;
    Ok(der.as_ref().to_vec())
}

/// Calls `aws_lc_rs::digest::digest` with `SHA256`. Claimed: the digest
/// depends on the data alone, and has 32 bytes.
#[verifier::external_body]
fn digest(data: &[u8]) -> (res: Vec<u8>)
    ensures
        res@ == sha256(data@),
        res@.len() == 32,
{
    aws_lc_rs::digest::digest(&aws_lc_rs::digest::SHA256, data).as_ref().to_vec()
}

/// The number that bytes stand for, the most significant byte first.
pub open spec fn big_endian(bytes: Seq<u8>) -> nat
    decreases bytes.len(),
{
    if bytes.len() == 0 {
        0
    } else {
        big_endian(bytes.drop_last()) * 256 + bytes.last() as nat
    }
}

/// The `len` bytes that stand for a SHA-256 digest in a signature
/// (EMSA-PKCS1-v1_5).
pub open spec fn padded_digest(digest: Seq<u8>, len: nat) -> Seq<u8> {
    let algorithm: Seq<u8> = seq![
        0x30, 0x31, 0x30, 0x0d, 0x06, 0x09, 0x60, 0x86, 0x48, 0x01,
        0x65, 0x03, 0x04, 0x02, 0x01, 0x05, 0x00, 0x04, 0x20,
    ];
    let info = algorithm + digest;
    seq![0u8, 1u8] + Seq::new((len - info.len() - 3) as nat, |i: int| 0xffu8) + seq![0u8] + info
}

/// Whether `signature` is valid for `message` under the public key, by
/// RSASSA-PKCS1-v1_5 with SHA-256.
pub open spec fn is_valid_signature(
    modulus: Seq<u8>,
    exponent: Seq<u8>,
    message: Seq<u8>,
    signature: Seq<u8>,
) -> bool {
    &&& signature.len() == modulus.len()
    &&& big_endian(signature) < big_endian(modulus)
    &&& pow(big_endian(signature) as int, big_endian(exponent)) % big_endian(modulus) as int
        == big_endian(padded_digest(sha256(message), modulus.len()))
}

/// Calls `aws_lc_rs::rsa::KeyPair::sign` with `RSA_PKCS1_SHA256` and the key
/// pair that `KeyPair::from_pkcs8` reads. Claimed: the signature depends on
/// the key and the message alone, and is valid under the public key. Whether
/// there is one is up to the machine.
#[verifier::external_body]
fn sign(pkcs8: &[u8], message: &[u8]) -> (res: Result<Vec<u8>, aws_lc_rs::error::Unspecified>)
    requires
        rsa_key(pkcs8@) is Ok,
    ensures
        res matches Ok(signature) ==> {
            &&& signature@ == rsa_signature(pkcs8@, message@)
            &&& is_valid_signature(
                rsa_key(pkcs8@)->Ok_0.modulus,
                rsa_key(pkcs8@)->Ok_0.exponent,
                message@,
                signature@,
            )
        },
{
    let keypair = KeyPair::from_pkcs8(pkcs8)?;
    let mut signature = vec![0; keypair.public_modulus_len()];
    let rng = aws_lc_rs::rand::SystemRandom::new();
    keypair.sign(&aws_lc_rs::signature::RSA_PKCS1_SHA256, &rng, message, &mut signature)?;
    Ok(signature)
}

impl RsaModel {
    /// Whether there is something to publish in each member: a modulus of 2048
    /// to 8192 bits, an exponent and a digest.
    pub open spec fn is_complete(self) -> bool {
        &&& 256 <= self.modulus.len() <= 1024
        &&& self.exponent.len() > 0
        &&& sha256(self.der).len() == 32
    }

    /// A stable ID, derived from the key.
    pub open spec fn key_id(self) -> Seq<char> {
        base64url(sha256(self.der))
    }

    /// The JWKS document with this key as the only one.
    pub open spec fn jwks(self) -> Seq<char> {
        "{\"keys\":[{\"alg\":\"RS256\",\"e\":"@ + json_string(base64url(self.exponent))
            + ",\"kid\":"@ + json_string(self.key_id()) + ",\"kty\":\"RSA\",\"n\":"@ + json_string(
            base64url(self.modulus),
        ) + ",\"use\":\"sig\"}]}"@
    }
}

/// The header of a JWT that is signed with the key of this ID.
pub open spec fn jwt_header(kid: Seq<char>) -> Seq<char> {
    "{\"alg\":\"RS256\",\"kid\":"@ + json_string(kid) + ",\"typ\":\"JWT\"}"@
}

/// What is signed of a JWT: its header and its payload.
pub open spec fn signing_input(kid: Seq<char>, payload: Seq<char>) -> Seq<char> {
    base64url(encode_utf8(jwt_header(kid))) + seq!['.'] + base64url(encode_utf8(payload))
}

/// A JWT from what is signed of it and its signature.
pub open spec fn jwt_text(input: Seq<char>, signature: Seq<u8>) -> Seq<char> {
    input + seq!['.'] + base64url(signature)
}

/// Whether the token is `input` with `signature`, and the signature is valid
/// under the key.
pub open spec fn is_signed_with(
    jwt: Seq<char>,
    key: RsaModel,
    input: Seq<char>,
    signature: Seq<u8>,
) -> bool {
    &&& jwt == jwt_text(input, signature)
    &&& is_valid_signature(key.modulus, key.exponent, encode_utf8(input), signature)
}

/// Whether a token is signed with the key of a JWKS document.
pub open spec fn verifies_against(jwt: Seq<char>, jwks: Seq<char>) -> bool {
    exists|key: RsaModel, input: Seq<char>, signature: Seq<u8>|
        #[trigger] is_signed_with(jwt, key, input, signature) && key.jwks() == jwks
}

/// What is published of a key.
pub struct PublishedKey {
    pub kid: String,
    pub jwks: String,
}

/// Describes a public key for platforms.
pub fn publish(public: &RsaPublicKey) -> (res: PublishedKey)
    ensures
        res.kid@ == public@.key_id(),
        res.jwks@ == public@.jwks(),
        sha256(public.der@).len() == 32,
{
    let n = encode(public.modulus.as_slice());
    let e = encode(public.exponent.as_slice());
    let kid = encode(digest(public.der.as_slice()).as_slice());
    let mut jwks = concat("{\"keys\":[{\"alg\":\"RS256\",\"e\":", to_json(e.as_str()).as_str());
    jwks.append(",\"kid\":");
    jwks.append(to_json(kid.as_str()).as_str());
    jwks.append(",\"kty\":\"RSA\",\"n\":");
    jwks.append(to_json(n.as_str()).as_str());
    jwks.append(",\"use\":\"sig\"}]}");
    PublishedKey { kid, jwks }
}

/// What is signed of a JWT with this payload, which is JSON.
pub fn jwt_signing_input(kid: &str, payload: &str) -> (res: String)
    ensures
        res@ == signing_input(kid@, payload@),
{
    let mut header = concat("{\"alg\":\"RS256\",\"kid\":", to_json(kid).as_str());
    header.append(",\"typ\":\"JWT\"}");
    let mut res = encode(header.as_str().as_bytes());
    res.append(".");
    res.append(encode(payload.as_bytes()).as_str());
    proof {
        reveal_strlit(".");
        assert("."@ =~= seq!['.']);
    }
    res
}

/// Completes a JWT with its signature.
pub fn attach_signature(input: &str, signature: &[u8]) -> (res: String)
    ensures
        res@ == jwt_text(input@, signature@),
{
    let mut res = concat(input, ".");
    res.append(encode(signature).as_str());
    proof {
        reveal_strlit(".");
        assert("."@ =~= seq!['.']);
    }
    res
}

/// Why there is no key, or no signature.
pub enum ToolKeyError {
    /// The configured file could not be read, with the reason.
    Unreadable { path: String, reason: String },
    /// The configured file is not a PEM document, with the reason.
    NotPem(String),
    /// The PEM document does not hold a usable RSA key, with the reason.
    NotRsaKey(String),
    /// No key could be generated.
    GenerationFailed,
    /// The key did not sign.
    SigningFailed,
}

impl ToolKeyError {
    /// The error in words.
    pub open spec fn text(self) -> Seq<char> {
        match self {
            ToolKeyError::Unreadable { path, reason } => {
                "failed to read `auth.lti.tool_key` file '"@ + path@ + "': "@ + reason@
            },
            ToolKeyError::NotPem(reason) => "`auth.lti.tool_key` is not a valid PEM document: "@
                + reason@,
            ToolKeyError::NotRsaKey(reason) => "`auth.lti.tool_key` is not a valid RSA key: "@
                + reason@,
            ToolKeyError::GenerationFailed => "failed to generate LTI tool RSA key"@,
            ToolKeyError::SigningFailed => "failed to RS256-sign LTI JWT"@,
        }
    }

    /// The error in words.
    pub fn message(&self) -> (res: String)
        ensures
            res@ == self.text(),
    {
        match self {
            ToolKeyError::Unreadable { path, reason } => {
                let mut text = concat(
                    "failed to read `auth.lti.tool_key` file '",
                    path.as_str(),
                );
                text.append("': ");
                text.append(reason.as_str());
                text
            },
            ToolKeyError::NotPem(reason) => concat(
                "`auth.lti.tool_key` is not a valid PEM document: ",
                reason.as_str(),
            ),
            ToolKeyError::NotRsaKey(reason) => concat(
                "`auth.lti.tool_key` is not a valid RSA key: ",
                reason.as_str(),
            ),
            ToolKeyError::GenerationFailed => "failed to generate LTI tool RSA key".to_owned(),
            ToolKeyError::SigningFailed => "failed to RS256-sign LTI JWT".to_owned(),
        }
    }
}

/// The JWT that comes of an attempt to sign `input`: there is one just if there
/// is a signature.
pub fn completed_jwt(
    input: &str,
    signature: Result<Vec<u8>, aws_lc_rs::error::Unspecified>,
) -> (res: Result<String, ToolKeyError>)
    ensures
        match signature {
            Ok(signature) => res matches Ok(jwt) && jwt@ == jwt_text(input@, signature@),
            Err(_) => res matches Err(e) && e is SigningFailed,
        },
{
    match signature {
        Ok(signature) => Ok(attach_signature(input, signature.as_slice())),
        Err(_) => Err(ToolKeyError::SigningFailed),
    }
}

/// The RSA key pair of the tool, plus its public JWKS document.
pub struct LtiToolKey {
    /// The key pair as PKCS#8.
    pkcs8: Vec<u8>,
    /// The public JWKS document.
    jwks: String,
    /// The key ID, part of the headers of signed JWTs, so that the platform
    /// picks the right key from the JWKS.
    kid: String,
    /// Whether the key was generated for this process.
    ephemeral: bool,
}

/// What defines a tool key.
pub struct ToolKeyModel {
    pub pkcs8: Seq<u8>,
    /// Whether the key was generated for this process. With more than one
    /// process, platforms may not find the key that something was signed with.
    pub ephemeral: bool,
}

impl ToolKeyModel {
    /// The public half of the key.
    pub open spec fn public(self) -> RsaModel {
        rsa_key(self.pkcs8)->Ok_0
    }
}

impl View for LtiToolKey {
    type V = ToolKeyModel;

    closed spec fn view(&self) -> ToolKeyModel {
        ToolKeyModel { pkcs8: self.pkcs8@, ephemeral: self.ephemeral }
    }
}

impl LtiToolKey {
    #[verifier::type_invariant]
    spec fn is_published_key(&self) -> bool {
        &&& rsa_key(self.pkcs8@) is Ok
        &&& rsa_key(self.pkcs8@)->Ok_0.is_complete()
        &&& self.kid@ == rsa_key(self.pkcs8@)->Ok_0.key_id()
        &&& self.jwks@ == rsa_key(self.pkcs8@)->Ok_0.jwks()
    }

    /// Loads the key from the configured file, which holds a PKCS#8 RSA private
    /// key as PEM, or generates a fresh one if none is configured. `file` is
    /// what came of reading the file. A file that is no use is never replaced
    /// by a generated key.
    pub fn load(config: &LtiConfig, file: Option<Result<Vec<u8>, String>>) -> (res: Result<
        LtiToolKey,
        ToolKeyError,
    >)
        requires
            config.tool_key is Some ==> file is Some,
        ensures
            match (config.tool_key, file) {
                (Some(_), Some(Ok(pem))) => is_loaded(res, pem@),
                (Some(configured), Some(Err(fault))) => res matches Err(
                    ToolKeyError::Unreadable { path, reason },
                ) && path@ == configured@ && reason@ == fault@,
                _ => match res {
                    Ok(key) => key@.ephemeral && key@.public().modulus.len() == 256,
                    Err(e) => e is GenerationFailed,
                },
            },
            res matches Ok(key) ==> key@.ephemeral == (config.tool_key is None),
    {
        match (&config.tool_key, file) {
            (Some(_), Some(Ok(pem))) => LtiToolKey::from_pem(pem.as_slice()),
            (Some(path), Some(Err(reason))) => Err(
                ToolKeyError::Unreadable { path: path.clone(), reason },
            ),
            _ => LtiToolKey::generate(),
        }
    }

    /// Reads the key from a PEM document.
    pub fn from_pem(pem: &[u8]) -> (res: Result<LtiToolKey, ToolKeyError>)
        ensures
            is_loaded(res, pem@),
    {
        let pkcs8 = match decode_pem(pem) {
            Ok(pkcs8) => pkcs8,
            Err(complaint) => return Err(ToolKeyError::NotPem(complaint)),
        };
        match read_rsa_key(pkcs8.as_slice()) {
            Ok(public) => Ok(LtiToolKey::from_keypair(pkcs8, &public, false)),
            Err(complaint) => Err(ToolKeyError::NotRsaKey(complaint)),
        }
    }

    /// The key that comes of an attempt to generate one for this process, as
    /// PKCS#8: there is one just if there is a document that can be read.
    pub fn generated_from(pkcs8: Result<Vec<u8>, aws_lc_rs::error::Unspecified>) -> (res: Result<
        LtiToolKey,
        ToolKeyError,
    >)
        ensures
            match pkcs8 {
                Ok(pkcs8) if rsa_key(pkcs8@) is Ok => res matches Ok(key) && key@ == (ToolKeyModel {
                    pkcs8: pkcs8@,
                    ephemeral: true,
                }),
                _ => res matches Err(e) && e is GenerationFailed,
            },
    {
        let pkcs8 = match pkcs8 {
            Ok(pkcs8) => pkcs8,
            Err(_) => return Err(ToolKeyError::GenerationFailed),
        };
        match read_rsa_key(pkcs8.as_slice()) {
            Ok(public) => Ok(LtiToolKey::from_keypair(pkcs8, &public, true)),
            Err(_) => Err(ToolKeyError::GenerationFailed),
        }
    }

    /// Generates a key of 2048 bits for this process. Whether there is one is up
    /// to the machine: [`LtiToolKey::generated_from`] says what comes of each
    /// outcome.
    pub fn generate() -> (res: Result<LtiToolKey, ToolKeyError>)
        ensures
            match res {
                Ok(key) => key@.ephemeral && key@.public().modulus.len() == 256,
                Err(e) => e is GenerationFailed,
            },
    {
        LtiToolKey::generated_from(generate_pkcs8())
    }

    /// A key whose public half has been read.
    fn from_keypair(pkcs8: Vec<u8>, public: &RsaPublicKey, ephemeral: bool) -> (res: LtiToolKey)
        requires
            rsa_key(pkcs8@) == Ok::<RsaModel, Seq<char>>(public@),
            256 <= public.modulus@.len() <= 1024,
            public.exponent@.len() > 0,
        ensures
            res@ == (ToolKeyModel { pkcs8: pkcs8@, ephemeral }),
    {
        let published = publish(public);
        LtiToolKey { pkcs8, jwks: published.jwks, kid: published.kid, ephemeral }
    }

    /// The public JWKS document.
    pub fn jwks(&self) -> (res: &str)
        ensures
            res@ == self@.public().jwks(),
            self@.public().is_complete(),
    {
        proof {
            use_type_invariant(self);
        }
        self.jwks.as_str()
    }

    /// The ID of the key.
    pub fn kid(&self) -> (res: &str)
        ensures
            res@ == self@.public().key_id(),
            res@.len() == 43,
    {
        proof {
            use_type_invariant(self);
        }
        self.kid.as_str()
    }

    /// Whether the key was generated for this process. What it signs may not
    /// be verifiable after a restart, or through another process.
    pub fn is_ephemeral(&self) -> (res: bool)
        ensures
            res == self@.ephemeral,
    {
        self.ephemeral
    }

    /// Signs `payload`, which is JSON, as an RS256 JWT with this key. The
    /// platform verifies the signature against the JWKS document. Whether there
    /// is a signature is up to the machine: [`completed_jwt`] says what comes of
    /// each outcome.
    pub fn sign_jwt(&self, payload: &str) -> (res: Result<String, ToolKeyError>)
        ensures
            match res {
                Ok(jwt) => {
                    let input = signing_input(self@.public().key_id(), payload@);
                    let signature = rsa_signature(self@.pkcs8, encode_utf8(input));
                    &&& jwt@ == jwt_text(input, signature)
                    &&& is_valid_signature(
                        self@.public().modulus,
                        self@.public().exponent,
                        encode_utf8(input),
                        signature,
                    )
                    &&& verifies_against(jwt@, self@.public().jwks())
                },
                Err(e) => e is SigningFailed,
            },
    {
        proof {
            use_type_invariant(self);
            let input = signing_input(self@.public().key_id(), payload@);
            token_verifies_just_with_a_valid_signature(
                self@.public(),
                input,
                rsa_signature(self@.pkcs8, encode_utf8(input)),
            );
        }
        let input = jwt_signing_input(self.kid.as_str(), payload);
        let signature = sign(self.pkcs8.as_slice(), input.as_str().as_bytes());
        completed_jwt(input.as_str(), signature)
    }
}

/// What comes of loading a key from a PEM document.
pub open spec fn is_loaded(res: Result<LtiToolKey, ToolKeyError>, pem: Seq<u8>) -> bool {
    match pem_content(pem) {
        Err(complaint) => res matches Err(ToolKeyError::NotPem(reason)) && reason@ == complaint,
        Ok(content) => match rsa_key(content) {
            Err(complaint) => res matches Err(ToolKeyError::NotRsaKey(reason)) && reason@
                == complaint,
            Ok(_) => res matches Ok(key) && key@ == (ToolKeyModel {
                pkcs8: content,
                ephemeral: false,
            }),
        },
    }
}

/// Serves the public keys of the tool, so that platforms can register it and
/// verify what it signs. Only while LTI is enabled.
pub fn handle_jwks(config: &LtiConfig, key: &LtiToolKey) -> (res: Reply)
    ensures
        res@ == (if config.enabled {
            ReplyModel::Json(key@.public().jwks())
        } else {
            ReplyModel::NotFound
        }),
{
    match check_enabled(config) {
        Ok(()) => Reply::Json(key.jwks().to_owned()),
        Err(refusal) => refusal,
    }
}

/// A text between quotes.
pub open spec fn quoted(s: Seq<char>) -> Seq<char> {
    seq!['"'] + s + seq!['"']
}

proof fn encoded_bytes_are_quoted(bytes: Seq<u8>)
    ensures
        json_string(base64url(bytes)) == quoted(base64url(bytes)),
{
    encoded_text_is_url_safe(bytes);
    symbols_are_not_escaped(base64url(bytes));
}

/// Where a delimiter follows Base64 text, the text and the rest can be told
/// apart again.
proof fn delimited_text_is_unique(
    a: Seq<u8>,
    b: Seq<u8>,
    delimiter: char,
    x: Seq<char>,
    y: Seq<char>,
)
    requires
        !is_symbol(delimiter),
        base64url(a) + seq![delimiter] + x == base64url(b) + seq![delimiter] + y,
    ensures
        a == b,
        x == y,
{
    let s = base64url(a);
    let t = base64url(b);
    let left = s + seq![delimiter] + x;
    let right = t + seq![delimiter] + y;
    encoded_text_is_url_safe(a);
    encoded_text_is_url_safe(b);
    assert(left[s.len() as int] == delimiter);
    assert(right[t.len() as int] == delimiter);
    if s.len() < t.len() {
        assert(right[s.len() as int] == t[s.len() as int]);
    } else if t.len() < s.len() {
        assert(left[t.len() as int] == s[t.len() as int]);
    }
    assert forall|i: int| 0 <= i < s.len() implies s[i] == t[i] by {
        assert(left[i] == s[i]);
        assert(right[i] == t[i]);
    }
    assert(s =~= t);
    encoding_is_injective(a, b);
    assert(left.len() == s.len() + 1 + x.len());
    assert(right.len() == t.len() + 1 + y.len());
    assert forall|i: int| 0 <= i < x.len() implies x[i] == y[i] by {
        assert(left[s.len() + 1 + i] == x[i]);
        assert(right[s.len() + 1 + i] == y[i]);
    }
    assert(x =~= y);
}

proof fn common_front_is_dropped(front: Seq<char>, x: Seq<char>, y: Seq<char>)
    requires
        front + x == front + y,
    ensures
        x == y,
{
    assert((front + x).skip(front.len() as int) =~= x);
    assert((front + y).skip(front.len() as int) =~= y);
}

/// The JWKS document tells modulus, exponent and ID of the key: two keys with
/// the same document agree in all three.
pub proof fn jwks_pins_the_key(a: RsaModel, b: RsaModel)
    requires
        a.jwks() == b.jwks(),
    ensures
        a.modulus == b.modulus,
        a.exponent == b.exponent,
        a.key_id() == b.key_id(),
{
    let first = "{\"keys\":[{\"alg\":\"RS256\",\"e\":"@ + seq!['"'];
    let second = ",\"kid\":"@ + seq!['"'];
    let third = ",\"kty\":\"RSA\",\"n\":"@ + seq!['"'];
    let end = ",\"use\":\"sig\"}]}"@;
    let quote = seq!['"'];
    jwks_in_parts(a);
    jwks_in_parts(b);
    let a3 = base64url(a.modulus) + quote + end;
    let b3 = base64url(b.modulus) + quote + end;
    let a2 = base64url(sha256(a.der)) + quote + (third + a3);
    let b2 = base64url(sha256(b.der)) + quote + (third + b3);
    let a1 = base64url(a.exponent) + quote + (second + a2);
    let b1 = base64url(b.exponent) + quote + (second + b2);
    common_front_is_dropped(first, a1, b1);
    delimited_text_is_unique(a.exponent, b.exponent, '"', second + a2, second + b2);
    common_front_is_dropped(second, a2, b2);
    delimited_text_is_unique(sha256(a.der), sha256(b.der), '"', third + a3, third + b3);
    common_front_is_dropped(third, a3, b3);
    delimited_text_is_unique(a.modulus, b.modulus, '"', end, end);
}

proof fn jwks_in_parts(key: RsaModel)
    ensures
        key.jwks() == "{\"keys\":[{\"alg\":\"RS256\",\"e\":"@ + seq!['"'] + (base64url(key.exponent)
            + seq!['"'] + (",\"kid\":"@ + seq!['"'] + (base64url(sha256(key.der)) + seq!['"'] + (
        ",\"kty\":\"RSA\",\"n\":"@ + seq!['"'] + (base64url(key.modulus) + seq!['"']
            + ",\"use\":\"sig\"}]}"@))))),
{
    encoded_bytes_are_quoted(key.exponent);
    encoded_bytes_are_quoted(sha256(key.der));
    encoded_bytes_are_quoted(key.modulus);
}

proof fn dots_of_concat(a: Seq<char>, b: Seq<char>)
    ensures
        dots(a + b) == dots(a) + dots(b),
    decreases b.len(),
{
    if b.len() == 0 {
        assert(a + b =~= a);
    } else {
        assert((a + b).drop_last() =~= a + b.drop_last());
        dots_of_concat(a, b.drop_last());
    }
}

proof fn symbols_are_no_dots(s: Seq<char>)
    requires
        forall|i: int| 0 <= i < s.len() ==> is_symbol(#[trigger] s[i]),
    ensures
        dots(s) == 0,
    decreases s.len(),
{
    if s.len() > 0 {
        assert(is_symbol(s[s.len() - 1]));
        let front = s.drop_last();
        assert forall|i: int| 0 <= i < front.len() implies is_symbol(#[trigger] front[i]) by {
            assert(front[i] == s[i]);
        }
        symbols_are_no_dots(front);
    }
}

/// Whatever is signed, the result has three parts with dots between, as a JWT
/// has to have.
pub proof fn signed_jwt_has_three_parts(kid: Seq<char>, payload: Seq<char>, signature: Seq<u8>)
    ensures
        dots(jwt_text(signing_input(kid, payload), signature)) == 2,
{
    let header = encode_utf8(jwt_header(kid));
    let body = encode_utf8(payload);
    encoded_text_is_url_safe(header);
    encoded_text_is_url_safe(body);
    encoded_text_is_url_safe(signature);
    symbols_are_no_dots(base64url(header));
    symbols_are_no_dots(base64url(body));
    symbols_are_no_dots(base64url(signature));
    reveal_with_fuel(dots, 2);
    assert(dots(seq!['.']) == 1);
    dots_of_concat(base64url(header), seq!['.']);
    dots_of_concat(base64url(header) + seq!['.'], base64url(body));
    dots_of_concat(signing_input(kid, payload), seq!['.']);
    dots_of_concat(signing_input(kid, payload) + seq!['.'], base64url(signature));
}

proof fn last_part_is_unique(x: Seq<char>, y: Seq<char>, a: Seq<u8>, b: Seq<u8>)
    requires
        x + seq!['.'] + base64url(a) == y + seq!['.'] + base64url(b),
    ensures
        x == y,
        a == b,
{
    let s = base64url(a);
    let t = base64url(b);
    let left = x + seq!['.'] + s;
    let right = y + seq!['.'] + t;
    encoded_text_is_url_safe(a);
    encoded_text_is_url_safe(b);
    assert(left.len() == x.len() + 1 + s.len());
    assert(right.len() == y.len() + 1 + t.len());
    assert(left[x.len() as int] == '.');
    assert(right[y.len() as int] == '.');
    if x.len() > y.len() {
        assert(right[x.len() as int] == t[x.len() - y.len() - 1]);
    } else if y.len() > x.len() {
        assert(left[y.len() as int] == s[y.len() - x.len() - 1]);
    }
    assert(left.take(x.len() as int) =~= x);
    assert(right.take(x.len() as int) =~= y);
    assert(left.skip(x.len() as int + 1) =~= s);
    assert(right.skip(x.len() as int + 1) =~= t);
    encoding_is_injective(a, b);
}

/// A token verifies against the document of a key just if its signature is
/// valid under that key: what the key signs is accepted, and a token that was
/// signed with another key is not, unless its signature happens to be valid
/// under both.
pub proof fn token_verifies_just_with_a_valid_signature(
    key: RsaModel,
    input: Seq<char>,
    signature: Seq<u8>,
)
    ensures
        verifies_against(jwt_text(input, signature), key.jwks()) <==> is_valid_signature(
            key.modulus,
            key.exponent,
            encode_utf8(input),
            signature,
        ),
{
    let jwt = jwt_text(input, signature);
    if verifies_against(jwt, key.jwks()) {
        let (other, other_input, other_signature) = choose|
            other: RsaModel,
            other_input: Seq<char>,
            other_signature: Seq<u8>,
        |
            #[trigger] is_signed_with(jwt, other, other_input, other_signature) && other.jwks()
                == key.jwks();
        jwks_pins_the_key(other, key);
        last_part_is_unique(other_input, input, other_signature, signature);
    }
    if is_valid_signature(key.modulus, key.exponent, encode_utf8(input), signature) {
        assert(is_signed_with(jwt, key, input, signature));
    }
}

/// Every member of a published key holds something: the modulus takes more than
/// 300 characters, and the ID takes 43.
pub proof fn published_members_are_not_empty(key: RsaModel)
    requires
        key.is_complete(),
    ensures
        base64url(key.modulus).len() > 300,
        base64url(key.exponent).len() > 0,
        key.key_id().len() == 43,
{
}

/// Loading one file twice gives the same key, with the same document and ID.
pub proof fn same_file_gives_the_same_key(a: LtiToolKey, b: LtiToolKey, pem: Seq<u8>)
    requires
        is_loaded(Ok(a), pem),
        is_loaded(Ok(b), pem),
    ensures
        a@ == b@,
        a@.public().jwks() == b@.public().jwks(),
        a@.public().key_id() == b@.public().key_id(),
{
}

/// A JWT tells what was signed: two that are the same have the same header,
/// payload and signature.
pub proof fn jwt_carries_its_payload(
    kids: (Seq<char>, Seq<char>),
    payloads: (Seq<char>, Seq<char>),
    signatures: (Seq<u8>, Seq<u8>),
)
    requires
        jwt_text(signing_input(kids.0, payloads.0), signatures.0) == jwt_text(
            signing_input(kids.1, payloads.1),
            signatures.1,
        ),
    ensures
        jwt_header(kids.0) == jwt_header(kids.1),
        payloads.0 == payloads.1,
        signatures.0 == signatures.1,
{
    let dot = seq!['.'];
    let h0 = encode_utf8(jwt_header(kids.0));
    let h1 = encode_utf8(jwt_header(kids.1));
    let p0 = encode_utf8(payloads.0);
    let p1 = encode_utf8(payloads.1);
    let rest0 = base64url(p0) + dot + base64url(signatures.0);
    let rest1 = base64url(p1) + dot + base64url(signatures.1);
    assert(jwt_text(signing_input(kids.0, payloads.0), signatures.0) =~= base64url(h0) + dot
        + rest0);
    assert(jwt_text(signing_input(kids.1, payloads.1), signatures.1) =~= base64url(h1) + dot
        + rest1);
    delimited_text_is_unique(h0, h1, '.', rest0, rest1);
    delimited_text_is_unique(p0, p1, '.', base64url(signatures.0), base64url(signatures.1));
    encoding_is_injective(signatures.0, signatures.1);
    encode_utf8_decode_utf8(jwt_header(kids.0));
    encode_utf8_decode_utf8(jwt_header(kids.1));
    encode_utf8_decode_utf8(payloads.0);
    encode_utf8_decode_utf8(payloads.1);
}

/// The document holds one key: for RS256 and signatures, with modulus, exponent
/// and ID as they are in Base64.
pub proof fn jwks_holds_the_key_in_full(key: RsaModel)
    ensures
        key.jwks() == "{\"keys\":[{\"alg\":\"RS256\",\"e\":\""@ + base64url(key.exponent)
            + "\",\"kid\":\""@ + base64url(sha256(key.der)) + "\",\"kty\":\"RSA\",\"n\":\""@
            + base64url(key.modulus) + "\",\"use\":\"sig\"}]}"@,
{
    jwks_in_parts(key);
    reveal_strlit("{\"keys\":[{\"alg\":\"RS256\",\"e\":");
    reveal_strlit("{\"keys\":[{\"alg\":\"RS256\",\"e\":\"");
    reveal_strlit(",\"kid\":");
    reveal_strlit("\",\"kid\":\"");
    reveal_strlit(",\"kty\":\"RSA\",\"n\":");
    reveal_strlit("\",\"kty\":\"RSA\",\"n\":\"");
    reveal_strlit(",\"use\":\"sig\"}]}");
    reveal_strlit("\",\"use\":\"sig\"}]}");
    let quote = seq!['"'];
    assert("{\"keys\":[{\"alg\":\"RS256\",\"e\":\""@ =~= "{\"keys\":[{\"alg\":\"RS256\",\"e\":"@
        + quote);
    assert("\",\"kid\":\""@ =~= quote + ",\"kid\":"@ + quote);
    assert("\",\"kty\":\"RSA\",\"n\":\""@ =~= quote + ",\"kty\":\"RSA\",\"n\":"@ + quote);
    assert("\",\"use\":\"sig\"}]}"@ =~= quote + ",\"use\":\"sig\"}]}"@);
    let e = base64url(key.exponent);
    let kid = base64url(sha256(key.der));
    let n = base64url(key.modulus);
    assert(key.jwks() =~= ("{\"keys\":[{\"alg\":\"RS256\",\"e\":"@ + quote) + e + (quote
        + ",\"kid\":"@ + quote) + kid + (quote + ",\"kty\":\"RSA\",\"n\":"@ + quote) + n + (quote
        + ",\"use\":\"sig\"}]}"@));
}

/// The header of a token names RS256 and the key that it was signed with, by
/// the ID that the document gives.
pub proof fn header_names_the_published_key(key: RsaModel)
    ensures
        jwt_header(key.key_id()) == "{\"alg\":\"RS256\",\"kid\":\""@ + base64url(
            sha256(key.der),
        ) + "\",\"typ\":\"JWT\"}"@,
{
    encoded_bytes_are_quoted(sha256(key.der));
    reveal_strlit("{\"alg\":\"RS256\",\"kid\":");
    reveal_strlit("{\"alg\":\"RS256\",\"kid\":\"");
    reveal_strlit(",\"typ\":\"JWT\"}");
    reveal_strlit("\",\"typ\":\"JWT\"}");
    assert("{\"alg\":\"RS256\",\"kid\":\""@ =~= "{\"alg\":\"RS256\",\"kid\":"@ + seq!['"']);
    assert("\",\"typ\":\"JWT\"}"@ =~= seq!['"'] + ",\"typ\":\"JWT\"}"@);
    assert(jwt_header(key.key_id()) =~= ("{\"alg\":\"RS256\",\"kid\":"@ + seq!['"']) + base64url(
        sha256(key.der),
    ) + (seq!['"'] + ",\"typ\":\"JWT\"}"@));
}

/// A token is its header, its payload and its signature, each in Base64, with
/// dots between; header and payload are what is signed.
pub proof fn token_is_its_three_parts(kid: Seq<char>, payload: Seq<char>, signature: Seq<u8>)
    ensures
        jwt_text(signing_input(kid, payload), signature) == base64url(encode_utf8(jwt_header(kid)))
            + seq!['.'] + base64url(encode_utf8(payload)) + seq!['.'] + base64url(signature),
        signing_input(kid, payload).is_prefix_of(
            jwt_text(signing_input(kid, payload), signature),
        ),
{
    let input = signing_input(kid, payload);
    assert(input =~= jwt_text(input, signature).take(input.len() as int));
}

/// A key that was loaded is the one in the file, and not generated; a file
/// without one is refused for what is wrong with it.
pub proof fn loading_takes_the_key_of_the_file(
    res: Result<LtiToolKey, ToolKeyError>,
    pem: Seq<u8>,
)
    requires
        is_loaded(res, pem),
    ensures
        res matches Ok(key) ==> {
            &&& pem_content(pem) == Ok::<Seq<u8>, Seq<char>>(key@.pkcs8)
            &&& rsa_key(key@.pkcs8) is Ok
            &&& !key@.ephemeral
        },
        pem_content(pem) is Err ==> (res matches Err(ToolKeyError::NotPem(reason)) && reason@
            == pem_content(pem)->Err_0),
        pem_content(pem) is Ok && rsa_key(pem_content(pem)->Ok_0) is Err ==> (res matches Err(
            ToolKeyError::NotRsaKey(reason),
        ) && reason@ == rsa_key(pem_content(pem)->Ok_0)->Err_0),
        pem_content(pem) is Ok && rsa_key(pem_content(pem)->Ok_0) is Ok ==> res is Ok,
{
}

/// An error tells its reason, and the file that could not be read.
pub proof fn errors_tell_their_reason(path: String, reason: String)
    ensures
        (ToolKeyError::Unreadable { path, reason }).text()
            == "failed to read `auth.lti.tool_key` file '"@ + path@ + "': "@ + reason@,
        ToolKeyError::NotPem(reason).text() == "`auth.lti.tool_key` is not a valid PEM document: "@
            + reason@,
        ToolKeyError::NotRsaKey(reason).text() == "`auth.lti.tool_key` is not a valid RSA key: "@
            + reason@,
{
}

} // verus!
