//! Signed tokens (client assertions and DPoP proofs), PKCE, URL building
//! and the clock: the calls into `atproto_oauth`, `atproto_identity` and
//! `chrono` that the OAuth flow makes.

use vstd::prelude::*;


use crate::keys::{key_type_of, KeyKind, KeyMaterial};

use atproto_identity::key::KeyData;

use atproto_oauth::jwt::{Claims, Header, JoseClaims};

verus! {

/// A JWT header of `atproto_oauth`.
#[verifier::external_type_specification]
#[verifier::external_body]
pub struct ExHeader(Header);

/// A JWT claim set of `atproto_oauth`.
#[verifier::external_type_specification]
#[verifier::external_body]
pub struct ExClaims(Claims);

/// The claims of a client assertion JWT.
pub struct AssertionClaims {
    pub issuer: String,
    pub subject: String,
    pub audience: String,
    pub json_web_token_id: String,
    pub issued_at: u64,
}

/// What a DPoP proof was made for: the kind and bytes of the signing key,
/// the HTTP method, the URI, and the access token it is bound to (none for
/// a proof sent to the authorization server).
pub type DpopTarget = (KeyKind, Seq<u8>, Seq<char>, Seq<char>, Option<Seq<char>>);

/// A DPoP proof together with the header and claims it was minted from,
/// kept so that it can be minted again with a server nonce. Proofs are
/// only made by [`auth_dpop`] and [`request_dpop`], so the token always
/// encodes the header and claims held beside it, and `target` records what
/// the proof was made for.
pub struct DpopProof {
    token: String,
    header: Header,
    claims: Claims,
    target: Ghost<DpopTarget>,
}

impl DpopProof {
    /// The proof's token.
    pub closed spec fn token_view(&self) -> Seq<char> {
        self.token@
    }

    /// The key, method, URI and access token the proof was made for.
    pub closed spec fn made_for(&self) -> DpopTarget {
        self.target@
    }

    /// The proof's token, as sent in the `DPoP` header.
    pub fn token(&self) -> (token: &String)
        ensures
            token@ == self.token_view(),
    {
        &self.token
    }
}

/// `proof` was made with the key of `kind` and `key` bytes for a `method`
/// request to `uri`, bound to `access_token` where there is one.
pub open spec fn dpop_made_for(
    proof: DpopProof,
    kind: KeyKind,
    key: Seq<u8>,
    method: Seq<char>,
    uri: Seq<char>,
    access_token: Option<Seq<char>>,
) -> bool {
    proof.made_for() == (kind, key, method, uri, access_token)
}

/// Why a client assertion could not be signed.
pub enum AssertionFailure {
    /// The key gave no JWT header; the outside error's text.
    Header(String),
    /// Signing failed; the outside error's text.
    Minting(String),
}

/// Whether `atproto_identity::key::to_public` succeeds on a key of `kind`
/// with `key` bytes, that is, whether the key's public form can be derived.
pub uninterp spec fn has_public_key(kind: KeyKind, key: Seq<u8>) -> bool;

/// The JSON text, as `serde_json::to_string` writes it, of the JWK that
/// `atproto_oauth::jwk::generate` makes for the public form (`to_public`)
/// of a key of `kind` with `key` bytes; `None` when the public form or its
/// JWK cannot be made.
pub uninterp spec fn public_jwk_text(kind: KeyKind, key: Seq<u8>) -> Option<Seq<char>>;

/// The public JWK of a key, as JSON text. Trusted: the key is converted into
/// `KeyData`, its public form taken with `to_public`, its JWK made with
/// `atproto_oauth::jwk::generate` and written with `serde_json::to_string`;
/// each step depends on its input alone, so the outcome is named
/// [`public_jwk_text`]. The error's text is not stated.
#[verifier::external_body]
pub(crate) fn public_jwk(key: &KeyMaterial) -> (jwk: Result<String, String>)
    ensures
        match jwk {
            Ok(t) => has_public_key(key.kind, key.bytes@) && public_jwk_text(key.kind, key.bytes@) == Some(t@),
            Err(_) => public_jwk_text(key.kind, key.bytes@) is None,
        },
{
    let kd = KeyData::new(key_type_of(key.kind), key.bytes.clone());
    let public = atproto_identity::key::to_public(&kd).map_err(|e| e.to_string())?;
    let wrapped = atproto_oauth::jwk::generate(&public).map_err(|e| e.to_string())?;
    serde_json::to_string(&wrapped).map_err(|e| e.to_string())
}

/// The client assertion `atproto_oauth::jwt::mint` signs with a key of
/// `kind` and `key` bytes, under the header `Header::try_from` gives for
/// that key, over the claims `iss`, `sub`, `aud`, `jti` and `iat`; `None`
/// when the header or the signature cannot be made.
pub uninterp spec fn signed_client_assertion(
    kind: KeyKind,
    key: Seq<u8>,
    issuer: Seq<char>,
    subject: Seq<char>,
    audience: Seq<char>,
    jti: Seq<char>,
    issued_at: u64,
) -> Option<Seq<char>>;

/// Signs a client assertion with `atproto_oauth::jwt::mint`, the key and
/// claims converted one for one into `KeyData`, its `Header` (by
/// `try_from`) and `JoseClaims`. Trusted. `Header::try_from` fails exactly
/// when `to_public` fails on the key ([`has_public_key`]); header and
/// signature depend on the key and claims alone (ECDSA signing there is
/// deterministic), so the outcome is named [`signed_client_assertion`].
/// The error's text is not stated.
#[verifier::external_body]
pub(crate) fn sign_client_assertion(key: &KeyMaterial, c: &AssertionClaims) -> (token: Result<String, AssertionFailure>)
    ensures
        match token {
            Ok(t) => has_public_key(key.kind, key.bytes@) && signed_client_assertion(
                key.kind,
                key.bytes@,
                c.issuer@,
                c.subject@,
                c.audience@,
                c.json_web_token_id@,
                c.issued_at,
            ) == Some(t@),
            Err(AssertionFailure::Header(_)) => !has_public_key(key.kind, key.bytes@),
            Err(AssertionFailure::Minting(_)) => has_public_key(key.kind, key.bytes@) && signed_client_assertion(
                key.kind,
                key.bytes@,
                c.issuer@,
                c.subject@,
                c.audience@,
                c.json_web_token_id@,
                c.issued_at,
            ) is None,
        },
{
    let kd = KeyData::new(key_type_of(key.kind), key.bytes.clone());
    let header = Header::try_from(kd.clone()).map_err(|e| AssertionFailure::Header(e.to_string()))?;
    let jose = JoseClaims { issuer: Some(c.issuer.clone()), subject: Some(c.subject.clone()), audience: Some(c.audience.clone()), json_web_token_id: Some(c.json_web_token_id.clone()), issued_at: Some(c.issued_at), ..Default::default() };
    atproto_oauth::jwt::mint(&kd, &header, &Claims::new(jose)).map_err(|e| AssertionFailure::Minting(e.to_string()))
}

/// The S256 challenge `atproto_oauth::pkce::challenge` computes for a code
/// verifier: the unpadded base64url SHA-256 of it.
pub uninterp spec fn pkce_challenge(verifier: Seq<char>) -> Seq<char>;

/// A PKCE pair from `atproto_oauth::pkce::generate`: a random code verifier
/// and its S256 challenge. Trusted: as that function's source shows, the
/// verifier has 100 characters and the challenge is
/// `pkce::challenge(&verifier)` ([`pkce_challenge`]); the verifier itself is
/// random.
#[verifier::external_body]
pub(crate) fn pkce_generate() -> (pair: (String, String))
    ensures
        pair.0@.len() == 100,
        pair.1@ == pkce_challenge(pair.0@),
{
    atproto_oauth::pkce::generate()
}

/// A DPoP proof for an authorization-server request, from
/// `atproto_oauth::dpop::auth_dpop` with the key converted into `KeyData`.
/// Trusted. As that function's source shows, a proof is made only when
/// `to_public` succeeds on the key, and it is signed with that key for the
/// method and URI given, with no access token; its identifier and times are
/// fresh. Whether it is made is not claimed beyond that: the signature
/// covers the fresh identifier and time, and signing could fail on
/// particular content. The error's text is not stated.
#[verifier::external_body]
pub(crate) fn auth_dpop(key: &KeyMaterial, http_method: &str, http_uri: &str) -> (proof: Result<DpopProof, String>)
    ensures
        proof matches Ok(p) ==> has_public_key(key.kind, key.bytes@) && dpop_made_for(
            p,
            key.kind,
            key.bytes@,
            http_method@,
            http_uri@,
            None,
        ),
{
    let kd = KeyData::new(key_type_of(key.kind), key.bytes.clone());
    match atproto_oauth::dpop::auth_dpop(&kd, http_method, http_uri) {
        Ok((token, header, claims)) => Ok(DpopProof { token, header, claims, target: Ghost((key.kind, key.bytes@, http_method@, http_uri@, None)) }),
        Err(e) => Err(e.to_string()),
    }
}

/// The token `atproto_oauth::jwt::mint` gives when the proof encoded in
/// `token` is signed again with a key of `kind` and `key` bytes, with the
/// issue time and identifier replaced and the private claim `claim` set to
/// `value`; `None` when signing fails.
pub uninterp spec fn reminted_dpop(
    kind: KeyKind,
    key: Seq<u8>,
    token: Seq<char>,
    issued_at: u64,
    jti: Seq<char>,
    claim: Seq<char>,
    value: Seq<char>,
) -> Option<Seq<char>>;

/// Signs `proof` again with `atproto_oauth::jwt::mint` after writing the new
/// issue time and identifier and the private claim `claim` into a copy of
/// its claims. Trusted: the proof's header and claims are what its token
/// encodes, and signing is deterministic, so the outcome is named
/// [`reminted_dpop`]; the error's text is not stated.
#[verifier::external_body]
pub(crate) fn remint_dpop(key: &KeyMaterial, proof: &DpopProof, issued_at: u64, jti: &str, claim: &str, value: &str) -> (token: Result<String, String>)
    ensures
        match token {
            Ok(t) => reminted_dpop(key.kind, key.bytes@, proof.token_view(), issued_at, jti@, claim@, value@) == Some(t@),
            Err(_) => reminted_dpop(key.kind, key.bytes@, proof.token_view(), issued_at, jti@, claim@, value@) is None,
        },
{
    let mut claims = proof.claims.clone();
    claims.jose.issued_at = Some(issued_at);
    claims.jose.json_web_token_id = Some(jti.to_string());
    claims.private.insert(claim.to_string(), serde_json::Value::String(value.to_string()));
    let kd = KeyData::new(key_type_of(key.kind), key.bytes.clone());
    atproto_oauth::jwt::mint(&kd, &proof.header, &claims).map_err(|e| e.to_string())
}

/// A DPoP proof for a resource request bound to `access_token`, from
/// `atproto_oauth::dpop::request_dpop` with the key converted into
/// `KeyData`. Trusted, with the same claims as [`auth_dpop`]: a proof is
/// made only when `to_public` succeeds on the key, and it is signed with
/// that key for the method, URI and access token given. The error's text is
/// not stated.
#[verifier::external_body]
pub(crate) fn request_dpop(key: &KeyMaterial, http_method: &str, http_uri: &str, access_token: &str) -> (proof: Result<DpopProof, String>)
    ensures
        proof matches Ok(p) ==> has_public_key(key.kind, key.bytes@) && dpop_made_for(
            p,
            key.kind,
            key.bytes@,
            http_method@,
            http_uri@,
            Some(access_token@),
        ),
{
    let kd = KeyData::new(key_type_of(key.kind), key.bytes.clone());
    match atproto_oauth::dpop::request_dpop(&kd, http_method, http_uri, access_token) {
        Ok((token, header, claims)) => Ok(DpopProof { token, header, claims, target: Ghost((key.kind, key.bytes@, http_method@, http_uri@, Some(access_token@))) }),
        Err(e) => Err(e.to_string()),
    }
}

/// What `atproto_identity::url::build_url` gives for a host, a path and
/// query pairs: the URL's text, or the text of its parse error.
pub uninterp spec fn built_url(host: Seq<char>, path: Seq<char>, query: Seq<(Seq<char>, Seq<char>)>) -> Result<Seq<char>, Seq<char>>;

/// The view of a list of string pairs.
pub open spec fn pairs_view(pairs: Seq<(String, String)>) -> Seq<(Seq<char>, Seq<char>)> {
    pairs.map_values(|p: (String, String)| (p.0@, p.1@))
}

/// Builds a URL with `atproto_identity::url::build_url` and renders it (or
/// its error) as text. Trusted: the outcome is named [`built_url`] of the
/// arguments, which is all that is claimed.
#[verifier::external_body]
pub(crate) fn build_url(host: &str, path: &str, query: &Vec<(String, String)>) -> (url: Result<String, String>)
    ensures
        match url {
            Ok(u) => built_url(host@, path@, pairs_view(query@)) == Ok::<Seq<char>, Seq<char>>(u@),
            Err(e) => built_url(host@, path@, pairs_view(query@)) == Err::<Seq<char>, Seq<char>>(e@),
        },
{
    match atproto_identity::url::build_url(host, path, query.iter().map(|p| (p.0.as_str(), p.1.as_str()))) {
        Ok(u) => Ok(u.to_string()),
        Err(e) => Err(e.to_string()),
    }
}

} // verus!
