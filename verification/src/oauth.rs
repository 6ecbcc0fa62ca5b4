//! The server side of the AT Protocol OAuth flow: preparing the pushed
//! authorization request, remembering it under its `state`, redeeming the
//! `state` once for a token exchange, and keeping the resulting sessions.
//!
//! The network requests themselves are made by the caller between these
//! steps; each step takes what came back and decides the next one.

use vstd::prelude::*;

use crate::clock::{current_timestamp, ClockReading};
use crate::encoding::{form_encode, generate_random_hex, hex_lower, law_hex_survives_form_encoding, urlencoding};
use crate::jose::{
    auth_dpop, build_url, built_url, dpop_made_for, has_public_key, pairs_view,
    public_jwk, public_jwk_text,
    pkce_challenge, pkce_generate, remint_dpop, reminted_dpop, request_dpop, sign_client_assertion,
    signed_client_assertion, AssertionClaims, AssertionFailure, DpopProof,
};
use crate::keys::{clone_key, generate_key, key_data_to_string, KeyKind, KeyMaterial};
use crate::store::KeyedStore;
use crate::identity::opt_view;
use crate::text::{copy_str, join2, starts_with};

verus! {

/// What the client is given to start an authorization: the URL to send the
/// user to.
pub struct OAuthInitResponse {
    pub authorization_url: String,
}

/// What the client is given once the user is authenticated.
pub struct SessionData {
    pub did: String,
    pub handle: String,
    pub pds_endpoint: String,
    pub access_token: String,
}

/// The endpoints and identity of an authorization server, as its OAuth
/// metadata describes them.
pub struct AuthServerInfo {
    pub issuer: String,
    pub authorization_endpoint: String,
    pub pushed_authorization_request_endpoint: String,
    pub token_endpoint: String,
}

/// The record of an authorization request in flight.
pub struct OAuthRequest {
    pub oauth_state: String,
    pub issuer: String,
    pub authorization_server: String,
    pub nonce: String,
    pub pkce_verifier: String,
    pub signing_public_key: String,
    pub dpop_private_key: String,
    /// Seconds since the Unix epoch when the request was pushed.
    pub created_at: i64,
    /// Seconds after `created_at` at which the pushed request expires.
    pub expires_in: u64,
}

/// Everything kept between starting an authorization and its callback.
pub struct StoredOAuthState {
    pub oauth_request: OAuthRequest,
    pub auth_server: AuthServerInfo,
    pub pds_url: String,
    pub client_id: String,
    pub redirect_uri: String,
    pub signing_key: KeyMaterial,
    pub dpop_key: KeyMaterial,
    pub handle: String,
}

/// An authenticated session kept on the server, keyed by its DID.
pub struct ActiveSession {
    pub did: String,
    pub handle: String,
    pub pds_endpoint: String,
    pub access_token: String,
    pub dpop_key: KeyMaterial,
}

/// The answer of the pushed-authorization-request endpoint.
pub enum ParResult {
    Pushed { request_uri: String, expires_in: u64 },
    Refused { error: String, description: Option<String> },
}

/// The answer of the token endpoint.
pub enum TokenResult {
    Granted { access_token: String, token_type: String, scope: String, expires_in: u32, sub: Option<String> },
    Refused { error: String, description: Option<String> },
}

/// The pending requests, keyed by their `state`.
pub type OAuthStates = KeyedStore<StoredOAuthState>;

/// The active sessions, keyed by DID.
pub type ActiveSessions = KeyedStore<ActiveSession>;

// ---------------------------------------------------------------------------
// The client's configuration.

/// A domain that is set: present and not empty.
pub open spec fn domain_given(domain: Option<Seq<char>>) -> bool {
    domain is Some && domain.unwrap().len() > 0
}

/// The base URL of the deployment: `https://` and the domain of
/// `HOST_DOMAIN`, or else of `RAILWAY_PUBLIC_DOMAIN`; the local address
/// `http://127.0.0.1:8080` when neither is set.
pub open spec fn base_url_spec(host_domain: Option<Seq<char>>, railway_domain: Option<Seq<char>>) -> Seq<char> {
    if domain_given(host_domain) {
        "https://"@ + host_domain.unwrap()
    } else if domain_given(railway_domain) {
        "https://"@ + railway_domain.unwrap()
    } else {
        "http://127.0.0.1:8080"@
    }
}

/// Chooses the base URL from the two configured domains (see
/// [`base_url_spec`]).
pub fn base_url_from(host_domain: Option<String>, railway_domain: Option<String>) -> (base: String)
    ensures
        base@ == base_url_spec(opt_view(host_domain), opt_view(railway_domain)),
{
    if let Some(h) = &host_domain {
        if h.unicode_len() > 0 {
            return join2("https://", h.as_str());
        }
    }
    if let Some(r) = &railway_domain {
        if r.unicode_len() > 0 {
            return join2("https://", r.as_str());
        }
    }
    copy_str("http://127.0.0.1:8080")
}

/// A non-empty `HOST_DOMAIN` decides the base URL, whatever
/// `RAILWAY_PUBLIC_DOMAIN` is.
pub proof fn law_host_domain_decides(host: Seq<char>, railway_domain: Option<Seq<char>>)
    requires
        host.len() > 0,
    ensures
        base_url_spec(Some(host), railway_domain) == "https://"@ + host,
{
}

/// Without a `HOST_DOMAIN`, a non-empty `RAILWAY_PUBLIC_DOMAIN` decides the
/// base URL.
pub proof fn law_railway_domain_without_host(host_domain: Option<Seq<char>>, railway: Seq<char>)
    requires
        host_domain is None || host_domain.unwrap().len() == 0,
        railway.len() > 0,
    ensures
        base_url_spec(host_domain, Some(railway)) == "https://"@ + railway,
{
}

/// The base URL is the local address exactly when neither domain is set
/// (absent or empty); otherwise it is an HTTPS URL.
pub proof fn law_local_address_only_without_domains(host_domain: Option<Seq<char>>, railway_domain: Option<Seq<char>>)
    ensures
        base_url_spec(host_domain, railway_domain) == "http://127.0.0.1:8080"@ <==> ((host_domain is None
            || host_domain.unwrap().len() == 0) && (railway_domain is None || railway_domain.unwrap().len()
            == 0)),
        base_url_spec(host_domain, railway_domain) != "http://127.0.0.1:8080"@ ==> is_https(
            base_url_spec(host_domain, railway_domain),
        ),
{
    reveal_strlit("https://");
    reveal_strlit("http://127.0.0.1:8080");
    let b = base_url_spec(host_domain, railway_domain);
    if b != "http://127.0.0.1:8080"@ {
        assert(b.take(8) =~= "https://"@);
    }
    if domain_given(host_domain) || domain_given(railway_domain) {
        assert(b[4] == 's');
        assert(("http://127.0.0.1:8080"@)[4] == ':');
    }
}

/// A base URL served over HTTPS.
pub open spec fn is_https(base_url: Seq<char>) -> bool {
    8 <= base_url.len() && base_url.take(8) == "https://"@
}

/// Where the authorization server sends the user back to.
pub open spec fn redirect_uri_spec(base_url: Seq<char>) -> Seq<char> {
    base_url + "/oauth/callback"@
}

/// The scopes the client asks for.
pub open spec fn scope_spec() -> Seq<char> {
    "atproto transition:generic"@
}

/// The loopback client identifier for a redirect URI: both the redirect URI
/// and the scope are form-urlencoded into its query.
pub open spec fn loopback_client_id_spec(redirect_uri: Seq<char>) -> Seq<char> {
    "http://localhost?redirect_uri="@ + form_encode(redirect_uri) + "&scope="@ + form_encode(scope_spec())
}

/// The client identifier: over HTTPS, the URL of the client metadata
/// document; otherwise the loopback identifier of the redirect URI.
pub open spec fn client_id_spec(base_url: Seq<char>) -> Seq<char> {
    if is_https(base_url) {
        base_url + "/oauth/client-metadata.json"@
    } else {
        loopback_client_id_spec(redirect_uri_spec(base_url))
    }
}

/// The redirect URI of the deployment at `base_url`.
pub fn redirect_uri(base_url: &str) -> (uri: String)
    ensures
        uri@ == redirect_uri_spec(base_url@),
{
    join2(base_url, "/oauth/callback")
}

/// The client identifier of the deployment at `base_url`.
pub fn client_id_for(base_url: &str) -> (id: String)
    ensures
        id@ == client_id_spec(base_url@),
{
    proof {
        reveal_strlit("https://");
    }
    if starts_with(base_url, "https://") {
        join2(base_url, "/oauth/client-metadata.json")
    } else {
        let redirect = redirect_uri(base_url);
        let id = join2("http://localhost?redirect_uri=", urlencoding(redirect.as_str()).as_str());
        let id = join2(id.as_str(), "&scope=");
        join2(id.as_str(), urlencoding("atproto transition:generic").as_str())
    }
}

/// The client metadata document served at
/// `{base_url}/oauth/client-metadata.json`, which the authorization server
/// reads to learn the client's redirect URI and signing key.
pub struct ClientMetadata {
    pub client_id: String,
    pub application_type: String,
    pub grant_types: Vec<String>,
    pub response_types: Vec<String>,
    pub redirect_uris: Vec<String>,
    pub scope: String,
    pub token_endpoint_auth_method: String,
    pub token_endpoint_auth_signing_alg: String,
    pub dpop_bound_access_tokens: bool,
    /// The public JWK of the signing key, as JSON text.
    pub signing_jwk: String,
}

/// The views of a list of strings.
pub open spec fn strings_view(v: Seq<String>) -> Seq<Seq<char>> {
    v.map_values(|s: String| s@)
}

/// The metadata of the deployment at `base_url` whose signing key has the
/// public JWK `jwk`: the same client identifier, redirect URI, scope and
/// application type that the pushed request presents, the authorization
/// code grant, and client authentication by an ES256-signed JWT with
/// DPoP-bound tokens.
pub open spec fn client_metadata_for(m: ClientMetadata, base_url: Seq<char>, jwk: Seq<char>) -> bool {
    &&& m.client_id@ == client_id_spec(base_url)
    &&& m.application_type@ == "native"@
    &&& strings_view(m.grant_types@) == seq!["authorization_code"@]
    &&& strings_view(m.response_types@) == seq!["code"@]
    &&& strings_view(m.redirect_uris@) == seq![redirect_uri_spec(base_url)]
    &&& m.scope@ == scope_spec()
    &&& m.token_endpoint_auth_method@ == "private_key_jwt"@
    &&& m.token_endpoint_auth_signing_alg@ == "ES256"@
    &&& m.dpop_bound_access_tokens
    &&& m.signing_jwk@ == jwk
}

/// Builds the client metadata of the deployment at `base_url` with
/// `signing_key`; it fails exactly when the key has no public JWK.
pub fn client_metadata(base_url: &str, signing_key: &KeyMaterial) -> (metadata: Result<ClientMetadata, String>)
    ensures
        match public_jwk_text(signing_key.kind, signing_key.bytes@) {
            Some(jwk) => metadata matches Ok(m) && client_metadata_for(m, base_url@, jwk),
            None => metadata matches Err(e) && exists|d: Seq<char>| e@ == "Signing key has no public JWK: "@ + d,
        },
{
    let jwk = match public_jwk(signing_key) {
        Ok(j) => j,
        Err(e) => {
            let msg = join2("Signing key has no public JWK: ", e.as_str());
            assert(msg@ == "Signing key has no public JWK: "@ + e@);
            return Err(msg);
        },
    };
    let mut grant_types: Vec<String> = Vec::new();
    grant_types.push(copy_str("authorization_code"));
    let mut response_types: Vec<String> = Vec::new();
    response_types.push(copy_str("code"));
    let mut redirect_uris: Vec<String> = Vec::new();
    redirect_uris.push(redirect_uri(base_url));
    let m = ClientMetadata {
        client_id: client_id_for(base_url),
        application_type: copy_str("native"),
        grant_types,
        response_types,
        redirect_uris,
        scope: copy_str("atproto transition:generic"),
        token_endpoint_auth_method: copy_str("private_key_jwt"),
        token_endpoint_auth_signing_alg: copy_str("ES256"),
        dpop_bound_access_tokens: true,
        signing_jwk: jwk,
    };
    assert(strings_view(m.grant_types@) =~= seq!["authorization_code"@]);
    assert(strings_view(m.response_types@) =~= seq!["code"@]);
    assert(strings_view(m.redirect_uris@) =~= seq![redirect_uri_spec(base_url@)]);
    Ok(m)
}

/// The URL that sends the user to the authorization server for the pushed
/// request `request_uri`.
pub open spec fn authorization_url_spec(
    authorization_endpoint: Seq<char>,
    client_id: Seq<char>,
    request_uri: Seq<char>,
    state: Seq<char>,
) -> Seq<char> {
    authorization_endpoint + "?client_id="@ + form_encode(client_id) + "&request_uri="@ + form_encode(
        request_uri,
    ) + "&state="@ + form_encode(state)
}

/// Builds the authorization URL (see [`authorization_url_spec`]).
pub fn authorization_url(authorization_endpoint: &str, client_id: &str, request_uri: &str, state: &str) -> (url: String)
    ensures
        url@ == authorization_url_spec(authorization_endpoint@, client_id@, request_uri@, state@),
{
    let url = join2(authorization_endpoint, "?client_id=");
    let url = join2(url.as_str(), urlencoding(client_id).as_str());
    let url = join2(url.as_str(), "&request_uri=");
    let url = join2(url.as_str(), urlencoding(request_uri).as_str());
    let url = join2(url.as_str(), "&state=");
    join2(url.as_str(), urlencoding(state).as_str())
}

fn pair(key: &str, value: &str) -> (p: (String, String))
    ensures
        p.0@ == key@,
        p.1@ == value@,
{
    (copy_str(key), copy_str(value))
}

/// The form parameters of the pushed authorization request.
pub open spec fn par_params_spec(
    code_challenge: Seq<char>,
    client_id: Seq<char>,
    state: Seq<char>,
    redirect_uri: Seq<char>,
    client_assertion: Seq<char>,
    handle: Seq<char>,
) -> Seq<(Seq<char>, Seq<char>)> {
    seq![
        ("response_type"@, "code"@),
        ("code_challenge"@, code_challenge),
        ("code_challenge_method"@, "S256"@),
        ("client_id"@, client_id),
        ("state"@, state),
        ("redirect_uri"@, redirect_uri),
        ("scope"@, scope_spec()),
        ("application_type"@, "native"@),
        ("client_assertion_type"@, "urn:ietf:params:oauth:client-assertion-type:jwt-bearer"@),
        ("client_assertion"@, client_assertion),
        ("login_hint"@, handle),
    ]
}

/// Builds the form parameters of the pushed authorization request.
pub fn par_params(
    code_challenge: &str,
    client_id: &str,
    state: &str,
    redirect_uri: &str,
    client_assertion: &str,
    handle: &str,
) -> (params: Vec<(String, String)>)
    ensures
        pairs_view(params@) == par_params_spec(
            code_challenge@,
            client_id@,
            state@,
            redirect_uri@,
            client_assertion@,
            handle@,
        ),
{
    let mut params: Vec<(String, String)> = Vec::new();
    params.push(pair("response_type", "code"));
    params.push(pair("code_challenge", code_challenge));
    params.push(pair("code_challenge_method", "S256"));
    params.push(pair("client_id", client_id));
    params.push(pair("state", state));
    params.push(pair("redirect_uri", redirect_uri));
    params.push(pair("scope", "atproto transition:generic"));
    params.push(pair("application_type", "native"));
    params.push(pair("client_assertion_type", "urn:ietf:params:oauth:client-assertion-type:jwt-bearer"));
    params.push(pair("client_assertion", client_assertion));
    params.push(pair("login_hint", handle));
    assert(pairs_view(params@) =~= par_params_spec(
        code_challenge@,
        client_id@,
        state@,
        redirect_uri@,
        client_assertion@,
        handle@,
    ));
    params
}

/// The form parameters of the token request.
pub open spec fn token_params_spec(
    client_id: Seq<char>,
    redirect_uri: Seq<char>,
    code: Seq<char>,
    code_verifier: Seq<char>,
    client_assertion: Seq<char>,
) -> Seq<(Seq<char>, Seq<char>)> {
    seq![
        ("client_id"@, client_id),
        ("redirect_uri"@, redirect_uri),
        ("grant_type"@, "authorization_code"@),
        ("code"@, code),
        ("code_verifier"@, code_verifier),
        ("client_assertion_type"@, "urn:ietf:params:oauth:client-assertion-type:jwt-bearer"@),
        ("client_assertion"@, client_assertion),
    ]
}

/// Builds the form parameters of the token request.
pub fn token_params(
    client_id: &str,
    redirect_uri: &str,
    code: &str,
    code_verifier: &str,
    client_assertion: &str,
) -> (params: Vec<(String, String)>)
    ensures
        pairs_view(params@) == token_params_spec(client_id@, redirect_uri@, code@, code_verifier@, client_assertion@),
{
    let mut params: Vec<(String, String)> = Vec::new();
    params.push(pair("client_id", client_id));
    params.push(pair("redirect_uri", redirect_uri));
    params.push(pair("grant_type", "authorization_code"));
    params.push(pair("code", code));
    params.push(pair("code_verifier", code_verifier));
    params.push(pair("client_assertion_type", "urn:ietf:params:oauth:client-assertion-type:jwt-bearer"));
    params.push(pair("client_assertion", client_assertion));
    assert(pairs_view(params@) =~= token_params_spec(client_id@, redirect_uri@, code@, code_verifier@, client_assertion@));
    params
}


// ---------------------------------------------------------------------------
// Client assertions.

/// The claims of the client assertion: issued by and about the client,
/// addressed to the authorization server.
pub open spec fn assertion_claims_match(
    claims: AssertionClaims,
    client_id: Seq<char>,
    audience: Seq<char>,
    jti: Seq<char>,
    issued_at: u64,
) -> bool {
    &&& claims.issuer@ == client_id
    &&& claims.subject@ == client_id
    &&& claims.audience@ == audience
    &&& claims.json_web_token_id@ == jti
    &&& claims.issued_at == issued_at
}

/// Builds the claims of a client assertion.
pub fn assertion_claims(client_id: &str, audience: &str, jti: String, issued_at: u64) -> (claims: AssertionClaims)
    ensures
        assertion_claims_match(claims, client_id@, audience@, jti@, issued_at),
{
    AssertionClaims {
        issuer: copy_str(client_id),
        subject: copy_str(client_id),
        audience: copy_str(audience),
        json_web_token_id: jti,
        issued_at,
    }
}

/// Some signing of the client assertion of `client_id` for `audience`, with
/// a 30-byte hex identifier and some issue time, comes out as `outcome`.
pub open spec fn assertion_signed_as(key: KeyMaterial, client_id: Seq<char>, audience: Seq<char>, outcome: Option<Seq<char>>) -> bool {
    exists|jti: Seq<char>, issued_at: u64|
        is_hex_of_len(jti, 30) && #[trigger] signed_client_assertion(
            key.kind,
            key.bytes@,
            client_id,
            client_id,
            audience,
            jti,
            issued_at,
        ) == outcome
}

/// The client assertion of `client_id` for `audience`, signed with `key`
/// with a 30-byte hex identifier and the issue time `issued_at`, comes out
/// as `outcome`.
pub open spec fn assertion_signed_at(
    key: KeyMaterial,
    client_id: Seq<char>,
    audience: Seq<char>,
    issued_at: u64,
    outcome: Option<Seq<char>>,
) -> bool {
    exists|jti: Seq<char>|
        is_hex_of_len(jti, 30) && #[trigger] signed_client_assertion(
            key.kind,
            key.bytes@,
            client_id,
            client_id,
            audience,
            jti,
            issued_at,
        ) == outcome
}

/// `e` reports why the client assertion of `client_id` for `audience`
/// could not be signed with `key`: the key has no public form, so no JWT
/// header could be made; or the header was made and signing failed.
pub open spec fn assertion_failed(key: KeyMaterial, client_id: Seq<char>, audience: Seq<char>, e: Seq<char>) -> bool {
    ||| !has_public_key(key.kind, key.bytes@) && exists|d: Seq<char>| e == "JWT header creation failed: "@ + d
    ||| has_public_key(key.kind, key.bytes@) && assertion_signed_as(key, client_id, audience, None) && exists|
        d: Seq<char>,
    | e == "JWT minting failed: "@ + d
}

/// Mints a client assertion JWT for `client_id`, addressed to the issuer of
/// `auth_server`, with a fresh 30-byte identifier, issued at the clock
/// reading `now`.
pub fn build_client_assertion(
    signing_key: &KeyMaterial,
    client_id: &str,
    auth_server: &AuthServerInfo,
    now: &ClockReading,
) -> (assertion: Result<String, String>)
    ensures
        match assertion {
            Ok(t) => has_public_key(signing_key.kind, signing_key.bytes@) && assertion_signed_at(
                *signing_key,
                client_id@,
                auth_server.issuer@,
                now.issue_time(),
                Some(t@),
            ),
            Err(e) => assertion_failed(*signing_key, client_id@, auth_server.issuer@, e@),
        },
{
    let jti = generate_random_hex(30);
    #[verifier::truncate]
    let now = now.seconds() as u64;
    let claims = assertion_claims(client_id, auth_server.issuer.as_str(), jti, now);
    let ghost outcome = signed_client_assertion(
        signing_key.kind,
        signing_key.bytes@,
        client_id@,
        client_id@,
        auth_server.issuer@,
        claims.json_web_token_id@,
        now,
    );
    assert(is_hex_of_len(claims.json_web_token_id@, 30));
    match sign_client_assertion(signing_key, &claims) {
        Ok(token) => {
            assert(outcome == Some(token@));
            Ok(token)
        },
        Err(AssertionFailure::Header(e)) => {
            let msg = join2("JWT header creation failed: ", e.as_str());
            assert(msg@ == "JWT header creation failed: "@ + e@);
            Err(msg)
        },
        Err(AssertionFailure::Minting(e)) => {
            let msg = join2("JWT minting failed: ", e.as_str());
            assert(msg@ == "JWT minting failed: "@ + e@);
            assert(outcome is None);
            Err(msg)
        },
    }
}

// ---------------------------------------------------------------------------
// Starting an authorization.

/// A string of `2 * n` lowercase hex digits encoding `n` bytes.
pub open spec fn is_hex_of_len(s: Seq<char>, n: nat) -> bool {
    exists|bytes: Seq<u8>| bytes.len() == n && s == hex_lower(bytes)
}

/// A pushed authorization request, ready to be sent.
pub struct PreparedAuthorization {
    pub handle: String,
    pub pds_url: String,
    pub auth_server: AuthServerInfo,
    pub code_verifier: String,
    pub code_challenge: String,
    pub state: String,
    pub nonce: String,
    pub redirect_uri: String,
    pub client_id: String,
    pub signing_key: KeyMaterial,
    pub dpop_key: KeyMaterial,
    pub client_assertion: String,
    /// The clock reading at which the client assertion was issued.
    pub assertion_time: ClockReading,
    /// The form to post to the pushed-authorization-request endpoint.
    pub par_params: Vec<(String, String)>,
}

/// What a prepared request holds: the configuration of the deployment at
/// `base_url`, fresh random `state` and `nonce` of 16 bytes each, a PKCE
/// verifier with its S256 challenge, the deployment's signing key, a fresh
/// P-256 DPoP key, a client assertion signed with the signing key, and the
/// form built from them.
pub open spec fn prepared_for(
    p: PreparedAuthorization,
    handle: Seq<char>,
    pds_url: Seq<char>,
    auth_server: AuthServerInfo,
    base_url: Seq<char>,
    signing_key: KeyMaterial,
) -> bool {
    &&& p.handle@ == handle
    &&& p.pds_url@ == pds_url
    &&& p.auth_server == auth_server
    &&& p.code_verifier@.len() == 100
    &&& p.code_challenge@ == pkce_challenge(p.code_verifier@)
    &&& is_hex_of_len(p.state@, 16)
    &&& is_hex_of_len(p.nonce@, 16)
    &&& p.redirect_uri@ == redirect_uri_spec(base_url)
    &&& p.client_id@ == client_id_spec(base_url)
    &&& p.signing_key.kind == signing_key.kind
    &&& p.signing_key.bytes@ == signing_key.bytes@
    &&& p.dpop_key.kind == KeyKind::P256Private
    &&& p.dpop_key.bytes@.len() == 32
    &&& has_public_key(KeyKind::P256Private, p.dpop_key.bytes@)
    &&& assertion_signed_at(
        p.signing_key,
        p.client_id@,
        auth_server.issuer@,
        p.assertion_time.issue_time(),
        Some(p.client_assertion@),
    )
    &&& pairs_view(p.par_params@) == par_params_spec(
        p.code_challenge@,
        p.client_id@,
        p.state@,
        p.redirect_uri@,
        p.client_assertion@,
        handle,
    )
}

/// Prepares the pushed authorization request for `handle`, whose PDS is
/// `pds_url` and whose authorization server is `auth_server`, for the
/// deployment at `base_url` with its `signing_key`. It fails only when the
/// client assertion cannot be signed.
pub fn prepare_authorization(
    handle: String,
    pds_url: String,
    auth_server: AuthServerInfo,
    base_url: &str,
    signing_key: &KeyMaterial,
) -> (prepared: Result<PreparedAuthorization, String>)
    ensures
        match prepared {
            Ok(p) => prepared_for(p, handle@, pds_url@, auth_server, base_url@, *signing_key),
            Err(e) => assertion_failed(*signing_key, client_id_spec(base_url@), auth_server.issuer@, e@),
        },
{
    let (code_verifier, code_challenge) = pkce_generate();
    let state = generate_random_hex(16);
    let nonce = generate_random_hex(16);
    let redirect_uri = redirect_uri(base_url);
    let client_id = client_id_for(base_url);
    let signing_key = clone_key(signing_key);
    let dpop_key = match generate_key(KeyKind::P256Private) {
        Ok(k) => k,
        Err(e) => {
            // Keys of a private kind are always generated.
            assert(false);
            return Err(join2("Failed to generate DPoP key: ", e.as_str()));
        },
    };
    let assertion_time = current_timestamp();
    let client_assertion = match build_client_assertion(&signing_key, client_id.as_str(), &auth_server, &assertion_time) {
        Ok(a) => a,
        Err(e) => return Err(e),
    };
    let par_params = par_params(
        code_challenge.as_str(),
        client_id.as_str(),
        state.as_str(),
        redirect_uri.as_str(),
        client_assertion.as_str(),
        handle.as_str(),
    );
    Ok(PreparedAuthorization {
        handle,
        pds_url,
        auth_server,
        code_verifier,
        code_challenge,
        state,
        nonce,
        redirect_uri,
        client_id,
        signing_key,
        dpop_key,
        client_assertion,
        assertion_time,
        par_params,
    })
}

/// What is remembered for a prepared request once the server has accepted
/// it, `expires_in` seconds from `now`.
pub open spec fn stored_for(s: StoredOAuthState, p: PreparedAuthorization, expires_in: u64, now: i64) -> bool {
    &&& s.oauth_request.oauth_state == p.state
    &&& s.oauth_request.issuer == p.auth_server.issuer
    &&& s.oauth_request.authorization_server == p.auth_server.pushed_authorization_request_endpoint
    &&& s.oauth_request.nonce == p.nonce
    &&& s.oauth_request.pkce_verifier == p.code_verifier
    &&& s.oauth_request.signing_public_key@ == hex_lower(p.signing_key.bytes@)
    &&& s.oauth_request.dpop_private_key@ == hex_lower(p.dpop_key.bytes@)
    &&& s.oauth_request.created_at == now
    &&& s.oauth_request.expires_in == expires_in
    &&& s.auth_server == p.auth_server
    &&& s.pds_url == p.pds_url
    &&& s.client_id == p.client_id
    &&& s.redirect_uri == p.redirect_uri
    &&& s.signing_key == p.signing_key
    &&& s.dpop_key == p.dpop_key
    &&& s.handle == p.handle
}

/// Takes the server's answer to a pushed request. When the request was
/// accepted, it is remembered under its `state` and the user is sent to
/// the authorization endpoint; when it was refused, nothing is remembered.
pub fn finish_authorization(states: &mut OAuthStates, prepared: PreparedAuthorization, par: ParResult, now: i64) -> (response: Result<OAuthInitResponse, String>)
    ensures
        match par {
            ParResult::Pushed { request_uri, expires_in } => {
                &&& response matches Ok(r) && r.authorization_url@ == authorization_url_spec(
                    prepared.auth_server.authorization_endpoint@,
                    prepared.client_id@,
                    request_uri@,
                    prepared.state@,
                )
                &&& final(states)@.contains_key(prepared.state@)
                &&& stored_for(final(states)@[prepared.state@], prepared, expires_in, now)
                &&& final(states)@.remove(prepared.state@) == old(states)@.remove(prepared.state@)
            },
            ParResult::Refused { error, .. } => {
                &&& response matches Err(e) && e@ == "PAR error: "@ + error@
                &&& final(states)@ == old(states)@
            },
        },
{
    match par {
        ParResult::Refused { error, .. } => Err(join2("PAR error: ", error.as_str())),
        ParResult::Pushed { request_uri, expires_in } => {
            let ghost p = prepared;
            let PreparedAuthorization {
                handle,
                pds_url,
                auth_server,
                code_verifier,
                state,
                nonce,
                redirect_uri,
                client_id,
                signing_key,
                dpop_key,
                ..
            } = prepared;
            let authorization_url = authorization_url(
                auth_server.authorization_endpoint.as_str(),
                client_id.as_str(),
                request_uri.as_str(),
                state.as_str(),
            );
            let oauth_request = OAuthRequest {
                oauth_state: state.clone(),
                issuer: auth_server.issuer.clone(),
                authorization_server: auth_server.pushed_authorization_request_endpoint.clone(),
                nonce,
                pkce_verifier: code_verifier,
                signing_public_key: key_data_to_string(&signing_key),
                dpop_private_key: key_data_to_string(&dpop_key),
                created_at: now,
                expires_in,
            };
            let key = state.clone();
            let stored = StoredOAuthState {
                oauth_request,
                auth_server,
                pds_url,
                client_id,
                redirect_uri,
                signing_key,
                dpop_key,
                handle,
            };
            let ghost before = states@;
            states.insert(key, stored);
            proof {
                assert(states@.remove(p.state@) =~= before.remove(p.state@));
            }
            Ok(OAuthInitResponse { authorization_url })
        },
    }
}


// ---------------------------------------------------------------------------
// Completing an authorization.

/// A token request, ready to be sent: the redeemed state, the form, and a
/// DPoP proof for the token endpoint.
pub struct TokenRequest {
    pub stored: StoredOAuthState,
    pub params: Vec<(String, String)>,
    pub dpop: DpopProof,
    /// The clock reading at which the client assertion was issued.
    pub assertion_time: ClockReading,
}

/// The store after redeeming `state`: the state is gone, whether or not it
/// was there.
pub open spec fn redeems(before: Map<Seq<char>, StoredOAuthState>, state: Seq<char>, after: Map<Seq<char>, StoredOAuthState>) -> bool {
    after == before.remove(state)
}

/// A token form for `code` carrying the client, redirect URI and PKCE
/// verifier of `stored`, and a client assertion signed with its signing key
/// for its client and the issuer of its authorization server, issued at
/// `issued_at`.
pub open spec fn token_form_for(
    form: Seq<(Seq<char>, Seq<char>)>,
    stored: StoredOAuthState,
    code: Seq<char>,
    issued_at: u64,
) -> bool {
    &&& form == token_params_spec(
        stored.client_id@,
        stored.redirect_uri@,
        code,
        stored.oauth_request.pkce_verifier@,
        form[6].1,
    )
    &&& assertion_signed_at(
        stored.signing_key,
        stored.client_id@,
        stored.auth_server.issuer@,
        issued_at,
        Some(form[6].1),
    )
}

/// `e` reports why the token request for `stored` could not be prepared:
/// the client assertion could not be signed, or it was signed and then no
/// DPoP proof was made for the token endpoint.
pub open spec fn token_request_failed(stored: StoredOAuthState, e: Seq<char>) -> bool {
    ||| assertion_failed(stored.signing_key, stored.client_id@, stored.auth_server.issuer@, e)
    ||| has_public_key(stored.signing_key.kind, stored.signing_key.bytes@) && exists|d: Seq<char>|
        e == "DPoP proof generation failed: "@ + d
}

/// Redeems `state` for the authorization `code` and prepares the token
/// request. The state is removed from the store whatever follows, so that
/// it cannot be redeemed twice; an unknown state is refused.
pub fn prepare_token_request(states: &mut OAuthStates, code: &str, state: &String) -> (request: Result<TokenRequest, String>)
    ensures
        redeems(old(states)@, state@, final(states)@),
        !old(states)@.contains_key(state@) ==> (request matches Err(e) && e@ == "Invalid or expired OAuth state"@),
        old(states)@.contains_key(state@) ==> match request {
            Ok(r) => {
                &&& r.stored == old(states)@[state@]
                &&& token_form_for(pairs_view(r.params@), r.stored, code@, r.assertion_time.issue_time())
                &&& has_public_key(r.stored.dpop_key.kind, r.stored.dpop_key.bytes@)
                &&& dpop_made_for(
                    r.dpop,
                    r.stored.dpop_key.kind,
                    r.stored.dpop_key.bytes@,
                    "POST"@,
                    r.stored.auth_server.token_endpoint@,
                    None,
                )
            },
            Err(e) => token_request_failed(old(states)@[state@], e@),
        },
{
    let stored = match states.take(state) {
        Some(s) => s,
        None => return Err(copy_str("Invalid or expired OAuth state")),
    };
    let assertion_time = current_timestamp();
    let client_assertion = match build_client_assertion(
        &stored.signing_key,
        stored.client_id.as_str(),
        &stored.auth_server,
        &assertion_time,
    ) {
        Ok(a) => a,
        Err(e) => return Err(e),
    };
    let params = token_params(
        stored.client_id.as_str(),
        stored.redirect_uri.as_str(),
        code,
        stored.oauth_request.pkce_verifier.as_str(),
        client_assertion.as_str(),
    );
    assert(pairs_view(params@)[6].1 == client_assertion@);
    let dpop = match auth_dpop(&stored.dpop_key, "POST", stored.auth_server.token_endpoint.as_str()) {
        Ok(proof) => proof,
        Err(e) => {
            let msg = join2("DPoP proof generation failed: ", e.as_str());
            assert(msg@ == "DPoP proof generation failed: "@ + e@);
            return Err(msg);
        },
    };
    proof {
        reveal_strlit("POST");
    }
    Ok(TokenRequest { stored, params, dpop, assertion_time })
}

/// What to do after the first answer of the token endpoint.
pub enum TokenStep {
    /// The exchange succeeded for the user with this DID.
    Done { access_token: String, did: String },
    /// The server wants the DPoP proof again, carrying its nonce.
    RetryWithNonce { nonce: String },
    /// The exchange failed.
    Fail { message: String },
}

/// Decides on the first answer of the token endpoint, given the DPoP nonce
/// the server sent with it (if any).
pub fn first_token_step(reply: TokenResult, server_nonce: Option<String>) -> (step: TokenStep)
    ensures
        match reply {
            TokenResult::Granted { access_token: t, sub, .. } => match sub {
                Some(d) => step matches TokenStep::Done { access_token, did } && access_token == t && did == d,
                None => step matches TokenStep::Fail { message } && message@ == "Token response missing 'sub' (DID) field"@,
            },
            TokenResult::Refused { error, .. } => if error@ == "use_dpop_nonce"@ {
                match server_nonce {
                    Some(n) => step matches TokenStep::RetryWithNonce { nonce } && nonce == n,
                    None => step matches TokenStep::Fail { message } && message@ == "Token endpoint requested DPoP nonce but none provided"@,
                }
            } else {
                step matches TokenStep::Fail { message } && message@ == "Token exchange error: "@ + error@
            },
        },
{
    match reply {
        TokenResult::Granted { access_token, sub, .. } => match sub {
            Some(did) => TokenStep::Done { access_token, did },
            None => TokenStep::Fail { message: copy_str("Token response missing 'sub' (DID) field") },
        },
        TokenResult::Refused { error, .. } => {
            if error == copy_str("use_dpop_nonce") {
                match server_nonce {
                    Some(nonce) => TokenStep::RetryWithNonce { nonce },
                    None => TokenStep::Fail { message: copy_str("Token endpoint requested DPoP nonce but none provided") },
                }
            } else {
                TokenStep::Fail { message: join2("Token exchange error: ", error.as_str()) }
            }
        },
    }
}

/// Some re-signing of the proof `token`, with a 16-byte hex identifier,
/// some issue time and the server's `nonce` as its `nonce` claim, comes out
/// as `outcome`.
pub open spec fn reminted_as(key: KeyMaterial, token: Seq<char>, nonce: Seq<char>, outcome: Option<Seq<char>>) -> bool {
    exists|issued_at: u64, jti: Seq<char>|
        is_hex_of_len(jti, 16) && #[trigger] reminted_dpop(
            key.kind,
            key.bytes@,
            token,
            issued_at,
            jti,
            "nonce"@,
            nonce,
        ) == outcome
}

/// The error of a failed re-signing.
pub open spec fn is_remint_error(e: Seq<char>) -> bool {
    exists|d: Seq<char>| e == "DPoP re-mint failed: "@ + d
}

/// The proof `token` signed again with `key`, with a 16-byte hex
/// identifier, the issue time `issued_at` and the server's `nonce` as its
/// `nonce` claim, comes out as `outcome`.
pub open spec fn reminted_at(
    key: KeyMaterial,
    token: Seq<char>,
    nonce: Seq<char>,
    issued_at: u64,
    outcome: Option<Seq<char>>,
) -> bool {
    exists|jti: Seq<char>|
        is_hex_of_len(jti, 16) && #[trigger] reminted_dpop(
            key.kind,
            key.bytes@,
            token,
            issued_at,
            jti,
            "nonce"@,
            nonce,
        ) == outcome
}

/// The DPoP proof of `request` minted again with the server's `nonce`, a
/// fresh 16-byte identifier, issued at the clock reading `now`.
pub fn retry_dpop_proof_at(request: &TokenRequest, nonce: &str, now: &ClockReading) -> (token: Result<String, String>)
    ensures
        match token {
            Ok(t) => reminted_at(request.stored.dpop_key, request.dpop.token_view(), nonce@, now.issue_time(), Some(t@)),
            Err(e) => is_remint_error(e@) && reminted_at(
                request.stored.dpop_key,
                request.dpop.token_view(),
                nonce@,
                now.issue_time(),
                None,
            ),
        },
{
    #[verifier::truncate]
    let issued_at = now.seconds() as u64;
    let jti = generate_random_hex(16);
    assert(is_hex_of_len(jti@, 16));
    let ghost outcome = reminted_dpop(
        request.stored.dpop_key.kind,
        request.stored.dpop_key.bytes@,
        request.dpop.token_view(),
        issued_at,
        jti@,
        "nonce"@,
        nonce@,
    );
    match remint_dpop(&request.stored.dpop_key, &request.dpop, issued_at, jti.as_str(), "nonce", nonce) {
        Ok(token) => {
            assert(outcome == Some(token@));
            Ok(token)
        },
        Err(e) => {
            let msg = join2("DPoP re-mint failed: ", e.as_str());
            assert(msg@ == "DPoP re-mint failed: "@ + e@);
            assert(outcome is None);
            Err(msg)
        },
    }
}

/// The DPoP proof of `request` minted again with the server's `nonce`, a
/// fresh 16-byte identifier, issued at the current time (see
/// [`retry_dpop_proof_at`], which it calls with a fresh clock reading).
pub fn retry_dpop_proof(request: &TokenRequest, nonce: &str) -> (token: Result<String, String>)
    ensures
        match token {
            Ok(t) => reminted_as(request.stored.dpop_key, request.dpop.token_view(), nonce@, Some(t@)),
            Err(e) => is_remint_error(e@) && reminted_as(request.stored.dpop_key, request.dpop.token_view(), nonce@, None),
        },
{
    let now = current_timestamp();
    retry_dpop_proof_at(request, nonce, &now)
}

/// Decides on the token endpoint's answer to the retried request: the
/// access token and DID, or the error.
pub fn retry_token_step(reply: TokenResult) -> (outcome: Result<(String, String), String>)
    ensures
        match reply {
            TokenResult::Granted { access_token, sub, .. } => match sub {
                Some(d) => outcome matches Ok(pair) && pair.0 == access_token && pair.1 == d,
                None => outcome matches Err(e) && e@ == "Token response missing 'sub' (DID) field on retry"@,
            },
            TokenResult::Refused { error, .. } => outcome matches Err(e) && e@ == "Token exchange error: "@ + error@,
        },
{
    match reply {
        TokenResult::Granted { access_token, sub, .. } => match sub {
            Some(did) => Ok((access_token, did)),
            None => Err(copy_str("Token response missing 'sub' (DID) field on retry")),
        },
        TokenResult::Refused { error, .. } => Err(join2("Token exchange error: ", error.as_str())),
    }
}

/// The session kept for a user after a successful exchange.
pub open spec fn session_for(s: ActiveSession, stored: StoredOAuthState, access_token: Seq<char>, did: Seq<char>) -> bool {
    &&& s.did@ == did
    &&& s.handle == stored.handle
    &&& s.pds_endpoint == stored.pds_url
    &&& s.access_token@ == access_token
    &&& s.dpop_key.kind == stored.dpop_key.kind
    &&& s.dpop_key.bytes@ == stored.dpop_key.bytes@
}

/// Records the session of a completed exchange under its DID and gives the
/// client its session data.
pub fn finish_token_exchange(sessions: &mut ActiveSessions, stored: StoredOAuthState, access_token: String, did: String) -> (session: SessionData)
    ensures
        session.did == did,
        session.handle == stored.handle,
        session.pds_endpoint == stored.pds_url,
        session.access_token == access_token,
        final(sessions)@.contains_key(did@),
        session_for(final(sessions)@[did@], stored, access_token@, did@),
        final(sessions)@.remove(did@) == old(sessions)@.remove(did@),
{
    let ghost before = sessions@;
    let active = ActiveSession {
        did: did.clone(),
        handle: stored.handle.clone(),
        pds_endpoint: stored.pds_url.clone(),
        access_token: access_token.clone(),
        dpop_key: clone_key(&stored.dpop_key),
    };
    let key = did.clone();
    sessions.insert(key, active);
    proof {
        assert(sessions@.remove(did@) =~= before.remove(did@));
    }
    SessionData { did, handle: stored.handle, pds_endpoint: stored.pds_url, access_token }
}

// ---------------------------------------------------------------------------
// Authenticated requests to the user's PDS.

/// A `describeRepo` request, ready to be sent.
pub struct RepoRequest {
    pub url: String,
    /// The value of the `Authorization` header.
    pub authorization: String,
    /// The proof sent in the `DPoP` header.
    pub dpop: DpopProof,
}

/// The path of the `describeRepo` endpoint.
pub open spec fn describe_repo_path() -> Seq<char> {
    "/xrpc/com.atproto.repo.describeRepo"@
}

/// A request for `url` made on behalf of the kept session `active`: its
/// access token as the `DPoP` authorization, and a proof made with its DPoP
/// key for a `GET` of `url`, bound to that token.
pub open spec fn repo_request_for(r: RepoRequest, url: Seq<char>, active: ActiveSession) -> bool {
    &&& r.url@ == url
    &&& r.authorization@ == "DPoP "@ + active.access_token@
    &&& dpop_made_for(r.dpop, active.dpop_key.kind, active.dpop_key.bytes@, "GET"@, url, Some(active.access_token@))
}

/// Prepares the request that lists the collections of the session's
/// repository, signed with the DPoP key of the session kept for its DID.
pub fn prepare_describe_repo(session: &SessionData, sessions: &ActiveSessions) -> (request: Result<RepoRequest, String>)
    ensures
        match built_url(session.pds_endpoint@, describe_repo_path(), seq![("repo"@, session.did@)]) {
            Err(e) => request matches Err(m) && m@ == "URL build failed: "@ + e,
            Ok(u) => if !sessions@.contains_key(session.did@) {
                request matches Err(m) && m@ == "No active session found"@
            } else {
                match request {
                    Ok(r) => {
                        &&& repo_request_for(r, u, sessions@[session.did@])
                        &&& has_public_key(
                            sessions@[session.did@].dpop_key.kind,
                            sessions@[session.did@].dpop_key.bytes@,
                        )
                    },
                    Err(m) => exists|d: Seq<char>| m@ == "DPoP proof failed: "@ + d,
                }
            },
        },
{
    let mut query: Vec<(String, String)> = Vec::new();
    query.push(pair("repo", session.did.as_str()));
    assert(pairs_view(query@) =~= seq![("repo"@, session.did@)]);
    let url = match build_url(session.pds_endpoint.as_str(), "/xrpc/com.atproto.repo.describeRepo", &query) {
        Ok(u) => u,
        Err(e) => return Err(join2("URL build failed: ", e.as_str())),
    };
    let active = match sessions.get(&session.did) {
        Some(a) => a,
        None => return Err(copy_str("No active session found")),
    };
    let dpop = match request_dpop(&active.dpop_key, "GET", url.as_str(), active.access_token.as_str()) {
        Ok(proof) => proof,
        Err(e) => {
            let msg = join2("DPoP proof failed: ", e.as_str());
            assert(msg@ == "DPoP proof failed: "@ + e@);
            return Err(msg);
        },
    };
    proof {
        reveal_strlit("GET");
    }
    let authorization = join2("DPoP ", active.access_token.as_str());
    Ok(RepoRequest { url, authorization, dpop })
}


// ---------------------------------------------------------------------------
// What the flow guarantees across its steps.

/// A `state` is redeemed at most once: after [`prepare_token_request`] has
/// redeemed it, the store no longer holds it, so a second redemption is
/// refused as unknown and leaves the store as it was.
pub proof fn law_state_redeemed_at_most_once(
    before: Map<Seq<char>, StoredOAuthState>,
    after_first: Map<Seq<char>, StoredOAuthState>,
    after_second: Map<Seq<char>, StoredOAuthState>,
    state: Seq<char>,
)
    requires
        redeems(before, state, after_first),
        redeems(after_first, state, after_second),
    ensures
        !after_first.contains_key(state),
        after_second == after_first,
{
    assert(after_first.remove(state) =~= after_first);
}

/// The token exchange for a redeemed state is bound to the authorization
/// that created it: it presents the same client and redirect URI, and the
/// PKCE verifier whose S256 challenge went into the pushed request, so only
/// the holder of that verifier can exchange the code.
pub proof fn law_exchange_bound_to_authorization(
    prepared: PreparedAuthorization,
    handle: Seq<char>,
    pds_url: Seq<char>,
    auth_server: AuthServerInfo,
    base_url: Seq<char>,
    signing_key: KeyMaterial,
    stored: StoredOAuthState,
    expires_in: u64,
    now: i64,
    code: Seq<char>,
    form: Seq<(Seq<char>, Seq<char>)>,
    issued_at: u64,
)
    requires
        prepared_for(prepared, handle, pds_url, auth_server, base_url, signing_key),
        stored_for(stored, prepared, expires_in, now),
        token_form_for(form, stored, code, issued_at),
    ensures
        pairs_view(prepared.par_params@)[1] == ("code_challenge"@, pkce_challenge(form[4].1)),
        form[4] == ("code_verifier"@, stored.oauth_request.pkce_verifier@),
        form[0] == ("client_id"@, client_id_spec(base_url)),
        form[1] == ("redirect_uri"@, redirect_uri_spec(base_url)),
        pairs_view(prepared.par_params@)[3] == ("client_id"@, client_id_spec(base_url)),
        pairs_view(prepared.par_params@)[5] == ("redirect_uri"@, redirect_uri_spec(base_url)),
        stored.oauth_request.oauth_state@ == prepared.state@,
        stored.handle@ == handle,
        stored.pds_url@ == pds_url,
{
}

/// Every authorization the deployment prepares is signed with its one
/// signing key and presents one client: two requests prepared for the
/// deployment at `base_url` with `signing_key` hold the same key and the
/// same client identifier and redirect URI.
pub proof fn law_one_signing_key_per_deployment(
    first: PreparedAuthorization,
    second: PreparedAuthorization,
    handles: (Seq<char>, Seq<char>),
    pds_urls: (Seq<char>, Seq<char>),
    auth_servers: (AuthServerInfo, AuthServerInfo),
    base_url: Seq<char>,
    signing_key: KeyMaterial,
)
    requires
        prepared_for(first, handles.0, pds_urls.0, auth_servers.0, base_url, signing_key),
        prepared_for(second, handles.1, pds_urls.1, auth_servers.1, base_url, signing_key),
    ensures
        first.signing_key.kind == second.signing_key.kind,
        first.signing_key.bytes@ == second.signing_key.bytes@,
        first.client_id@ == second.client_id@,
        first.redirect_uri@ == second.redirect_uri@,
{
}

/// The client metadata document agrees with every pushed request of the
/// deployment: the same client identifier, redirect URI, scope and
/// application type.
pub proof fn law_metadata_matches_authorization(
    metadata: ClientMetadata,
    jwk: Seq<char>,
    prepared: PreparedAuthorization,
    handle: Seq<char>,
    pds_url: Seq<char>,
    auth_server: AuthServerInfo,
    base_url: Seq<char>,
    signing_key: KeyMaterial,
)
    requires
        client_metadata_for(metadata, base_url, jwk),
        prepared_for(prepared, handle, pds_url, auth_server, base_url, signing_key),
    ensures
        pairs_view(prepared.par_params@)[3] == ("client_id"@, metadata.client_id@),
        pairs_view(prepared.par_params@)[5] == ("redirect_uri"@, strings_view(metadata.redirect_uris@)[0]),
        pairs_view(prepared.par_params@)[6] == ("scope"@, metadata.scope@),
        pairs_view(prepared.par_params@)[7] == ("application_type"@, metadata.application_type@),
{
}

/// Client assertions are issued at the clock reading taken when they are
/// signed: the `iat` claim of a prepared request's assertion is the reading
/// the request holds, and so is that of the assertion in a token form.
pub proof fn law_assertions_issued_at_clock_reading(
    prepared: PreparedAuthorization,
    handle: Seq<char>,
    pds_url: Seq<char>,
    auth_server: AuthServerInfo,
    base_url: Seq<char>,
    signing_key: KeyMaterial,
    request: TokenRequest,
    code: Seq<char>,
)
    requires
        prepared_for(prepared, handle, pds_url, auth_server, base_url, signing_key),
        token_form_for(pairs_view(request.params@), request.stored, code, request.assertion_time.issue_time()),
    ensures
        exists|jti: Seq<char>|
            is_hex_of_len(jti, 30) && #[trigger] signed_client_assertion(
                signing_key.kind,
                signing_key.bytes@,
                prepared.client_id@,
                prepared.client_id@,
                auth_server.issuer@,
                jti,
                prepared.assertion_time.value() as u64,
            ) == Some(prepared.client_assertion@),
        exists|jti: Seq<char>|
            is_hex_of_len(jti, 30) && #[trigger] signed_client_assertion(
                request.stored.signing_key.kind,
                request.stored.signing_key.bytes@,
                request.stored.client_id@,
                request.stored.client_id@,
                request.stored.auth_server.issuer@,
                jti,
                request.assertion_time.value() as u64,
            ) == Some(pairs_view(request.params@)[6].1),
{
}

/// A retried DPoP proof made at a clock reading carries that reading as
/// its issue time and the server's nonce as its `nonce` claim.
pub proof fn law_retried_proof_issued_at_clock_reading(
    request: TokenRequest,
    nonce: Seq<char>,
    now: ClockReading,
    token: Seq<char>,
)
    requires
        reminted_at(request.stored.dpop_key, request.dpop.token_view(), nonce, now.issue_time(), Some(token)),
    ensures
        exists|jti: Seq<char>|
            is_hex_of_len(jti, 16) && #[trigger] reminted_dpop(
                request.stored.dpop_key.kind,
                request.stored.dpop_key.bytes@,
                request.dpop.token_view(),
                now.value() as u64,
                jti,
                "nonce"@,
                nonce,
            ) == Some(token),
{
}

/// The authorization URL ends with the request's `state` exactly as it is
/// stored, so the callback's `state` is the key under which the request was
/// remembered.
pub proof fn law_authorization_url_carries_state(
    prepared: PreparedAuthorization,
    handle: Seq<char>,
    pds_url: Seq<char>,
    auth_server: AuthServerInfo,
    base_url: Seq<char>,
    signing_key: KeyMaterial,
    request_uri: Seq<char>,
)
    requires
        prepared_for(prepared, handle, pds_url, auth_server, base_url, signing_key),
    ensures
        authorization_url_spec(
            prepared.auth_server.authorization_endpoint@,
            prepared.client_id@,
            request_uri,
            prepared.state@,
        ) == prepared.auth_server.authorization_endpoint@ + "?client_id="@ + form_encode(
            prepared.client_id@,
        ) + "&request_uri="@ + form_encode(request_uri) + "&state="@ + prepared.state@,
{
    let bytes = choose|bytes: Seq<u8>| bytes.len() == 16 && prepared.state@ == hex_lower(bytes);
    law_hex_survives_form_encoding(bytes);
}

/// After a completed exchange, a `describeRepo` request for the session's
/// DID carries the access token of that exchange, and its DPoP proof is
/// made with the DPoP key of the authorization that obtained the token,
/// bound to that token: the token is only usable with that key.
pub proof fn law_session_serves_its_token(
    sessions: Map<Seq<char>, ActiveSession>,
    stored: StoredOAuthState,
    access_token: Seq<char>,
    did: Seq<char>,
    url: Seq<char>,
    request: RepoRequest,
)
    requires
        sessions.contains_key(did),
        session_for(sessions[did], stored, access_token, did),
        repo_request_for(request, url, sessions[did]),
    ensures
        request.authorization@ == "DPoP "@ + access_token,
        dpop_made_for(request.dpop, stored.dpop_key.kind, stored.dpop_key.bytes@, "GET"@, url, Some(access_token)),
{
}

} // verus!
