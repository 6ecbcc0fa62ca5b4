use my_atmosphere::identity::{did_doc_url, pds_from_services, DidService};
use my_atmosphere::keys::{deployment_signing_key, KeyKind, KeyMaterial};
use my_atmosphere::oauth::{
    assertion_claims, authorization_url, base_url_from, client_id_for, client_metadata, finish_authorization,
    finish_token_exchange, first_token_step, par_params, prepare_authorization, prepare_describe_repo,
    prepare_token_request, redirect_uri, retry_dpop_proof, retry_token_step, token_params,
    ActiveSessions, AuthServerInfo, OAuthStates, ParResult, PreparedAuthorization, SessionData,
    TokenResult, TokenStep,
};
use my_atmosphere::store::KeyedStore;

const LOCAL: &str = "http://127.0.0.1:8080";

fn prepare(handle: &str, pds: &str, key: &KeyMaterial) -> PreparedAuthorization {
    prepare_authorization(handle.to_string(), pds.to_string(), server(), LOCAL, key).expect("prepared")
}

fn server() -> AuthServerInfo {
    AuthServerInfo {
        issuer: "https://auth.example.com".to_string(),
        authorization_endpoint: "https://auth.example.com/oauth/authorize".to_string(),
        pushed_authorization_request_endpoint: "https://auth.example.com/oauth/par".to_string(),
        token_endpoint: "https://auth.example.com/oauth/token".to_string(),
    }
}

fn param<'a>(params: &'a [(String, String)], key: &str) -> &'a str {
    params.iter().find(|p| p.0 == key).map(|p| p.1.as_str()).expect("param")
}

const CLIENT_ID: &str =
    "http://localhost?redirect_uri=http%3A%2F%2F127.0.0.1%3A8080%2Foauth%2Fcallback&scope=atproto+transition%3Ageneric";

#[test]
fn base_url_follows_the_configured_domain() {
    let s = |v: &str| Some(v.to_string());
    assert_eq!(base_url_from(None, None), LOCAL);
    assert_eq!(base_url_from(s("my.app"), s("rail.app")), "https://my.app");
    assert_eq!(base_url_from(None, s("rail.app")), "https://rail.app");
    assert_eq!(base_url_from(s(""), s("rail.app")), "https://rail.app");
    assert_eq!(base_url_from(s(""), s("")), LOCAL);
}

#[test]
fn local_deployment_uses_a_loopback_client() {
    assert_eq!(redirect_uri(LOCAL), "http://127.0.0.1:8080/oauth/callback");
    assert_eq!(client_id_for(LOCAL), CLIENT_ID);
}

#[test]
fn https_deployment_publishes_its_client_metadata() {
    assert_eq!(redirect_uri("https://my.app"), "https://my.app/oauth/callback");
    assert_eq!(client_id_for("https://my.app"), "https://my.app/oauth/client-metadata.json");
    let key = deployment_signing_key(None);
    let p = prepare_authorization("alice.test".to_string(), "https://pds.example".to_string(), server(), "https://my.app", &key)
        .expect("prepared");
    assert_eq!(p.redirect_uri, "https://my.app/oauth/callback");
    assert_eq!(p.client_id, "https://my.app/oauth/client-metadata.json");
    assert_eq!(param(&p.par_params, "redirect_uri"), "https://my.app/oauth/callback");
    assert_eq!(param(&p.par_params, "client_id"), "https://my.app/oauth/client-metadata.json");
}

#[test]
fn authorization_url_encodes_its_parameters() {
    let url = authorization_url("https://a.example/authorize", "http://localhost?x=1", "urn:req:1", "abc");
    assert_eq!(
        url,
        "https://a.example/authorize?client_id=http%3A%2F%2Flocalhost%3Fx%3D1&request_uri=urn%3Areq%3A1&state=abc"
    );
    assert_eq!(authorization_url("e", "a*b-c.d_e", "é", ""), "e?client_id=a*b-c.d_e&request_uri=%C3%A9&state=");
    assert_eq!(
        authorization_url("e", "atproto transition:generic", "", "x"),
        "e?client_id=atproto+transition%3Ageneric&request_uri=&state=x"
    );
}

#[test]
fn par_and_token_forms_list_every_field() {
    let p = par_params("ch", "cid", "st", "ru", "asrt", "alice.test");
    let expected: Vec<(String, String)> = [
        ("response_type", "code"),
        ("code_challenge", "ch"),
        ("code_challenge_method", "S256"),
        ("client_id", "cid"),
        ("state", "st"),
        ("redirect_uri", "ru"),
        ("scope", "atproto transition:generic"),
        ("application_type", "native"),
        ("client_assertion_type", "urn:ietf:params:oauth:client-assertion-type:jwt-bearer"),
        ("client_assertion", "asrt"),
        ("login_hint", "alice.test"),
    ]
    .iter()
    .map(|(k, v)| (k.to_string(), v.to_string()))
    .collect();
    assert_eq!(p, expected);

    let t = token_params("cid", "ru", "code1", "ver", "asrt");
    let expected: Vec<(String, String)> = [
        ("client_id", "cid"),
        ("redirect_uri", "ru"),
        ("grant_type", "authorization_code"),
        ("code", "code1"),
        ("code_verifier", "ver"),
        ("client_assertion_type", "urn:ietf:params:oauth:client-assertion-type:jwt-bearer"),
        ("client_assertion", "asrt"),
    ]
    .iter()
    .map(|(k, v)| (k.to_string(), v.to_string()))
    .collect();
    assert_eq!(t, expected);
}

#[test]
fn assertion_claims_name_the_client_and_the_server() {
    let c = assertion_claims("cid", "https://issuer", "jti1".to_string(), 42);
    assert_eq!(c.issuer, "cid");
    assert_eq!(c.subject, "cid");
    assert_eq!(c.audience, "https://issuer");
    assert_eq!(c.json_web_token_id, "jti1");
    assert_eq!(c.issued_at, 42);
}

#[test]
fn prepared_authorization_holds_fresh_state_and_form() {
    let key = deployment_signing_key(None);
    let p = prepare("alice.test", "https://pds.example", &key);
    assert_eq!(p.state.len(), 32);
    assert_eq!(p.nonce.len(), 32);
    assert!(p.state.chars().all(|c| c.is_ascii_hexdigit()));
    assert_eq!(p.code_verifier.len(), 100);
    assert_eq!(p.code_challenge, atproto_oauth::pkce::challenge(&p.code_verifier));
    assert_eq!(p.client_id, CLIENT_ID);
    assert_eq!(p.redirect_uri, "http://127.0.0.1:8080/oauth/callback");
    assert!(p.signing_key.kind == KeyKind::P256Private);
    assert_eq!(p.signing_key.bytes, key.bytes);
    assert!(p.dpop_key.kind == KeyKind::P256Private);
    assert_eq!(p.dpop_key.bytes.len(), 32);
    assert_eq!(param(&p.par_params, "state"), p.state);
    assert_eq!(param(&p.par_params, "login_hint"), "alice.test");
    assert_eq!(param(&p.par_params, "code_challenge"), p.code_challenge);
    assert_eq!(param(&p.par_params, "client_assertion"), p.client_assertion);
    assert_eq!(p.client_assertion.split('.').count(), 3);
}

#[test]
fn every_authorization_shares_the_deployment_signing_key() {
    let key = deployment_signing_key(None);
    let a = prepare("alice.test", "https://pds.example", &key);
    let b = prepare("bob.test", "https://pds.example", &key);
    assert_eq!(a.signing_key.bytes, b.signing_key.bytes);
    assert_eq!(a.client_id, b.client_id);
    assert_ne!(a.dpop_key.bytes, b.dpop_key.bytes);
    assert_ne!(a.state, b.state);
}

#[test]
fn seed_fixes_the_signing_key() {
    let seed = "00112233445566778899AABBCCDDEEFF00112233445566778899aabbccddeeff".to_string();
    let a = deployment_signing_key(Some(seed.clone()));
    let b = deployment_signing_key(Some(seed));
    assert!(a.kind == KeyKind::P256Private);
    assert_eq!(a.bytes, b.bytes);
    assert_eq!(a.bytes[0], 0x00);
    assert_eq!(a.bytes[10], 0xaa);
    assert_eq!(a.bytes[31], 0xff);
    let short = deployment_signing_key(Some("0011".to_string()));
    assert!(short.kind == KeyKind::P256Private);
    assert_eq!(short.bytes.len(), 32);
    let not_hex = deployment_signing_key(Some("zz".repeat(32)));
    assert_eq!(not_hex.bytes.len(), 32);
    assert_ne!(not_hex.bytes, deployment_signing_key(Some("zz".repeat(32))).bytes);
}

#[test]
fn unusable_signing_key_fails_the_authorization() {
    let broken = KeyMaterial { kind: KeyKind::P256Private, bytes: vec![1, 2, 3] };
    let e = prepare_authorization("a.test".to_string(), "https://pds".to_string(), server(), LOCAL, &broken)
        .err()
        .expect("error");
    assert!(e.starts_with("JWT header creation failed: "), "{e}");
    let public = KeyMaterial { kind: KeyKind::P256Public, bytes: vec![2; 33] };
    let e = prepare_authorization("a.test".to_string(), "https://pds".to_string(), server(), LOCAL, &public)
        .err()
        .expect("error");
    assert!(e.starts_with("JWT minting failed: "), "{e}");
}

#[test]
fn refused_push_is_reported_and_nothing_is_remembered() {
    let mut states: OAuthStates = KeyedStore::new();
    let p = prepare("alice.test", "https://pds.example", &deployment_signing_key(None));
    let state = p.state.clone();
    let r = finish_authorization(
        &mut states,
        p,
        ParResult::Refused { error: "invalid_request".to_string(), description: None },
        1000,
    );
    assert_eq!(r.err(), Some("PAR error: invalid_request".to_string()));
    assert!(!states.contains(&state));
}

#[test]
fn state_is_redeemed_once() {
    let mut states: OAuthStates = KeyedStore::new();
    let p = prepare("alice.test", "https://pds.example", &deployment_signing_key(None));
    let state = p.state.clone();
    let verifier = p.code_verifier.clone();
    let challenge = p.code_challenge.clone();
    let r = finish_authorization(
        &mut states,
        p,
        ParResult::Pushed { request_uri: "urn:ietf:params:oauth:request_uri:req-1".to_string(), expires_in: 60 },
        1000,
    )
    .expect("accepted");
    assert_eq!(
        r.authorization_url,
        format!(
            "https://auth.example.com/oauth/authorize?client_id={}&request_uri=urn%3Aietf%3Aparams%3Aoauth%3Arequest_uri%3Areq-1&state={}",
            "http%3A%2F%2Flocalhost%3Fredirect_uri%3Dhttp%253A%252F%252F127.0.0.1%253A8080%252Foauth%252Fcallback%26scope%3Datproto%2Btransition%253Ageneric",
            state
        )
    );
    assert!(states.contains(&state));
    {
        let stored = states.get(&state).expect("stored");
        assert_eq!(stored.oauth_request.oauth_state, state);
        assert_eq!(stored.oauth_request.created_at, 1000);
        assert_eq!(stored.oauth_request.expires_in, 60);
        assert_eq!(stored.oauth_request.signing_public_key.len(), 64);
        assert_eq!(stored.handle, "alice.test");
    }

    let req = prepare_token_request(&mut states, "the-code", &state).expect("redeemed");
    assert!(!states.contains(&state));
    assert_eq!(req.stored.oauth_request.pkce_verifier, verifier);
    assert_eq!(param(&req.params, "code"), "the-code");
    assert_eq!(param(&req.params, "code_verifier"), verifier);
    assert_eq!(param(&req.params, "client_id"), CLIENT_ID);
    assert_eq!(param(&req.params, "redirect_uri"), "http://127.0.0.1:8080/oauth/callback");
    assert_eq!(atproto_oauth::pkce::challenge(param(&req.params, "code_verifier")), challenge);
    assert_eq!(param(&req.params, "client_assertion").split('.').count(), 3);
    assert_eq!(req.dpop.token().split('.').count(), 3);

    let again = prepare_token_request(&mut states, "the-code", &state);
    assert_eq!(again.err(), Some("Invalid or expired OAuth state".to_string()));

    let retried = retry_dpop_proof(&req, "server-nonce").expect("re-minted");
    assert_eq!(retried.split('.').count(), 3);
}

#[test]
fn unknown_state_is_refused() {
    let mut states: OAuthStates = KeyedStore::new();
    let r = prepare_token_request(&mut states, "code", &"nope".to_string());
    assert_eq!(r.err(), Some("Invalid or expired OAuth state".to_string()));
}

fn granted(sub: Option<&str>) -> TokenResult {
    TokenResult::Granted {
        access_token: "tok".to_string(),
        token_type: "DPoP".to_string(),
        scope: "atproto".to_string(),
        expires_in: 3600,
        sub: sub.map(|s| s.to_string()),
    }
}

fn refused(error: &str) -> TokenResult {
    TokenResult::Refused { error: error.to_string(), description: None }
}

#[test]
fn first_token_answer_decides_the_next_step() {
    match first_token_step(granted(Some("did:plc:abc")), None) {
        TokenStep::Done { access_token, did } => {
            assert_eq!(access_token, "tok");
            assert_eq!(did, "did:plc:abc");
        }
        _ => panic!("expected done"),
    }
    match first_token_step(granted(None), None) {
        TokenStep::Fail { message } => assert_eq!(message, "Token response missing 'sub' (DID) field"),
        _ => panic!("expected failure"),
    }
    match first_token_step(refused("use_dpop_nonce"), Some("n1".to_string())) {
        TokenStep::RetryWithNonce { nonce } => assert_eq!(nonce, "n1"),
        _ => panic!("expected retry"),
    }
    match first_token_step(refused("use_dpop_nonce"), None) {
        TokenStep::Fail { message } => {
            assert_eq!(message, "Token endpoint requested DPoP nonce but none provided")
        }
        _ => panic!("expected failure"),
    }
    match first_token_step(refused("invalid_grant"), Some("n1".to_string())) {
        TokenStep::Fail { message } => assert_eq!(message, "Token exchange error: invalid_grant"),
        _ => panic!("expected failure"),
    }
}

#[test]
fn retried_token_answer_gives_the_session_or_the_error() {
    assert_eq!(
        retry_token_step(granted(Some("did:plc:abc"))),
        Ok(("tok".to_string(), "did:plc:abc".to_string()))
    );
    assert_eq!(
        retry_token_step(granted(None)),
        Err("Token response missing 'sub' (DID) field on retry".to_string())
    );
    assert_eq!(retry_token_step(refused("use_dpop_nonce")), Err("Token exchange error: use_dpop_nonce".to_string()));
}

#[test]
fn completed_session_serves_repository_requests() {
    let mut states: OAuthStates = KeyedStore::new();
    let p = prepare("alice.test", "https://pds.example.com", &deployment_signing_key(None));
    let state = p.state.clone();
    finish_authorization(
        &mut states,
        p,
        ParResult::Pushed { request_uri: "urn:req".to_string(), expires_in: 60 },
        0,
    )
    .expect("accepted");
    let req = prepare_token_request(&mut states, "code", &state).expect("redeemed");

    let mut sessions: ActiveSessions = KeyedStore::new();
    let session = finish_token_exchange(&mut sessions, req.stored, "tok".to_string(), "did:plc:abc".to_string());
    assert_eq!(session.did, "did:plc:abc");
    assert_eq!(session.handle, "alice.test");
    assert_eq!(session.pds_endpoint, "https://pds.example.com");
    assert_eq!(session.access_token, "tok");
    assert!(sessions.contains(&"did:plc:abc".to_string()));

    let r = prepare_describe_repo(&session, &sessions).expect("request");
    assert_eq!(r.url, "https://pds.example.com/xrpc/com.atproto.repo.describeRepo?repo=did%3Aplc%3Aabc");
    assert_eq!(r.authorization, "DPoP tok");
    assert_eq!(r.dpop.token().split('.').count(), 3);

    let bare_host = SessionData {
        did: "did:plc:abc".to_string(),
        handle: "alice.test".to_string(),
        pds_endpoint: "pds.example.com".to_string(),
        access_token: "ignored".to_string(),
    };
    let r = prepare_describe_repo(&bare_host, &sessions).expect("request");
    assert_eq!(r.url, "https://pds.example.com/xrpc/com.atproto.repo.describeRepo?repo=did%3Aplc%3Aabc");
    assert_eq!(r.authorization, "DPoP tok");

    let stranger = SessionData {
        did: "did:plc:other".to_string(),
        handle: "bob.test".to_string(),
        pds_endpoint: "https://pds.example.com".to_string(),
        access_token: "x".to_string(),
    };
    assert_eq!(prepare_describe_repo(&stranger, &sessions).err(), Some("No active session found".to_string()));

    let broken = SessionData {
        did: "did:plc:abc".to_string(),
        handle: "alice.test".to_string(),
        pds_endpoint: "http://[".to_string(),
        access_token: "x".to_string(),
    };
    let err = prepare_describe_repo(&broken, &sessions).err().expect("error");
    assert!(err.starts_with("URL build failed: "));
}

#[test]
fn pds_is_found_in_the_did_document() {
    assert_eq!(did_doc_url("did:plc:abc"), "https://plc.directory/did:plc:abc");
    let svc = |id: Option<&str>, ep: Option<&str>| DidService {
        id: id.map(|s| s.to_string()),
        service_endpoint: ep.map(|s| s.to_string()),
    };
    assert_eq!(pds_from_services(&None), Err("No services in DID document".to_string()));
    assert_eq!(
        pds_from_services(&Some(vec![])),
        Err("No atproto_pds service found in DID document".to_string())
    );
    assert_eq!(
        pds_from_services(&Some(vec![
            svc(Some("#other"), Some("https://x")),
            svc(Some("#atproto_pds"), Some("https://pds.example")),
            svc(Some("#atproto_pds"), Some("https://second")),
        ])),
        Ok("https://pds.example".to_string())
    );
    assert_eq!(
        pds_from_services(&Some(vec![svc(None, Some("https://x")), svc(Some("#atproto_pds"), None)])),
        Err("No serviceEndpoint for atproto_pds".to_string())
    );
}

#[test]
fn client_metadata_describes_the_deployment() {
    let key = deployment_signing_key(None);
    let m = client_metadata("https://my.app", &key).expect("metadata");
    assert_eq!(m.client_id, "https://my.app/oauth/client-metadata.json");
    assert_eq!(m.redirect_uris, vec!["https://my.app/oauth/callback".to_string()]);
    assert_eq!(m.grant_types, vec!["authorization_code".to_string()]);
    assert_eq!(m.response_types, vec!["code".to_string()]);
    assert_eq!(m.scope, "atproto transition:generic");
    assert_eq!(m.application_type, "native");
    assert_eq!(m.token_endpoint_auth_method, "private_key_jwt");
    assert_eq!(m.token_endpoint_auth_signing_alg, "ES256");
    assert!(m.dpop_bound_access_tokens);
    let jwk: serde_json::Value = serde_json::from_str(&m.signing_jwk).expect("json");
    assert_eq!(jwk["kty"], "EC");
    assert_eq!(jwk["crv"], "P-256");
    assert_eq!(jwk["alg"], "ES256");
    assert!(jwk.get("d").is_none());

    let local = client_metadata(LOCAL, &key).expect("metadata");
    assert_eq!(local.client_id, CLIENT_ID);
    assert_eq!(local.signing_jwk, m.signing_jwk);

    let broken = KeyMaterial { kind: KeyKind::P256Private, bytes: vec![1, 2, 3] };
    let e = client_metadata(LOCAL, &broken).err().expect("error");
    assert!(e.starts_with("Signing key has no public JWK: "), "{e}");
}
