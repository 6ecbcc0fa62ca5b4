use my_atmosphere::callback::{
    callback_action, callback_complete, callback_fail, callback_heading, callback_shows_error,
    callback_ui_initial, extract_query_params, param, trim_question_marks, CallbackAction,
};
use my_atmosphere::oauth::SessionData;
use my_atmosphere::repo;
use my_atmosphere::session::{apply_session_data, session_data_of, SessionState};
use my_atmosphere::types::{client_apps, DiscoveredApp};
use my_atmosphere::views::{
    app_card_view, dashboard_view, login_button_disabled, login_button_label, shows_dashboard,
    DashboardView,
};

fn data() -> SessionData {
    SessionData {
        did: "did:plc:abc".to_string(),
        handle: "alice.test".to_string(),
        pds_endpoint: "https://pds.example".to_string(),
        access_token: "tok".to_string(),
    }
}

#[test]
fn leading_question_marks_are_trimmed() {
    assert_eq!(trim_question_marks("??a=b?c"), "a=b?c");
    assert_eq!(trim_question_marks("a=b"), "a=b");
    assert_eq!(trim_question_marks(""), "");
}

#[test]
fn query_params_are_decoded_and_last_one_wins() {
    let p = extract_query_params("?code=a+b%20c&state=xyz");
    assert_eq!(p, vec![("code".to_string(), "a b c".to_string()), ("state".to_string(), "xyz".to_string())]);
    assert!(extract_query_params("").is_empty());
    let p = extract_query_params("?code=1&code=2&flag");
    assert_eq!(param(&p, "code"), Some("2".to_string()));
    assert_eq!(param(&p, "flag"), Some("".to_string()));
    assert_eq!(param(&p, "state"), None);
}

#[test]
fn parsing_undoes_form_encoding() {
    let original = "http://localhost?redirect_uri=a b&x=é%+";
    let url = my_atmosphere::oauth::authorization_url("e", original, "r", "st");
    let query = url.strip_prefix('e').expect("endpoint");
    let p = extract_query_params(query);
    assert_eq!(param(&p, "client_id"), Some(original.to_string()));
    assert_eq!(param(&p, "state"), Some("st".to_string()));
    let p = extract_query_params("?a=%zz%2&b=%41+&&=v");
    assert_eq!(
        p,
        vec![
            ("a".to_string(), "%zz%2".to_string()),
            ("b".to_string(), "A ".to_string()),
            ("".to_string(), "v".to_string()),
        ]
    );
}

#[test]
fn callback_needs_code_and_state() {
    match callback_action("?code=abc&state=xyz") {
        CallbackAction::Exchange { code, state } => {
            assert_eq!(code, "abc");
            assert_eq!(state, "xyz");
        }
        _ => panic!("expected exchange"),
    }
    for search in ["?code=abc", "?state=xyz", "", "?error=access_denied"] {
        match callback_action(search) {
            CallbackAction::Fail { message } => {
                assert_eq!(message, "Missing code or state parameter in callback URL")
            }
            _ => panic!("expected failure"),
        }
    }
}

#[test]
fn callback_page_follows_the_exchange() {
    let mut ui = callback_ui_initial();
    assert_eq!(ui.status, "Processing login...");
    assert!(!ui.done);
    assert!(!callback_shows_error(&ui));
    assert_eq!(callback_heading(&ui), "Logging in...");

    let mut session = SessionState::default();
    callback_complete(&mut ui, &mut session, Ok(data()));
    assert!(session.is_authenticated);
    assert_eq!(session.did, "did:plc:abc");
    assert_eq!(session.handle, "alice.test");
    assert_eq!(session.pds_endpoint, "https://pds.example");
    assert_eq!(session.access_token, "tok");
    assert_eq!(ui.status, "Login successful! Redirecting...");
    assert!(ui.done);
    assert_eq!(callback_heading(&ui), "Welcome!");

    let mut ui = callback_ui_initial();
    let mut session = SessionState::default();
    callback_complete(&mut ui, &mut session, Err("Token exchange error: invalid_grant".to_string()));
    assert_eq!(ui.error, "Login failed: Token exchange error: invalid_grant");
    assert!(callback_shows_error(&ui));
    assert!(!session.is_authenticated);
    assert_eq!(session.did, "");

    let mut ui = callback_ui_initial();
    callback_fail(&mut ui, "Missing code or state parameter in callback URL".to_string());
    assert!(callback_shows_error(&ui));
}

#[test]
fn session_state_round_trips_session_data() {
    let empty = SessionState::default();
    assert!(!empty.is_authenticated);
    assert_eq!(empty.handle, "");
    let mut s = SessionState::default();
    apply_session_data(&mut s, &data());
    assert!(s.is_authenticated);
    let d = session_data_of(&s);
    assert_eq!(d.did, "did:plc:abc");
    assert_eq!(d.handle, "alice.test");
    assert_eq!(d.pds_endpoint, "https://pds.example");
    assert_eq!(d.access_token, "tok");
}

#[test]
fn home_and_login_decisions() {
    assert!(shows_dashboard(true, false));
    assert!(!shows_dashboard(true, true));
    assert!(!shows_dashboard(false, false));
    assert!(login_button_disabled(true, "alice.test"));
    assert!(login_button_disabled(false, ""));
    assert!(!login_button_disabled(false, "alice.test"));
    assert_eq!(login_button_label(true), "Connecting...");
    assert_eq!(login_button_label(false), "Login with AT Protocol");
}

fn card(url: &str, n: usize) -> DiscoveredApp {
    DiscoveredApp {
        nsid_prefix: "app.bsky".to_string(),
        display_name: "Bluesky".to_string(),
        icon: "🦋".to_string(),
        color: "#1185fe".to_string(),
        url: url.to_string(),
        record_count: n,
        collections: (0..n).map(|i| format!("app.bsky.c{}", i)).collect(),
    }
}

#[test]
fn dashboard_shows_loading_empty_apps_or_error() {
    assert!(matches!(dashboard_view(&None), DashboardView::Loading));
    assert!(matches!(dashboard_view(&Some(Ok(vec![]))), DashboardView::Empty));
    assert!(matches!(dashboard_view(&Some(Ok(vec![card("", 1)]))), DashboardView::Apps));
    match dashboard_view(&Some(Err("boom".to_string()))) {
        DashboardView::Failed { message } => assert_eq!(message, "Failed to scan apps: boom"),
        _ => panic!("expected failure"),
    }
}

#[test]
fn app_card_lists_three_collections_and_counts_the_rest() {
    let c = app_card_view(&card("", 5));
    assert!(!c.has_url);
    assert_eq!(c.nsid_label, "app.bsky.*");
    assert_eq!(c.preview, vec!["app.bsky.c0", "app.bsky.c1", "app.bsky.c2"]);
    assert_eq!(c.more, Some(2));
    let c = app_card_view(&card("https://bsky.app", 2));
    assert!(c.has_url);
    assert_eq!(c.preview.len(), 2);
    assert_eq!(c.more, None);
    let c = app_card_view(&card("", 3));
    assert_eq!(c.preview.len(), 3);
    assert_eq!(c.more, None);
}

#[test]
fn server_apps_become_client_apps_in_order() {
    let apps = repo::group_collections(&vec!["app.bsky.feed.post".to_string(), "x.y.z".to_string()]);
    let out = client_apps(apps);
    assert_eq!(out.len(), 2);
    assert_eq!(out[0].nsid_prefix, "app.bsky");
    assert_eq!(out[0].display_name, "Bluesky");
    assert_eq!(out[0].url, "");
    assert_eq!(out[0].record_count, 1);
    assert_eq!(out[1].nsid_prefix, "x.y");
    assert_eq!(out[1].collections, vec!["x.y.z".to_string()]);
}
