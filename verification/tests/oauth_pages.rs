//! Tests of the authorization callback decisions, pages and result store.

use composer_core::menubar::{menu_items, menubar_action, MenubarAction};
use composer_core::oauth::{get_error_html, get_relay_page_html, get_success_html,
    handle_oauth_redirect, handle_oauth_relay, initiate_outcome, initiate_url, route_for_path,
    OAuthResult, OAuthRoute, OAuthServerState};

#[test]
fn relay_page_embeds_url() {
    let html = get_relay_page_html("https://example.com/auth?x=1");
    let expected = "<!DOCTYPE html>\n<html>\n<head>\n  <meta charset=\"UTF-8\">\n  <script>\n    window.location.href = 'https://example.com/auth?x=1';\n  </script>\n</head>\n<body></body>\n</html>";
    assert_eq!(html, expected);
}

#[test]
fn relay_page_escapes_single_quotes() {
    let html = get_relay_page_html("https://example.com/a'b'c");
    assert!(html.contains("window.location.href = 'https://example.com/a\\'b\\'c';"));
}

#[test]
fn success_and_error_pages() {
    assert_eq!(
        get_success_html(),
        "<html><body><h1>Authentication successful! You can close this window.</h1></body></html>",
    );
    assert_eq!(
        get_error_html(),
        "<html><body><h1>Authentication failed</h1><p>Missing access token parameters.</p></body></html>",
    );
}

#[test]
fn routes() {
    assert_eq!(route_for_path(&"/oauth-relay".to_string()), OAuthRoute::Relay);
    assert_eq!(route_for_path(&"/redirect/oauth".to_string()), OAuthRoute::Redirect);
    assert_eq!(route_for_path(&"/".to_string()), OAuthRoute::NotFound);
    assert_eq!(route_for_path(&"/oauth-relay/x".to_string()), OAuthRoute::NotFound);
}

#[test]
fn relay_without_url_is_client_error() {
    let (body, status) = handle_oauth_relay(None);
    assert_eq!(body, "Missing authUrl parameter");
    assert_eq!(status, 400);
}

#[test]
fn relay_with_url_serves_page() {
    let url = "https://example.com/auth".to_string();
    let (body, status) = handle_oauth_relay(Some(&url));
    assert_eq!(body, get_relay_page_html("https://example.com/auth"));
    assert_eq!(status, 200);
}

#[test]
fn redirect_with_both_tokens_stores_success() {
    let mut state = OAuthServerState::new();
    let id = "token-1".to_string();
    let token = "secret".to_string();
    let (body, status) = handle_oauth_redirect(&mut state, Some(&id), Some(&token));
    assert_eq!(status, 200);
    assert_eq!(body, get_success_html());
    let stored = state.get_result(&id).expect("result should be stored");
    assert_eq!(
        stored,
        OAuthResult {
            success: true,
            access_token_id: "token-1".to_string(),
            access_token: "secret".to_string(),
            reason: None,
        },
    );
}

#[test]
fn redirect_with_missing_token_stores_nothing() {
    let mut state = OAuthServerState::new();
    let id = "token-1".to_string();
    let (body, status) = handle_oauth_redirect(&mut state, Some(&id), None);
    assert_eq!(status, 400);
    assert_eq!(body, get_error_html());
    assert_eq!(state.get_result(&id), None);
    let token = "secret".to_string();
    let (_, status2) = handle_oauth_redirect(&mut state, None, Some(&token));
    assert_eq!(status2, 400);
}

#[test]
fn initiate_url_trims_trailing_slashes() {
    assert_eq!(initiate_url("https://edge.example.com"), "https://edge.example.com/oauth/initiate");
    assert_eq!(
        initiate_url("https://edge.example.com///"),
        "https://edge.example.com/oauth/initiate",
    );
    assert_eq!(initiate_url(""), "/oauth/initiate");
}

#[test]
fn initiate_outcome_cases() {
    assert_eq!(
        initiate_outcome(true, Some("https://auth".to_string()), None),
        Ok("https://auth".to_string()),
    );
    assert_eq!(
        initiate_outcome(true, None, Some("ignored".to_string())),
        Err("No auth URL in response".to_string()),
    );
    assert_eq!(
        initiate_outcome(false, Some("https://auth".to_string()), Some("denied".to_string())),
        Err("OAuth initiation failed: denied".to_string()),
    );
    assert_eq!(
        initiate_outcome(false, None, None),
        Err("OAuth initiation failed: Unknown error".to_string()),
    );
}

#[test]
fn menubar_dispatch() {
    assert_eq!(menubar_action(&"open".to_string()), MenubarAction::OpenMain);
    assert_eq!(menubar_action(&"quick_access".to_string()), MenubarAction::QuickAccess);
    assert_eq!(menubar_action(&"quit".to_string()), MenubarAction::Quit);
    assert_eq!(menubar_action(&"other".to_string()), MenubarAction::Ignore);
}

#[test]
fn menu_items_match_dispatch() {
    let items = menu_items();
    let labels: Vec<(String, String)> = vec![
        ("open".to_string(), "Open Composer".to_string()),
        ("quick_access".to_string(), "Quick Access".to_string()),
        ("quit".to_string(), "Quit Composer".to_string()),
    ];
    assert_eq!(items, labels);
    for (id, _) in &items {
        assert_ne!(menubar_action(id), MenubarAction::Ignore);
    }
}

#[test]
fn latest_result_wins() {
    let mut state = OAuthServerState::new();
    let id = "token-1".to_string();
    let first = "first".to_string();
    let second = "second".to_string();
    handle_oauth_redirect(&mut state, Some(&id), Some(&first));
    handle_oauth_redirect(&mut state, Some(&id), Some(&second));
    let stored = state.get_result(&id).expect("result should be stored");
    assert_eq!(stored.access_token, "second");
    assert_eq!(state.get_result(&"other".to_string()), None);
}
