use tobira_lti::claims::{LtiClaims, MaybeArray};
use tobira_lti::config::{LtiConfig, LtiUsernameSource};
use tobira_lti::deeplink::{
    handle_select_window, selection_state, start_selection, start_selection_with,
    validated_settings, DeepLinkCache, DeepLinkingSettingsClaim, SessionCookie,
};
use tobira_lti::http::Reply;
use tobira_lti::http_url::HttpUrl;
use tobira_lti::registration::{DeploymentPolicy, ResolvedPlatform};
use tobira_lti::token::{token_of, RandomnessUnavailable};

fn settings() -> DeepLinkingSettingsClaim {
    DeepLinkingSettingsClaim {
        deep_link_return_url: "https://lms.example.org/return".to_owned(),
        accept_types: vec!["link".to_owned(), "ltiResourceLink".to_owned()],
        data: Some("opaque".to_owned()),
    }
}

fn claims_with(settings: Option<DeepLinkingSettingsClaim>) -> LtiClaims {
    LtiClaims {
        iss: "https://lms.example.org".to_owned(),
        aud: MaybeArray::Single("client-a".to_owned()),
        azp: None,
        sub: "3".to_owned(),
        nonce: None,
        name: None,
        preferred_username: None,
        email: None,
        message_type: Some("LtiDeepLinkingRequest".to_owned()),
        deep_linking_settings: settings,
        deployment_id: "1".to_owned(),
        custom: None,
    }
}

fn platform() -> ResolvedPlatform {
    ResolvedPlatform {
        issuer: "https://lms.example.org".to_owned(),
        client_id: "client-a".to_owned(),
        auth_login_url: HttpUrl::parse("https://lms.example.org/auth").unwrap(),
        keyset_url: HttpUrl::parse("https://lms.example.org/jwks").unwrap(),
        username_source: LtiUsernameSource::default(),
        deployments: DeploymentPolicy::TrustOnFirstUse { registration_id: 7, known: vec![] },
    }
}

fn cookie() -> SessionCookie {
    SessionCookie { value: "id".to_owned(), set_cookie: "session=id; Path=/".to_owned() }
}

fn config(enabled: bool) -> LtiConfig {
    LtiConfig { enabled, platforms: vec![], tool_key: None }
}

fn refusal(settings: Option<DeepLinkingSettingsClaim>) -> String {
    match validated_settings(&claims_with(settings)) {
        Err(Reply::BadRequest(message)) => message,
        _ => panic!("expected a refusal"),
    }
}

/// Starts a selection and returns its token.
fn started(selections: &mut DeepLinkCache) -> String {
    match start_selection(&settings(), &platform(), "1", &cookie(), selections) {
        Ok(Reply::Found { location, set_cookie }) => {
            assert_eq!(set_cookie.as_deref(), Some("session=id; Path=/"));
            location.strip_prefix("/~lti/select?s=").unwrap().to_owned()
        }
        _ => panic!("expected a redirect"),
    }
}

#[test]
fn usable_settings_are_handed_on() {
    let claims = claims_with(Some(settings()));
    let settings = validated_settings(&claims).ok().unwrap();
    assert_eq!(settings.deep_link_return_url, "https://lms.example.org/return");
    assert_eq!(settings.data.as_deref(), Some("opaque"));
}

#[test]
fn settings_are_required() {
    assert_eq!(refusal(None), "LTI deep linking: settings missing");
}

#[test]
fn return_url_has_to_be_https_without_fragment() {
    for url in ["", "lms.example.org", "http://lms.example.org/", "https://lms.example.org/#x"] {
        let mut settings = settings();
        settings.deep_link_return_url = url.to_owned();
        assert_eq!(refusal(Some(settings)), "LTI deep linking: bad return URL");
    }
}

#[test]
fn resource_links_have_to_be_accepted() {
    for types in [vec![], vec!["link".to_owned()], vec!["ltiresourcelink".to_owned()]] {
        let mut settings = settings();
        settings.accept_types = types;
        assert_eq!(
            refusal(Some(settings)),
            "LTI deep linking: platform accepts no LTI resource links",
        );
    }
}

#[test]
fn return_url_is_checked_before_the_types() {
    let mut settings = settings();
    settings.deep_link_return_url = "x".to_owned();
    settings.accept_types = vec![];
    assert_eq!(refusal(Some(settings)), "LTI deep linking: bad return URL");
}

#[test]
fn state_holds_what_the_response_will_need() {
    let state = selection_state(&settings(), &platform(), "1", &cookie());
    assert_eq!(state.return_url, "https://lms.example.org/return");
    assert_eq!(state.data.as_deref(), Some("opaque"));
    assert_eq!(state.issuer, "https://lms.example.org");
    assert_eq!(state.client_id, "client-a");
    assert_eq!(state.deployment_id, "1");
    assert_eq!(state.session_id, "id");
    assert_eq!(state.set_cookie, "session=id; Path=/");
}

#[test]
fn each_selection_has_its_own_token() {
    let mut selections = DeepLinkCache::new();
    assert_ne!(started(&mut selections), started(&mut selections));
}

#[test]
fn selection_starts_just_if_there_is_a_token() {
    let mut selections = DeepLinkCache::new();
    let token = token_of(&[7; 16]);
    let reply = start_selection_with(
        Ok(token.clone()),
        &settings(),
        &platform(),
        "1",
        &cookie(),
        &mut selections,
    );
    match reply {
        Ok(Reply::Found { location, set_cookie }) => {
            assert_eq!(location, "/~lti/select?s=BwcHBwcHBwcHBwcHBwcHBw");
            assert_eq!(set_cookie.as_deref(), Some("session=id; Path=/"));
        }
        _ => panic!("expected a redirect"),
    }
    let reply = start_selection_with(
        Err(RandomnessUnavailable),
        &settings(),
        &platform(),
        "1",
        &cookie(),
        &mut selections,
    );
    assert!(matches!(reply, Err(RandomnessUnavailable)));
    assert!(selections.redeem_handoff(&token).is_some());
}

#[test]
fn window_gets_the_session_cookie_once() {
    let mut selections = DeepLinkCache::new();
    let other = started(&mut selections);
    let token = started(&mut selections);
    let query = format!("s={token}");
    match handle_select_window(&config(true), Some(&query), &mut selections) {
        Reply::Found { location, set_cookie } => {
            assert_eq!(location, format!("/~lti/select?s={token}"));
            assert_eq!(set_cookie.as_deref(), Some("session=id; Path=/"));
        }
        _ => panic!("expected a redirect"),
    }
    match handle_select_window(&config(true), Some(&query), &mut selections) {
        Reply::BadRequest(message) => assert_eq!(
            message,
            "LTI deep linking: selection expired \u{2014} please reopen it from your course",
        ),
        _ => panic!("expected a refusal"),
    }
    // Another selection is not touched.
    assert!(selections.redeem_handoff(&other).is_some());
}

#[test]
fn window_without_token_is_refused() {
    for query in [None, Some(""), Some("s="), Some("t=x")] {
        match handle_select_window(&config(true), query, &mut DeepLinkCache::new()) {
            Reply::BadRequest(message) => assert_eq!(message, "LTI deep linking: missing token"),
            _ => panic!("expected a refusal"),
        }
    }
}

#[test]
fn token_of_a_window_is_taken_as_it_is() {
    let mut selections = DeepLinkCache::new();
    let token = started(&mut selections);
    let query = format!("s=+{token}");
    let reply = handle_select_window(&config(true), Some(&query), &mut selections);
    assert!(matches!(reply, Reply::BadRequest(_)));
    assert!(selections.redeem_handoff(&token).is_some());
}

#[test]
fn forgotten_selection_is_expired() {
    let mut selections = DeepLinkCache::new();
    let token = started(&mut selections);
    selections.forget(&token);
    assert!(selections.redeem_handoff(&token).is_none());
}

#[test]
fn window_is_not_found_while_disabled() {
    let mut selections = DeepLinkCache::new();
    let token = started(&mut selections);
    let query = format!("s={token}");
    let reply = handle_select_window(&config(false), Some(&query), &mut selections);
    assert!(matches!(reply, Reply::NotFound));
    assert!(selections.redeem_handoff(&token).is_some());
}
