use tobira_lti::config::{LtiConfig, LtiPlatform, LtiUsernameSource};
use tobira_lti::form::FormParams;
use tobira_lti::http::{BaseUrl, Reply};
use tobira_lti::http_url::HttpUrl;
use tobira_lti::login::{
    handle_login, issue_login_with, locate_raw_params, read_login_request, received_body,
    registration_needed, LoginCache, LoginFailure, RawParams,
};
use tobira_lti::registration::RegistrationRow;
use tobira_lti::store::Store;
use tobira_lti::token::{random_token, token_from, token_of, RandomnessUnavailable};

fn config(enabled: bool) -> LtiConfig {
    LtiConfig {
        enabled,
        platforms: vec![LtiPlatform {
            issuer: "https://lms.example.org".to_owned(),
            client_id: "client-a".to_owned(),
            deployment_id: "1".to_owned(),
            auth_login_url: HttpUrl::parse("https://lms.example.org/auth?x=y").unwrap(),
            keyset_url: HttpUrl::parse("https://lms.example.org/jwks").unwrap(),
            username_source: LtiUsernameSource::default(),
        }],
        tool_key: None,
    }
}

fn base_url() -> BaseUrl {
    BaseUrl::new("https://tobira.example.org").unwrap()
}

const REQUEST: &str = "iss=https://lms.example.org&login_hint=+7+\
    &target_link_uri=https://tobira.example.org/x&client_id=client-a&lti_message_hint=9%261";

fn refusal(raw: &str) -> String {
    match handle_login(&config(true), &base_url(), raw.as_bytes(), None, &mut Store::new()) {
        Ok(Reply::BadRequest(message)) => message,
        _ => panic!("expected a refusal"),
    }
}

#[test]
fn login_redirects_to_the_platform_with_what_is_remembered() {
    let mut logins: LoginCache = Store::new();
    let reply = handle_login(&config(true), &base_url(), REQUEST.as_bytes(), None, &mut logins);
    let location = match reply {
        Ok(Reply::Found { location, set_cookie: None }) => location,
        _ => panic!("expected a redirect"),
    };
    let (front, query) = location.split_once('?').unwrap();
    assert_eq!(front, "https://lms.example.org/auth");

    let sent: Vec<(String, String)> =
        form_urlencoded::parse(query.as_bytes()).into_owned().collect();
    let value = |name: &str| sent.iter().find(|(n, _)| n == name).unwrap().1.clone();
    let names: Vec<&str> = sent.iter().map(|(name, _)| name.as_str()).collect();
    assert_eq!(
        names,
        [
            "x", "scope", "response_type", "response_mode", "prompt", "client_id",
            "redirect_uri", "login_hint", "state", "nonce", "lti_message_hint",
        ],
    );
    assert_eq!(value("x"), "y");
    assert_eq!(value("scope"), "openid");
    assert_eq!(value("response_type"), "id_token");
    assert_eq!(value("response_mode"), "form_post");
    assert_eq!(value("prompt"), "none");
    assert_eq!(value("client_id"), "client-a");
    assert_eq!(value("redirect_uri"), "https://tobira.example.org/~lti/launch");
    assert_eq!(value("login_hint"), "7");
    assert_eq!(value("lti_message_hint"), "9&1");
    assert_ne!(value("state"), value("nonce"));

    let login = logins.take(&value("state")).unwrap();
    assert_eq!(login.nonce, value("nonce"));
    assert_eq!(login.target_link_uri, "https://tobira.example.org/x");
    assert_eq!(login.issuer, "https://lms.example.org");
    assert_eq!(login.client_id, "client-a");
    // Good for one launch.
    assert!(logins.take(&value("state")).is_none());
}

#[test]
fn login_is_issued_with_given_tokens() {
    let request = read_login_request(&config(true), REQUEST.as_bytes(), None).ok().unwrap();
    let issued = request.issue_with(&base_url(), "S", "N").unwrap();
    assert_eq!(issued.login.nonce, "N");
    match issued.reply {
        Reply::Found { location, set_cookie } => {
            assert!(set_cookie.is_none());
            assert_eq!(
                location,
                "https://lms.example.org/auth?x=y&scope=openid&response_type=id_token\
                    &response_mode=form_post&prompt=none&client_id=client-a\
                    &redirect_uri=https%3A%2F%2Ftobira.example.org%2F%7Elti%2Flaunch\
                    &login_hint=7&state=S&nonce=N&lti_message_hint=9%261",
            );
        }
        _ => panic!("expected a redirect"),
    }
}

#[test]
fn client_and_message_hint_are_optional() {
    let raw = b"iss=https://lms.example.org&login_hint=7&target_link_uri=x";
    let request = read_login_request(&config(true), raw, None).ok().unwrap();
    assert_eq!(request.platform.client_id, "client-a");
    assert!(request.lti_message_hint.is_none());
    let issued = request.issue_with(&base_url(), "S", "N").unwrap();
    match issued.reply {
        Reply::Found { location, .. } => assert!(location.ends_with("&state=S&nonce=N")),
        _ => panic!("expected a redirect"),
    }
}

#[test]
fn incomplete_requests_are_refused() {
    let missing = "LTI login: missing 'iss', 'login_hint' or 'target_link_uri'";
    assert_eq!(refusal(""), missing);
    assert_eq!(refusal("login_hint=7&target_link_uri=x"), missing);
    assert_eq!(refusal("iss=https://lms.example.org&target_link_uri=x"), missing);
    assert_eq!(refusal("iss=https://lms.example.org&login_hint=7"), missing);
    assert_eq!(refusal("iss=https://lms.example.org&login_hint=+&target_link_uri=x"), missing);
}

#[test]
fn unknown_platforms_are_refused() {
    let unknown = "LTI login: unknown platform";
    assert_eq!(refusal("iss=https://other.example.org&login_hint=7&target_link_uri=x"), unknown);
    assert_eq!(
        refusal("iss=https://lms.example.org&login_hint=7&target_link_uri=x&client_id=b"),
        unknown,
    );
}

#[test]
fn login_is_not_found_while_disabled() {
    let reply =
        handle_login(&config(false), &base_url(), REQUEST.as_bytes(), None, &mut Store::new());
    assert!(matches!(reply, Ok(Reply::NotFound)));
}

#[test]
fn parameters_of_a_post_are_in_the_body() {
    assert!(matches!(locate_raw_params("POST", Some("a=b")), RawParams::Body));
    let query = |method, query| match locate_raw_params(method, query) {
        RawParams::Query(raw) => raw,
        RawParams::Body => panic!("expected the query"),
    };
    assert_eq!(query("GET", Some("a=b")), b"a=b");
    assert_eq!(query("GET", None), b"");
    assert_eq!(query("post", Some("x")), b"x");
}

#[test]
fn unreadable_body_is_refused() {
    assert_eq!(received_body(Some(b"x".to_vec())).ok().unwrap(), b"x");
    match received_body(None) {
        Err(Reply::BadRequest(message)) => assert_eq!(message, "could not read request body"),
        _ => panic!("expected a refusal"),
    }
}

#[test]
fn tokens_are_url_safe_and_hold_128_bits() {
    let token = random_token().ok().unwrap();
    assert_eq!(token.len(), 22);
    assert!(token.chars().all(|c| c.is_ascii_alphanumeric() || c == '-' || c == '_'));
    assert_ne!(token, random_token().ok().unwrap());
    assert_eq!(token_of(&[0; 16]), "AAAAAAAAAAAAAAAAAAAAAA");
    assert_eq!(token_of(&[0xff; 16]), "_____________________w");
    assert_eq!(token_of(b"\xfb\xef\xbe"), "----");
}

#[test]
fn there_is_a_token_just_if_there_are_random_bytes() {
    assert_eq!(token_from(Ok(vec![0; 16])), Ok("AAAAAAAAAAAAAAAAAAAAAA".to_owned()));
    assert_eq!(token_from(Err(aws_lc_rs::error::Unspecified)), Err(RandomnessUnavailable));
}

#[test]
fn store_keeps_one_value_under_each_key() {
    let mut store: Store<u32> = Store::new();
    store.insert("a".to_owned(), 1);
    store.insert("b".to_owned(), 2);
    store.insert("a".to_owned(), 3);
    assert_eq!(store.take("c"), None);
    assert_eq!(store.take("a"), Some(3));
    assert_eq!(store.take("a"), None);
    assert_eq!(store.take("b"), Some(2));
}

#[test]
fn request_and_form_agree() {
    let params = FormParams::parse(REQUEST.as_bytes());
    assert_eq!(params.get("login_hint"), Some("7"));
    assert_eq!(params.value("login_hint"), Some(" 7 "));
}

/// The registration of a platform that is not configured.
fn registration() -> RegistrationRow {
    RegistrationRow {
        id: 5,
        client_id: "from-db".to_owned(),
        auth_login_url: "https://new.example.org/auth".to_owned(),
        keyset_url: "https://new.example.org/jwks".to_owned(),
        deployment_ids: vec![],
        username_source: "custom".to_owned(),
    }
}

#[test]
fn registered_platform_can_log_in() {
    for client in ["", "&client_id=from-db"] {
        let raw = format!("iss=https://new.example.org&login_hint=7&target_link_uri=x{client}");
        let mut logins: LoginCache = Store::new();
        let reply = handle_login(
            &config(true),
            &base_url(),
            raw.as_bytes(),
            Some(registration()),
            &mut logins,
        );
        let location = match reply {
            Ok(Reply::Found { location, .. }) => location,
            _ => panic!("expected a redirect"),
        };
        let (front, query) = location.split_once('?').unwrap();
        assert_eq!(front, "https://new.example.org/auth");
        let sent = FormParams::parse(query.as_bytes());
        assert_eq!(sent.value("client_id"), Some("from-db"));
        let login = logins.take(sent.value("state").unwrap()).unwrap();
        assert_eq!(login.issuer, "https://new.example.org");
        assert_eq!(login.client_id, "from-db");
    }
}

#[test]
fn registration_of_another_client_does_not_help() {
    let raw = b"iss=https://new.example.org&login_hint=7&target_link_uri=x&client_id=other";
    let reply = handle_login(
        &config(true),
        &base_url(),
        raw,
        Some(registration()),
        &mut Store::new(),
    );
    match reply {
        Ok(Reply::BadRequest(message)) => assert_eq!(message, "LTI login: unknown platform"),
        _ => panic!("expected a refusal"),
    }
}

#[test]
fn configured_platform_wins_over_a_registration() {
    let raw = b"iss=https://lms.example.org&login_hint=7&target_link_uri=x";
    let request = read_login_request(&config(true), raw, Some(registration())).ok().unwrap();
    assert_eq!(request.platform.client_id, "client-a");
}

#[test]
fn registration_is_needed_only_for_complete_requests_of_unconfigured_platforms() {
    let needed = |raw: &str| registration_needed(&config(true), raw.as_bytes());
    let rest = "login_hint=7&target_link_uri=x";
    assert_eq!(needed(REQUEST), None);
    assert_eq!(needed(&format!("iss=https://lms.example.org&{rest}")), None);
    assert_eq!(
        needed(&format!("iss=https://lms.example.org&{rest}&client_id=b")).as_deref(),
        Some("https://lms.example.org"),
    );
    assert_eq!(needed(&format!("iss=+new+&{rest}")).as_deref(), Some("new"));
    assert_eq!(needed(&format!("iss=+&{rest}")), None);
    assert_eq!(needed("iss=new&login_hint=7"), None);
    assert_eq!(needed("iss=new&target_link_uri=x"), None);
    assert_eq!(needed(""), None);
}

#[test]
fn login_needs_both_tokens() {
    let request = read_login_request(&config(true), REQUEST.as_bytes(), None).ok().unwrap();
    let ok = |token: &str| Ok(token.to_owned());
    let mut logins: LoginCache = Store::new();
    for (state, nonce) in [
        (Err(RandomnessUnavailable), ok("N")),
        (ok("S"), Err(RandomnessUnavailable)),
        (Err(RandomnessUnavailable), Err(RandomnessUnavailable)),
    ] {
        let result = issue_login_with(&request, &base_url(), state, nonce, &mut logins);
        assert!(matches!(result, Err(LoginFailure::RandomnessUnavailable)));
        assert!(logins.take("S").is_none());
    }
    let result = issue_login_with(&request, &base_url(), ok("S"), ok("N"), &mut logins);
    match result {
        Ok(Reply::Found { location, .. }) => assert!(location.contains("&state=S&nonce=N&")),
        _ => panic!("expected a redirect"),
    }
    assert_eq!(logins.take("S").unwrap().nonce, "N");
}
