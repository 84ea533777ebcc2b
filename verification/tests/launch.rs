use tobira_lti::claims::{LtiClaims, MaybeArray};
use tobira_lti::config::{LtiConfig, LtiPlatform, LtiUsernameSource};
use tobira_lti::deeplink::{DeepLinkCache, DeepLinkingSettingsClaim, SessionCookie};
use tobira_lti::form::FormParams;
use tobira_lti::http::{BaseUrl, Reply};
use tobira_lti::http_url::HttpUrl;
use tobira_lti::launch::{
    begin_launch, is_raw_jwt, run_launch, AdmittedLaunch, OpenLaunch, OpencastAnswer,
    OpencastUser, UnverifiedLaunch,
};
use tobira_lti::login::{handle_login, LoginCache, PendingLogin};
use tobira_lti::registration::RegistrationRow;
use tobira_lti::store::Store;

fn config() -> LtiConfig {
    LtiConfig {
        enabled: true,
        platforms: vec![LtiPlatform {
            issuer: "https://lms.example.org".to_owned(),
            client_id: "client-a".to_owned(),
            deployment_id: "1".to_owned(),
            auth_login_url: HttpUrl::parse("https://lms.example.org/auth").unwrap(),
            keyset_url: HttpUrl::parse("https://lms.example.org/jwks").unwrap(),
            username_source: LtiUsernameSource::PreferredUsername,
        }],
        tool_key: None,
    }
}

fn base_url() -> BaseUrl {
    BaseUrl::new("https://tobira.example.org").unwrap()
}

fn logins() -> LoginCache {
    let mut logins = Store::new();
    logins.insert(
        "S".to_owned(),
        PendingLogin {
            nonce: "N".to_owned(),
            target_link_uri: "https://tobira.example.org/x".to_owned(),
            issuer: "https://lms.example.org".to_owned(),
            client_id: "client-a".to_owned(),
        },
    );
    logins
}

fn claims() -> LtiClaims {
    LtiClaims {
        iss: "https://lms.example.org".to_owned(),
        aud: MaybeArray::Single("client-a".to_owned()),
        azp: None,
        sub: "3".to_owned(),
        nonce: Some("N".to_owned()),
        name: Some("Rolf R.".to_owned()),
        preferred_username: Some("rrolf".to_owned()),
        email: Some("rolf@example.org".to_owned()),
        message_type: Some("LtiResourceLinkRequest".to_owned()),
        deep_linking_settings: None,
        deployment_id: "1".to_owned(),
        custom: None,
    }
}

fn settings() -> DeepLinkingSettingsClaim {
    DeepLinkingSettingsClaim {
        deep_link_return_url: "https://lms.example.org/return".to_owned(),
        accept_types: vec!["ltiResourceLink".to_owned()],
        data: Some("opaque".to_owned()),
    }
}

fn message<T>(result: Result<T, Reply>) -> String {
    match result {
        Err(Reply::BadRequest(message)) => message,
        _ => panic!("expected a refusal"),
    }
}

fn opened() -> OpenLaunch {
    begin_launch(&config(), Some(b"id_token=a.b.c&state=S".to_vec()), &mut logins())
        .ok()
        .unwrap()
        .open(&config(), None)
        .ok()
        .unwrap()
}

fn unverified() -> UnverifiedLaunch {
    opened().keys_fetched(true).ok().unwrap()
}

fn admitted(claims: LtiClaims) -> AdmittedLaunch {
    unverified().verified(Some(claims)).ok().unwrap()
}

fn opencast() -> OpencastAnswer {
    OpencastAnswer::Known(OpencastUser {
        user_role: "ROLE_USER_RROLF".to_owned(),
        roles: vec!["ROLE_ANONYMOUS".to_owned(), "ROLE_USER".to_owned()],
    })
}

fn cookie() -> SessionCookie {
    SessionCookie { value: "id".to_owned(), set_cookie: "session=id; Path=/".to_owned() }
}

/// Where a launch with these claims lands.
fn landed(claims: LtiClaims) -> (String, Option<String>) {
    let (_, landing) = admitted(claims).looked_up(opencast()).ok().unwrap();
    match landing.session_created(Ok(cookie()), &base_url(), &mut DeepLinkCache::new()) {
        Ok(Reply::Found { location, set_cookie }) => (location, set_cookie),
        _ => panic!("expected a redirect"),
    }
}

#[test]
fn launch_is_opened_once_with_its_state() {
    let mut logins = logins();
    let body = || Some(b"id_token=a.b.c&state=S".to_vec());
    let launch = begin_launch(&config(), body(), &mut logins).ok().unwrap();
    assert_eq!(launch.registration_needed(&config()), None);
    assert_eq!(launch.registration_needed(&unconfigured()), Some("https://lms.example.org"));
    let launch = launch.open(&config(), None).ok().unwrap();
    assert_eq!(launch.keyset_url().text(), "https://lms.example.org/jwks");
    assert_eq!(
        message(begin_launch(&config(), body(), &mut logins)),
        "LTI launch: invalid or expired 'state'",
    );
}

#[test]
fn refused_launch_consumes_its_state_too() {
    let mut logins = logins();
    let body = Some(b"id_token=nonsense&state=S".to_vec());
    let launch = begin_launch(&config(), body, &mut logins).ok().unwrap();
    let launch = launch.open(&config(), None).ok().unwrap();
    assert_eq!(message(launch.keys_fetched(true)), "LTI launch: malformed 'id_token'");
    assert!(logins.take("S").is_none());
}

#[test]
fn incomplete_launches_are_refused_and_keep_the_login() {
    let missing = "LTI launch: missing 'id_token' or 'state'";
    for body in ["", "id_token=a.b.c", "state=S", "id_token=+&state=S", "id_token=a.b.c&state="] {
        let mut logins = logins();
        let body = Some(body.as_bytes().to_vec());
        assert_eq!(message(begin_launch(&config(), body, &mut logins)), missing);
        assert!(logins.take("S").is_some());
    }
    assert_eq!(
        message(begin_launch(&config(), None, &mut logins())),
        "could not read request body",
    );
}

#[test]
fn launch_of_an_unconfigured_platform_is_an_internal_error() {
    let config = LtiConfig { enabled: true, platforms: vec![], tool_key: None };
    let body = Some(b"id_token=a.b.c&state=S".to_vec());
    let launch = begin_launch(&config, body, &mut logins()).ok().unwrap();
    assert!(matches!(launch.open(&config, None), Err(Reply::InternalServerError)));
}

#[test]
fn launch_is_not_found_while_disabled() {
    let mut config = config();
    config.enabled = false;
    let body = Some(b"id_token=a.b.c&state=S".to_vec());
    assert!(matches!(begin_launch(&config, body, &mut logins()), Err(Reply::NotFound)));
}

#[test]
fn keys_are_needed() {
    assert_eq!(
        message(opened().keys_fetched(false)),
        "LTI launch: could not fetch platform keys",
    );
    let launch = unverified();
    assert_eq!(launch.id_token(), "a.b.c");
    assert_eq!(launch.validator().issuer, "https://lms.example.org");
    assert_eq!(launch.validator().client_id, "client-a");
}

#[test]
fn token_has_two_dots() {
    assert!(is_raw_jwt("a.b.c"));
    assert!(is_raw_jwt(".."));
    assert!(!is_raw_jwt(""));
    assert!(!is_raw_jwt("a.b"));
    assert!(!is_raw_jwt("a.b.c.d"));
    for token in ["", ".", "..", "...", "a.b.c", "ä.b.c"] {
        assert_eq!(is_raw_jwt(token), jwtea::RawJwt::new(token).is_ok());
    }
}

#[test]
fn claims_are_checked_one_after_the_other() {
    let refusal = |change: fn(&mut LtiClaims)| {
        let mut claims = claims();
        change(&mut claims);
        message(unverified().verified(Some(claims)))
    };
    let failed = "LTI launch: token verification failed";
    assert_eq!(message(unverified().verified(None)), failed);
    assert_eq!(refusal(|c| c.iss = "x".to_owned()), failed);
    assert_eq!(refusal(|c| c.aud = MaybeArray::Array(vec![])), failed);
    assert_eq!(refusal(|c| c.azp = Some("x".to_owned())), failed);
    assert_eq!(refusal(|c| c.nonce = None), "LTI launch: nonce mismatch");
    assert_eq!(refusal(|c| c.nonce = Some("n".to_owned())), "LTI launch: nonce mismatch");
    assert_eq!(
        refusal(|c| c.deployment_id = "2".to_owned()),
        "LTI launch: deployment_id mismatch",
    );
    assert_eq!(
        refusal(|c| c.message_type = Some("LtiSubmissionReviewRequest".to_owned())),
        "LTI launch: unsupported message type",
    );
    assert_eq!(
        refusal(|c| c.message_type = Some("LtiDeepLinkingRequest".to_owned())),
        "LTI deep linking: settings missing",
    );
    assert_eq!(
        refusal(|c| c.preferred_username = None),
        "LTI launch: no username provided by platform",
    );
}

#[test]
fn user_has_roles_from_opencast_and_the_rest_from_the_launch() {
    let launch = admitted(claims());
    assert_eq!(launch.username(), "rrolf");
    let (user, _) = launch.looked_up(opencast()).ok().unwrap();
    assert_eq!(user.username, "rrolf");
    assert_eq!(user.display_name, "Rolf R.");
    assert_eq!(user.email.as_deref(), Some("rolf@example.org"));
    assert_eq!(user.user_role, "ROLE_USER_RROLF");
    assert_eq!(user.roles, ["ROLE_ANONYMOUS", "ROLE_USER"]);
    assert!(user.user_realm_handle.is_none());
}

#[test]
fn username_stands_in_for_a_missing_name() {
    let mut claims = claims();
    claims.name = None;
    claims.email = None;
    let (user, _) = admitted(claims).looked_up(opencast()).ok().unwrap();
    assert_eq!(user.display_name, "rrolf");
    assert!(user.email.is_none());
}

#[test]
fn opencast_has_to_know_the_user() {
    assert_eq!(
        message(admitted(claims()).looked_up(OpencastAnswer::Unknown)),
        "LTI launch: user unknown to Opencast",
    );
    assert!(matches!(
        admitted(claims()).looked_up(OpencastAnswer::Failed),
        Err(Reply::InternalServerError),
    ));
}

#[test]
fn launch_lands_on_its_target_with_the_session_cookie() {
    assert_eq!(
        landed(claims()),
        ("https://tobira.example.org/x".to_owned(), Some("session=id; Path=/".to_owned())),
    );
}

#[test]
fn launch_lands_on_the_series_of_the_placement() {
    let mut claims = claims();
    claims.custom = Some(vec![("series".to_owned(), Some("abc".to_owned()))]);
    assert_eq!(landed(claims).0, "https://tobira.example.org/!s/:abc");
}

#[test]
fn series_that_is_no_string_is_ignored() {
    let mut claims = claims();
    claims.custom = Some(vec![("series".to_owned(), None)]);
    assert_eq!(landed(claims).0, "https://tobira.example.org/x");
}

#[test]
fn failed_session_is_answered_as_it_failed() {
    let (_, landing) = admitted(claims()).looked_up(opencast()).ok().unwrap();
    let reply = landing.session_created(
        Err(Reply::InternalServerError),
        &base_url(),
        &mut DeepLinkCache::new(),
    );
    assert!(matches!(reply, Ok(Reply::InternalServerError)));
}

#[test]
fn deep_linking_launch_goes_on_with_the_selection() {
    let mut claims = claims();
    claims.message_type = Some("LtiDeepLinkingRequest".to_owned());
    claims.deep_linking_settings = Some(settings());
    let mut selections = DeepLinkCache::new();
    let (_, landing) = admitted(claims).looked_up(opencast()).ok().unwrap();
    let reply = landing.session_created(Ok(cookie()), &base_url(), &mut selections);
    match reply {
        Ok(Reply::Found { location, set_cookie }) => {
            let token = location.strip_prefix("/~lti/select?s=").unwrap();
            assert_eq!(token.len(), 22);
            assert_eq!(set_cookie.as_deref(), Some("session=id; Path=/"));
            assert_eq!(
                selections.redeem_handoff(token).as_deref(),
                Some("session=id; Path=/"),
            );
        }
        _ => panic!("expected a redirect"),
    }
}

#[test]
fn settings_of_a_resource_link_do_not_matter() {
    let mut claims = claims();
    claims.deep_linking_settings = Some(settings());
    assert_eq!(landed(claims).0, "https://tobira.example.org/x");
}

#[test]
fn launch_that_answers_a_login_creates_a_session_once() {
    let mut logins: LoginCache = Store::new();
    let raw = b"iss=https://lms.example.org&login_hint=7\
        &target_link_uri=https://tobira.example.org/y";
    let reply = handle_login(&config(), &base_url(), raw, None, &mut logins).ok().unwrap();
    let location = match reply {
        Reply::Found { location, .. } => location,
        _ => panic!("expected a redirect"),
    };
    let sent = FormParams::parse(location.split_once('?').unwrap().1.as_bytes());

    let body = format!("id_token=a.b.c&state={}", sent.value("state").unwrap());
    let params = FormParams::parse(body.as_bytes());
    let answered = || {
        let mut claims = claims();
        claims.nonce = sent.value("nonce").map(str::to_owned);
        Some(claims)
    };
    let (user, landing) =
        run_launch(&config(), &params, &mut logins, None, true, answered(), opencast())
            .ok()
            .unwrap();
    assert_eq!(user.username, "rrolf");
    assert_eq!(user.roles, ["ROLE_ANONYMOUS", "ROLE_USER"]);
    match landing.session_created(Ok(cookie()), &base_url(), &mut DeepLinkCache::new()) {
        Ok(Reply::Found { location, .. }) => {
            assert_eq!(location, "https://tobira.example.org/y");
        }
        _ => panic!("expected a redirect"),
    }

    // The same request is refused from then on.
    assert_eq!(
        message(run_launch(&config(), &params, &mut logins, None, true, answered(), opencast())),
        "LTI launch: invalid or expired 'state'",
    );
}

#[test]
fn token_of_another_login_is_refused() {
    let mut logins = logins();
    logins.insert(
        "T".to_owned(),
        PendingLogin {
            nonce: "M".to_owned(),
            target_link_uri: "https://tobira.example.org/x".to_owned(),
            issuer: "https://lms.example.org".to_owned(),
            client_id: "client-a".to_owned(),
        },
    );
    let params = FormParams::parse(b"id_token=a.b.c&state=T");
    assert_eq!(
        message(run_launch(&config(), &params, &mut logins, None, true, Some(claims()), opencast())),
        "LTI launch: nonce mismatch",
    );
    // The other login is not touched.
    assert!(logins.take("S").is_some());
}

/// The configuration without platforms.
fn unconfigured() -> LtiConfig {
    LtiConfig { enabled: true, platforms: vec![], tool_key: None }
}

/// The registration of the platform of [`logins`], with these deployments.
fn registration(known: &[&str]) -> RegistrationRow {
    RegistrationRow {
        id: 42,
        client_id: "client-a".to_owned(),
        auth_login_url: "https://lms.example.org/auth".to_owned(),
        keyset_url: "https://lms.example.org/keys".to_owned(),
        deployment_ids: known.iter().map(|id| id.to_string()).collect(),
        username_source: "sub".to_owned(),
    }
}

/// A launch of the registered platform from the deployment `1`.
fn registered(known: &[&str]) -> AdmittedLaunch {
    let body = Some(b"id_token=a.b.c&state=S".to_vec());
    let launch = begin_launch(&unconfigured(), body, &mut logins()).ok().unwrap();
    let launch = launch.open(&unconfigured(), Some(registration(known))).ok().unwrap();
    assert_eq!(launch.keyset_url().text(), "https://lms.example.org/keys");
    launch.keys_fetched(true).ok().unwrap().verified(Some(claims())).ok().unwrap()
}

#[test]
fn new_deployment_of_a_registered_platform_is_accepted_and_remembered() {
    let launch = registered(&[]);
    assert_eq!(launch.deployment_to_remember(), Some((42, "1")));
    // The username comes from the claim that the registration names.
    assert_eq!(launch.username(), "3");
    let (user, landing) = launch.looked_up(opencast()).ok().unwrap();
    assert_eq!(user.username, "3");
    match landing.session_created(Ok(cookie()), &base_url(), &mut DeepLinkCache::new()) {
        Ok(Reply::Found { location, .. }) => {
            assert_eq!(location, "https://tobira.example.org/x");
        }
        _ => panic!("expected a redirect"),
    }
}

#[test]
fn known_deployment_is_not_remembered_again() {
    assert_eq!(registered(&["1"]).deployment_to_remember(), None);
    assert_eq!(registered(&["2", "1"]).deployment_to_remember(), None);
    assert_eq!(registered(&["2"]).deployment_to_remember(), Some((42, "1")));
}

#[test]
fn pinned_deployment_is_not_remembered() {
    assert_eq!(admitted(claims()).deployment_to_remember(), None);
}

#[test]
fn removed_registration_ends_launches() {
    let params = FormParams::parse(b"id_token=a.b.c&state=S");
    let mut logins = logins();
    let result = run_launch(
        &unconfigured(),
        &params,
        &mut logins,
        None,
        true,
        Some(claims()),
        opencast(),
    );
    assert!(matches!(result, Err(Reply::InternalServerError)));
    assert!(logins.take("S").is_none());
}

#[test]
fn run_launch_uses_the_registration() {
    let params = FormParams::parse(b"id_token=a.b.c&state=S");
    let (user, _) = run_launch(
        &unconfigured(),
        &params,
        &mut logins(),
        Some(registration(&[])),
        true,
        Some(claims()),
        opencast(),
    )
    .ok()
    .unwrap();
    assert_eq!(user.username, "3");
}
