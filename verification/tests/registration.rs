use tobira_lti::config::{LtiConfig, LtiPlatform, LtiUsernameSource};
use tobira_lti::http_url::HttpUrl;
use tobira_lti::registration::{resolve_platform, DeploymentPolicy, RegistrationRow};

/// A registration as a new row of the database has it.
fn registration(client_id: &str) -> RegistrationRow {
    RegistrationRow {
        id: 1,
        client_id: client_id.to_owned(),
        auth_login_url: "https://lms.example.org/auth".to_owned(),
        keyset_url: "https://lms.example.org/jwks".to_owned(),
        deployment_ids: vec![],
        username_source: "custom".to_owned(),
    }
}

/// The row for an issuer, where only one platform is registered.
fn row_for(issuer: &str, client_id: &str) -> Option<RegistrationRow> {
    if issuer == "https://moodle.example.org" {
        Some(registration(client_id))
    } else {
        None
    }
}

fn config_with(platforms: Vec<LtiPlatform>) -> LtiConfig {
    LtiConfig { enabled: true, platforms, tool_key: None }
}

fn platform(client_id: &str) -> LtiPlatform {
    LtiPlatform {
        issuer: "https://moodle.example.org".into(),
        client_id: client_id.into(),
        deployment_id: "1".into(),
        auth_login_url: HttpUrl::parse("https://lms.example.org/auth").unwrap(),
        keyset_url: HttpUrl::parse("https://lms.example.org/jwks").unwrap(),
        username_source: LtiUsernameSource::default(),
    }
}

#[test]
fn resolve_platform_prefers_config_and_falls_back_to_db() {
    // A config entry for the same issuer wins over the registration.
    let config = config_with(vec![platform("from-config")]);
    let resolved = resolve_platform(
        &config,
        "https://moodle.example.org",
        None,
        row_for("https://moodle.example.org", "from-db"),
    )
    .expect("config platform must resolve");
    assert_eq!(resolved.client_id, "from-config");
    assert!(matches!(resolved.deployments, DeploymentPolicy::Fixed(ref d) if d == "1"));

    // Without the config entry, the dynamic registration is found: with the
    // trust-on-first-use deployment policy and `custom` username source.
    let resolved = resolve_platform(
        &config_with(vec![]),
        "https://moodle.example.org",
        Some("from-db"),
        row_for("https://moodle.example.org", "from-db"),
    )
    .expect("db registration must resolve");
    assert_eq!(resolved.client_id, "from-db");
    assert_eq!(resolved.username_source, LtiUsernameSource::Custom);
    assert!(matches!(
        resolved.deployments,
        DeploymentPolicy::TrustOnFirstUse { ref known, .. } if known.is_empty(),
    ));

    // Wrong client_id or unknown issuer must not resolve.
    let wrong_client = resolve_platform(
        &config_with(vec![]),
        "https://moodle.example.org",
        Some("someone-else"),
        row_for("https://moodle.example.org", "from-db"),
    );
    assert!(wrong_client.is_none());
    let unknown = resolve_platform(
        &config_with(vec![]),
        "https://other.example.org",
        None,
        row_for("https://other.example.org", "from-db"),
    );
    assert!(unknown.is_none());
}

#[test]
fn config_for_another_client_does_not_hide_the_registration() {
    let resolved = resolve_platform(
        &config_with(vec![platform("from-config")]),
        "https://moodle.example.org",
        Some("from-db"),
        Some(registration("from-db")),
    )
    .unwrap();
    assert_eq!(resolved.client_id, "from-db");
    assert_eq!(resolved.issuer, "https://moodle.example.org");
    assert_eq!(resolved.auth_login_url.text(), "https://lms.example.org/auth");
    assert_eq!(resolved.keyset_url.text(), "https://lms.example.org/jwks");
}

#[test]
fn known_deployments_are_carried_over() {
    let mut row = registration("a");
    row.id = 42;
    row.deployment_ids = vec!["3".to_owned(), "4".to_owned()];
    let resolved = resolve_platform(&config_with(vec![]), "x", None, Some(row)).unwrap();
    match resolved.deployments {
        DeploymentPolicy::TrustOnFirstUse { registration_id, known } => {
            assert_eq!(registration_id, 42);
            assert_eq!(known, ["3", "4"]);
        }
        DeploymentPolicy::Fixed(_) => panic!("expected trust-on-first-use policy"),
    }
}

#[test]
fn pinned_deployment_is_the_only_one() {
    let policy = DeploymentPolicy::Fixed("1".to_owned());
    assert!(policy.accepts("1"));
    assert!(!policy.accepts("2"));
    assert_eq!(policy.first_use("1"), None);
    assert_eq!(policy.first_use("2"), None);
}

#[test]
fn registration_accepts_every_deployment_and_knows_some() {
    let policy =
        DeploymentPolicy::TrustOnFirstUse { registration_id: 9, known: vec!["1".to_owned()] };
    assert!(policy.accepts("1"));
    assert!(policy.accepts("2"));
    assert_eq!(policy.first_use("1"), None);
    assert_eq!(policy.first_use("2"), Some(9));
}

#[test]
fn rows_with_unusable_urls_do_not_resolve() {
    for url in ["", "lms.example.org/auth", "ftp://lms.example.org/auth", "https://"] {
        let mut row = registration("a");
        row.auth_login_url = url.to_owned();
        assert!(resolve_platform(&config_with(vec![]), "x", None, Some(row)).is_none());

        let mut row = registration("a");
        row.keyset_url = url.to_owned();
        assert!(resolve_platform(&config_with(vec![]), "x", None, Some(row)).is_none());
    }
}

#[test]
fn username_source_of_a_row_defaults_to_the_safe_one() {
    for (stored, expected) in [
        ("preferred_username", LtiUsernameSource::PreferredUsername),
        ("sub", LtiUsernameSource::Sub),
        ("custom", LtiUsernameSource::Custom),
        ("Custom", LtiUsernameSource::PreferredUsername),
        ("", LtiUsernameSource::PreferredUsername),
    ] {
        let mut row = registration("a");
        row.username_source = stored.to_owned();
        let resolved = resolve_platform(&config_with(vec![]), "x", None, Some(row)).unwrap();
        assert_eq!(resolved.username_source, expected);
    }
}
