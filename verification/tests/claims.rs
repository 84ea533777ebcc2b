use tobira_lti::claims::{
    launch_kind, resolve_username, ClaimMismatch, LaunchKind, LtiClaims, LtiLaunchValidator,
    MaybeArray,
};
use tobira_lti::config::LtiUsernameSource;

/// Claims with the values that a launch would always carry.
fn base_claims() -> LtiClaims {
    LtiClaims {
        iss: "https://moodle.example.org".to_owned(),
        aud: MaybeArray::Single("client-a".to_owned()),
        azp: None,
        sub: "3".to_owned(),
        nonce: None,
        name: None,
        preferred_username: None,
        email: None,
        message_type: None,
        deep_linking_settings: None,
        deployment_id: "1".to_owned(),
        custom: None,
    }
}

fn with_type(ty: &str) -> LtiClaims {
    let mut claims = base_claims();
    claims.message_type = Some(ty.to_owned());
    claims
}

#[test]
fn launch_kind_classifies_message_types() {
    // Absent is treated as a resource link (leniency for existing setups).
    assert_eq!(launch_kind(&base_claims()), Some(LaunchKind::ResourceLink));
    assert_eq!(
        launch_kind(&with_type("LtiResourceLinkRequest")),
        Some(LaunchKind::ResourceLink),
    );
    assert_eq!(
        launch_kind(&with_type("LtiDeepLinkingRequest")),
        Some(LaunchKind::DeepLinking),
    );
    // Unknown types must be rejected by the caller.
    assert_eq!(launch_kind(&with_type("LtiSubmissionReviewRequest")), None);
}

#[test]
fn empty_message_type_is_unknown() {
    assert_eq!(launch_kind(&with_type("")), None);
}

#[test]
fn username_default_source_uses_preferred_username() {
    // Present: used.
    let mut claims = base_claims();
    claims.preferred_username = Some("rrolf".to_owned());
    assert_eq!(
        resolve_username(&claims, LtiUsernameSource::PreferredUsername),
        Some("rrolf".to_owned()),
    );
    // Absent: none (the launch is rejected rather than guessing an identity).
    assert_eq!(resolve_username(&base_claims(), LtiUsernameSource::PreferredUsername), None);
}

#[test]
fn username_sub_source_uses_subject() {
    assert_eq!(
        resolve_username(&base_claims(), LtiUsernameSource::Sub),
        Some("3".to_owned()),
    );
}

#[test]
fn username_custom_source_reads_custom_parameter_only() {
    let with_custom = |username: &str| {
        let mut claims = base_claims();
        // A `preferred_username` must NOT be used when the source is Custom.
        claims.preferred_username = Some("from-claim".to_owned());
        claims.custom = Some(vec![("username".to_owned(), Some(username.to_owned()))]);
        claims
    };

    assert_eq!(
        resolve_username(&with_custom("from-custom"), LtiUsernameSource::Custom),
        Some("from-custom".to_owned()),
    );
    // A blank (e.g. unsubstituted) value yields None, not the standard claim.
    assert_eq!(resolve_username(&with_custom(""), LtiUsernameSource::Custom), None);
    // No custom parameter at all: None.
    assert_eq!(resolve_username(&base_claims(), LtiUsernameSource::Custom), None);
}

#[test]
fn custom_parameter_that_is_no_string_is_no_username() {
    let mut claims = base_claims();
    claims.custom = Some(vec![("username".to_owned(), None)]);
    assert_eq!(resolve_username(&claims, LtiUsernameSource::Custom), None);
    assert_eq!(claims.custom_text("username"), None);
}

#[test]
fn custom_parameter_is_found_by_its_name() {
    let mut claims = base_claims();
    claims.custom = Some(vec![
        ("series".to_owned(), Some("abc".to_owned())),
        ("username".to_owned(), Some("x".to_owned())),
    ]);
    assert_eq!(claims.custom_text("series"), Some("abc"));
    assert_eq!(claims.custom_text("username"), Some("x"));
    assert_eq!(claims.custom_text("Series"), None);
}

#[test]
fn single_item_counts_as_a_list_of_one() {
    assert_eq!(MaybeArray::Single(7).as_slice(), &[7]);
    assert_eq!(MaybeArray::Array(vec![1, 2]).as_slice(), &[1, 2]);
    assert_eq!(MaybeArray::<u8>::Array(vec![]).as_slice(), &[] as &[u8]);
}

#[test]
fn claims_have_to_fit_the_platform() {
    let validator = LtiLaunchValidator {
        issuer: "https://moodle.example.org",
        client_id: "client-a",
    };
    assert_eq!(validator.validate(&base_claims()), Ok(()));

    let mut claims = base_claims();
    claims.iss = "https://moodle.example.org/".to_owned();
    assert_eq!(validator.validate(&claims), Err(ClaimMismatch::Issuer));

    let mut claims = base_claims();
    claims.aud = MaybeArray::Single("client-b".to_owned());
    assert_eq!(validator.validate(&claims), Err(ClaimMismatch::Audience));

    let mut claims = base_claims();
    claims.aud = MaybeArray::Array(vec!["client-b".to_owned(), "client-a".to_owned()]);
    assert_eq!(validator.validate(&claims), Ok(()));

    claims.azp = Some("client-a".to_owned());
    assert_eq!(validator.validate(&claims), Ok(()));

    claims.azp = Some("client-b".to_owned());
    assert_eq!(validator.validate(&claims), Err(ClaimMismatch::AuthorizedParty));
}

#[test]
fn first_mismatch_is_reported() {
    let validator = LtiLaunchValidator { issuer: "other", client_id: "other" };
    let mut claims = base_claims();
    claims.azp = Some("client-a".to_owned());
    assert_eq!(validator.validate(&claims), Err(ClaimMismatch::Issuer));
    assert_eq!(ClaimMismatch::Issuer.message(), "'iss' does not match platform");
    assert_eq!(ClaimMismatch::Audience.message(), "'aud' does not contain client ID");
    assert_eq!(ClaimMismatch::AuthorizedParty.message(), "'azp' does not match client ID");
}
