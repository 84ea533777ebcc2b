use tobira_lti::http::BaseUrl;
use tobira_lti::target::{launch_location, resolve_target, safe_target, series_landing};

fn base_url() -> BaseUrl {
    BaseUrl::new("https://tobira.example.org").unwrap()
}

#[test]
fn series_landing_uses_direct_opencast_route() {
    assert_eq!(
        series_landing("https://tobira.example.org", "abc-123"),
        "https://tobira.example.org/!s/:abc-123",
    );
}

#[test]
fn resolve_target_lands_on_start_page_for_lti_endpoints_and_open_redirects() {
    let base = "https://tobira.example.org";

    // Moodle's default `target_link_uri` is the tool URL (`/~lti/launch`),
    // which must not be handed back to the browser.
    assert_eq!(resolve_target("https://tobira.example.org/~lti/launch", base), base);
    // Anything outside Tobira is refused (no open redirect).
    assert_eq!(resolve_target("https://evil.example.org/phish", base), base);
    // A host that merely *starts with* the base must not pass: without the
    // path boundary this would be an open redirect.
    assert_eq!(resolve_target("https://tobira.example.org.evil.com/phish", base), base);
    // Control characters (header injection) are rejected.
    assert_eq!(resolve_target("https://tobira.example.org/a\r\nb", base), base);
    // A real in-Tobira page is kept.
    assert_eq!(
        resolve_target("https://tobira.example.org/!s/:abc-123", base),
        "https://tobira.example.org/!s/:abc-123",
    );
}

#[test]
fn target_without_path_is_the_start_page() {
    let base = "https://tobira.example.org";
    assert_eq!(resolve_target(base, base), base);
    assert_eq!(resolve_target("", base), base);
    assert_eq!(resolve_target("https://tobira.example.org?x=1", base), base);
    assert_eq!(
        resolve_target("https://tobira.example.org/", base),
        "https://tobira.example.org/",
    );
}

#[test]
fn only_paths_below_the_endpoints_are_refused() {
    let base = "https://tobira.example.org";
    assert_eq!(
        resolve_target("https://tobira.example.org/~lti", base),
        "https://tobira.example.org/~lti",
    );
    assert_eq!(resolve_target("https://tobira.example.org/~lti/", base), base);
    assert_eq!(
        resolve_target("https://tobira.example.org/a/~lti/b", base),
        "https://tobira.example.org/a/~lti/b",
    );
}

#[test]
fn control_characters_are_refused_but_letters_of_any_script_are_kept() {
    let base = "https://tobira.example.org";
    assert_eq!(resolve_target("https://tobira.example.org/a\tb", base), base);
    assert_eq!(resolve_target("https://tobira.example.org/a\u{7f}b", base), base);
    assert_eq!(
        resolve_target("https://tobira.example.org/vorträge", base),
        "https://tobira.example.org/vorträge",
    );
}

#[test]
fn resolving_a_target_twice_changes_nothing() {
    let base = "https://tobira.example.org";
    for target in [
        "https://tobira.example.org/!s/:abc-123",
        "https://tobira.example.org/~lti/launch",
        "https://evil.example.org/phish",
    ] {
        let once = resolve_target(target, base);
        assert_eq!(resolve_target(&once, base), once);
    }
}

#[test]
fn safe_target_resolves_against_the_base_url() {
    assert_eq!(
        safe_target("https://tobira.example.org/x", &base_url()),
        "https://tobira.example.org/x",
    );
    assert_eq!(
        safe_target("https://evil.example.org/x", &base_url()),
        "https://tobira.example.org",
    );
}

#[test]
fn series_takes_precedence_over_the_target() {
    assert_eq!(
        launch_location(Some("abc"), "https://tobira.example.org/x", &base_url()),
        "https://tobira.example.org/!s/:abc",
    );
    assert_eq!(
        launch_location(None, "https://tobira.example.org/x", &base_url()),
        "https://tobira.example.org/x",
    );
}

#[test]
fn series_that_cannot_stand_in_a_header_gives_way_to_the_start_page() {
    assert_eq!(
        launch_location(Some("a\r\nSet-Cookie: x"), "https://tobira.example.org/x", &base_url()),
        "https://tobira.example.org",
    );
    // A tab may stand in a header.
    assert_eq!(
        launch_location(Some("a\tb"), "", &base_url()),
        "https://tobira.example.org/!s/:a\tb",
    );
}

#[test]
fn base_url_has_to_fit_a_header() {
    assert!(BaseUrl::new("https://tobira.example.org\n").is_none());
    assert!(BaseUrl::new("https://tobira.example.org\u{7f}").is_none());
    assert_eq!(base_url().as_str(), "https://tobira.example.org");
}
