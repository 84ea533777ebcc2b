use tobira_lti::listing::{list, removal, Registration, Timestamp};

fn registration(issuer: &str, name: Option<&str>, deployments: &[&str]) -> Registration {
    Registration {
        issuer: issuer.to_owned(),
        client_id: "client-a".to_owned(),
        platform_name: name.map(str::to_owned),
        deployment_ids: deployments.iter().map(|s| s.to_string()).collect(),
        created: Timestamp::from_unix(1431648059).unwrap(),
    }
}

#[test]
fn empty_list_says_so() {
    assert_eq!(list(&vec![]), "No dynamically registered LTI platforms.\n");
}

#[test]
fn registrations_are_listed_in_order() {
    assert_eq!(
        list(&vec![
            registration("https://a.example.org", Some("Moodle"), &["1", "2", "3"]),
            registration("https://b.example.org", None, &[]),
        ]),
        "- https://a.example.org\n    \
            platform: Moodle\n    \
            client_id: client-a\n    \
            deployments: [1, 2, 3]\n    \
            registered: 2015-05-15 00:00 UTC\n\
        - https://b.example.org\n    \
            client_id: client-a\n    \
            deployments: []\n    \
            registered: 2015-05-15 00:00 UTC\n",
    );
}

#[test]
fn single_deployment_has_no_comma() {
    let text = list(&vec![registration("x", None, &["7"])]);
    assert!(text.contains("\n    deployments: [7]\n"));
}

#[test]
fn removal_reports_what_was_deleted() {
    assert_eq!(
        removal(1, "https://a.example.org"),
        Ok("Removed the registration of 'https://a.example.org'.\n".to_owned()),
    );
    assert_eq!(
        removal(0, "https://a.example.org"),
        Err("no dynamic registration with issuer 'https://a.example.org' (see `list`)".to_owned()),
    );
}

fn shown(seconds: i64) -> String {
    Timestamp::from_unix(seconds).unwrap().as_str().to_owned()
}

#[test]
fn timestamps_are_shown_to_the_minute() {
    assert_eq!(shown(0), "1970-01-01 00:00 UTC");
    assert_eq!(shown(59), "1970-01-01 00:00 UTC");
    assert_eq!(shown(60), "1970-01-01 00:01 UTC");
    assert_eq!(shown(-1), "1969-12-31 23:59 UTC");
    assert_eq!(shown(951782400), "2000-02-29 00:00 UTC");
    assert_eq!(shown(1431648000 + 86399), "2015-05-15 23:59 UTC");
}

#[test]
fn years_without_four_digits_have_a_sign() {
    assert_eq!(shown(253402300799), "9999-12-31 23:59 UTC");
    assert_eq!(shown(253402300800), "+10000-01-01 00:00 UTC");
    assert_eq!(shown(-62167219200), "0000-01-01 00:00 UTC");
    assert_eq!(shown(-62167219201), "-0001-12-31 23:59 UTC");
}

#[test]
fn timestamps_out_of_range_are_refused() {
    assert!(Timestamp::from_unix(i64::MAX).is_none());
    assert!(Timestamp::from_unix(i64::MIN).is_none());
    assert_eq!(shown(8210266876799), "+262142-12-31 23:59 UTC");
    assert!(Timestamp::from_unix(8210266876800).is_none());
    assert_eq!(shown(-8334601228800), "-262143-01-01 00:00 UTC");
    assert!(Timestamp::from_unix(-8334601228801).is_none());
}
