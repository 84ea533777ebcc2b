use tobira_lti::form::FormParams;
use tobira_lti::http_url::{HttpUrl, MAX_URL_INPUT};

fn pairs(list: &[(&str, &str)]) -> Vec<(String, String)> {
    list.iter().map(|(name, value)| (name.to_string(), value.to_string())).collect()
}

fn extended(url: &str, list: &[(&str, &str)]) -> String {
    let url = HttpUrl::parse(url).unwrap();
    let pairs = pairs(list);
    assert!(url.has_room(&pairs));
    url.with_query_pairs(&pairs)
}

#[test]
fn only_absolute_web_urls_are_accepted() {
    assert!(HttpUrl::parse("https://lms.example.org/auth").is_some());
    assert!(HttpUrl::parse("http://lms.example.org").is_some());
    for text in ["", "/auth", "lms.example.org", "ftp://lms.example.org", "mailto:x@y", "https://"]
    {
        assert!(HttpUrl::parse(text).is_none(), "{text}");
    }
}

#[test]
fn url_is_serialised_in_its_normal_form() {
    let text = |url: &str| HttpUrl::parse(url).unwrap().text();
    assert_eq!(text("HTTPS://LMS.example.org"), "https://lms.example.org/");
    assert_eq!(text("https://lms.example.org:443/a/../b"), "https://lms.example.org/b");
    assert_eq!(text("https://x.org/a?b=c#d"), "https://x.org/a?b=c#d");
    assert_eq!(text("https://x.org/a?#"), "https://x.org/a?#");
    assert_eq!(text("https://x.org/a b\n?c d"), "https://x.org/a%20b?c%20d");
}

#[test]
fn return_urls_are_secure_and_have_no_fragment() {
    let usable = |url: &str| HttpUrl::parse(url).unwrap().is_secure_without_fragment();
    assert!(usable("https://lms.example.org/return?x=1"));
    assert!(!usable("http://lms.example.org/return"));
    assert!(!usable("https://lms.example.org/return#x"));
    assert!(!usable("https://lms.example.org/return#"));
}

#[test]
fn pairs_are_added_to_the_query() {
    assert_eq!(
        extended("https://x.org/auth", &[("a", "b"), ("c", "d e&f")]),
        "https://x.org/auth?a=b&c=d+e%26f",
    );
    assert_eq!(
        extended("https://x.org/auth?z=1", &[("a", "b")]),
        "https://x.org/auth?z=1&a=b",
    );
    assert_eq!(
        extended("https://x.org/auth?z=1#top", &[("a", "ä")]),
        "https://x.org/auth?z=1&a=%C3%A4#top",
    );
    assert_eq!(extended("https://x.org/auth?", &[("a", "b")]), "https://x.org/auth?a=b");
}

#[test]
fn added_pairs_cannot_break_a_header() {
    let url = extended("https://x.org/", &[("a\r\n", "\u{0}\u{7f}\r\nb")]);
    assert_eq!(url, "https://x.org/?a%0D%0A=%00%7F%0D%0Ab");
}

#[test]
fn added_pairs_are_read_back() {
    let url = extended("https://x.org/", &[("state", " ä+&=%\n"), ("", "x"), ("y", "")]);
    let query = url.split_once('?').unwrap().1;
    let params = FormParams::parse(query.as_bytes());
    assert_eq!(params.value("state"), Some(" ä+&=%\n"));
    assert_eq!(params.value(""), Some("x"));
    assert_eq!(params.value("y"), Some(""));
}

#[test]
fn clone_of_a_url_is_the_same_url() {
    let url = HttpUrl::parse("https://x.org/a?b#c").unwrap();
    assert_eq!(url.clone().text(), url.text());
    assert_eq!(
        url.clone().with_query_pairs(&pairs(&[("d", "e")])),
        "https://x.org/a?b&d=e#c",
    );
}

#[test]
fn parameters_are_decoded() {
    let params = FormParams::parse(b"a=b+c&d=%C3%A4&e&=f&g=%zz");
    assert_eq!(params.value("a"), Some("b c"));
    assert_eq!(params.value("d"), Some("ä"));
    assert_eq!(params.value("e"), Some(""));
    assert_eq!(params.value(""), Some("f"));
    assert_eq!(params.value("g"), Some("%zz"));
    assert_eq!(params.value("h"), None);
}

#[test]
fn last_value_of_a_parameter_counts() {
    let params = FormParams::parse(b"a=1&b=2&a=3");
    assert_eq!(params.value("a"), Some("3"));
    assert_eq!(params.get("a"), Some("3"));
    // Also if it is blank.
    let params = FormParams::parse(b"a=1&a=+");
    assert_eq!(params.value("a"), Some(" "));
    assert_eq!(params.get("a"), None);
}

#[test]
fn values_are_trimmed_and_blank_ones_count_as_absent() {
    let params = FormParams::parse(b"a=+x+y%09%0A&b=%20%09&c=&d=%E2%80%83z%C2%A0");
    assert_eq!(params.get("a"), Some("x y"));
    assert_eq!(params.get("b"), None);
    assert_eq!(params.get("c"), None);
    assert_eq!(params.get("d"), Some("z"));
}

#[test]
fn texts_beyond_the_limit_are_no_urls() {
    let mut text = "https://x.org/".to_owned();
    text.push_str(&"a".repeat(MAX_URL_INPUT - text.len() + 1));
    assert!(HttpUrl::parse(&text).is_none());
}
