use tobira_lti::platform_keys::{
    check_keyset_status, read_platform_keys, usable_keys, KeysError,
};
use tobira_lti::tool_key::LtiToolKey;

fn jwk() -> String {
    let key = LtiToolKey::generate().ok().unwrap();
    let document: serde_json::Value = serde_json::from_str(key.jwks()).unwrap();
    document["keys"][0].to_string()
}

#[test]
fn success_is_any_status_between_200_and_299() {
    assert_eq!(check_keyset_status(200), Ok(()));
    assert_eq!(check_keyset_status(299), Ok(()));
    assert_eq!(check_keyset_status(199), Err(KeysError::Status(199)));
    assert_eq!(check_keyset_status(300), Err(KeysError::Status(300)));
    assert_eq!(check_keyset_status(404), Err(KeysError::Status(404)));
}

#[test]
fn keys_are_read_and_unusable_ones_skipped() {
    let encryption = jwk().replace("\"sig\"", "\"enc\"");
    let document = format!("{{\"keys\":[{},{},{}]}}", jwk(), encryption, jwk());
    assert_eq!(read_platform_keys(document.as_bytes()).unwrap().len(), 2);

    let document = format!("{{\"keys\":[{}]}}", encryption);
    assert_eq!(read_platform_keys(document.as_bytes()).unwrap().len(), 0);
    assert_eq!(read_platform_keys(b"{\"keys\":[]}").unwrap().len(), 0);
}

#[test]
fn document_has_to_be_a_key_set() {
    assert!(matches!(read_platform_keys(b"not json"), Err(KeysError::Unreadable)));
    assert!(matches!(read_platform_keys(b"{}"), Err(KeysError::Unreadable)));
    assert!(matches!(read_platform_keys(b""), Err(KeysError::Unreadable)));
}

#[test]
fn keys_keep_their_order() {
    let document = format!("{{\"keys\":[{},{}]}}", jwk(), jwk());
    let mut keys = read_platform_keys(document.as_bytes()).unwrap();
    let second = keys.pop();
    let first = keys.pop();
    let names = [format!("{first:?}"), format!("{second:?}")];
    let kept = usable_keys(vec![None, first, None, second]);
    assert_eq!(kept.len(), 2);
    assert_eq!(format!("{:?}", Some(&kept[0])), names[0]);
    assert_eq!(format!("{:?}", Some(&kept[1])), names[1]);
}
