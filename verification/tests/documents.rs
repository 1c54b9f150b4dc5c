use meteroid_store::document::Document;

fn sample() -> Document {
    Document::Object(vec![
        ("currency".to_string(), Document::Text("USD".to_string())),
        ("amount".to_string(), Document::Text("10.00".to_string())),
        ("currency".to_string(), Document::Text("EUR".to_string())),
    ])
}

#[test]
fn get_finds_the_first_member_under_a_key() {
    let document = sample();
    assert_eq!(document.get("currency"), Some(&Document::Text("USD".to_string())));
    assert_eq!(document.get("amount"), Some(&Document::Text("10.00".to_string())));
}

#[test]
fn get_finds_nothing_under_a_missing_key() {
    let document = sample();
    assert_eq!(document.get("Currency"), None);
    assert_eq!(document.get(""), None);
    assert_eq!(Document::Object(vec![]).get("currency"), None);
}

#[test]
fn get_finds_nothing_in_what_is_no_object() {
    assert_eq!(Document::Null.get("currency"), None);
    assert_eq!(Document::Bool(true).get("currency"), None);
    assert_eq!(Document::Text("currency".to_string()).get("currency"), None);
    assert_eq!(Document::Array(vec![sample()]).get("currency"), None);
    assert_eq!(Document::Number(serde_json::Number::from(3u64)).get("currency"), None);
}

#[test]
fn member_count_counts_the_members_of_an_object() {
    assert_eq!(sample().member_count(), 3);
    assert_eq!(Document::Object(vec![]).member_count(), 0);
    assert_eq!(Document::Array(vec![Document::Null, Document::Null]).member_count(), 0);
    assert_eq!(Document::Text("abc".to_string()).member_count(), 0);
}
