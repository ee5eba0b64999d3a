use catch_service::catch::{catch_to_json, catches_to_json, Catch, Measure};
use catch_service::text::{contains_char, parse_id_text, same_text};

fn record(species: &str, weight: u64, length: u64, url: &str) -> Catch {
    Catch::new(
        9,
        species.to_string(),
        Measure::from_thousandths(weight),
        Measure::from_thousandths(length),
        url.to_string(),
    )
}

#[test]
fn measures_as_json_numbers() {
    let c = record("Pike", 5250, 1, "u");
    assert_eq!(
        catch_to_json(&c),
        "{\"id\":9,\"species\":\"Pike\",\"weight\":5.25,\"length\":0.001,\"photo_url\":\"u\"}"
    );
    let c = record("Pike", 0, 123456, "u");
    assert!(catch_to_json(&c).contains("\"weight\":0.0,\"length\":123.456,"));
    let c = record("Pike", 18446744073709551615, 10, "u");
    assert!(catch_to_json(&c).contains("\"weight\":18446744073709551.615,\"length\":0.01,"));
}

#[test]
fn strings_are_escaped() {
    let c = record("Say \"hi\"\\\n\t\r\u{8}\u{c}\u{1}\u{1f}", 0, 0, "https://a/b?x=1&y=é");
    let json = catch_to_json(&c);
    assert!(json.contains("\"species\":\"Say \\\"hi\\\"\\\\\\n\\t\\r\\b\\f\\u0001\\u001f\""));
    assert!(json.contains("\"photo_url\":\"https://a/b?x=1&y=é\"}"));
}

#[test]
fn arrays_are_comma_separated() {
    let v = vec![record("A", 1000, 1000, "x"), record("B", 2000, 2000, "y")];
    let json = catches_to_json(&v);
    assert!(json.starts_with("[{\"id\":9,\"species\":\"A\""));
    assert!(json.contains("\"x\"},{\"id\":9,\"species\":\"B\""));
    assert!(json.ends_with("\"y\"}]"));
    assert_eq!(catches_to_json(&Vec::new()), "[]");
}

#[test]
fn id_texts() {
    assert_eq!(parse_id_text("0"), Some(0));
    assert_eq!(parse_id_text("1234"), Some(1234));
    assert_eq!(parse_id_text("18446744073709551615"), Some(u64::MAX));
    assert_eq!(parse_id_text("18446744073709551616"), None);
    assert_eq!(parse_id_text("99999999999999999999x"), None);
    assert_eq!(parse_id_text(""), None);
    assert_eq!(parse_id_text("-3"), None);
    assert_eq!(parse_id_text("١"), None);
}

#[test]
fn text_helpers() {
    assert!(same_text("GET", "GET"));
    assert!(!same_text("GET", "get"));
    assert!(!same_text("GET", "GETS"));
    assert!(contains_char("a/b", '/'));
    assert!(!contains_char("ab", '/'));
}
