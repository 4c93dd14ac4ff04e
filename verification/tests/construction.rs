use desec_client::header::header_value;
use desec_client::{DeSecClient, DeSecError};

fn refused() -> DeSecError {
    DeSecError::ClientBuilder(String::from("failed to parse header value"))
}

#[test]
fn a_plain_token_builds_a_client() {
    let client = DeSecClient::new(String::from("abcDEF123-_")).unwrap();
    assert_eq!(client.authorization(), "Token abcDEF123-_");
}

#[test]
fn an_empty_token_builds_a_client() {
    let client = DeSecClient::new(String::new()).unwrap();
    assert_eq!(client.authorization(), "Token ");
}

#[test]
fn a_tab_and_letters_beyond_ascii_may_be_sent() {
    assert!(DeSecClient::new(String::from("a\tb")).is_ok());
    assert!(DeSecClient::new(String::from("cl\u{e9}")).is_ok());
    assert!(DeSecClient::new(String::from("\u{80}\u{7ff}\u{800}\u{10ffff}")).is_ok());
    assert!(DeSecClient::new(String::from(" ~")).is_ok());
}

#[test]
fn control_characters_are_refused() {
    assert_eq!(DeSecClient::new(String::from("a\nb")).err(), Some(refused()));
    assert_eq!(DeSecClient::new(String::from("a\rb")).err(), Some(refused()));
    assert_eq!(DeSecClient::new(String::from("\u{0}")).err(), Some(refused()));
    assert_eq!(DeSecClient::new(String::from("\u{1f}")).err(), Some(refused()));
    assert_eq!(DeSecClient::new(String::from("end\u{7f}")).err(), Some(refused()));
}

#[test]
fn header_values_are_judged_character_by_character() {
    assert_eq!(header_value("Token abc"), Ok(()));
    assert_eq!(header_value(""), Ok(()));
    assert_eq!(header_value("\t"), Ok(()));
    assert_eq!(header_value("\u{8}"), Err(String::from("failed to parse header value")));
    assert_eq!(header_value("ok\u{7f}"), Err(String::from("failed to parse header value")));
}
