use status_relay::translation::{translated_text, translation_request, TranslationRequest};

#[test]
fn request_asks_for_french() {
    let expected = TranslationRequest {
        url: "https://api-free.deepl.com/v2/translate".to_string(),
        form: vec![
            ("text".to_string(), "Servers are down".to_string()),
            ("target_lang".to_string(), "FR".to_string()),
        ],
        authorization: "DeepL-Auth-Key SECRET-REDACTED".to_string(),
    };
    assert_eq!(translation_request("Servers are down", "SECRET-REDACTED"), expected);
}

#[test]
fn first_translation_is_used() {
    let reply = Some(vec!["premier".to_string(), "second".to_string()]);
    assert_eq!(translated_text("first", &reply), "premier");
}

#[test]
fn failed_call_keeps_the_text() {
    assert_eq!(translated_text("Servers are down", &None), "Servers are down");
}

#[test]
fn empty_reply_keeps_the_text() {
    assert_eq!(translated_text("Servers are down", &Some(Vec::new())), "Servers are down");
}
