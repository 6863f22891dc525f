use quick_translate::{
    translate_response, translation_from_field, TranslationError, TranslationRequest,
    TRANSLATE_ENDPOINT,
};

fn request(text: &str, from: Option<&str>, to: Option<&str>) -> TranslationRequest {
    TranslationRequest {
        text: text.to_string(),
        from: from.map(|s| s.to_string()),
        to: to.map(|s| s.to_string()),
    }
}

#[test]
fn omitted_languages_resolve_to_auto_and_zh() {
    let req = request("hello", None, None);
    let body = r#"{"responseData":{"translatedText":"你好"}}"#;
    let r = translate_response(&req, body).unwrap();
    assert_eq!(r.from, "auto");
    assert_eq!(r.to, "zh");
}

#[test]
fn given_languages_are_kept() {
    let req = request("hello", Some("en"), Some("fr"));
    let body = r#"{"responseData":{"translatedText":"bonjour"}}"#;
    let r = translate_response(&req, body).unwrap();
    assert_eq!(r.from, "en");
    assert_eq!(r.to, "fr");
    assert_eq!(r.translated, "bonjour");
}

#[test]
fn translated_text_and_original_come_back_verbatim() {
    let req = request("  Good morning, \"friend\"\n", Some("en"), None);
    let body = r#"{"responseData":{"translatedText":"早上好，\"朋友\"","match":1},"responseStatus":200}"#;
    let r = translate_response(&req, body).unwrap();
    assert_eq!(r.translated, "早上好，\"朋友\"");
    assert_eq!(r.original, "  Good morning, \"friend\"\n");
}

#[test]
fn empty_text_is_passed_through() {
    let req = request("", None, None);
    let body = r#"{"responseData":{"translatedText":""}}"#;
    let r = translate_response(&req, body).unwrap();
    assert_eq!(r.original, "");
    assert_eq!(r.translated, "");
}

#[test]
fn missing_translated_text_is_no_translation() {
    let req = request("hello", None, None);
    let r = translate_response(&req, r#"{"responseData":{}}"#);
    assert_eq!(r, Err(TranslationError::NoTranslationFound));
    let r = translate_response(&req, r#"{"responseStatus":403}"#);
    assert_eq!(r, Err(TranslationError::NoTranslationFound));
}

#[test]
fn non_string_translated_text_is_no_translation() {
    let req = request("hello", None, None);
    let r = translate_response(&req, r#"{"responseData":{"translatedText":42}}"#);
    assert_eq!(r, Err(TranslationError::NoTranslationFound));
    let r = translate_response(&req, r#"{"responseData":null}"#);
    assert_eq!(r, Err(TranslationError::NoTranslationFound));
}

#[test]
fn invalid_json_is_a_parse_failure() {
    let req = request("hello", None, None);
    let r = translate_response(&req, "<html>Service unavailable</html>");
    assert!(matches!(r, Err(TranslationError::ResponseParseFailed(_))));
    let r = translate_response(&req, "");
    assert!(matches!(r, Err(TranslationError::ResponseParseFailed(_))));
}

#[test]
fn field_decides_the_outcome() {
    let req = request("cat", Some("en"), Some("de"));
    let r = translation_from_field(&req, Some("Katze".to_string())).unwrap();
    assert_eq!(r.original, "cat");
    assert_eq!(r.translated, "Katze");
    assert_eq!(r.from, "en");
    assert_eq!(r.to, "de");
    assert_eq!(translation_from_field(&req, None), Err(TranslationError::NoTranslationFound));
}

#[test]
fn lang_pair_joins_with_a_bar() {
    assert_eq!(request("x", None, None).lang_pair(), "auto|zh");
    assert_eq!(request("x", Some("en"), Some("ja")).lang_pair(), "en|ja");
    assert_eq!(request("x", None, Some("es")).lang_pair(), "auto|es");
}

#[test]
fn query_holds_text_and_lang_pair() {
    let q = request("how are you?", Some("en"), None).query();
    assert_eq!(
        q,
        vec![
            ("q".to_string(), "how are you?".to_string()),
            ("langpair".to_string(), "en|zh".to_string()),
        ]
    );
    assert_eq!(TRANSLATE_ENDPOINT, "https://api.mymemory.translated.net/get");
}

#[test]
fn translation_error_messages() {
    assert_eq!(
        TranslationError::RequestFailed("timed out".to_string()).message(),
        "Request failed: timed out"
    );
    assert_eq!(
        TranslationError::ResponseParseFailed("EOF".to_string()).message(),
        "Failed to parse response: EOF"
    );
    assert_eq!(TranslationError::NoTranslationFound.message(), "No translation found");
}

#[test]
fn parse_failure_carries_the_parser_message() {
    let req = request("hello", None, None);
    match translate_response(&req, "{") {
        Err(TranslationError::ResponseParseFailed(m)) => assert!(!m.is_empty()),
        other => panic!("unexpected outcome: {:?}", other),
    }
}
