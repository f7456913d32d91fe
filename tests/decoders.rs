use kagi_translate::decode::{
    classify_item, decode_envelope, decode_markup, decode_positional, decode_record, scrape_operation_token,
    speech_content_type, text_at_position, DataItem, LanguageRecord, StatsRecord,
};
use kagi_translate::error::AdapterError;

fn positional_body(array: &str) -> String {
    format!(r#"{{"type":"translation","status":200,"data":{}}}"#, serde_json::to_string(array).unwrap())
}

fn item(text: &str) -> DataItem {
    classify_item(&serde_json::from_str::<serde_json::Value>(text).unwrap())
}

#[test]
fn positional_reply_gives_index_two() {
    let body = positional_body(r#"["irrelevant", true, "hello world"]"#);
    assert_eq!(decode_positional(&body).unwrap(), "hello world");
}

#[test]
fn positional_reply_with_number_at_index_two_is_malformed() {
    let body = positional_body(r#"["x", true, 42]"#);
    assert_eq!(decode_positional(&body).unwrap_err(), AdapterError::MalformedResponse);
}

#[test]
fn positional_reply_too_short_is_malformed() {
    let body = positional_body(r#"["x", true]"#);
    assert_eq!(decode_positional(&body).unwrap_err(), AdapterError::MalformedResponse);
}

#[test]
fn positional_reply_with_mixed_items() {
    let body = positional_body(
        r#"[{"success":1,"completion":1,"from":3,"to":4,"detectedLanguage":3}, false, "hallo", {"iso":1,"label":2}, 7]"#,
    );
    assert_eq!(decode_positional(&body).unwrap(), "hallo");
}

#[test]
fn positional_reply_without_data_is_malformed() {
    assert_eq!(decode_positional(r#"{"type":"x"}"#).unwrap_err(), AdapterError::MalformedResponse);
    assert_eq!(decode_positional("not json").unwrap_err(), AdapterError::MalformedResponse);
    assert_eq!(decode_positional(r#"{"data":"not an array"}"#).unwrap_err(), AdapterError::MalformedResponse);
}

#[test]
fn items_classified_in_order() {
    assert_eq!(
        item(r#"{"success":1,"completion":2,"from":3,"to":4,"detectedLanguage":5,"iso":6,"label":7}"#),
        DataItem::Stats(StatsRecord { success: 1, completion: 2, from: 3, to: 4, detected_language: 5 })
    );
    assert_eq!(item("true"), DataItem::Flag(true));
    assert_eq!(item("\"abc\""), DataItem::Text("abc".to_string()));
    assert_eq!(item(r#"{"iso":6,"label":7}"#), DataItem::Language(LanguageRecord { iso: 6, label: 7 }));
    assert_eq!(item("-12"), DataItem::Number(-12));
    assert_eq!(item("4294967296"), DataItem::Unrecognized);
    assert_eq!(item("1.5"), DataItem::Unrecognized);
    assert_eq!(item("null"), DataItem::Unrecognized);
    assert_eq!(item(r#"{"iso":"en","label":7}"#), DataItem::Unrecognized);
}

#[test]
fn text_at_position_reads_index_two() {
    let items = vec![DataItem::Text("irrelevant".to_string()), DataItem::Flag(true), DataItem::Text("hello world".to_string())];
    assert_eq!(text_at_position(&items).unwrap(), "hello world");
    let items = vec![DataItem::Text("x".to_string()), DataItem::Flag(true), DataItem::Number(42)];
    assert_eq!(text_at_position(&items).unwrap_err(), AdapterError::MalformedResponse);
}

#[test]
fn markup_reply_gives_output_text() {
    let html = r#"<html><body><textarea id="translation-output">bonjour</textarea></body></html>"#;
    assert_eq!(decode_markup(html).unwrap(), "bonjour");
}

#[test]
fn markup_reply_without_output_is_not_found() {
    let html = r#"<html><body><textarea id="translation-input">hello</textarea></body></html>"#;
    assert_eq!(decode_markup(html).unwrap_err(), AdapterError::NotFound);
}

#[test]
fn token_scraped_from_page() {
    let html = r#"<html><body><form><input type="hidden" name="session_token" value="tok123"></form></body></html>"#;
    assert_eq!(scrape_operation_token(html).unwrap(), "tok123");
}

#[test]
fn token_missing_from_page_is_not_found() {
    assert_eq!(scrape_operation_token("<html><body></body></html>").unwrap_err(), AdapterError::NotFound);
    let html = r#"<input name="session_token">"#;
    assert_eq!(scrape_operation_token(html).unwrap_err(), AdapterError::NotFound);
}

#[test]
fn envelope_reply_gives_named_member() {
    let body = r#"{"translation":"hola","detectedLanguage":{"iso":"en","label":"English"},"definition":null}"#;
    assert_eq!(decode_envelope(body, "translation").unwrap(), "hola");
    assert_eq!(decode_envelope(r#"{"iso":"de","label":"German"}"#, "iso").unwrap(), "de");
}

#[test]
fn envelope_reply_missing_member_is_malformed() {
    assert_eq!(decode_envelope(r#"{"result":5}"#, "result").unwrap_err(), AdapterError::MalformedResponse);
    assert_eq!(decode_envelope(r#"{}"#, "result").unwrap_err(), AdapterError::MalformedResponse);
    assert_eq!(decode_envelope("<html>", "result").unwrap_err(), AdapterError::MalformedResponse);
}

#[test]
fn record_reply_must_be_object() {
    let body = r#"{"originalDescription":"d","elements":[]}"#;
    assert_eq!(decode_record(body).unwrap(), body);
    assert_eq!(decode_record("[]").unwrap_err(), AdapterError::MalformedResponse);
    assert_eq!(decode_record("{").unwrap_err(), AdapterError::MalformedResponse);
}

#[test]
fn speech_content_type_defaults_to_wav() {
    assert_eq!(speech_content_type(None), "audio/wav");
    assert_eq!(speech_content_type(Some("audio/mpeg".to_string())), "audio/mpeg");
}
