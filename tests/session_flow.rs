use kagi_translate::credentials::Credentials;
use kagi_translate::error::AdapterError;
use kagi_translate::request::{HttpRequest, JsonScalar, Method, RequestBody};
use kagi_translate::session::{
    resume, start, AdapterConfig, Operation, OperationKind, Outcome, Pending, ProtocolVersion, Reply, Step,
};

fn config(protocol: ProtocolVersion) -> AdapterConfig {
    AdapterConfig { user_agent: "com.example.translate/1.2.0".to_string(), protocol }
}

/// Runs an invocation against a scripted transport; returns the result, the
/// requests sent, and the credentials afterwards.
fn run(
    cfg: &AdapterConfig,
    creds: &mut Credentials,
    op: Operation,
    mut replies: Vec<Reply>,
) -> (Result<Outcome, AdapterError>, Vec<HttpRequest>) {
    replies.reverse();
    let mut sent = Vec::new();
    let mut step = start(cfg, creds, op);
    loop {
        match step {
            Step::Finish(r) => return (r, sent),
            Step::Send { request, pending } => {
                sent.push(request);
                let reply = replies.pop().expect("transport called more often than scripted");
                step = resume(cfg, creds, pending, reply);
            }
        }
    }
}

fn header<'a>(r: &'a HttpRequest, name: &str) -> Option<&'a str> {
    r.headers.iter().find(|(k, _)| k == name).map(|(_, v)| v.as_str())
}

fn translate(text: &str, settings: &str) -> Operation {
    Operation::Translate {
        source: "en".to_string(),
        target: "fr".to_string(),
        text: text.to_string(),
        settings: settings.to_string(),
    }
}

fn logged_in(login: &str, op_token: Option<&str>) -> Credentials {
    let mut c = Credentials::new();
    c.set_login_token(login);
    if let Some(t) = op_token {
        c.set_operation_token(t);
    }
    c
}

#[test]
fn no_login_fails_without_transport() {
    let cfg = config(ProtocolVersion::Envelope);
    let ops = vec![
        Operation::DetectLanguage { text: "hi".to_string() },
        translate("hi", "{}"),
        Operation::Romanize { text: "hi".to_string(), language: "ja".to_string() },
        Operation::Speech { text: "hi".to_string(), language: "en".to_string() },
        Operation::Transcribe { audio: vec![1, 2, 3] },
        Operation::AlternativeTranslations {
            source: "en".to_string(),
            target: "fr".to_string(),
            original: "hi".to_string(),
            existing: "salut".to_string(),
            settings: "{}".to_string(),
        },
        Operation::WordInsights {
            original: "hi".to_string(),
            translated: "salut".to_string(),
            explanation_language: "en".to_string(),
            settings: "{}".to_string(),
        },
        Operation::RefreshOperationToken,
    ];
    for op in ops {
        let mut creds = Credentials::new();
        let (r, sent) = run(&cfg, &mut creds, op, vec![]);
        assert_eq!(r, Err(AdapterError::MissingCredential));
        assert_eq!(sent.len(), 0);
    }
}

#[test]
fn empty_translation_needs_no_transport() {
    let cfg = config(ProtocolVersion::Envelope);
    let mut creds = Credentials::new();
    let (r, sent) = run(&cfg, &mut creds, translate("", "not even json"), vec![]);
    assert_eq!(r, Ok(Outcome::Text(String::new())));
    assert_eq!(sent.len(), 0);
}

#[test]
fn empty_word_insights_need_no_transport() {
    let cfg = config(ProtocolVersion::Envelope);
    let mut creds = logged_in("abc", Some("t"));
    let op = Operation::WordInsights {
        original: "hi".to_string(),
        translated: String::new(),
        explanation_language: "en".to_string(),
        settings: "{}".to_string(),
    };
    let (r, sent) = run(&cfg, &mut creds, op, vec![]);
    assert_eq!(r, Ok(Outcome::NoInsights));
    assert_eq!(sent.len(), 0);
}

#[test]
fn refresh_stores_token_for_later_calls() {
    let cfg = config(ProtocolVersion::Envelope);
    let mut creds = Credentials::new();
    creds.set_login_token("abc");
    let page = r#"<html><body><input name="session_token" value="tok123"></body></html>"#;
    let (r, sent) = run(&cfg, &mut creds, Operation::RefreshOperationToken, vec![Reply::Text(page.to_string())]);
    assert_eq!(r, Ok(Outcome::Token("tok123".to_string())));
    assert_eq!(sent.len(), 1);
    assert_eq!(sent[0].method, Method::Get);
    assert_eq!(sent[0].url, "https://translate.kagi.com/");
    assert_eq!(header(&sent[0], "Cookie"), Some("kagi_session=abc"));
    assert_eq!(creds.operation_token(), Some("tok123".to_string()));
    assert_eq!(creds.login_token(), Some("abc".to_string()));

    let step = start(&cfg, &creds, translate("hello", "{}"));
    match step {
        Step::Send { request, pending } => {
            assert_eq!(pending, Pending::Reply(OperationKind::Translate));
            assert_eq!(header(&request, "x-kagi-authorization"), Some("tok123"));
        }
        Step::Finish(r) => panic!("unexpected end: {:?}", r),
    }
}

#[test]
fn refresh_without_token_on_page_is_not_found() {
    let cfg = config(ProtocolVersion::Envelope);
    let mut creds = logged_in("abc", None);
    let (r, sent) = run(&cfg, &mut creds, Operation::RefreshOperationToken, vec![Reply::Text("<p>login</p>".to_string())]);
    assert_eq!(r, Err(AdapterError::NotFound));
    assert_eq!(sent.len(), 1);
    assert_eq!(creds.operation_token(), None);
}

#[test]
fn translation_fetches_missing_token_first() {
    let cfg = config(ProtocolVersion::Envelope);
    let mut creds = logged_in("abc", None);
    let page = r#"<input name="session_token" value="fresh">"#;
    let reply = r#"{"translation":"bonjour","detectedLanguage":{"iso":"en","label":"English"}}"#;
    let (r, sent) = run(
        &cfg,
        &mut creds,
        translate("hello", "{}"),
        vec![Reply::Text(page.to_string()), Reply::Text(reply.to_string())],
    );
    assert_eq!(r, Ok(Outcome::Text("bonjour".to_string())));
    assert_eq!(sent.len(), 2);
    assert_eq!(sent[1].url, "https://translate.kagi.com/api/translate");
    assert_eq!(header(&sent[1], "x-kagi-authorization"), Some("fresh"));
    assert_eq!(creds.operation_token(), Some("fresh".to_string()));
}

#[test]
fn invalid_settings_fail_before_transport() {
    let cfg = config(ProtocolVersion::Envelope);
    let mut creds = logged_in("abc", None);
    let (r, sent) = run(&cfg, &mut creds, translate("hello", "{oops"), vec![]);
    assert_eq!(r, Err(AdapterError::InvalidSettings));
    assert_eq!(sent.len(), 0);
}

#[test]
fn transport_failure_is_surfaced() {
    let cfg = config(ProtocolVersion::Envelope);
    let mut creds = logged_in("abc", Some("t"));
    let op = Operation::DetectLanguage { text: "hallo".to_string() };
    let (r, sent) = run(&cfg, &mut creds, op, vec![Reply::Failed("connection reset".to_string())]);
    assert_eq!(r, Err(AdapterError::TransportError("connection reset".to_string())));
    assert_eq!(sent.len(), 1);
}

#[test]
fn detect_language_reads_iso() {
    let cfg = config(ProtocolVersion::Envelope);
    let mut creds = logged_in("abc", None);
    let op = Operation::DetectLanguage { text: "hallo".to_string() };
    let (r, sent) = run(&cfg, &mut creds, op, vec![Reply::Text(r#"{"iso":"de","label":"German"}"#.to_string())]);
    assert_eq!(r, Ok(Outcome::Text("de".to_string())));
    assert_eq!(sent[0].method, Method::Post);
    assert_eq!(sent[0].url, "https://translate.kagi.com/api/detect");
    assert_eq!(sent[0].body, RequestBody::Json(vec![("text".to_string(), JsonScalar::Text("hallo".to_string()))]));
    assert_eq!(header(&sent[0], "User-Agent"), Some("com.example.translate/1.2.0"));
}

#[test]
fn romanization_sends_query() {
    let cfg = config(ProtocolVersion::Envelope);
    let mut creds = logged_in("abc", None);
    let op = Operation::Romanize { text: "こんにちは".to_string(), language: "ja".to_string() };
    let (r, sent) = run(&cfg, &mut creds, op, vec![Reply::Text(r#"{"result":"konnichiwa"}"#.to_string())]);
    assert_eq!(r, Ok(Outcome::Text("konnichiwa".to_string())));
    assert_eq!(sent[0].method, Method::Get);
    assert_eq!(
        sent[0].query,
        vec![("text".to_string(), "こんにちは".to_string()), ("lang".to_string(), "ja".to_string())]
    );
    assert_eq!(sent[0].body, RequestBody::Empty);
}

#[test]
fn speech_defaults_content_type() {
    let cfg = config(ProtocolVersion::Envelope);
    let mut creds = logged_in("abc", None);
    let op = Operation::Speech { text: "hi".to_string(), language: "en".to_string() };
    let step = start(&cfg, &creds, op.clone());
    match &step {
        Step::Send { pending, .. } => assert!(pending.wants_audio()),
        Step::Finish(_) => panic!("speech should send a request"),
    }
    let (r, _) = run(&cfg, &mut creds, op, vec![Reply::Audio { content_type: None, data: vec![9, 8] }]);
    assert_eq!(r, Ok(Outcome::Audio { content_type: "audio/wav".to_string(), data: vec![9, 8] }));
}

#[test]
fn transcription_sends_audio_bytes() {
    let cfg = config(ProtocolVersion::Envelope);
    let mut creds = logged_in("abc", None);
    let op = Operation::Transcribe { audio: vec![1, 2, 3] };
    let reply = r#"{"duration":1.5,"language":"en","transcription":"hello"}"#;
    let (r, sent) = run(&cfg, &mut creds, op, vec![Reply::Text(reply.to_string())]);
    assert_eq!(r, Ok(Outcome::Text("hello".to_string())));
    assert_eq!(sent[0].body, RequestBody::Bytes(vec![1, 2, 3]));
    assert_eq!(header(&sent[0], "Content-Type"), Some("audio/mpeg"));
}

#[test]
fn legacy_protocols_decode_translation() {
    let mut creds = logged_in("abc", Some("t"));
    let positional = format!(
        r#"{{"type":"t","status":200,"data":{}}}"#,
        serde_json::to_string(r#"["irrelevant", true, "hello world"]"#).unwrap()
    );
    let (r, _) = run(&config(ProtocolVersion::Positional), &mut creds, translate("x", "{}"), vec![Reply::Text(positional)]);
    assert_eq!(r, Ok(Outcome::Text("hello world".to_string())));
    let page = r#"<textarea id="translation-output">bonjour</textarea>"#.to_string();
    let (r, _) = run(&config(ProtocolVersion::Markup), &mut creds, translate("x", "{}"), vec![Reply::Text(page)]);
    assert_eq!(r, Ok(Outcome::Text("bonjour".to_string())));
    let (r, _) = run(&config(ProtocolVersion::Markup), &mut creds, translate("x", "{}"), vec![Reply::Text("<p/>".to_string())]);
    assert_eq!(r, Err(AdapterError::NotFound));
}

#[test]
fn structured_reply_passed_on_as_record() {
    let cfg = config(ProtocolVersion::Envelope);
    let mut creds = logged_in("abc", Some("t"));
    let op = Operation::WordInsights {
        original: "hi".to_string(),
        translated: "salut".to_string(),
        explanation_language: "en".to_string(),
        settings: "{}".to_string(),
    };
    let body = r#"{"markedTranslation":"salut","insights":[]}"#;
    let (r, sent) = run(&cfg, &mut creds, op, vec![Reply::Text(body.to_string())]);
    assert_eq!(r, Ok(Outcome::Record(body.to_string())));
    assert_eq!(sent[0].url, "https://translate.kagi.com/api/word-insights");
}
