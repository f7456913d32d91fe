//! One invocation of the adapter as a state machine: the caller runs the
//! transport, the machine decides what to send and what the reply means.
use vstd::prelude::*;
use crate::credentials::{Credentials, CredentialsModel};
use crate::decode::{
    decode_envelope, decode_markup, decode_positional, decode_record, default_audio_type,
    envelope_text, output_selector, positional_text, scrape_operation_token, speech_content_type,
    token_selector,
};
use crate::error::{AdapterError, ErrorModel};
use crate::html::{first_match_attr, first_match_text};
use crate::json::{json_parse, text_member, JsonNode};
use crate::request::{
    alternatives_parts, alternatives_request, detect_model, detect_request, insights_parts,
    insights_request, multipart_model, query_model, romanize_request, speech_request,
    token_page_request, transcribe_model, transcribe_request, translate_model, translate_request,
    BodyModel, HttpRequest, RequestModel, ScalarModel,
};
use crate::settings::{
    default_settings, resolution, resolve_settings, SettingsModel, TranslationSettings,
};
use crate::text::opt_view;

verus! {

/// Which generation of the service's translation reply to decode.
#[derive(Debug, Clone, Copy, PartialEq, Eq, Structural)]
pub enum ProtocolVersion {
    /// A JSON object with a `translation` member.
    Envelope,
    /// A JSON object whose `data` member holds a positional array as JSON text.
    Positional,
    /// An HTML page with the translation in an output element.
    Markup,
}

/// What stays fixed over the process: the identification sent with every request
/// and the generation of translation replies.
#[derive(Debug, Clone)]
pub struct AdapterConfig {
    pub user_agent: String,
    pub protocol: ProtocolVersion,
}

/// An operation of the service, with its arguments.
#[derive(Debug, Clone, PartialEq, Eq)]
pub enum Operation {
    DetectLanguage { text: String },
    Translate { source: String, target: String, text: String, settings: String },
    Romanize { text: String, language: String },
    Speech { text: String, language: String },
    Transcribe { audio: Vec<u8> },
    AlternativeTranslations {
        source: String,
        target: String,
        original: String,
        existing: String,
        settings: String,
    },
    WordInsights {
        original: String,
        translated: String,
        explanation_language: String,
        settings: String,
    },
    RefreshOperationToken,
}

/// The kind of an operation, without its arguments.
#[derive(Debug, Clone, Copy, PartialEq, Eq, Structural)]
pub enum OperationKind {
    DetectLanguage,
    Translate,
    Romanize,
    Speech,
    Transcribe,
    AlternativeTranslations,
    WordInsights,
    RefreshOperationToken,
}

/// What an invocation waits for after sending a request.
#[derive(Debug, Clone, PartialEq, Eq)]
pub enum Pending {
    /// The service's page, whose operation token is stored before the operation goes on.
    Token(Operation),
    /// The reply to an operation of this kind.
    Reply(OperationKind),
}

/// What the transport brought back.
#[derive(Debug, Clone, PartialEq, Eq)]
pub enum Reply {
    /// A reply read as text.
    Text(String),
    /// A reply read as bytes, with the content type it named, if any.
    Audio { content_type: Option<String>, data: Vec<u8> },
    /// The exchange failed; the transport's message.
    Failed(String),
}

/// The result of a successful invocation.
#[derive(Debug, Clone, PartialEq, Eq)]
pub enum Outcome {
    /// Detected language, translation, romanization or transcription.
    Text(String),
    /// Speech, with its content type.
    Audio { content_type: String, data: Vec<u8> },
    /// A fresh operation token.
    Token(String),
    /// A structured reply (alternative translations, word insights), as JSON text.
    Record(String),
    /// Word insights for an empty text: no marked translation and no insights.
    NoInsights,
}

/// The next thing an invocation does.
#[derive(Debug, PartialEq, Eq)]
pub enum Step {
    /// Send this request and resume with the reply.
    Send { request: HttpRequest, pending: Pending },
    /// The invocation ends.
    Finish(Result<Outcome, AdapterError>),
}

/// An outcome as plain values.
pub enum OutcomeModel {
    Text(Seq<char>),
    Audio(Seq<char>, Seq<u8>),
    Token(Seq<char>),
    Record(Seq<char>),
    NoInsights,
}

/// A step as plain values; the request as its view, the pending wait as it is.
pub enum StepModel {
    Send(RequestModel, Pending),
    Finish(Result<OutcomeModel, ErrorModel>),
}

impl View for Outcome {
    type V = OutcomeModel;

    open spec fn view(&self) -> OutcomeModel {
        match self {
            Outcome::Text(t) => OutcomeModel::Text(t@),
            Outcome::Audio { content_type, data } => OutcomeModel::Audio(content_type@, data@),
            Outcome::Token(t) => OutcomeModel::Token(t@),
            Outcome::Record(t) => OutcomeModel::Record(t@),
            Outcome::NoInsights => OutcomeModel::NoInsights,
        }
    }
}

/// The result of an invocation as plain values.
pub open spec fn result_view(r: Result<Outcome, AdapterError>) -> Result<OutcomeModel, ErrorModel> {
    match r {
        Ok(o) => Ok(o@),
        Err(e) => Err(e@),
    }
}

impl View for Step {
    type V = StepModel;

    open spec fn view(&self) -> StepModel {
        match self {
            Step::Send { request, pending } => StepModel::Send(request@, *pending),
            Step::Finish(r) => StepModel::Finish(result_view(*r)),
        }
    }
}

/// The kind of an operation.
pub open spec fn kind_of(op: Operation) -> OperationKind {
    match op {
        Operation::DetectLanguage { .. } => OperationKind::DetectLanguage,
        Operation::Translate { .. } => OperationKind::Translate,
        Operation::Romanize { .. } => OperationKind::Romanize,
        Operation::Speech { .. } => OperationKind::Speech,
        Operation::Transcribe { .. } => OperationKind::Transcribe,
        Operation::AlternativeTranslations { .. } => OperationKind::AlternativeTranslations,
        Operation::WordInsights { .. } => OperationKind::WordInsights,
        Operation::RefreshOperationToken => OperationKind::RefreshOperationToken,
    }
}

/// The operations that the service also authorizes by the operation token.
pub open spec fn needs_operation_token(k: OperationKind) -> bool {
    k == OperationKind::Translate || k == OperationKind::AlternativeTranslations || k
        == OperationKind::WordInsights
}

/// The settings document that an operation carries, if any.
pub open spec fn settings_doc(op: Operation) -> Option<Seq<char>> {
    match op {
        Operation::Translate { settings, .. } => Some(settings@),
        Operation::AlternativeTranslations { settings, .. } => Some(settings@),
        Operation::WordInsights { settings, .. } => Some(settings@),
        _ => None,
    }
}

/// The settings an operation runs with.
pub open spec fn resolved_settings(op: Operation) -> SettingsModel {
    match settings_doc(op) {
        Some(d) => match resolution(d) {
            Some(m) => m,
            None => default_settings(),
        },
        None => default_settings(),
    }
}

/// The result of a text operation on an empty text, reached without the service.
pub open spec fn short_circuit(op: Operation) -> Option<OutcomeModel> {
    match op {
        Operation::Translate { text, .. } => if text@.len() == 0 {
            Some(OutcomeModel::Text(seq![]))
        } else {
            None
        },
        Operation::WordInsights { original, translated, .. } => if original@.len() == 0
            || translated@.len() == 0 {
            Some(OutcomeModel::NoInsights)
        } else {
            None
        },
        _ => None,
    }
}

/// The request that performs an operation.
pub open spec fn request_model(
    agent: Seq<char>,
    login: Seq<char>,
    op_token: Seq<char>,
    op: Operation,
    s: SettingsModel,
) -> RequestModel {
    match op {
        Operation::DetectLanguage { text } => detect_model(login, agent, text@),
        Operation::Translate { source, target, text, .. } => translate_model(
            login,
            agent,
            op_token,
            source@,
            target@,
            text@,
            s,
        ),
        Operation::Romanize { text, language } => query_model(
            login,
            agent,
            "https://translate.kagi.com/api/romanize"@,
            seq![("text"@, text@), ("lang"@, language@)],
        ),
        Operation::Speech { text, language } => query_model(
            login,
            agent,
            "https://translate.kagi.com/api/speech"@,
            seq![("text"@, text@), ("language"@, language@)],
        ),
        Operation::Transcribe { audio } => transcribe_model(login, agent, audio@),
        Operation::AlternativeTranslations { source, target, original, existing, .. } =>
            multipart_model(
            login,
            agent,
            op_token,
            "https://translate.kagi.com/api/alternative-translations"@,
            alternatives_parts(source@, target@, original@, existing@, s),
        ),
        Operation::WordInsights { original, translated, explanation_language, .. } =>
            multipart_model(
            login,
            agent,
            op_token,
            "https://translate.kagi.com/api/word-insights"@,
            insights_parts(original@, translated@, explanation_language@, s),
        ),
        Operation::RefreshOperationToken => token_page_model(login, agent),
    }
}

/// The request for the service's page.
pub open spec fn token_page_model(login: Seq<char>, agent: Seq<char>) -> RequestModel {
    query_model(login, agent, "https://translate.kagi.com/"@, seq![])
}

/// The operation token, or the empty text where there is none.
pub open spec fn token_or_empty(t: Option<Seq<char>>) -> Seq<char> {
    match t {
        Some(t) => t,
        None => seq![],
    }
}

/// What an operation that is not answered locally does first: fail for want of a
/// login token or of valid settings, fetch the operation token where it needs one
/// that is not there, or send its own request.
pub open spec fn dispatch_model(agent: Seq<char>, creds: CredentialsModel, op: Operation) -> StepModel {
    if creds.login is None {
        StepModel::Finish(Err(ErrorModel::MissingCredential))
    } else if settings_doc(op) matches Some(d) && resolution(d) is None {
        StepModel::Finish(Err(ErrorModel::InvalidSettings))
    } else if kind_of(op) == OperationKind::RefreshOperationToken || (needs_operation_token(
        kind_of(op),
    ) && creds.operation is None) {
        StepModel::Send(token_page_model(creds.login->Some_0, agent), Pending::Token(op))
    } else {
        StepModel::Send(
            request_model(
                agent,
                creds.login->Some_0,
                token_or_empty(creds.operation),
                op,
                resolved_settings(op),
            ),
            Pending::Reply(kind_of(op)),
        )
    }
}

/// The first step of an invocation.
pub open spec fn start_model(agent: Seq<char>, creds: CredentialsModel, op: Operation) -> StepModel {
    match short_circuit(op) {
        Some(o) => StepModel::Finish(Ok(o)),
        None => dispatch_model(agent, creds, op),
    }
}

/// A decoded text as an outcome, or the error `missing` where there is none.
pub open spec fn text_outcome(t: Option<Seq<char>>, missing: ErrorModel) -> Result<OutcomeModel, ErrorModel> {
    match t {
        Some(t) => Ok(OutcomeModel::Text(t)),
        None => Err(missing),
    }
}

/// What a reply to an operation of kind `k` means.
pub open spec fn decoded(protocol: ProtocolVersion, k: OperationKind, reply: Reply) -> Result<OutcomeModel, ErrorModel> {
    match reply {
        Reply::Failed(m) => Err(ErrorModel::TransportError(m@)),
        Reply::Audio { content_type, data } => if k == OperationKind::Speech {
            Ok(OutcomeModel::Audio(
                match content_type {
                    Some(c) => c@,
                    None => default_audio_type(),
                },
                data@,
            ))
        } else {
            Err(ErrorModel::MalformedResponse)
        },
        Reply::Text(body) => match k {
            OperationKind::DetectLanguage => text_outcome(envelope_text(body@, "iso"@), ErrorModel::MalformedResponse),
            OperationKind::Translate => match protocol {
                ProtocolVersion::Envelope => text_outcome(envelope_text(body@, "translation"@), ErrorModel::MalformedResponse),
                ProtocolVersion::Positional => text_outcome(positional_text(body@), ErrorModel::MalformedResponse),
                ProtocolVersion::Markup => text_outcome(first_match_text(body@, output_selector()), ErrorModel::NotFound),
            },
            OperationKind::Romanize => text_outcome(envelope_text(body@, "result"@), ErrorModel::MalformedResponse),
            OperationKind::Transcribe => text_outcome(envelope_text(body@, "transcription"@), ErrorModel::MalformedResponse),
            OperationKind::AlternativeTranslations | OperationKind::WordInsights => if json_parse(
                body@,
            ) matches Some(JsonNode::Object(_)) {
                Ok(OutcomeModel::Record(body@))
            } else {
                Err(ErrorModel::MalformedResponse)
            },
            _ => Err(ErrorModel::MalformedResponse),
        },
    }
}

/// What the service's page means to an invocation waiting for it: the token found
/// there is stored, then the operation goes on (a refresh ends with the token).
pub open spec fn token_model(
    agent: Seq<char>,
    creds: CredentialsModel,
    op: Operation,
    reply: Reply,
) -> (CredentialsModel, StepModel) {
    match reply {
        Reply::Failed(m) => (creds, StepModel::Finish(Err(ErrorModel::TransportError(m@)))),
        Reply::Audio { .. } => (creds, StepModel::Finish(Err(ErrorModel::MalformedResponse))),
        Reply::Text(page) => match first_match_attr(page@, token_selector(), "value"@) {
            Some(t) => {
                let stored = CredentialsModel { login: creds.login, operation: Some(t) };
                (stored, if kind_of(op) == OperationKind::RefreshOperationToken {
                    StepModel::Finish(Ok(OutcomeModel::Token(t)))
                } else {
                    dispatch_model(agent, stored, op)
                })
            },
            None => (creds, StepModel::Finish(Err(ErrorModel::NotFound))),
        },
    }
}

/// The credentials and the next step after a reply.
pub open spec fn resume_model(
    agent: Seq<char>,
    protocol: ProtocolVersion,
    creds: CredentialsModel,
    pending: Pending,
    reply: Reply,
) -> (CredentialsModel, StepModel) {
    match pending {
        Pending::Token(op) => token_model(agent, creds, op, reply),
        Pending::Reply(k) => if k == OperationKind::RefreshOperationToken {
            token_model(agent, creds, Operation::RefreshOperationToken, reply)
        } else {
            (creds, StepModel::Finish(decoded(protocol, k, reply)))
        },
    }
}

impl Operation {
    /// The kind of this operation.
    pub fn kind(&self) -> (r: OperationKind)
        ensures
            r == kind_of(*self),
    {
        match self {
            Operation::DetectLanguage { .. } => OperationKind::DetectLanguage,
            Operation::Translate { .. } => OperationKind::Translate,
            Operation::Romanize { .. } => OperationKind::Romanize,
            Operation::Speech { .. } => OperationKind::Speech,
            Operation::Transcribe { .. } => OperationKind::Transcribe,
            Operation::AlternativeTranslations { .. } => OperationKind::AlternativeTranslations,
            Operation::WordInsights { .. } => OperationKind::WordInsights,
            Operation::RefreshOperationToken => OperationKind::RefreshOperationToken,
        }
    }

    fn settings_text(&self) -> (r: Option<String>)
        ensures
            opt_view(r) == settings_doc(*self),
    {
        match self {
            Operation::Translate { settings, .. } => Some(settings.clone()),
            Operation::AlternativeTranslations { settings, .. } => Some(settings.clone()),
            Operation::WordInsights { settings, .. } => Some(settings.clone()),
            _ => None,
        }
    }
}

impl Pending {
    /// Whether the reply awaited is audio, to be read as bytes.
    pub fn wants_audio(&self) -> (r: bool)
        ensures
            r == (*self == Pending::Reply(OperationKind::Speech)),
    {
        match self {
            Pending::Reply(OperationKind::Speech) => true,
            _ => false,
        }
    }
}

fn build_request(
    agent: &str,
    login: &str,
    op_token: &str,
    op: Operation,
    settings: &TranslationSettings,
) -> (r: HttpRequest)
    ensures
        r@ == request_model(agent@, login@, op_token@, op, settings@),
{
    match op {
        Operation::DetectLanguage { text } => detect_request(login, agent, text.as_str()),
        Operation::Translate { source, target, text, .. } => translate_request(
            login,
            agent,
            op_token,
            source.as_str(),
            target.as_str(),
            text.as_str(),
            settings,
        ),
        Operation::Romanize { text, language } => romanize_request(
            login,
            agent,
            text.as_str(),
            language.as_str(),
        ),
        Operation::Speech { text, language } => speech_request(
            login,
            agent,
            text.as_str(),
            language.as_str(),
        ),
        Operation::Transcribe { audio } => transcribe_request(login, agent, audio),
        Operation::AlternativeTranslations { source, target, original, existing, .. } =>
            alternatives_request(
            login,
            agent,
            op_token,
            source.as_str(),
            target.as_str(),
            original.as_str(),
            existing.as_str(),
            settings,
        ),
        Operation::WordInsights { original, translated, explanation_language, .. } =>
            insights_request(
            login,
            agent,
            op_token,
            original.as_str(),
            translated.as_str(),
            explanation_language.as_str(),
            settings,
        ),
        Operation::RefreshOperationToken => token_page_request(login, agent),
    }
}

fn dispatch(config: &AdapterConfig, creds: &Credentials, op: Operation) -> (r: Step)
    ensures
        r@ == dispatch_model(config.user_agent@, creds@, op),
{
    let agent = config.user_agent.as_str();
    let login = match creds.login_token() {
        Some(l) => l,
        None => return Step::Finish(Err(AdapterError::MissingCredential)),
    };
    let settings = match op.settings_text() {
        Some(doc) => match resolve_settings(doc.as_str()) {
            Ok(s) => s,
            Err(e) => return Step::Finish(Err(e)),
        },
        None => TranslationSettings::default(),
    };
    let kind = op.kind();
    let op_token = creds.operation_token();
    let fetch_token = match op_token {
        Some(_) => false,
        None => kind == OperationKind::Translate || kind == OperationKind::AlternativeTranslations
            || kind == OperationKind::WordInsights,
    };
    if kind == OperationKind::RefreshOperationToken || fetch_token {
        return Step::Send { request: token_page_request(login.as_str(), agent), pending: Pending::Token(op) };
    }
    let token = match op_token {
        Some(t) => t,
        None => String::new(),
    };
    let request = build_request(agent, login.as_str(), token.as_str(), op, &settings);
    Step::Send { request, pending: Pending::Reply(kind) }
}

/// The first step of an invocation: a text operation on an empty text is answered
/// at once; every other operation goes through the checks of a dispatch.
pub fn start(config: &AdapterConfig, creds: &Credentials, op: Operation) -> (r: Step)
    ensures
        r@ == start_model(config.user_agent@, creds@, op),
{
    match &op {
        Operation::Translate { text, .. } => if text.as_str().is_empty() {
            return Step::Finish(Ok(Outcome::Text(String::new())));
        },
        Operation::WordInsights { original, translated, .. } => if original.as_str().is_empty()
            || translated.as_str().is_empty() {
            return Step::Finish(Ok(Outcome::NoInsights));
        },
        _ => {},
    }
    dispatch(config, creds, op)
}

fn text_result(r: Result<String, AdapterError>) -> (o: Result<Outcome, AdapterError>)
    ensures
        result_view(o) == match r {
            Ok(t) => Ok(OutcomeModel::Text(t@)),
            Err(e) => Err(e@),
        },
{
    match r {
        Ok(t) => Ok(Outcome::Text(t)),
        Err(e) => Err(e),
    }
}

fn decode_reply(protocol: ProtocolVersion, kind: OperationKind, reply: Reply) -> (r: Result<Outcome, AdapterError>)
    requires
        kind != OperationKind::RefreshOperationToken,
    ensures
        result_view(r) == decoded(protocol, kind, reply),
{
    match reply {
        Reply::Failed(m) => Err(AdapterError::TransportError(m)),
        Reply::Audio { content_type, data } => if kind == OperationKind::Speech {
            Ok(Outcome::Audio { content_type: speech_content_type(content_type), data })
        } else {
            Err(AdapterError::MalformedResponse)
        },
        Reply::Text(body) => {
            let body = body.as_str();
            match kind {
                OperationKind::DetectLanguage => text_result(decode_envelope(body, "iso")),
                OperationKind::Translate => match protocol {
                    ProtocolVersion::Envelope => text_result(decode_envelope(body, "translation")),
                    ProtocolVersion::Positional => text_result(decode_positional(body)),
                    ProtocolVersion::Markup => text_result(decode_markup(body)),
                },
                OperationKind::Romanize => text_result(decode_envelope(body, "result")),
                OperationKind::Transcribe => text_result(decode_envelope(body, "transcription")),
                OperationKind::AlternativeTranslations | OperationKind::WordInsights => match decode_record(body) {
                    Ok(t) => Ok(Outcome::Record(t)),
                    Err(e) => Err(e),
                },
                _ => Err(AdapterError::MalformedResponse),
            }
        },
    }
}

fn receive_token(config: &AdapterConfig, creds: &mut Credentials, op: Operation, reply: Reply) -> (r: Step)
    ensures
        (final(creds)@, r@) == token_model(config.user_agent@, old(creds)@, op, reply),
{
    match reply {
        Reply::Failed(m) => Step::Finish(Err(AdapterError::TransportError(m))),
        Reply::Audio { .. } => Step::Finish(Err(AdapterError::MalformedResponse)),
        Reply::Text(page) => match scrape_operation_token(page.as_str()) {
            Ok(token) => {
                creds.set_operation_token(token.as_str());
                if op.kind() == OperationKind::RefreshOperationToken {
                    Step::Finish(Ok(Outcome::Token(token)))
                } else {
                    dispatch(config, creds, op)
                }
            },
            Err(e) => Step::Finish(Err(e)),
        },
    }
}

/// The step after a reply. The lock on the credentials is needed only for this
/// call, never across the exchange itself.
pub fn resume(config: &AdapterConfig, creds: &mut Credentials, pending: Pending, reply: Reply) -> (r: Step)
    ensures
        (final(creds)@, r@) == resume_model(config.user_agent@, config.protocol, old(creds)@, pending, reply),
{
    match pending {
        Pending::Token(op) => receive_token(config, creds, op, reply),
        Pending::Reply(kind) => if kind == OperationKind::RefreshOperationToken {
            receive_token(config, creds, Operation::RefreshOperationToken, reply)
        } else {
            Step::Finish(decode_reply(config.protocol, kind, reply))
        },
    }
}

/// An operation that is not answered locally fails for want of a login token:
/// the invocation ends at once and no request is formed.
pub proof fn lemma_no_login_no_request(agent: Seq<char>, creds: CredentialsModel, op: Operation)
    requires
        creds.login is None,
        short_circuit(op) is None,
    ensures
        start_model(agent, creds, op) == StepModel::Finish(Err(ErrorModel::MissingCredential)),
{
}

/// A translation of the empty text succeeds with the empty text and sends nothing,
/// whatever the credentials and settings.
pub proof fn lemma_empty_translation_sends_nothing(
    agent: Seq<char>,
    creds: CredentialsModel,
    source: String,
    target: String,
    text: String,
    settings: String,
)
    requires
        text@.len() == 0,
    ensures
        start_model(agent, creds, Operation::Translate { source, target, text, settings })
            == StepModel::Finish(Ok(OutcomeModel::Text(seq![]))),
{
}

/// A refresh fetches the service's page, stores the token found there beside the
/// unchanged login token, and ends with that token. An operation that needs the
/// token then goes straight to its own request, authorized by the stored token,
/// without fetching the page again.
pub proof fn lemma_refresh_stores_token(
    agent: Seq<char>,
    protocol: ProtocolVersion,
    creds: CredentialsModel,
    page: String,
    op: Operation,
)
    requires
        creds.login is Some,
        first_match_attr(page@, token_selector(), "value"@) is Some,
    ensures
        start_model(agent, creds, Operation::RefreshOperationToken) == StepModel::Send(
            token_page_model(creds.login->Some_0, agent),
            Pending::Token(Operation::RefreshOperationToken),
        ),
        ({
            let t = first_match_attr(page@, token_selector(), "value"@)->Some_0;
            let (stored, step) = resume_model(
                agent,
                protocol,
                creds,
                Pending::Token(Operation::RefreshOperationToken),
                Reply::Text(page),
            );
            &&& stored.operation == Some(t)
            &&& stored.login == creds.login
            &&& step == StepModel::Finish(Ok(OutcomeModel::Token(t)))
            &&& (short_circuit(op) is None && !(settings_doc(op) matches Some(d) && resolution(d) is None)
                && kind_of(op) != OperationKind::RefreshOperationToken) ==> start_model(agent, stored, op)
                == StepModel::Send(
                request_model(agent, creds.login->Some_0, t, op, resolved_settings(op)),
                Pending::Reply(kind_of(op)),
            )
        }),
{
}

/// A translation whose settings document supplies every option carries each of
/// them verbatim in the body of its request: nothing is substituted.
pub proof fn lemma_translate_request_keeps_settings(
    agent: Seq<char>,
    creds: CredentialsModel,
    source: String,
    target: String,
    text: String,
    settings: String,
)
    requires
        text@.len() > 0,
        creds.login is Some,
        creds.operation is Some,
        json_parse(settings@) is Some,
        text_member(json_parse(settings@)->Some_0, "translation_style"@) is Some,
        text_member(json_parse(settings@)->Some_0, "formality_level"@) is Some,
        text_member(json_parse(settings@)->Some_0, "speaker_gender"@) is Some,
        text_member(json_parse(settings@)->Some_0, "addressee_gender"@) is Some,
        text_member(json_parse(settings@)->Some_0, "context"@) is Some,
    ensures
        ({
            let node = json_parse(settings@)->Some_0;
            let step = start_model(agent, creds, Operation::Translate { source, target, text, settings });
            &&& step is Send
            &&& step->Send_0.body is Json
            &&& step->Send_0.body->Json_0[5] == ("formality"@, ScalarModel::Text(text_member(node, "formality_level"@)->Some_0))
            &&& step->Send_0.body->Json_0[6] == ("speaker_gender"@, ScalarModel::Text(text_member(node, "speaker_gender"@)->Some_0))
            &&& step->Send_0.body->Json_0[7] == ("addressee_gender"@, ScalarModel::Text(text_member(node, "addressee_gender"@)->Some_0))
            &&& step->Send_0.body->Json_0[8] == ("translation_style"@, ScalarModel::Text(text_member(node, "translation_style"@)->Some_0))
            &&& step->Send_0.body->Json_0[9] == ("context"@, ScalarModel::Text(text_member(node, "context"@)->Some_0))
        }),
{
}

} // verus!
