//! Outgoing requests: one builder per operation of the service.
use vstd::prelude::*;
use crate::settings::{SettingsModel, TranslationSettings};
use crate::text::join;

verus! {

/// The HTTP method of a request.
#[derive(Debug, Clone, Copy, PartialEq, Eq, Structural)]
pub enum Method {
    Get,
    Post,
}

/// A value of a flat JSON body.
#[derive(Debug, Clone, PartialEq, Eq)]
pub enum JsonScalar {
    Text(String),
    Flag(bool),
}

/// A request body, by encoding.
#[derive(Debug, Clone, PartialEq, Eq)]
pub enum RequestBody {
    Empty,
    /// A JSON object with these members, in this order.
    Json(Vec<(String, JsonScalar)>),
    /// A multipart form with these text parts, in this order.
    Multipart(Vec<(String, String)>),
    /// Raw bytes.
    Bytes(Vec<u8>),
}

/// A fully formed request to the service.
#[derive(Debug, Clone, PartialEq, Eq)]
pub struct HttpRequest {
    pub method: Method,
    pub url: String,
    pub headers: Vec<(String, String)>,
    /// Pairs for the query string.
    pub query: Vec<(String, String)>,
    pub body: RequestBody,
}

/// A value of a flat JSON body as plain values.
pub enum ScalarModel {
    Text(Seq<char>),
    Flag(bool),
}

/// A request body as plain values.
pub enum BodyModel {
    Empty,
    Json(Seq<(Seq<char>, ScalarModel)>),
    Multipart(Seq<(Seq<char>, Seq<char>)>),
    Bytes(Seq<u8>),
}

/// A request as plain values.
pub struct RequestModel {
    pub method: Method,
    pub url: Seq<char>,
    pub headers: Seq<(Seq<char>, Seq<char>)>,
    pub query: Seq<(Seq<char>, Seq<char>)>,
    pub body: BodyModel,
}

/// Pairs of strings as pairs of texts.
pub open spec fn pairs_view(v: Seq<(String, String)>) -> Seq<(Seq<char>, Seq<char>)> {
    v.map_values(|p: (String, String)| (p.0@, p.1@))
}

/// A body value as plain values.
pub open spec fn scalar_view(s: JsonScalar) -> ScalarModel {
    match s {
        JsonScalar::Text(t) => ScalarModel::Text(t@),
        JsonScalar::Flag(b) => ScalarModel::Flag(b),
    }
}

/// JSON body members as plain values.
pub open spec fn members_view(v: Seq<(String, JsonScalar)>) -> Seq<(Seq<char>, ScalarModel)> {
    v.map_values(|p: (String, JsonScalar)| (p.0@, scalar_view(p.1)))
}

impl View for HttpRequest {
    type V = RequestModel;

    open spec fn view(&self) -> RequestModel {
        RequestModel {
            method: self.method,
            url: self.url@,
            headers: pairs_view(self.headers@),
            query: pairs_view(self.query@),
            body: match self.body {
                RequestBody::Empty => BodyModel::Empty,
                RequestBody::Json(m) => BodyModel::Json(members_view(m@)),
                RequestBody::Multipart(p) => BodyModel::Multipart(pairs_view(p@)),
                RequestBody::Bytes(b) => BodyModel::Bytes(b@),
            },
        }
    }
}

/// The compact JSON text of an object whose members are these strings, as
/// serde_json writes it.
pub uninterp spec fn json_object_text(members: Seq<(Seq<char>, Seq<char>)>) -> Seq<char>;

/// Relies on serde_json: collecting pairs into a `Map` and writing the object
/// `Value` through its `Display` impl.
#[verifier::external_body]
fn encode_text_object(members: &Vec<(String, String)>) -> (r: String)
    ensures
        r@ == json_object_text(pairs_view(members@)),
{
    serde_json::Value::Object(
        members.iter().map(|(k, v)| (k.clone(), serde_json::Value::String(v.clone()))).collect(),
    ).to_string()
}

/// The identification that the adapter sends: `identifier/version`, with version
/// `1.0.0` where the application declares none.
pub open spec fn user_agent_text(identifier: Seq<char>, version: Option<Seq<char>>) -> Seq<char> {
    identifier + "/"@ + match version {
        Some(v) => v,
        None => "1.0.0"@,
    }
}

/// Builds the `User-Agent` text from the application's identifier and version.
pub fn user_agent(identifier: &str, version: Option<&str>) -> (r: String)
    ensures
        r@ == user_agent_text(identifier@, match version {
            Some(v) => Some(v@),
            None => None,
        }),
{
    let mut r = join(identifier, "/");
    match version {
        Some(v) => r.append(v),
        None => r.append("1.0.0"),
    }
    r
}

/// The headers of every request: the login cookie and the identification.
pub open spec fn common_headers(login: Seq<char>, agent: Seq<char>) -> Seq<(Seq<char>, Seq<char>)> {
    seq![("Cookie"@, "kagi_session="@ + login), ("User-Agent"@, agent)]
}

/// The common headers and the operation token as authorization.
pub open spec fn authorized_headers(login: Seq<char>, agent: Seq<char>, op_token: Seq<char>) -> Seq<(Seq<char>, Seq<char>)> {
    common_headers(login, agent).push(("x-kagi-authorization"@, op_token))
}

fn pair(a: &str, b: &str) -> (r: (String, String))
    ensures
        r.0@ == a@,
        r.1@ == b@,
{
    (a.to_string(), b.to_string())
}

fn push_pair(v: &mut Vec<(String, String)>, a: &str, b: &str)
    ensures
        pairs_view(final(v)@) == pairs_view(old(v)@).push((a@, b@)),
{
    v.push(pair(a, b));
    assert(pairs_view(final(v)@) =~= pairs_view(old(v)@).push((a@, b@)));
}

fn common_header_list(login: &str, agent: &str) -> (r: Vec<(String, String)>)
    ensures
        pairs_view(r@) == common_headers(login@, agent@),
{
    let mut r: Vec<(String, String)> = Vec::new();
    let cookie = join("kagi_session=", login);
    push_pair(&mut r, "Cookie", cookie.as_str());
    push_pair(&mut r, "User-Agent", agent);
    assert(pairs_view(r@) =~= common_headers(login@, agent@));
    r
}

fn authorized_header_list(login: &str, agent: &str, op_token: &str) -> (r: Vec<(String, String)>)
    ensures
        pairs_view(r@) == authorized_headers(login@, agent@, op_token@),
{
    let mut r = common_header_list(login, agent);
    push_pair(&mut r, "x-kagi-authorization", op_token);
    r
}

/// The request that detects the language of a text.
pub open spec fn detect_model(login: Seq<char>, agent: Seq<char>, text: Seq<char>) -> RequestModel {
    RequestModel {
        method: Method::Post,
        url: "https://translate.kagi.com/api/detect"@,
        headers: common_headers(login, agent),
        query: seq![],
        body: BodyModel::Json(seq![("text"@, ScalarModel::Text(text))]),
    }
}

/// Builds the request that detects the language of `text`.
pub fn detect_request(login: &str, agent: &str, text: &str) -> (r: HttpRequest)
    ensures
        r@ == detect_model(login@, agent@, text@),
{
    let mut members: Vec<(String, JsonScalar)> = Vec::new();
    members.push(("text".to_string(), JsonScalar::Text(text.to_string())));
    let r = HttpRequest {
        method: Method::Post,
        url: "https://translate.kagi.com/api/detect".to_string(),
        headers: common_header_list(login, agent),
        query: Vec::new(),
        body: RequestBody::Json(members),
    };
    assert(r@.query =~= seq![]);
    assert(members_view(members@) =~= seq![("text"@, ScalarModel::Text(text@))]);
    r
}

fn push_text_member(v: &mut Vec<(String, JsonScalar)>, name: &str, value: &str)
    ensures
        members_view(final(v)@) == members_view(old(v)@).push((name@, ScalarModel::Text(value@))),
{
    v.push((name.to_string(), JsonScalar::Text(value.to_string())));
    assert(members_view(final(v)@) =~= members_view(old(v)@).push((name@, ScalarModel::Text(value@))));
}

fn push_flag_member(v: &mut Vec<(String, JsonScalar)>, name: &str, value: bool)
    ensures
        members_view(final(v)@) == members_view(old(v)@).push((name@, ScalarModel::Flag(value))),
{
    v.push((name.to_string(), JsonScalar::Flag(value)));
    assert(members_view(final(v)@) =~= members_view(old(v)@).push((name@, ScalarModel::Flag(value))));
}

/// The members of a translation request's JSON body.
pub open spec fn translate_members(source: Seq<char>, target: Seq<char>, text: Seq<char>, s: SettingsModel) -> Seq<(Seq<char>, ScalarModel)> {
    seq![
        ("text"@, ScalarModel::Text(text)),
        ("from"@, ScalarModel::Text(source)),
        ("to"@, ScalarModel::Text(target)),
        ("stream"@, ScalarModel::Flag(false)),
        ("prediction"@, ScalarModel::Flag(false)),
        ("formality"@, ScalarModel::Text(s.formality_level)),
        ("speaker_gender"@, ScalarModel::Text(s.speaker_gender)),
        ("addressee_gender"@, ScalarModel::Text(s.addressee_gender)),
        ("translation_style"@, ScalarModel::Text(s.translation_style)),
        ("context"@, ScalarModel::Text(s.context)),
    ]
}

/// The request that translates a text.
pub open spec fn translate_model(
    login: Seq<char>,
    agent: Seq<char>,
    op_token: Seq<char>,
    source: Seq<char>,
    target: Seq<char>,
    text: Seq<char>,
    s: SettingsModel,
) -> RequestModel {
    RequestModel {
        method: Method::Post,
        url: "https://translate.kagi.com/api/translate"@,
        headers: authorized_headers(login, agent, op_token).push(("Content-Type"@, "application/json"@)),
        query: seq![],
        body: BodyModel::Json(translate_members(source, target, text, s)),
    }
}

/// Builds the request that translates `text` from `source` to `target` under `settings`.
pub fn translate_request(
    login: &str,
    agent: &str,
    op_token: &str,
    source: &str,
    target: &str,
    text: &str,
    settings: &TranslationSettings,
) -> (r: HttpRequest)
    ensures
        r@ == translate_model(login@, agent@, op_token@, source@, target@, text@, settings@),
{
    let mut m: Vec<(String, JsonScalar)> = Vec::new();
    push_text_member(&mut m, "text", text);
    push_text_member(&mut m, "from", source);
    push_text_member(&mut m, "to", target);
    push_flag_member(&mut m, "stream", false);
    push_flag_member(&mut m, "prediction", false);
    push_text_member(&mut m, "formality", settings.formality_level.as_str());
    push_text_member(&mut m, "speaker_gender", settings.speaker_gender.as_str());
    push_text_member(&mut m, "addressee_gender", settings.addressee_gender.as_str());
    push_text_member(&mut m, "translation_style", settings.translation_style.as_str());
    push_text_member(&mut m, "context", settings.context.as_str());
    assert(members_view(m@) =~= translate_members(source@, target@, text@, settings@));
    let mut headers = authorized_header_list(login, agent, op_token);
    push_pair(&mut headers, "Content-Type", "application/json");
    let r = HttpRequest {
        method: Method::Post,
        url: "https://translate.kagi.com/api/translate".to_string(),
        headers,
        query: Vec::new(),
        body: RequestBody::Json(m),
    };
    assert(r@.query =~= seq![]);
    r
}

/// A GET request with a query string and no body.
pub open spec fn query_model(
    login: Seq<char>,
    agent: Seq<char>,
    url: Seq<char>,
    query: Seq<(Seq<char>, Seq<char>)>,
) -> RequestModel {
    RequestModel {
        method: Method::Get,
        url,
        headers: common_headers(login, agent),
        query,
        body: BodyModel::Empty,
    }
}

/// The request that romanizes a text written in `language`.
pub fn romanize_request(login: &str, agent: &str, text: &str, language: &str) -> (r: HttpRequest)
    ensures
        r@ == query_model(
            login@,
            agent@,
            "https://translate.kagi.com/api/romanize"@,
            seq![("text"@, text@), ("lang"@, language@)],
        ),
{
    let mut query: Vec<(String, String)> = Vec::new();
    push_pair(&mut query, "text", text);
    push_pair(&mut query, "lang", language);
    assert(pairs_view(query@) =~= seq![("text"@, text@), ("lang"@, language@)]);
    HttpRequest {
        method: Method::Get,
        url: "https://translate.kagi.com/api/romanize".to_string(),
        headers: common_header_list(login, agent),
        query,
        body: RequestBody::Empty,
    }
}

/// The request that reads a text aloud in `language`.
pub fn speech_request(login: &str, agent: &str, text: &str, language: &str) -> (r: HttpRequest)
    ensures
        r@ == query_model(
            login@,
            agent@,
            "https://translate.kagi.com/api/speech"@,
            seq![("text"@, text@), ("language"@, language@)],
        ),
{
    let mut query: Vec<(String, String)> = Vec::new();
    push_pair(&mut query, "text", text);
    push_pair(&mut query, "language", language);
    assert(pairs_view(query@) =~= seq![("text"@, text@), ("language"@, language@)]);
    HttpRequest {
        method: Method::Get,
        url: "https://translate.kagi.com/api/speech".to_string(),
        headers: common_header_list(login, agent),
        query,
        body: RequestBody::Empty,
    }
}

/// The request that fetches the service's page, which carries the operation token.
pub fn token_page_request(login: &str, agent: &str) -> (r: HttpRequest)
    ensures
        r@ == query_model(login@, agent@, "https://translate.kagi.com/"@, seq![]),
{
    let r = HttpRequest {
        method: Method::Get,
        url: "https://translate.kagi.com/".to_string(),
        headers: common_header_list(login, agent),
        query: Vec::new(),
        body: RequestBody::Empty,
    };
    assert(r@.query =~= seq![]);
    r
}

/// The request that transcribes recorded audio.
pub open spec fn transcribe_model(login: Seq<char>, agent: Seq<char>, audio: Seq<u8>) -> RequestModel {
    RequestModel {
        method: Method::Post,
        url: "https://translate.kagi.com/api/transcribe"@,
        headers: common_headers(login, agent).push(("Content-Type"@, "audio/mpeg"@)),
        query: seq![],
        body: BodyModel::Bytes(audio),
    }
}

/// Builds the request that transcribes `audio`.
pub fn transcribe_request(login: &str, agent: &str, audio: Vec<u8>) -> (r: HttpRequest)
    ensures
        r@ == transcribe_model(login@, agent@, audio@),
{
    let mut headers = common_header_list(login, agent);
    push_pair(&mut headers, "Content-Type", "audio/mpeg");
    let r = HttpRequest {
        method: Method::Post,
        url: "https://translate.kagi.com/api/transcribe".to_string(),
        headers,
        query: Vec::new(),
        body: RequestBody::Bytes(audio),
    };
    assert(r@.query =~= seq![]);
    r
}

/// The translation options that the multipart operations send as a JSON object.
pub open spec fn options_members(s: SettingsModel) -> Seq<(Seq<char>, Seq<char>)> {
    seq![
        ("speakerGender"@, s.speaker_gender),
        ("addresseeGender"@, s.addressee_gender),
        ("formality"@, s.formality_level),
        ("style"@, s.translation_style),
        ("context"@, s.context),
    ]
}

fn options_text(settings: &TranslationSettings) -> (r: String)
    ensures
        r@ == json_object_text(options_members(settings@)),
{
    let mut m: Vec<(String, String)> = Vec::new();
    push_pair(&mut m, "speakerGender", settings.speaker_gender.as_str());
    push_pair(&mut m, "addresseeGender", settings.addressee_gender.as_str());
    push_pair(&mut m, "formality", settings.formality_level.as_str());
    push_pair(&mut m, "style", settings.translation_style.as_str());
    push_pair(&mut m, "context", settings.context.as_str());
    assert(pairs_view(m@) =~= options_members(settings@));
    encode_text_object(&m)
}

/// A multipart POST to `url`, authorized by the operation token.
pub open spec fn multipart_model(
    login: Seq<char>,
    agent: Seq<char>,
    op_token: Seq<char>,
    url: Seq<char>,
    parts: Seq<(Seq<char>, Seq<char>)>,
) -> RequestModel {
    RequestModel {
        method: Method::Post,
        url,
        headers: authorized_headers(login, agent, op_token),
        query: seq![],
        body: BodyModel::Multipart(parts),
    }
}

/// The parts of a request for alternative translations.
pub open spec fn alternatives_parts(
    source: Seq<char>,
    target: Seq<char>,
    original: Seq<char>,
    existing: Seq<char>,
    s: SettingsModel,
) -> Seq<(Seq<char>, Seq<char>)> {
    seq![
        ("targetLanguage"@, target),
        ("sourceLanguage"@, source),
        ("originalText"@, original),
        ("existingTranslation"@, existing),
        ("targetExplanationLanguage"@, target),
        ("partialTranslation"@, "false"@),
        ("translationOptions"@, json_object_text(options_members(s))),
    ]
}

/// Builds the request for alternatives to an existing translation.
pub fn alternatives_request(
    login: &str,
    agent: &str,
    op_token: &str,
    source: &str,
    target: &str,
    original: &str,
    existing: &str,
    settings: &TranslationSettings,
) -> (r: HttpRequest)
    ensures
        r@ == multipart_model(
            login@,
            agent@,
            op_token@,
            "https://translate.kagi.com/api/alternative-translations"@,
            alternatives_parts(source@, target@, original@, existing@, settings@),
        ),
{
    let options = options_text(settings);
    let mut parts: Vec<(String, String)> = Vec::new();
    push_pair(&mut parts, "targetLanguage", target);
    push_pair(&mut parts, "sourceLanguage", source);
    push_pair(&mut parts, "originalText", original);
    push_pair(&mut parts, "existingTranslation", existing);
    push_pair(&mut parts, "targetExplanationLanguage", target);
    push_pair(&mut parts, "partialTranslation", "false");
    push_pair(&mut parts, "translationOptions", options.as_str());
    assert(pairs_view(parts@) =~= alternatives_parts(source@, target@, original@, existing@, settings@));
    let r = HttpRequest {
        method: Method::Post,
        url: "https://translate.kagi.com/api/alternative-translations".to_string(),
        headers: authorized_header_list(login, agent, op_token),
        query: Vec::new(),
        body: RequestBody::Multipart(parts),
    };
    assert(r@.query =~= seq![]);
    r
}

/// The parts of a request for word insights.
pub open spec fn insights_parts(
    original: Seq<char>,
    translated: Seq<char>,
    explanation_language: Seq<char>,
    s: SettingsModel,
) -> Seq<(Seq<char>, Seq<char>)> {
    seq![
        ("originalText"@, original),
        ("translatedText"@, translated),
        ("targetExplanationLanguage"@, explanation_language),
        ("translationOptions"@, json_object_text(options_members(s))),
    ]
}

/// Builds the request for insights on the words of a translation.
pub fn insights_request(
    login: &str,
    agent: &str,
    op_token: &str,
    original: &str,
    translated: &str,
    explanation_language: &str,
    settings: &TranslationSettings,
) -> (r: HttpRequest)
    ensures
        r@ == multipart_model(
            login@,
            agent@,
            op_token@,
            "https://translate.kagi.com/api/word-insights"@,
            insights_parts(original@, translated@, explanation_language@, settings@),
        ),
{
    let options = options_text(settings);
    let mut parts: Vec<(String, String)> = Vec::new();
    push_pair(&mut parts, "originalText", original);
    push_pair(&mut parts, "translatedText", translated);
    push_pair(&mut parts, "targetExplanationLanguage", explanation_language);
    push_pair(&mut parts, "translationOptions", options.as_str());
    assert(pairs_view(parts@) =~= insights_parts(original@, translated@, explanation_language@, settings@));
    let r = HttpRequest {
        method: Method::Post,
        url: "https://translate.kagi.com/api/word-insights".to_string(),
        headers: authorized_header_list(login, agent, op_token),
        query: Vec::new(),
        body: RequestBody::Multipart(parts),
    };
    assert(r@.query =~= seq![]);
    r
}

} // verus!
