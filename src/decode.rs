//! Decoders for the service's replies: the typed JSON envelope, the legacy
//! positional array, and the legacy HTML page.
use vstd::prelude::*;
use crate::error::AdapterError;
use crate::html::{first_match_attr, first_match_text, select_first_attr, select_first_text};
use crate::json::{json_model, json_parse, member, member_of, parse_json, text_field, text_member, JsonNode};

verus! {

/// The status record that a positional reply may carry.
#[derive(Debug, Clone, Copy, PartialEq, Eq)]
pub struct StatsRecord {
    pub success: i32,
    pub completion: i32,
    pub from: i32,
    pub to: i32,
    pub detected_language: i32,
}

/// The language descriptor that a positional reply may carry.
#[derive(Debug, Clone, Copy, PartialEq, Eq)]
pub struct LanguageRecord {
    pub iso: i32,
    pub label: i32,
}

/// One item of a positional reply, classified by its shape.
#[derive(Debug, Clone, PartialEq, Eq)]
pub enum DataItem {
    Stats(StatsRecord),
    Flag(bool),
    Text(String),
    Language(LanguageRecord),
    Number(i32),
    Unrecognized,
}

/// The shape of an item as plain values.
pub enum ItemShape {
    Stats(int, int, int, int, int),
    Flag(bool),
    Text(Seq<char>),
    Language(int, int),
    Number(int),
    Unrecognized,
}

impl View for DataItem {
    type V = ItemShape;

    open spec fn view(&self) -> ItemShape {
        match self {
            DataItem::Stats(s) => ItemShape::Stats(
                s.success as int,
                s.completion as int,
                s.from as int,
                s.to as int,
                s.detected_language as int,
            ),
            DataItem::Flag(b) => ItemShape::Flag(*b),
            DataItem::Text(t) => ItemShape::Text(t@),
            DataItem::Language(l) => ItemShape::Language(l.iso as int, l.label as int),
            DataItem::Number(n) => ItemShape::Number(*n as int),
            DataItem::Unrecognized => ItemShape::Unrecognized,
        }
    }
}

/// Whether an integer fits in `i32`.
pub open spec fn is_i32(i: int) -> bool {
    i32::MIN <= i <= i32::MAX
}

/// The member `key` of `node`, where it is an integer that fits in `i32`.
pub open spec fn i32_member(node: JsonNode, key: Seq<char>) -> Option<int> {
    match member_of(node, key) {
        Some(JsonNode::Integer(i)) => if is_i32(i) {
            Some(i)
        } else {
            None
        },
        _ => None,
    }
}

/// The shape of an item, tested in a fixed order: status record, boolean, string,
/// language descriptor, integer. A record may hold members beyond its own.
pub open spec fn shape_of(node: JsonNode) -> ItemShape {
    let success = i32_member(node, "success"@);
    let completion = i32_member(node, "completion"@);
    let from = i32_member(node, "from"@);
    let to = i32_member(node, "to"@);
    let detected = i32_member(node, "detectedLanguage"@);
    let iso = i32_member(node, "iso"@);
    let label = i32_member(node, "label"@);
    if success is Some && completion is Some && from is Some && to is Some && detected is Some {
        ItemShape::Stats(success->Some_0, completion->Some_0, from->Some_0, to->Some_0, detected->Some_0)
    } else if node is Bool {
        ItemShape::Flag(node->Bool_0)
    } else if node is Text {
        ItemShape::Text(node->Text_0)
    } else if iso is Some && label is Some {
        ItemShape::Language(iso->Some_0, label->Some_0)
    } else if node matches JsonNode::Integer(i) && is_i32(i) {
        ItemShape::Number(node->Integer_0)
    } else {
        ItemShape::Unrecognized
    }
}

/// The text that an envelope reply holds under `field`; `None` where the reply is
/// not JSON or lacks that string member.
pub open spec fn envelope_text(body: Seq<char>, field: Seq<char>) -> Option<Seq<char>> {
    match json_parse(body) {
        Some(node) => text_member(node, field),
        None => None,
    }
}

/// The text at index 2 of a positional reply: the reply is an object whose `data`
/// member is a JSON text holding an array, and the item at index 2 is a string.
pub open spec fn positional_text(body: Seq<char>) -> Option<Seq<char>> {
    match json_parse(body) {
        Some(outer) => match text_member(outer, "data"@) {
            Some(data) => match json_parse(data) {
                Some(JsonNode::Array(items)) => if items.len() > 2 {
                    match shape_of(items[2]) {
                        ItemShape::Text(t) => Some(t),
                        _ => None,
                    }
                } else {
                    None
                },
                _ => None,
            },
            None => None,
        },
        None => None,
    }
}

/// The selector of the translation on the legacy HTML page.
pub open spec fn output_selector() -> Seq<char> {
    "textarea#translation-output"@
}

/// The selector of the hidden field that carries the operation token.
pub open spec fn token_selector() -> Seq<char> {
    "input[name='session_token']"@
}

/// The content type assumed for speech whose reply names none.
pub open spec fn default_audio_type() -> Seq<char> {
    "audio/wav"@
}

fn i32_field(v: &serde_json::Value, key: &str) -> (r: Option<i32>)
    ensures
        match r {
            Some(i) => i32_member(json_model(*v), key@) == Some(i as int),
            None => i32_member(json_model(*v), key@) is None,
        },
{
    match member(v, key) {
        Some(m) => match m.as_i64() {
            Some(i) => if i32::MIN as i64 <= i && i <= i32::MAX as i64 {
                Some(i as i32)
            } else {
                None
            },
            None => None,
        },
        None => None,
    }
}

/// Classifies one item of a positional reply by its shape.
pub fn classify_item(v: &serde_json::Value) -> (r: DataItem)
    ensures
        r@ == shape_of(json_model(*v)),
{
    let success = i32_field(v, "success");
    let completion = i32_field(v, "completion");
    let from = i32_field(v, "from");
    let to = i32_field(v, "to");
    let detected = i32_field(v, "detectedLanguage");
    if let (Some(success), Some(completion), Some(from), Some(to), Some(detected_language)) = (
        success,
        completion,
        from,
        to,
        detected,
    ) {
        return DataItem::Stats(StatsRecord { success, completion, from, to, detected_language });
    }
    if let Some(b) = v.as_bool() {
        return DataItem::Flag(b);
    }
    if let Some(t) = v.as_str() {
        return DataItem::Text(t.to_string());
    }
    let iso = i32_field(v, "iso");
    let label = i32_field(v, "label");
    if let (Some(iso), Some(label)) = (iso, label) {
        return DataItem::Language(LanguageRecord { iso, label });
    }
    match v.as_i64() {
        Some(i) => if i32::MIN as i64 <= i && i <= i32::MAX as i64 {
            DataItem::Number(i as i32)
        } else {
            DataItem::Unrecognized
        },
        None => DataItem::Unrecognized,
    }
}

/// Classifies every item of a positional reply, keeping their order.
pub fn classify_items(items: &Vec<serde_json::Value>) -> (r: Vec<DataItem>)
    ensures
        r@.len() == items@.len(),
        forall|i: int| 0 <= i < items@.len() ==> #[trigger] r@[i]@ == shape_of(json_model(items@[i])),
{
    let mut r: Vec<DataItem> = Vec::new();
    let mut k: usize = 0;
    while k < items.len()
        invariant
            k <= items@.len(),
            r@.len() == k,
            forall|i: int| 0 <= i < k ==> #[trigger] r@[i]@ == shape_of(json_model(items@[i])),
        decreases items@.len() - k,
    {
        let item = classify_item(&items[k]);
        r.push(item);
        k = k + 1;
    }
    r
}

/// The translated text of classified positional items: the string at index 2.
pub fn text_at_position(items: &Vec<DataItem>) -> (r: Result<String, AdapterError>)
    ensures
        items@.len() > 2 && items@[2]@ is Text ==> (r matches Ok(s) && s@ == items@[2]@->Text_0),
        !(items@.len() > 2 && items@[2]@ is Text) ==> r matches Err(AdapterError::MalformedResponse),
{
    if items.len() > 2 {
        if let DataItem::Text(t) = &items[2] {
            return Ok(t.clone());
        }
    }
    Err(AdapterError::MalformedResponse)
}

/// Decodes an envelope reply: the string member `field` of the JSON object.
pub fn decode_envelope(body: &str, field: &str) -> (r: Result<String, AdapterError>)
    ensures
        match envelope_text(body@, field@) {
            Some(t) => r matches Ok(s) && s@ == t,
            None => r matches Err(AdapterError::MalformedResponse),
        },
{
    match parse_json(body) {
        Ok(v) => match text_field(&v, field) {
            Some(s) => Ok(s),
            None => Err(AdapterError::MalformedResponse),
        },
        Err(_) => Err(AdapterError::MalformedResponse),
    }
}

/// Checks that a structured reply is a JSON object and hands its text on.
pub fn decode_record(body: &str) -> (r: Result<String, AdapterError>)
    ensures
        json_parse(body@) matches Some(JsonNode::Object(_)) ==> (r matches Ok(s) && s@ == body@),
        !(json_parse(body@) matches Some(JsonNode::Object(_))) ==> r matches Err(AdapterError::MalformedResponse),
{
    match parse_json(body) {
        Ok(v) => if v.is_object() {
            Ok(body.to_string())
        } else {
            Err(AdapterError::MalformedResponse)
        },
        Err(_) => Err(AdapterError::MalformedResponse),
    }
}

/// Decodes a positional reply: the string at index 2 of the array held, as JSON
/// text, in the `data` member.
pub fn decode_positional(body: &str) -> (r: Result<String, AdapterError>)
    ensures
        match positional_text(body@) {
            Some(t) => r matches Ok(s) && s@ == t,
            None => r matches Err(AdapterError::MalformedResponse),
        },
{
    let outer = match parse_json(body) {
        Ok(v) => v,
        Err(_) => return Err(AdapterError::MalformedResponse),
    };
    let data = match text_field(&outer, "data") {
        Some(d) => d,
        None => return Err(AdapterError::MalformedResponse),
    };
    let inner = match parse_json(data.as_str()) {
        Ok(v) => v,
        Err(_) => return Err(AdapterError::MalformedResponse),
    };
    match inner.as_array() {
        Some(a) => {
            let items = classify_items(a);
            proof {
                if a@.len() > 2 {
                    assert(a@.map_values(|x: serde_json::Value| json_model(x))[2] == json_model(a@[2]));
                }
            }
            text_at_position(&items)
        },
        None => Err(AdapterError::MalformedResponse),
    }
}

/// Decodes a legacy HTML reply: the text of the translation output element.
pub fn decode_markup(html: &str) -> (r: Result<String, AdapterError>)
    ensures
        match first_match_text(html@, output_selector()) {
            Some(t) => r matches Ok(s) && s@ == t,
            None => r matches Err(AdapterError::NotFound),
        },
{
    match select_first_text(html, "textarea#translation-output") {
        Some(t) => Ok(t),
        None => Err(AdapterError::NotFound),
    }
}

/// Finds the operation token on the service's page: the value of its hidden
/// `session_token` field.
pub fn scrape_operation_token(html: &str) -> (r: Result<String, AdapterError>)
    ensures
        match first_match_attr(html@, token_selector(), "value"@) {
            Some(t) => r matches Ok(s) && s@ == t,
            None => r matches Err(AdapterError::NotFound),
        },
{
    match select_first_attr(html, "input[name='session_token']", "value") {
        Some(t) => Ok(t),
        None => Err(AdapterError::NotFound),
    }
}

/// The content type of a speech reply, defaulting where the reply names none.
pub fn speech_content_type(header: Option<String>) -> (r: String)
    ensures
        r@ == match header {
            Some(h) => h@,
            None => default_audio_type(),
        },
{
    match header {
        Some(h) => h,
        None => "audio/wav".to_string(),
    }
}

} // verus!
