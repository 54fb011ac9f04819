//! One capture cycle: turning the first readable, non-empty format into a history record,
//! and what the storage's answer means for the cycle.
use vstd::prelude::*;
use crate::analyzer::{ContentFormat, format_name};
use crate::fingerprint::{calculate_content_hash, fingerprint_of, hex_digit};
use crate::markup::{generate_preview, preview_of};
use crate::text::{append_str, chars_of, contains_seq, contains_str, decimal, decimal_text};

verus! {

#[verifier::external_type_specification]
#[verifier::external_body]
pub struct ExRegexError(regex::Error);

#[verifier::external_type_specification]
#[verifier::external_body]
pub struct ExJsonError(serde_json::Error);

/// `text` with every match of the regular expression `pattern` removed.
pub uninterp spec fn regex_removed(pattern: Seq<char>, text: Seq<char>) -> Seq<char>;

/// One character inside a JSON string as serde_json writes it: quote, backslash and the
/// control characters below U+0020 escaped (the short forms for backspace, tab, line feed,
/// form feed and carriage return, `\u00XX` with lower-case hex for the others), every other
/// character as it is.
pub open spec fn json_escaped_char(c: char) -> Seq<char> {
    let u = c as u32;
    if c == '"' {
        seq!['\\', '"']
    } else if c == '\\' {
        seq!['\\', '\\']
    } else if u == 0x08 {
        seq!['\\', 'b']
    } else if u == 0x09 {
        seq!['\\', 't']
    } else if u == 0x0a {
        seq!['\\', 'n']
    } else if u == 0x0c {
        seq!['\\', 'f']
    } else if u == 0x0d {
        seq!['\\', 'r']
    } else if u < 0x20 {
        seq!['\\', 'u', '0', '0', hex_digit((u / 16) as u8), hex_digit((u % 16) as u8)]
    } else {
        seq![c]
    }
}

/// The characters of a string with each escaped for JSON.
pub open spec fn json_escaped(s: Seq<char>) -> Seq<char>
    decreases s.len(),
{
    if s.len() == 0 {
        seq![]
    } else {
        json_escaped(s.drop_last()) + json_escaped_char(s.last())
    }
}

/// A JSON string literal.
pub open spec fn json_quoted(s: Seq<char>) -> Seq<char> {
    seq!['"'] + json_escaped(s) + seq!['"']
}

/// JSON string literals separated by commas.
pub open spec fn json_items(items: Seq<Seq<char>>) -> Seq<char>
    decreases items.len(),
{
    if items.len() == 0 {
        seq![]
    } else if items.len() == 1 {
        json_quoted(items[0])
    } else {
        json_items(items.drop_last()) + seq![','] + json_quoted(items.last())
    }
}

/// The compact JSON array of strings that serde_json writes for a list of strings.
pub open spec fn json_string_array(items: Seq<Seq<char>>) -> Seq<char> {
    seq!['['] + json_items(items) + seq![']']
}

/// Relies on regex::Regex::new and regex::Regex::replace_all: when `pattern` compiles, every
/// non-overlapping match in `text` replaced by nothing; the compile error otherwise.
#[verifier::external_body]
fn remove_matches(pattern: &str, text: &str) -> (r: Result<String, regex::Error>)
    ensures
        r is Ok ==> r->Ok_0@ == regex_removed(pattern@, text@),
{
    match regex::Regex::new(pattern) {
        Ok(re) => Ok(re.replace_all(text, "").into_owned()),
        Err(e) => Err(e),
    }
}

/// The views of a list of strings.
pub open spec fn string_views(v: Seq<String>) -> Seq<Seq<char>> {
    v.map_values(|s: String| s@)
}

/// Relies on serde_json::to_string with its compact formatter: the JSON array of the strings.
/// Its documentation names the only failures, a `Serialize` impl that fails and a map with
/// non-string keys, and a list of strings has neither.
#[verifier::external_body]
fn json_of_strings(items: &Vec<String>) -> (r: Result<String, serde_json::Error>)
    ensures
        r is Ok,
        r->Ok_0@ == json_string_array(string_views(items@)),
{
    serde_json::to_string(items)
}

/// The document head, with everything in it.
pub const HEAD_PATTERN: &'static str = "(?is)<head.*?>.*?</head>";

/// A meta tag.
pub const META_PATTERN: &'static str = "(?is)<meta.*?>";

/// HTML without its head and meta tags.
pub open spec fn head_and_meta_removed(html: Seq<char>) -> Seq<char> {
    regex_removed(META_PATTERN@, regex_removed(HEAD_PATTERN@, html))
}

/// Removes the document head and the meta tags from HTML; leaves the HTML as it is if a
/// pattern is refused.
pub fn fallback_strip_head_and_meta(html: &str) -> (r: String)
    ensures
        r@ == head_and_meta_removed(html@) || r@ == html@,
{
    match remove_matches(HEAD_PATTERN, html) {
        Ok(without_head) => match remove_matches(META_PATTERN, without_head.as_str()) {
            Ok(cleaned) => cleaned,
            Err(_) => html.to_owned(),
        },
        Err(_) => html.to_owned(),
    }
}

/// A record of the clipboard history.
#[derive(Debug, Clone)]
pub struct ClipboardHistoryItem {
    pub id: Option<i64>,
    pub content_type: String,
    pub content: String,
    pub preview: Option<String>,
    pub timestamp: String,
    pub content_hash: Option<String>,
    pub source_app: Option<String>,
    pub source_bundle_id: Option<String>,
    pub app_icon_base64: Option<String>,
}

/// The settings of the history: how many days records are kept.
#[derive(Debug, Clone, Copy, PartialEq, Eq, Structural)]
pub struct AppSettings {
    pub retention_days: i32,
}

/// What reading one clipboard format gave.
#[derive(Debug, Clone)]
pub enum ClipPayload {
    /// The paths of a file list.
    Files(Vec<String>),
    /// An image, encoded as text.
    Image(String),
    Html(String),
    Text(String),
    Rtf(String),
}

/// The format of a payload.
pub open spec fn payload_format(p: ClipPayload) -> ContentFormat {
    match p {
        ClipPayload::Files(_) => ContentFormat::Files,
        ClipPayload::Image(_) => ContentFormat::Image,
        ClipPayload::Html(_) => ContentFormat::Html,
        ClipPayload::Text(_) => ContentFormat::Text,
        ClipPayload::Rtf(_) => ContentFormat::Rtf,
    }
}

/// A payload with nothing in it, which is never stored.
pub open spec fn payload_is_empty(p: ClipPayload) -> bool {
    match p {
        ClipPayload::Files(v) => v.len() == 0,
        ClipPayload::Image(s) => s@.len() == 0,
        ClipPayload::Html(s) => s@.len() == 0,
        ClipPayload::Text(s) => s@.len() == 0,
        ClipPayload::Rtf(s) => s@.len() == 0,
    }
}

/// The stored content of a payload, given what serialising a file list and cleaning HTML gave.
pub open spec fn content_of(p: ClipPayload, content: Seq<char>) -> bool {
    match p {
        ClipPayload::Files(v) => content == json_string_array(string_views(v@)),
        ClipPayload::Image(s) => content == s@,
        ClipPayload::Html(s) => content == head_and_meta_removed(s@) || content == s@,
        ClipPayload::Text(s) => content == s@,
        ClipPayload::Rtf(s) => content == s@,
    }
}

/// The number of characters that a text preview keeps.
pub const PREVIEW_CHARS: usize = 100;

/// The preview of a payload.
pub open spec fn preview_for(p: ClipPayload) -> Seq<char> {
    match p {
        ClipPayload::Files(v) => if v.len() == 1 {
            "1个文件: "@ + v[0]@
        } else {
            decimal(v.len() as nat) + "个文件"@
        },
        ClipPayload::Image(_) => "图像内容"@,
        ClipPayload::Html(_) => "HTML内容"@,
        ClipPayload::Text(s) => preview_of(s@, PREVIEW_CHARS as nat),
        ClipPayload::Rtf(_) => "RTF格式文本"@,
    }
}

/// `item` is the record of payload `p`, taken at `timestamp` from the given application.
pub open spec fn is_record_of(
    item: ClipboardHistoryItem,
    p: ClipPayload,
    timestamp: Seq<char>,
    source_app: Option<String>,
    source_bundle_id: Option<String>,
) -> bool {
    &&& item.id is None
    &&& item.content_type@ == format_name(payload_format(p))
    &&& content_of(p, item.content@)
    &&& item.content_hash is Some && item.content_hash->0@ == fingerprint_of(item.content@)
    &&& item.preview is Some && item.preview->0@ == preview_for(p)
    &&& item.timestamp@ == timestamp
    &&& item.source_app == source_app
    &&& item.source_bundle_id == source_bundle_id
    &&& item.app_icon_base64 is None
}

fn files_preview(files: &Vec<String>) -> (r: String)
    ensures
        r@ == preview_for(ClipPayload::Files(*files)),
{
    if files.len() == 1 {
        let mut r = "1个文件: ".to_owned();
        append_str(&mut r, files[0].as_str());
        r
    } else {
        let mut r = decimal_text(files.len() as u64);
        append_str(&mut r, "个文件");
        r
    }
}

/// The history record of a payload, or `None` when the payload is empty.
pub fn prepare_record(
    payload: &ClipPayload,
    timestamp: &str,
    source_app: Option<String>,
    source_bundle_id: Option<String>,
) -> (r: Option<ClipboardHistoryItem>)
    ensures
        r is None <==> payload_is_empty(*payload),
        r is Some ==> is_record_of(r->0, *payload, timestamp@, source_app, source_bundle_id),
{
    let (content_type, content, preview) = match payload {
        ClipPayload::Files(files) => {
            if files.len() == 0 {
                return None;
            }
            let content = match json_of_strings(files) {
                Ok(json) => json,
                Err(_) => "[]".to_owned(),
            };
            (ContentFormat::Files, content, files_preview(files))
        },
        ClipPayload::Image(s) => {
            if s.as_str().is_empty() {
                return None;
            }
            (ContentFormat::Image, s.clone(), "图像内容".to_owned())
        },
        ClipPayload::Html(s) => {
            if s.as_str().is_empty() {
                return None;
            }
            (ContentFormat::Html, fallback_strip_head_and_meta(s.as_str()), "HTML内容".to_owned())
        },
        ClipPayload::Text(s) => {
            if s.as_str().is_empty() {
                return None;
            }
            (ContentFormat::Text, s.clone(), generate_preview(s.as_str(), PREVIEW_CHARS))
        },
        ClipPayload::Rtf(s) => {
            if s.as_str().is_empty() {
                return None;
            }
            (ContentFormat::Rtf, s.clone(), "RTF格式文本".to_owned())
        },
    };
    let hash = calculate_content_hash(content.as_str());
    Some(
        ClipboardHistoryItem {
            id: None,
            content_type: content_type.name().to_owned(),
            content,
            preview: Some(preview),
            timestamp: timestamp.to_owned(),
            content_hash: Some(hash),
            source_app,
            source_bundle_id,
            app_icon_base64: None,
        },
    )
}

} // verus!

verus! {

/// Why the storage refused a record.
#[derive(Debug, Clone)]
pub enum StorageError {
    /// A record with the same fingerprint is already stored.
    Duplicate,
    /// Any other failure, with its message.
    Other(String),
}

/// The storage's message for a record whose fingerprint is already stored.
pub open spec fn duplicate_marker() -> Seq<char> {
    "UNIQUE constraint failed"@
}

/// Classifies a storage failure by its message: a uniqueness violation is a duplicate.
pub fn classify_storage_error(message: &str) -> (r: StorageError)
    ensures
        match r {
            StorageError::Duplicate => contains_seq(message@, duplicate_marker()),
            StorageError::Other(m) => !contains_seq(message@, duplicate_marker()) && m@
                == message@,
        },
{
    let chars = chars_of(message);
    if contains_str(&chars, "UNIQUE constraint failed") {
        StorageError::Duplicate
    } else {
        StorageError::Other(message.to_owned())
    }
}

/// What a capture cycle reports once the storage has answered: whether a new record was
/// stored. A duplicate is no failure; any other refusal fails the cycle with its message.
pub open spec fn cycle_result(stored: Result<i64, StorageError>) -> Result<bool, Seq<char>> {
    match stored {
        Ok(_) => Ok(true),
        Err(StorageError::Duplicate) => Ok(false),
        Err(StorageError::Other(m)) => Err(m@),
    }
}

/// What a capture cycle reports once the storage has answered.
pub fn cycle_outcome(stored: Result<i64, StorageError>) -> (r: Result<bool, String>)
    ensures
        match r {
            Ok(b) => cycle_result(stored) == Ok::<bool, Seq<char>>(b),
            Err(m) => cycle_result(stored) == Err::<bool, Seq<char>>(m@),
        },
{
    match stored {
        Ok(_) => Ok(true),
        Err(StorageError::Duplicate) => Ok(false),
        Err(StorageError::Other(m)) => Err(m),
    }
}

/// The progress of one capture cycle through its formats, highest priority first. Only the
/// first format that reads successfully and is not empty becomes a record.
pub struct CaptureCycle {
    order: Vec<ContentFormat>,
    position: usize,
}

impl CaptureCycle {
    /// The formats of the cycle, in order.
    pub closed spec fn order_of(&self) -> Seq<ContentFormat> {
        self.order@
    }

    /// How many formats have been tried.
    pub closed spec fn position_of(&self) -> nat {
        self.position as nat
    }

    /// A cycle that will try `order`, first to last.
    pub fn new(order: Vec<ContentFormat>) -> (r: CaptureCycle)
        ensures
            r.order_of() == order@,
            r.position_of() == 0,
    {
        CaptureCycle { order, position: 0 }
    }

    /// The format to read next, or `None` once the cycle is over.
    pub fn next_format(&self) -> (r: Option<ContentFormat>)
        ensures
            r == if self.position_of() < self.order_of().len() {
                Some(self.order_of()[self.position_of() as int])
            } else {
                None::<ContentFormat>
            },
    {
        if self.position < self.order.len() {
            Some(self.order[self.position])
        } else {
            None
        }
    }

    /// Takes what reading the current format gave (`None` when the read failed). A non-empty
    /// payload of that format becomes the record to store and ends the cycle; anything else
    /// moves on to the next format.
    pub fn offer(
        &mut self,
        payload: Option<ClipPayload>,
        timestamp: &str,
        source_app: Option<String>,
        source_bundle_id: Option<String>,
    ) -> (r: Option<ClipboardHistoryItem>)
        ensures
            final(self).order_of() == old(self).order_of(),
            ({
                let current = old(self).position_of();
                let accepted = current < old(self).order_of().len() && payload is Some
                    && payload_format(payload->0) == old(self).order_of()[current as int]
                    && !payload_is_empty(payload->0);
                &&& accepted ==> r is Some && is_record_of(
                    r->0,
                    payload->0,
                    timestamp@,
                    source_app,
                    source_bundle_id,
                ) && final(self).position_of() == old(self).order_of().len()
                &&& !accepted ==> r is None && final(self).position_of() == if current
                    < old(self).order_of().len() {
                    current + 1
                } else {
                    current
                }
            }),
    {
        if self.position >= self.order.len() {
            return None;
        }
        let current = self.order[self.position];
        if let Some(p) = payload {
            let fits = match (&p, current) {
                (ClipPayload::Files(_), ContentFormat::Files) => true,
                (ClipPayload::Image(_), ContentFormat::Image) => true,
                (ClipPayload::Html(_), ContentFormat::Html) => true,
                (ClipPayload::Text(_), ContentFormat::Text) => true,
                (ClipPayload::Rtf(_), ContentFormat::Rtf) => true,
                _ => false,
            };
            if fits {
                let record = prepare_record(&p, timestamp, source_app, source_bundle_id);
                if record.is_some() {
                    self.position = self.order.len();
                    return record;
                }
            }
        }
        self.position = self.position + 1;
        None
    }
}

} // verus!
