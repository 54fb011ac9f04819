use clipboard_core::analyzer::ContentFormat;
use clipboard_core::capture::{
    classify_storage_error, cycle_outcome, fallback_strip_head_and_meta, prepare_record,
    AppSettings, CaptureCycle, ClipPayload, ClipboardHistoryItem, StorageError,
};
use clipboard_core::fingerprint::{calculate_content_hash, to_hex};
use clipboard_core::markup::{decode_html_entities, generate_preview};
use std::collections::HashSet;

/// A storage that refuses a second record with the same fingerprint.
struct MemoryStore {
    seen: HashSet<String>,
    next_id: i64,
}

impl MemoryStore {
    fn insert(&mut self, item: &ClipboardHistoryItem) -> Result<i64, StorageError> {
        let key = item.content_hash.clone().unwrap();
        if !self.seen.insert(key) {
            return Err(classify_storage_error(
                "UNIQUE constraint failed: clipboard_history.content_hash",
            ));
        }
        self.next_id += 1;
        Ok(self.next_id)
    }
}

#[test]
fn known_digests() {
    assert_eq!(
        calculate_content_hash("abc"),
        "ba7816bf8f01cfea414140de5dae2223b00361a396177a9cb410ff61f20015ad"
    );
    assert_eq!(
        calculate_content_hash(""),
        "e3b0c44298fc1c149afbf4c8996fb92427ae41e4649b934ca495991b7852b855"
    );
    assert_eq!(to_hex(&[0x00, 0x0f, 0xa5, 0xff]), "000fa5ff");
}

#[test]
fn fingerprints_are_stable_and_distinct() {
    let mut seen = HashSet::new();
    for i in 0..20_000u32 {
        let s = format!("k{}", i);
        let f = calculate_content_hash(&s);
        assert_eq!(f.len(), 64);
        assert_eq!(f, calculate_content_hash(&s));
        assert!(seen.insert(f));
    }
}

#[test]
fn identical_text_is_stored_once() {
    let mut store = MemoryStore { seen: HashSet::new(), next_id: 0 };
    let payload = ClipPayload::Text("same words".to_string());
    let first = prepare_record(&payload, "2024-01-01 00:00:00", None, None).unwrap();
    let second = prepare_record(&payload, "2024-01-01 00:00:05", None, None).unwrap();
    assert_eq!(first.content_hash, second.content_hash);
    assert_eq!(cycle_outcome(store.insert(&first)), Ok(true));
    let again = store.insert(&second);
    assert!(matches!(again, Err(StorageError::Duplicate)));
    assert_eq!(cycle_outcome(again), Ok(false));
}

#[test]
fn storage_failures() {
    assert!(matches!(
        classify_storage_error("UNIQUE constraint failed: t.c"),
        StorageError::Duplicate
    ));
    match classify_storage_error("disk I/O error") {
        StorageError::Other(m) => assert_eq!(m, "disk I/O error"),
        StorageError::Duplicate => panic!("not a duplicate"),
    }
    assert_eq!(
        cycle_outcome(Err(StorageError::Other("disk full".to_string()))),
        Err("disk full".to_string())
    );
    assert_eq!(cycle_outcome(Ok(3)), Ok(true));
}

#[test]
fn text_record() {
    let text = "x".repeat(150);
    let item = prepare_record(
        &ClipPayload::Text(text.clone()),
        "ts",
        Some("Editor".to_string()),
        Some("com.example.editor".to_string()),
    )
    .unwrap();
    assert_eq!(item.id, None);
    assert_eq!(item.content_type, "text");
    assert_eq!(item.content, text);
    assert_eq!(item.content_hash, Some(calculate_content_hash(&text)));
    assert_eq!(item.preview, Some(format!("{}...", "x".repeat(100))));
    assert_eq!(item.timestamp, "ts");
    assert_eq!(item.source_app, Some("Editor".to_string()));
    assert_eq!(item.source_bundle_id, Some("com.example.editor".to_string()));
    assert_eq!(item.app_icon_base64, None);
}

#[test]
fn empty_payloads_are_not_records() {
    assert!(prepare_record(&ClipPayload::Text(String::new()), "ts", None, None).is_none());
    assert!(prepare_record(&ClipPayload::Html(String::new()), "ts", None, None).is_none());
    assert!(prepare_record(&ClipPayload::Image(String::new()), "ts", None, None).is_none());
    assert!(prepare_record(&ClipPayload::Rtf(String::new()), "ts", None, None).is_none());
    assert!(prepare_record(&ClipPayload::Files(Vec::new()), "ts", None, None).is_none());
}

#[test]
fn file_records() {
    let one = prepare_record(&ClipPayload::Files(vec!["/tmp/a".to_string()]), "ts", None, None)
        .unwrap();
    assert_eq!(one.content_type, "files");
    assert_eq!(one.content, "[\"/tmp/a\"]");
    assert_eq!(one.content_hash, Some(calculate_content_hash("[\"/tmp/a\"]")));
    assert_eq!(one.preview, Some("1个文件: /tmp/a".to_string()));
    let three = prepare_record(
        &ClipPayload::Files(vec!["a".to_string(), "b".to_string(), "c".to_string()]),
        "ts",
        None,
        None,
    )
    .unwrap();
    assert_eq!(three.content, "[\"a\",\"b\",\"c\"]");
    assert_eq!(three.preview, Some("3个文件".to_string()));
    let many: Vec<String> = (0..12).map(|i| format!("f{}", i)).collect();
    let twelve = prepare_record(&ClipPayload::Files(many), "ts", None, None).unwrap();
    assert_eq!(twelve.preview, Some("12个文件".to_string()));
}

#[test]
fn html_image_rtf_records() {
    let html = "<html><head><title>x</title></head><body><meta charset=utf-8><p>hi</p></body></html>";
    let item = prepare_record(&ClipPayload::Html(html.to_string()), "ts", None, None).unwrap();
    assert_eq!(item.content_type, "html");
    assert_eq!(item.content, "<html><body><p>hi</p></body></html>");
    assert_eq!(item.content_hash, Some(calculate_content_hash(&item.content)));
    assert_eq!(item.preview, Some("HTML内容".to_string()));
    let image = prepare_record(&ClipPayload::Image("iVBOR".to_string()), "ts", None, None).unwrap();
    assert_eq!(image.content_type, "image");
    assert_eq!(image.preview, Some("图像内容".to_string()));
    let rtf = prepare_record(&ClipPayload::Rtf("{\\rtf1}".to_string()), "ts", None, None).unwrap();
    assert_eq!(rtf.content_type, "rtf");
    assert_eq!(rtf.preview, Some("RTF格式文本".to_string()));
}

#[test]
fn head_and_meta_are_removed() {
    assert_eq!(
        fallback_strip_head_and_meta("<HEAD>\n<style>p{}</style>\n</HEAD><p>a</p><META x>"),
        "<p>a</p>"
    );
    assert_eq!(fallback_strip_head_and_meta("<p>plain</p>"), "<p>plain</p>");
}

#[test]
fn cycle_stores_first_readable_format() {
    let mut cycle = CaptureCycle::new(vec![ContentFormat::Image, ContentFormat::Text, ContentFormat::Rtf]);
    assert_eq!(cycle.next_format(), Some(ContentFormat::Image));
    // The image could not be read.
    assert!(cycle.offer(None, "ts", None, None).is_none());
    assert_eq!(cycle.next_format(), Some(ContentFormat::Text));
    // The text was empty.
    assert!(cycle.offer(Some(ClipPayload::Text(String::new())), "ts", None, None).is_none());
    assert_eq!(cycle.next_format(), Some(ContentFormat::Rtf));
    let item = cycle
        .offer(Some(ClipPayload::Rtf("{\\rtf1 hi}".to_string())), "ts", None, None)
        .unwrap();
    assert_eq!(item.content_type, "rtf");
    assert_eq!(cycle.next_format(), None);
    assert!(cycle.offer(Some(ClipPayload::Text("late".to_string())), "ts", None, None).is_none());
}

#[test]
fn cycle_ignores_payload_of_another_format() {
    let mut cycle = CaptureCycle::new(vec![ContentFormat::Html, ContentFormat::Text]);
    assert!(cycle.offer(Some(ClipPayload::Text("t".to_string())), "ts", None, None).is_none());
    assert_eq!(cycle.next_format(), Some(ContentFormat::Text));
}

#[test]
fn previews() {
    assert_eq!(generate_preview("short", 100), "short");
    assert_eq!(generate_preview("abcdef", 3), "abc...");
    assert_eq!(generate_preview("ééééé", 2), "éé...");
    assert_eq!(generate_preview("abc", 3), "abc");
    assert_eq!(generate_preview("", 0), "");
}

#[test]
fn entities_are_decoded_in_order() {
    assert_eq!(decode_html_entities("a&nbsp;b &lt;i&gt; &quot;q&quot;"), "a b <i> \"q\"");
    assert_eq!(decode_html_entities("&#39;&#x27;&#x2F;&#x60;&#x3D;"), "''/`=");
    // Ampersands are decoded before the other entities.
    assert_eq!(decode_html_entities("&amp;lt;"), "<");
    assert_eq!(decode_html_entities("&amp;amp;"), "&amp;");
    assert_eq!(decode_html_entities("plain"), "plain");
}

#[test]
fn settings_value() {
    let s = AppSettings { retention_days: 30 };
    assert_eq!(s, AppSettings { retention_days: 30 });
}

#[test]
fn file_list_json_escapes_strings() {
    let files = vec!["a\"b".to_string(), "c\\d".to_string(), "e\nf\u{1}".to_string(), "é".to_string()];
    let item = prepare_record(&ClipPayload::Files(files), "ts", None, None).unwrap();
    assert_eq!(item.content, "[\"a\\\"b\",\"c\\\\d\",\"e\\nf\\u0001\",\"é\"]");
    assert_eq!(item.preview, Some("4个文件".to_string()));
}
