use note_store::note::Note;
use note_store::render::{frame_document, frame_tags, render_note, render_notes};
use serde_json::Value;

fn note(id: &str, title: &str, content: &str, tags: &[&str], created: &str, updated: &str) -> Note {
    Note::new(
        id.to_string(),
        title.to_string(),
        content.to_string(),
        tags.iter().map(|t| t.to_string()).collect(),
        created.to_string(),
        updated.to_string(),
    )
}

fn field<'a>(v: &'a Value, key: &str) -> &'a str {
    v.get(key).and_then(|f| f.as_str()).expect("string field")
}

fn assert_same_notes(text: &str, notes: &[Note]) {
    let parsed: Value = serde_json::from_str(text).expect("valid JSON");
    let items = parsed.as_array().expect("an array");
    assert_eq!(items.len(), notes.len());
    for (v, n) in items.iter().zip(notes) {
        assert_eq!(v.as_object().unwrap().len(), 6);
        assert_eq!(field(v, "id"), n.id);
        assert_eq!(field(v, "title"), n.title);
        assert_eq!(field(v, "content"), n.content);
        assert_eq!(field(v, "createdAt"), n.created_at);
        assert_eq!(field(v, "updatedAt"), n.updated_at);
        let tags: Vec<&str> =
            v.get("tags").unwrap().as_array().unwrap().iter().map(|t| t.as_str().unwrap()).collect();
        assert_eq!(tags, n.tags.iter().map(|t| t.as_str()).collect::<Vec<_>>());
    }
}

#[test]
fn empty_collection_is_empty_array() {
    assert_eq!(render_notes(&Vec::new()).unwrap(), "[]");
    assert_same_notes("[]", &[]);
}

#[test]
fn one_note_exact_layout() {
    let n = note("1", "Shopping", "milk", &["home", "todo"], "2024-01-01T00:00:00Z", "2024-01-02T00:00:00Z");
    let expected = "[\n  {\n    \"id\": \"1\",\n    \"title\": \"Shopping\",\n    \"content\": \"milk\",\n    \"tags\": [\n      \"home\",\n      \"todo\"\n    ],\n    \"createdAt\": \"2024-01-01T00:00:00Z\",\n    \"updatedAt\": \"2024-01-02T00:00:00Z\"\n  }\n]";
    assert_eq!(render_notes(&vec![n]).unwrap(), expected);
}

#[test]
fn empty_tags_and_empty_strings() {
    let n = note("", "", "", &[], "", "");
    let expected = "{\n    \"id\": \"\",\n    \"title\": \"\",\n    \"content\": \"\",\n    \"tags\": [],\n    \"createdAt\": \"\",\n    \"updatedAt\": \"\"\n  }";
    assert_eq!(render_note(&n).unwrap(), expected);
}

#[test]
fn round_trip_through_json_parser() {
    let notes = vec![
        note("a", "", "", &[], "", ""),
        note("b", "Ünïcödé ✓", "日本語 and emoji 🎉", &["x", "x", "ä"], "t0", "t1"),
        note("c", "quote \" and \\ slash", "line1\nline2\ttab\u{1}", &[""], "2024", "2025"),
    ];
    let text = render_notes(&notes).unwrap();
    assert_same_notes(&text, &notes);
}

#[test]
fn special_characters_are_escaped() {
    let n = note("q\"", "a\\b", "x\ny", &["t\"g"], "c", "u");
    let text = render_note(&n).unwrap();
    assert!(text.contains("\"id\": \"q\\\"\""));
    assert!(text.contains("\"title\": \"a\\\\b\""));
    assert!(text.contains("\"content\": \"x\\ny\""));
    assert!(text.contains("\"t\\\"g\""));
}

#[test]
fn unicode_is_written_unescaped() {
    let n = note("é", "", "", &[], "", "");
    assert!(render_note(&n).unwrap().contains("\"id\": \"é\""));
}

#[test]
fn tag_order_and_duplicates_kept() {
    let lits = vec!["\"b\"".to_string(), "\"a\"".to_string(), "\"b\"".to_string()];
    assert_eq!(frame_tags(&lits), "[\n      \"b\",\n      \"a\",\n      \"b\"\n    ]");
    assert_eq!(frame_tags(&Vec::new()), "[]");
}

#[test]
fn document_of_two_objects() {
    let objs = vec!["{}".to_string(), "{ }".to_string()];
    assert_eq!(frame_document(&objs), "[\n  {},\n  { }\n]");
}

#[test]
fn matches_serde_pretty_printing_of_strings() {
    let n = note("id", "t", "c", &["one"], "x", "y");
    let text = render_notes(&vec![n]).unwrap();
    let value: Value = serde_json::from_str(&text).unwrap();
    let items = value.as_array().unwrap();
    let tags = items[0].get("tags").unwrap();
    assert_eq!(serde_json::to_string_pretty(tags).unwrap(), "[\n  \"one\"\n]");
    assert!(text.contains("\"tags\": [\n      \"one\"\n    ]"));
}

#[test]
fn control_characters_use_short_or_hex_escapes() {
    let n = note("\u{8}\u{c}\r\t\n", "\u{1}\u{1f}", "/\u{7f}", &[], "", "");
    let text = render_note(&n).unwrap();
    assert!(text.contains("\"id\": \"\\b\\f\\r\\t\\n\""));
    assert!(text.contains("\"title\": \"\\u0001\\u001f\""));
    assert!(text.contains("\"content\": \"/\u{7f}\""));
}

#[test]
fn every_collection_renders() {
    let notes = vec![note("1", "\u{0}", "\"\\", &["\u{1b}"], "", ""), note("1", "", "", &[], "", "")];
    let text = render_notes(&notes).unwrap();
    assert_same_notes(&text, &notes);
}
