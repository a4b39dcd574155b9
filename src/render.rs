//! The notes file: a pretty-printed JSON array of note objects, two spaces
//! of indentation per level, fields in a fixed order and with fixed names.
//! Escaping of the text inside each string is serde_json's.
use vstd::prelude::*;
use crate::error::StoreError;
use crate::note::{Note, NoteView, notes_view, texts_view};

verus! {

/// The lowercase hexadecimal digit of a value below sixteen.
pub open spec fn hex_digit(d: u32) -> char {
    seq!['0', '1', '2', '3', '4', '5', '6', '7', '8', '9', 'a', 'b', 'c', 'd', 'e', 'f'][d as int]
}

/// How one character stands inside a JSON string literal: a quote, a
/// backslash and the control characters are escaped, every other character
/// stands as it is.
pub open spec fn escaped_char(c: char) -> Seq<char> {
    if c == '"' {
        seq!['\\', '"']
    } else if c == '\\' {
        seq!['\\', '\\']
    } else if c == '\u{8}' {
        seq!['\\', 'b']
    } else if c == '\t' {
        seq!['\\', 't']
    } else if c == '\n' {
        seq!['\\', 'n']
    } else if c == '\u{c}' {
        seq!['\\', 'f']
    } else if c == '\r' {
        seq!['\\', 'r']
    } else if (c as u32) < 32 {
        seq!['\\', 'u', '0', '0', hex_digit((c as u32) / 16), hex_digit((c as u32) % 16)]
    } else {
        seq![c]
    }
}

/// The escaped characters of a text, in order.
pub open spec fn escaped_text(s: Seq<char>) -> Seq<char>
    decreases s.len(),
{
    if s.len() == 0 {
        Seq::empty()
    } else {
        escaped_text(s.drop_last()) + escaped_char(s.last())
    }
}

/// The JSON string literal of a text, quotes included.
pub open spec fn json_string_of(s: Seq<char>) -> Seq<char> {
    seq!['"'] + escaped_text(s) + seq!['"']
}

/// Relies on serde_json::to_string for a str: it writes the JSON string
/// literal of the text into a byte vector, which cannot fail. Its error type
/// is kept as text.
#[verifier::external_body]
fn string_literal(s: &str) -> (r: Result<String, String>)
    ensures
        r is Ok,
        r->Ok_0@ == json_string_of(s@),
{
    match serde_json::to_string(s) {
        Ok(t) => Ok(t),
        Err(e) => Err(e.to_string()),
    }
}

/// The text of a tag list up to and including its last item, before the
/// closing bracket; each item sits on its own line at the third level.
pub open spec fn tag_list_head(lits: Seq<Seq<char>>) -> Seq<char>
    decreases lits.len(),
{
    if lits.len() == 0 {
        "["@
    } else {
        tag_list_head(lits.drop_last()) + (if lits.len() == 1 {
            "\n      "@
        } else {
            ",\n      "@
        }) + lits.last()
    }
}

/// A tag list written from the literals of its items.
pub open spec fn tag_list(lits: Seq<Seq<char>>) -> Seq<char> {
    if lits.len() == 0 {
        "[]"@
    } else {
        tag_list_head(lits) + "\n    ]"@
    }
}

/// A note object written from the literals of its fields.
pub open spec fn note_object(
    id: Seq<char>,
    title: Seq<char>,
    content: Seq<char>,
    tag_lits: Seq<Seq<char>>,
    created_at: Seq<char>,
    updated_at: Seq<char>,
) -> Seq<char> {
    "{\n    \"id\": "@ + id + ",\n    \"title\": "@ + title + ",\n    \"content\": "@ + content
        + ",\n    \"tags\": "@ + tag_list(tag_lits) + ",\n    \"createdAt\": "@ + created_at
        + ",\n    \"updatedAt\": "@ + updated_at + "\n  }"@
}

/// The text of the document up to and including its last object, before the
/// closing bracket; each object starts on its own line at the first level.
pub open spec fn document_head(objects: Seq<Seq<char>>) -> Seq<char>
    decreases objects.len(),
{
    if objects.len() == 0 {
        "["@
    } else {
        document_head(objects.drop_last()) + (if objects.len() == 1 {
            "\n  "@
        } else {
            ",\n  "@
        }) + objects.last()
    }
}

/// The whole document written from its objects.
pub open spec fn document(objects: Seq<Seq<char>>) -> Seq<char> {
    if objects.len() == 0 {
        "[]"@
    } else {
        document_head(objects) + "\n]"@
    }
}

/// The JSON text of one note.
pub open spec fn note_json(n: NoteView) -> Seq<char> {
    note_object(
        json_string_of(n.id),
        json_string_of(n.title),
        json_string_of(n.content),
        n.tags.map_values(|t: Seq<char>| json_string_of(t)),
        json_string_of(n.created_at),
        json_string_of(n.updated_at),
    )
}

/// The content of the notes file for a collection.
pub open spec fn notes_json(notes: Seq<NoteView>) -> Seq<char> {
    document(notes.map_values(|n: NoteView| note_json(n)))
}

/// Writes a tag list from the string literals of its items.
pub fn frame_tags(lits: &Vec<String>) -> (r: String)
    ensures
        r@ == tag_list(texts_view(lits@)),
{
    let ghost all = texts_view(lits@);
    if lits.len() == 0 {
        return String::from_str("[]");
    }
    let mut s = String::from_str("[");
    let mut i: usize = 0;
    while i < lits.len()
        invariant
            i <= lits@.len(),
            all == texts_view(lits@),
            s@ == tag_list_head(all.take(i as int)),
        decreases lits@.len() - i,
    {
        if i == 0 {
            s.append("\n      ");
        } else {
            s.append(",\n      ");
        }
        s.append(lits[i].as_str());
        assert(all.take(i + 1).drop_last() =~= all.take(i as int));
        i = i + 1;
    }
    assert(all.take(i as int) =~= all);
    s.append("\n    ]");
    s
}

/// Writes one note object from the string literals of its fields.
pub fn frame_note(
    id: &str,
    title: &str,
    content: &str,
    tag_lits: &Vec<String>,
    created_at: &str,
    updated_at: &str,
) -> (r: String)
    ensures
        r@ == note_object(id@, title@, content@, texts_view(tag_lits@), created_at@, updated_at@),
{
    let tags = frame_tags(tag_lits);
    let mut s = String::from_str("{\n    \"id\": ");
    s.append(id);
    s.append(",\n    \"title\": ");
    s.append(title);
    s.append(",\n    \"content\": ");
    s.append(content);
    s.append(",\n    \"tags\": ");
    s.append(tags.as_str());
    s.append(",\n    \"createdAt\": ");
    s.append(created_at);
    s.append(",\n    \"updatedAt\": ");
    s.append(updated_at);
    s.append("\n  }");
    s
}

/// Writes the document from the texts of its note objects.
pub fn frame_document(objects: &Vec<String>) -> (r: String)
    ensures
        r@ == document(texts_view(objects@)),
{
    let ghost all = texts_view(objects@);
    if objects.len() == 0 {
        return String::from_str("[]");
    }
    let mut s = String::from_str("[");
    let mut i: usize = 0;
    while i < objects.len()
        invariant
            i <= objects@.len(),
            all == texts_view(objects@),
            s@ == document_head(all.take(i as int)),
        decreases objects@.len() - i,
    {
        if i == 0 {
            s.append("\n  ");
        } else {
            s.append(",\n  ");
        }
        s.append(objects[i].as_str());
        assert(all.take(i + 1).drop_last() =~= all.take(i as int));
        i = i + 1;
    }
    assert(all.take(i as int) =~= all);
    s.append("\n]");
    s
}

/// The literal of one field. serde_json's error, which never comes, would be
/// a serialization failure.
fn field_literal(s: &String) -> (r: Result<String, StoreError>)
    ensures
        r is Ok,
        r->Ok_0@ == json_string_of(s@),
{
    match string_literal(s.as_str()) {
        Ok(t) => Ok(t),
        Err(e) => Err(StoreError::Serialize(e)),
    }
}

/// Renders one note as its JSON object. Every note can be rendered.
pub fn render_note(n: &Note) -> (r: Result<String, StoreError>)
    ensures
        r is Ok,
        r->Ok_0@ == note_json(n@),
{
    let id = field_literal(&n.id)?;
    let title = field_literal(&n.title)?;
    let content = field_literal(&n.content)?;
    let mut tag_lits: Vec<String> = Vec::new();
    let mut i: usize = 0;
    while i < n.tags.len()
        invariant
            i <= n.tags@.len(),
            tag_lits@.len() == i,
            forall|j: int| 0 <= j < i ==> #[trigger] tag_lits@[j]@ == json_string_of(n.tags@[j]@),
        decreases n.tags@.len() - i,
    {
        let t = field_literal(&n.tags[i])?;
        tag_lits.push(t);
        i = i + 1;
    }
    let created_at = field_literal(&n.created_at)?;
    let updated_at = field_literal(&n.updated_at)?;
    assert(texts_view(tag_lits@) =~= n@.tags.map_values(|t: Seq<char>| json_string_of(t)));
    Ok(frame_note(
        id.as_str(),
        title.as_str(),
        content.as_str(),
        &tag_lits,
        created_at.as_str(),
        updated_at.as_str(),
    ))
}

/// Renders a whole collection as the content of the notes file, in order.
/// Every collection can be rendered.
pub fn render_notes(notes: &Vec<Note>) -> (r: Result<String, StoreError>)
    ensures
        r is Ok,
        r->Ok_0@ == notes_json(notes_view(notes@)),
{
    let mut objects: Vec<String> = Vec::new();
    let mut i: usize = 0;
    while i < notes.len()
        invariant
            i <= notes@.len(),
            objects@.len() == i,
            forall|j: int| 0 <= j < i ==> #[trigger] objects@[j]@ == note_json(notes@[j]@),
        decreases notes@.len() - i,
    {
        let o = render_note(&notes[i])?;
        objects.push(o);
        i = i + 1;
    }
    assert(texts_view(objects@) =~= notes_view(notes@).map_values(|n: NoteView| note_json(n)));
    Ok(frame_document(&objects))
}

} // verus!
