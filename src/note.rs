use vstd::prelude::*;

verus! {

/// One user note. Identity and timestamps belong to the caller; the store
/// never interprets them.
#[derive(Debug, Clone)]
pub struct Note {
    pub id: String,
    pub title: String,
    pub content: String,
    pub tags: Vec<String>,
    pub created_at: String,
    pub updated_at: String,
}

/// The mathematical value of a note: every field as a character sequence,
/// the tags in their given order, duplicates included.
pub struct NoteView {
    pub id: Seq<char>,
    pub title: Seq<char>,
    pub content: Seq<char>,
    pub tags: Seq<Seq<char>>,
    pub created_at: Seq<char>,
    pub updated_at: Seq<char>,
}

/// The character sequences of a vector of strings, in order.
pub open spec fn texts_view(tags: Seq<String>) -> Seq<Seq<char>> {
    tags.map_values(|t: String| t@)
}

impl View for Note {
    type V = NoteView;

    open spec fn view(&self) -> NoteView {
        NoteView {
            id: self.id@,
            title: self.title@,
            content: self.content@,
            tags: texts_view(self.tags@),
            created_at: self.created_at@,
            updated_at: self.updated_at@,
        }
    }
}

/// The view of a whole collection, note by note.
pub open spec fn notes_view(notes: Seq<Note>) -> Seq<NoteView> {
    notes.map_values(|n: Note| n@)
}

impl Note {
    pub fn new(
        id: String,
        title: String,
        content: String,
        tags: Vec<String>,
        created_at: String,
        updated_at: String,
    ) -> (r: Note)
        ensures
            r.id == id,
            r.title == title,
            r.content == content,
            r.tags == tags,
            r.created_at == created_at,
            r.updated_at == updated_at,
    {
        Note { id, title, content, tags, created_at, updated_at }
    }
}

} // verus!
