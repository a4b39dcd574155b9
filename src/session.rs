//! The decisions of a load and of a save. Each operation is a short exchange
//! with the host: the library names the next action, the host performs it
//! (directory lookup, file-system work, JSON parsing into notes) and reports
//! the outcome as an event.
use vstd::prelude::*;
use crate::error::StoreError;
use crate::note::{Note, notes_view};
use crate::render::{notes_json, render_notes};

verus! {

/// The name of the notes file inside the application data directory.
pub const NOTES_FILE_NAME: &'static str = "notes.json";

/// What the host reports while a load runs.
#[derive(Debug)]
pub enum LoadEvent<D> {
    /// The load was asked for.
    Started,
    /// The data directory is this one.
    DirectoryResolved(D),
    /// The data directory could not be determined, for this reason.
    DirectoryUnresolved(String),
    /// No notes file exists in the data directory.
    FileAbsent,
    /// The notes file holds this text.
    FileRead(String),
    /// The notes file exists but reading it failed, for this reason.
    ReadFailed(String),
    /// The text is a JSON array of notes, these ones.
    Parsed(Vec<Note>),
    /// The text is not a JSON array of notes, for this reason.
    ParseFailed(String),
}

/// What the host is to do next in a load.
#[derive(Debug)]
pub enum LoadAction<D> {
    ResolveDirectory,
    /// Look for the notes file in this directory, and read it if it is there.
    ReadFile(D),
    /// Parse this text as a JSON array of notes, in full or not at all.
    Parse(String),
    /// The load is over, with this result.
    Finish(Result<Vec<Note>, StoreError>),
}

/// The steps a load may take, each fixed by the event: a missing file is an
/// empty collection, and a failed parse ends the load with no notes at all.
pub open spec fn load_step_allows<D>(event: LoadEvent<D>, r: LoadAction<D>) -> bool {
    match event {
        LoadEvent::Started => r is ResolveDirectory,
        LoadEvent::DirectoryResolved(dir) => r == LoadAction::<D>::ReadFile(dir),
        LoadEvent::DirectoryUnresolved(cause) => r == LoadAction::<D>::Finish(
            Err(StoreError::DirectoryResolution(cause)),
        ),
        LoadEvent::FileAbsent => r is Finish && r->Finish_0 is Ok && r->Finish_0->Ok_0@.len()
            == 0,
        LoadEvent::FileRead(text) => r == LoadAction::<D>::Parse(text),
        LoadEvent::ReadFailed(cause) => r == LoadAction::<D>::Finish(Err(StoreError::Read(cause))),
        LoadEvent::Parsed(notes) => r == LoadAction::<D>::Finish(Ok(notes)),
        LoadEvent::ParseFailed(cause) => r == LoadAction::<D>::Finish(Err(StoreError::Parse(cause))),
    }
}

/// Decides the next step of a load from what the host reported.
pub fn load_step<D>(event: LoadEvent<D>) -> (r: LoadAction<D>)
    ensures
        load_step_allows(event, r),
{
    match event {
        LoadEvent::Started => LoadAction::ResolveDirectory,
        LoadEvent::DirectoryResolved(dir) => LoadAction::ReadFile(dir),
        LoadEvent::DirectoryUnresolved(cause) => LoadAction::Finish(
            Err(StoreError::DirectoryResolution(cause)),
        ),
        LoadEvent::FileAbsent => LoadAction::Finish(Ok(Vec::new())),
        LoadEvent::FileRead(text) => LoadAction::Parse(text),
        LoadEvent::ReadFailed(cause) => LoadAction::Finish(Err(StoreError::Read(cause))),
        LoadEvent::Parsed(notes) => LoadAction::Finish(Ok(notes)),
        LoadEvent::ParseFailed(cause) => LoadAction::Finish(Err(StoreError::Parse(cause))),
    }
}

/// What the host reports while a save runs.
#[derive(Debug)]
pub enum SaveEvent<D> {
    /// The save was asked for.
    Started,
    /// The data directory is this one.
    DirectoryResolved(D),
    /// The data directory could not be determined, for this reason.
    DirectoryUnresolved(String),
    /// This directory now exists, with all its ancestors.
    DirectoryReady(D),
    /// Creating the directory failed, for this reason.
    CreateFailed(String),
    /// The notes file was written.
    Written,
    /// Writing the notes file failed, for this reason.
    WriteFailed(String),
}

/// What the host is to do next in a save.
#[derive(Debug)]
pub enum SaveAction<D> {
    ResolveDirectory,
    /// Create this directory and every missing ancestor of it.
    CreateDirectory(D),
    /// Replace the whole notes file in this directory with this text.
    WriteFile { dir: D, text: String },
    /// The save is over, with this result.
    Finish(Result<(), StoreError>),
}

/// A save of one collection, from start to finish.
pub struct SaveSession {
    pub notes: Vec<Note>,
}

/// The steps a save takes, each fixed by the event: once the directory
/// exists, the whole collection's document is written to it.
pub open spec fn save_step_allows<D>(notes: Seq<Note>, event: SaveEvent<D>, r: SaveAction<D>) -> bool {
    match event {
        SaveEvent::Started => r is ResolveDirectory,
        SaveEvent::DirectoryResolved(dir) => r == SaveAction::<D>::CreateDirectory(dir),
        SaveEvent::DirectoryUnresolved(cause) => r == SaveAction::<D>::Finish(
            Err(StoreError::DirectoryResolution(cause)),
        ),
        SaveEvent::DirectoryReady(dir) => match r {
            SaveAction::WriteFile { dir: d, text } => d == dir && text@ == notes_json(
                notes_view(notes),
            ),
            _ => false,
        },
        SaveEvent::CreateFailed(cause) => r == SaveAction::<D>::Finish(
            Err(StoreError::DirectoryCreate(cause)),
        ),
        SaveEvent::Written => r == SaveAction::<D>::Finish(Ok(())),
        SaveEvent::WriteFailed(cause) => r == SaveAction::<D>::Finish(Err(StoreError::Write(cause))),
    }
}

impl SaveSession {
    pub fn new(notes: Vec<Note>) -> (r: SaveSession)
        ensures
            r.notes == notes,
    {
        SaveSession { notes }
    }

    /// Decides the next step of this save from what the host reported.
    pub fn step<D>(&self, event: SaveEvent<D>) -> (r: SaveAction<D>)
        ensures
            save_step_allows(self.notes@, event, r),
    {
        match event {
            SaveEvent::Started => SaveAction::ResolveDirectory,
            SaveEvent::DirectoryResolved(dir) => SaveAction::CreateDirectory(dir),
            SaveEvent::DirectoryUnresolved(cause) => SaveAction::Finish(
                Err(StoreError::DirectoryResolution(cause)),
            ),
            SaveEvent::DirectoryReady(dir) => match render_notes(&self.notes) {
                Ok(text) => SaveAction::WriteFile { dir, text },
                Err(e) => SaveAction::Finish(Err(e)),
            },
            SaveEvent::CreateFailed(cause) => SaveAction::Finish(
                Err(StoreError::DirectoryCreate(cause)),
            ),
            SaveEvent::Written => SaveAction::Finish(Ok(())),
            SaveEvent::WriteFailed(cause) => SaveAction::Finish(Err(StoreError::Write(cause))),
        }
    }
}

/// The notes file after the host carries out a save action: a write replaces
/// the whole content, and every other action leaves the file as it was.
pub open spec fn file_after<D>(prior: Option<Seq<char>>, action: SaveAction<D>) -> Option<Seq<char>> {
    match action {
        SaveAction::WriteFile { text, .. } => Some(text@),
        _ => prior,
    }
}

/// Two saves in a row leave the file holding exactly the second collection's
/// document: nothing of the first save, nor of what the file held before,
/// remains.
pub proof fn second_save_replaces_first<D>(
    prior: Option<Seq<char>>,
    first: Seq<Note>,
    second: Seq<Note>,
    first_event: SaveEvent<D>,
    first_action: SaveAction<D>,
    dir: D,
    second_action: SaveAction<D>,
)
    requires
        save_step_allows(first, first_event, first_action),
        save_step_allows(second, SaveEvent::DirectoryReady(dir), second_action),
    ensures
        file_after(file_after(prior, first_action), second_action) == Some(
            notes_json(notes_view(second)),
        ),
{
}

/// What a save writes reaches the parser of the next load whole: when the
/// file holds what the save's write put there, the load hands exactly that
/// collection's document to the parser.
pub proof fn saved_document_reaches_parser<D>(
    prior: Option<Seq<char>>,
    notes: Seq<Note>,
    dir: D,
    write: SaveAction<D>,
    read: String,
    next: LoadAction<D>,
)
    requires
        save_step_allows(notes, SaveEvent::DirectoryReady(dir), write),
        file_after(prior, write) == Some(read@),
        load_step_allows(LoadEvent::FileRead(read), next),
    ensures
        next is Parse,
        next->Parse_0@ == notes_json(notes_view(notes)),
{
}

} // verus!
