//! Notes, as the protected routes hand them out.

use vstd::prelude::*;
use vstd::string::StringExecFns;

verus! {

/// A note. One that was not stored yet has no `id`.
#[derive(Debug, Clone, PartialEq, Eq)]
pub struct Notes {
    pub id: Option<i32>,
    pub title: String,
    pub content: String,
}

/// A row of the notes table, as plain values.
#[derive(Debug, Clone, PartialEq, Eq)]
pub struct NoteRow {
    pub id: Option<i32>,
    pub title: String,
    pub content: String,
}

/// What a note holds, as plain values.
pub struct NoteView {
    pub id: Option<i32>,
    pub title: Seq<char>,
    pub content: Seq<char>,
}

impl View for Notes {
    type V = NoteView;

    open spec fn view(&self) -> NoteView {
        NoteView { id: self.id, title: self.title@, content: self.content@ }
    }
}

impl View for NoteRow {
    type V = NoteView;

    open spec fn view(&self) -> NoteView {
        NoteView { id: self.id, title: self.title@, content: self.content@ }
    }
}

impl Notes {
    /// The note that a row holds.
    pub fn from_row(row: NoteRow) -> (note: Notes)
        ensures
            note@ == row@,
    {
        Notes { id: row.id, title: row.title, content: row.content }
    }

    /// The notes that the rows hold, in the rows' order.
    pub fn from_rows(rows: Vec<NoteRow>) -> (notes: Vec<Notes>)
        ensures
            notes.len() == rows.len(),
            forall|i: int| 0 <= i < rows.len() ==> (#[trigger] notes[i])@ == rows[i]@,
    {
        let mut notes: Vec<Notes> = Vec::new();
        let ghost all = rows@;
        let mut i: usize = 0;
        let n = rows.len();
        while i < n
            invariant
                i <= n,
                n == all.len(),
                rows.len() == n,
                notes.len() == i,
                forall|j: int| i <= j < n ==> (#[trigger] rows[j])@ == all[j]@,
                forall|j: int| 0 <= j < i ==> (#[trigger] notes[j])@ == all[j]@,
            decreases n - i,
        {
            let row = NoteRow {
                id: rows[i].id,
                title: rows[i].title.clone(),
                content: rows[i].content.clone(),
            };
            notes.push(Notes::from_row(row));
            i += 1;
        }
        notes
    }

    /// The line that describes the note.
    pub fn describe(&self) -> (line: String)
        ensures
            line@ == "Note Title: "@ + self.title@ + ", Content: "@ + self.content@,
    {
        String::from_str("Note Title: ").concat(self.title.as_str()).concat(", Content: ").concat(
            self.content.as_str(),
        )
    }
}

} // verus!
