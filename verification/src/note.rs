use vstd::prelude::*;

verus! {

/// What the database keeps of a note besides its id: the body, and the
/// creation and last update times in milliseconds since the Unix epoch.
pub type NoteRecord = (Seq<char>, i64, i64);

/// A saved memo as the search returns it.
#[derive(Debug)]
pub struct Note {
    pub id: i64,
    pub body: String,
    pub created_at: i64,
    pub updated_at: i64,
}

impl View for Note {
    type V = (i64, Seq<char>, i64, i64);

    open spec fn view(&self) -> (i64, Seq<char>, i64, i64) {
        (self.id, self.body@, self.created_at, self.updated_at)
    }
}

impl Note {
    /// The note as the database keeps it under its id.
    pub open spec fn record(self) -> NoteRecord {
        (self.body@, self.created_at, self.updated_at)
    }

    /// A copy of this note.
    pub fn duplicate(&self) -> (copy: Note)
        ensures
            copy@ == self@,
    {
        Note {
            id: self.id,
            body: self.body.clone(),
            created_at: self.created_at,
            updated_at: self.updated_at,
        }
    }
}

} // verus!
