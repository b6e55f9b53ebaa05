use vstd::prelude::*;
use vstd::string::*;

verus! {

/// A short text note with its identifier.
#[derive(Debug)]
pub struct Note {
    pub id: String,
    pub content: String,
}

/// The mathematical view of a note: its identifier and its content.
pub struct NoteView {
    pub id: Seq<char>,
    pub content: Seq<char>,
}

impl View for Note {
    type V = NoteView;

    open spec fn view(&self) -> NoteView {
        NoteView { id: self.id@, content: self.content@ }
    }
}

/// The text between a note's identifier and its content.
pub open spec fn separator() -> Seq<char> {
    seq![' ', '-', '>', ' ']
}

/// The line that shows a note: `id -> content`.
pub open spec fn note_line(n: NoteView) -> Seq<char> {
    n.id + separator() + n.content
}

impl Note {
    /// A note with the given identifier and content.
    pub fn new(id: String, content: String) -> (r: Note)
        ensures
            r.id@ == id@,
            r.content@ == content@,
    {
        Note { id, content }
    }

    /// A copy of this note.
    pub fn duplicate(&self) -> (r: Note)
        ensures
            r@ == self@,
    {
        Note { id: self.id.clone(), content: self.content.clone() }
    }
}

/// Formats a note as `id -> content`.
pub fn format_note(note: &Note) -> (r: String)
    ensures
        r@ == note_line(note@),
{
    let mut s = note.id.clone();
    s.append(" -> ");
    s.append(note.content.as_str());
    proof {
        reveal_strlit(" -> ");
    }
    s
}

} // verus!
