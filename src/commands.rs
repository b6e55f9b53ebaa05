use vstd::prelude::*;
use vstd::string::*;

use crate::action::{Action, ActionView};
use crate::codec::{decode_notes, encode_notes, notes_of_text, text_of_notes};
use crate::error::NoteError;
use crate::note::{format_note, note_line, Note, NoteView};

verus! {

/// The notes of a vector, as views.
pub open spec fn notes_view(s: Seq<Note>) -> Seq<NoteView> {
    s.map_values(|n: Note| n@)
}

/// The lines of a vector of strings, as views.
pub open spec fn lines_view(s: Seq<String>) -> Seq<Seq<char>> {
    s.map_values(|l: String| l@)
}

/// Some note of `s` has identifier `id`.
pub open spec fn has_id(s: Seq<NoteView>, id: Seq<char>) -> bool {
    exists|i: int| 0 <= i < s.len() && s[i].id == id
}

/// `i` is the position of the first note of `s` with identifier `id`.
pub open spec fn is_first(s: Seq<NoteView>, id: Seq<char>, i: int) -> bool {
    &&& 0 <= i < s.len()
    &&& s[i].id == id
    &&& forall|j: int| 0 <= j < i ==> s[j].id != id
}

/// The position of the first note of `s` with identifier `id`, where there is one.
pub open spec fn first_index(s: Seq<NoteView>, id: Seq<char>) -> int {
    choose|i: int| is_first(s, id, i)
}

/// The notes of `s` whose identifier is not `id`, in their order.
pub open spec fn without_id(s: Seq<NoteView>, id: Seq<char>) -> Seq<NoteView>
    decreases s.len(),
{
    if s.len() == 0 {
        s
    } else {
        let rest = without_id(s.drop_last(), id);
        if s.last().id == id {
            rest
        } else {
            rest.push(s.last())
        }
    }
}

/// What `list` prints for the collection `s`.
pub open spec fn list_output(s: Seq<NoteView>) -> Seq<Seq<char>> {
    if s.len() == 0 {
        seq!["No notes found"@]
    } else {
        s.map_values(|n: NoteView| note_line(n))
    }
}

/// The first position with a given identifier is unique.
pub proof fn lemma_first_index(s: Seq<NoteView>, id: Seq<char>, i: int)
    requires
        is_first(s, id, i),
    ensures
        first_index(s, id) == i,
{
    let k = first_index(s, id);
    assert(is_first(s, id, k));
    if k < i {
        assert(s[k].id != id);
    } else if k > i {
        assert(s[i].id != id);
    }
}

/// Where some note has identifier `id`, `first_index` is its first position.
pub proof fn lemma_has_first(s: Seq<NoteView>, id: Seq<char>)
    requires
        has_id(s, id),
    ensures
        is_first(s, id, first_index(s, id)),
    decreases s.len(),
{
    let t = s.drop_last();
    if has_id(t, id) {
        lemma_has_first(t, id);
        let k = first_index(t, id);
        assert forall|j: int| 0 <= j < k implies s[j].id != id by {
            assert(s[j] == t[j]);
        }
        assert(is_first(s, id, k));
    } else {
        let w = choose|i: int| 0 <= i < s.len() && s[i].id == id;
        if w < s.len() - 1 {
            assert(t[w].id == id);
        }
        assert forall|j: int| 0 <= j < s.len() - 1 implies s[j].id != id by {
            if s[j].id == id {
                assert(t[j].id == id);
            }
        }
        assert(is_first(s, id, s.len() - 1));
    }
    lemma_first_index(s, id, choose|i: int| is_first(s, id, i));
}

/// Facts about the notes left once every note with identifier `id` is removed.
pub proof fn lemma_without_id_len(s: Seq<NoteView>, id: Seq<char>)
    ensures
        without_id(s, id).len() <= s.len(),
        without_id(s, id).len() == s.len() <==> !has_id(s, id),
        !has_id(s, id) ==> without_id(s, id) == s,
        !has_id(without_id(s, id), id),
    decreases s.len(),
{
    if s.len() > 0 {
        let t = s.drop_last();
        lemma_without_id_len(t, id);
        let r = without_id(s, id);
        let rt = without_id(t, id);
        if has_id(t, id) {
            let w = choose|i: int| 0 <= i < t.len() && t[i].id == id;
            assert(s[w].id == id);
        }
        if s.last().id == id {
            assert(s[s.len() - 1].id == id);
        } else if has_id(s, id) {
            let w = choose|i: int| 0 <= i < s.len() && s[i].id == id;
            assert(w != s.len() - 1);
            assert(t[w].id == id);
        }
        if !has_id(s, id) {
            assert(s == t.push(s.last()));
        }
        assert(!has_id(r, id)) by {
            if has_id(r, id) {
                let w = choose|i: int| 0 <= i < r.len() && r[i].id == id;
                if s.last().id != id && w == rt.len() {
                } else {
                    assert(rt[w].id == id);
                }
            }
        }
    }
}

/// The position of the first note with identifier `id`.
pub fn find_note(notes: &Vec<Note>, id: &String) -> (r: Option<usize>)
    ensures
        r is None <==> !has_id(notes_view(notes@), id@),
        r matches Some(i) ==> is_first(notes_view(notes@), id@, i as int)
            && first_index(notes_view(notes@), id@) == i,
{
    let ghost s = notes_view(notes@);
    let mut k: usize = 0;
    while k < notes.len()
        invariant
            k <= notes@.len(),
            s == notes_view(notes@),
            forall|j: int| 0 <= j < k ==> s[j].id != id@,
        decreases notes@.len() - k,
    {
        if notes[k].id == *id {
            proof {
                lemma_first_index(s, id@, k as int);
            }
            return Some(k);
        }
        k = k + 1;
    }
    None
}

/// The lines that `list` prints: each note in stored order, or a single
/// `No notes found` line for an empty collection.
pub fn list_lines(notes: &Vec<Note>) -> (r: Vec<String>)
    ensures
        lines_view(r@) == list_output(notes_view(notes@)),
{
    let mut out: Vec<String> = Vec::new();
    if notes.len() == 0 {
        out.push(String::from_str("No notes found"));
        proof {
            reveal_strlit("No notes found");
            assert(lines_view(out@) =~= list_output(notes_view(notes@)));
        }
        return out;
    }
    let mut k: usize = 0;
    while k < notes.len()
        invariant
            k <= notes@.len(),
            out@.len() == k,
            forall|j: int| 0 <= j < k ==> out@[j]@ == note_line(notes@[j]@),
        decreases notes@.len() - k,
    {
        out.push(format_note(&notes[k]));
        k = k + 1;
    }
    assert(lines_view(out@) =~= list_output(notes_view(notes@)));
    out
}

/// The line of the first note with identifier `id`.
pub fn get_line(notes: &Vec<Note>, id: &String) -> (r: Result<String, NoteError>)
    ensures
        r is Err <==> !has_id(notes_view(notes@), id@),
        r matches Err(e) ==> e is NotFound,
        r matches Ok(l) ==> l@ == note_line(
            notes_view(notes@)[first_index(notes_view(notes@), id@)],
        ),
{
    match find_note(notes, id) {
        Some(i) => Ok(format_note(&notes[i])),
        None => Err(NoteError::NotFound),
    }
}

/// Appends a note with identifier `id` and the given content, and returns its line.
pub fn add_note(notes: &mut Vec<Note>, id: String, content: String) -> (r: String)
    ensures
        notes_view(final(notes)@) == notes_view(old(notes)@).push(
            NoteView { id: id@, content: content@ },
        ),
        r@ == note_line(NoteView { id: id@, content: content@ }),
{
    let note = Note::new(id, content);
    let line = format_note(&note);
    notes.push(note);
    assert(notes_view(notes@) =~= notes_view(old(notes)@).push(
        NoteView { id: id@, content: content@ },
    ));
    line
}

/// Replaces the content of the first note with identifier `id`, and returns its
/// new line. Where no note has that identifier, nothing changes.
pub fn patch_note(notes: &mut Vec<Note>, id: &String, content: String) -> (r: Result<String, NoteError>)
    ensures
        r is Err <==> !has_id(notes_view(old(notes)@), id@),
        r matches Err(e) ==> e is NotFound && notes_view(final(notes)@) == notes_view(old(notes)@),
        r matches Ok(l) ==> {
            let s = notes_view(old(notes)@);
            let i = first_index(s, id@);
            let n = NoteView { id: s[i].id, content: content@ };
            &&& notes_view(final(notes)@) == s.update(i, n)
            &&& l@ == note_line(n)
        },
{
    match find_note(notes, id) {
        Some(i) => {
            let note = Note::new(notes[i].id.clone(), content);
            let line = format_note(&note);
            notes.set(i, note);
            assert(notes_view(notes@) =~= notes_view(old(notes)@).update(
                i as int,
                NoteView { id: old(notes)@[i as int].id@, content: content@ },
            ));
            Ok(line)
        },
        None => Err(NoteError::NotFound),
    }
}

/// Removes every note with identifier `id`. Where none has it, nothing changes
/// and the result is `NotFound`.
pub fn delete_notes(notes: &mut Vec<Note>, id: &String) -> (r: Result<(), NoteError>)
    ensures
        r is Err <==> !has_id(notes_view(old(notes)@), id@),
        r matches Err(e) ==> e is NotFound,
        notes_view(final(notes)@) == without_id(notes_view(old(notes)@), id@),
{
    let ghost s = notes_view(notes@);
    let mut kept: Vec<Note> = Vec::new();
    let mut k: usize = 0;
    while k < notes.len()
        invariant
            k <= notes@.len(),
            s == notes_view(notes@),
            notes_view(kept@) == without_id(s.take(k as int), id@),
        decreases notes@.len() - k,
    {
        proof {
            assert(s.take(k + 1).drop_last() =~= s.take(k as int));
        }
        if notes[k].id != *id {
            kept.push(notes[k].duplicate());
            assert(notes_view(kept@) =~= without_id(s.take(k + 1), id@));
        }
        k = k + 1;
    }
    proof {
        assert(s.take(k as int) =~= s);
        lemma_without_id_len(s, id@);
    }
    if kept.len() == notes.len() {
        assert(notes_view(notes@) == without_id(s, id@));
        return Err(NoteError::NotFound);
    }
    *notes = kept;
    Ok(())
}

/// What one command does: the lines it prints and, for a command that changes
/// the collection, the collection to store.
pub struct Outcome {
    pub lines: Vec<String>,
    pub store: Option<Vec<Note>>,
}

/// The collection to store, as a view.
pub open spec fn store_view(o: Option<Vec<Note>>) -> Option<Seq<NoteView>> {
    match o {
        Some(v) => Some(notes_view(v@)),
        None => None,
    }
}

/// What command `a` does on collection `s`, where `new_id` is the identifier
/// that an added note receives: the printed lines and the collection to store
/// (`None` where nothing is written), or `None` where the identifier is not
/// found.
pub open spec fn run(a: ActionView, s: Seq<NoteView>, new_id: Seq<char>) -> Option<
    (Seq<Seq<char>>, Option<Seq<NoteView>>),
> {
    match a {
        ActionView::List => Some((list_output(s), None)),
        ActionView::Get { id } => if has_id(s, id) {
            Some((seq![note_line(s[first_index(s, id)])], None))
        } else {
            None
        },
        ActionView::Add { content } => {
            let n = NoteView { id: new_id, content };
            Some((seq![note_line(n)], Some(s.push(n))))
        },
        ActionView::Patch { id, content } => if has_id(s, id) {
            let i = first_index(s, id);
            let n = NoteView { id: s[i].id, content };
            Some((seq![note_line(n)], Some(s.update(i, n))))
        } else {
            None
        },
        ActionView::Delete { id } => if has_id(s, id) {
            Some((seq![], Some(without_id(s, id))))
        } else {
            None
        },
    }
}

/// Carries out one command on the collection `notes`. An added note receives
/// the identifier `new_id`. On `NotFound` nothing is to be written.
pub fn execute(action: Action, notes: Vec<Note>, new_id: String) -> (r: Result<Outcome, NoteError>)
    ensures
        r matches Ok(o) ==> run(action@, notes_view(notes@), new_id@) == Some(
            (lines_view(o.lines@), store_view(o.store)),
        ),
        r matches Err(e) ==> e is NotFound && run(action@, notes_view(notes@), new_id@) is None,
{
    let ghost s = notes_view(notes@);
    let mut notes = notes;
    match action {
        Action::List => {
            let lines = list_lines(&notes);
            Ok(Outcome { lines, store: None })
        },
        Action::Get { id } => {
            let line = get_line(&notes, &id)?;
            let lines = vec![line];
            assert(lines_view(lines@) =~= seq![lines@[0]@]);
            Ok(Outcome { lines, store: None })
        },
        Action::Add { content } => {
            let line = add_note(&mut notes, new_id, content);
            let lines = vec![line];
            assert(lines_view(lines@) =~= seq![lines@[0]@]);
            Ok(Outcome { lines, store: Some(notes) })
        },
        Action::Patch { id, content } => {
            let line = patch_note(&mut notes, &id, content)?;
            let lines = vec![line];
            assert(lines_view(lines@) =~= seq![lines@[0]@]);
            Ok(Outcome { lines, store: Some(notes) })
        },
        Action::Delete { id } => {
            delete_notes(&mut notes, &id)?;
            let lines: Vec<String> = Vec::new();
            assert(lines_view(lines@) =~= seq![]);
            Ok(Outcome { lines, store: Some(notes) })
        },
    }
}

/// What one command does to a stored text: the lines it prints and, for a
/// command that changes the collection, the new text to store.
pub struct Effect {
    pub lines: Vec<String>,
    pub write: Option<String>,
}

/// Carries out one command on the collection stored as `text`. An added note
/// receives the identifier `new_id`. On any error nothing is to be written.
pub fn perform(action: Action, text: &str, new_id: String) -> (r: Result<Effect, NoteError>)
    ensures
        notes_of_text(text@) is None ==> (r matches Err(e) && e is Format),
        notes_of_text(text@) matches Some(s) ==> {
            match run(action@, s, new_id@) {
                None => r matches Err(e) && e is NotFound,
                Some((lines, None)) => r matches Ok(f) && lines_view(f.lines@) == lines
                    && f.write is None,
                Some((lines, Some(t))) => match text_of_notes(t) {
                    Some(u) => r matches Ok(f) && lines_view(f.lines@) == lines
                        && (f.write matches Some(w) && w@ == u),
                    None => r matches Err(e) && e is Format,
                },
            }
        },
{
    let notes = decode_notes(text)?;
    let outcome = execute(action, notes, new_id)?;
    match outcome.store {
        Some(kept) => {
            let t = encode_notes(&kept)?;
            Ok(Effect { lines: outcome.lines, write: Some(t) })
        },
        None => Ok(Effect { lines: outcome.lines, write: None }),
    }
}

} // verus!
