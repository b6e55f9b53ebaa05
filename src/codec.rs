use std::collections::BTreeMap;
use vstd::prelude::*;
use vstd::string::*;

use crate::commands::notes_view;
use crate::error::NoteError;
use crate::note::{Note, NoteView};

verus! {

#[verifier::external_type_specification]
#[verifier::external_body]
pub struct ExJsonError(serde_json::Error);

/// A JSON object with string values, as its (key, value) pairs.
pub type Object = Vec<(String, String)>;

/// The view of a JSON object with string values: its (key, value) pairs.
pub type ObjectView = Seq<(Seq<char>, Seq<char>)>;

pub open spec fn object_view(o: Object) -> ObjectView {
    o@.map_values(|p: (String, String)| (p.0@, p.1@))
}

pub open spec fn objects_view(v: Seq<Object>) -> Seq<ObjectView> {
    v.map_values(|o: Object| object_view(o))
}

/// What serde_json reads from `text` as an array of objects with string values,
/// each as its pairs in increasing key order; `None` where the text is not such
/// an array.
pub uninterp spec fn json_objects_of(text: Seq<char>) -> Option<Seq<ObjectView>>;

/// The compact JSON text that serde_json writes for an array of objects with
/// string values; `None` where it fails.
pub uninterp spec fn json_text_of(objects: Seq<ObjectView>) -> Option<Seq<char>>;

/// Relies on serde_json::from_str, reading an array of string-valued maps:
/// its result depends on the text alone, and `[]` is the empty array.
#[verifier::external_body]
fn parse_objects(text: &str) -> (r: Result<Vec<Object>, serde_json::Error>)
    ensures
        r is Ok ==> json_objects_of(text@) == Some(objects_view(r->Ok_0@)),
        r is Err ==> json_objects_of(text@) is None,
        text@ == "[]"@ ==> r is Ok && r->Ok_0@.len() == 0,
{
    serde_json::from_str::<Vec<BTreeMap<String, String>>>(text).map(
        |v| v.into_iter().map(|m| m.into_iter().collect()).collect(),
    )
}

/// Relies on serde_json::to_string, writing an array of string-valued maps:
/// its result depends on the objects alone.
#[verifier::external_body]
fn render_objects(objects: &Vec<Object>) -> (r: Result<String, serde_json::Error>)
    ensures
        r is Ok ==> json_text_of(objects_view(objects@)) == Some(r->Ok_0@),
        r is Err ==> json_text_of(objects_view(objects@)) is None,
{
    let maps: Vec<BTreeMap<&String, &String>> = objects.iter().map(
        |o| o.iter().map(|(k, v)| (k, v)).collect(),
    ).collect();
    serde_json::to_string(&maps)
}

/// Relies on serde_json::Error's Display: the message of a failure.
#[verifier::external_body]
fn error_message(e: &serde_json::Error) -> (r: String) {
    e.to_string()
}

/// The value of the first pair of `o` whose key is `key`.
pub open spec fn field_of(o: ObjectView, key: Seq<char>) -> Option<Seq<char>>
    decreases o.len(),
{
    if o.len() == 0 {
        None
    } else if o[0].0 == key {
        Some(o[0].1)
    } else {
        field_of(o.drop_first(), key)
    }
}

/// The object that stores a note: its content and its identifier, in key order.
pub open spec fn note_object(n: NoteView) -> ObjectView {
    seq![("content"@, n.content), ("id"@, n.id)]
}

/// The note that an object stores, where it has both fields.
pub open spec fn note_of_object(o: ObjectView) -> Option<NoteView> {
    match (field_of(o, "id"@), field_of(o, "content"@)) {
        (Some(id), Some(content)) => Some(NoteView { id, content }),
        _ => None,
    }
}

/// The notes that the objects store, in order, where each stores one.
pub open spec fn notes_of_objects(objs: Seq<ObjectView>) -> Option<Seq<NoteView>> {
    if forall|i: int| 0 <= i < objs.len() ==> (#[trigger] note_of_object(objs[i])) is Some {
        Some(Seq::new(objs.len(), |i: int| note_of_object(objs[i])->Some_0))
    } else {
        None
    }
}

/// The notes that a text stores, where it is a JSON array of note objects.
pub open spec fn notes_of_text(text: Seq<char>) -> Option<Seq<NoteView>> {
    match json_objects_of(text) {
        Some(objs) => notes_of_objects(objs),
        None => None,
    }
}

/// The text that stores a collection of notes.
pub open spec fn text_of_notes(s: Seq<NoteView>) -> Option<Seq<char>> {
    json_text_of(s.map_values(|n: NoteView| note_object(n)))
}

/// The value of the first pair of `o` whose key is `key`.
pub fn find_field(o: &Object, key: &str) -> (r: Option<String>)
    ensures
        field_of(object_view(*o), key@) matches Some(v) ==> (r matches Some(t) && t@ == v),
        field_of(object_view(*o), key@) is None ==> r is None,
{
    let ghost ov = object_view(*o);
    let wanted = String::from_str(key);
    let mut k: usize = 0;
    assert(ov.subrange(0, ov.len() as int) =~= ov);
    while k < o.len()
        invariant
            k <= o@.len(),
            ov == object_view(*o),
            wanted@ == key@,
            field_of(ov, key@) == field_of(ov.subrange(k as int, ov.len() as int), key@),
        decreases o@.len() - k,
    {
        let ghost t = ov.subrange(k as int, ov.len() as int);
        assert(t[0] == ov[k as int]);
        if o[k].0 == wanted {
            return Some(o[k].1.clone());
        }
        assert(t.drop_first() =~= ov.subrange(k + 1, ov.len() as int));
        k = k + 1;
    }
    None
}

/// The note that an object stores, where it has both an `id` and a `content` field.
pub fn note_from_object(o: &Object) -> (r: Option<Note>)
    ensures
        note_of_object(object_view(*o)) matches Some(n) ==> (r matches Some(m) && m@ == n),
        note_of_object(object_view(*o)) is None ==> r is None,
{
    let id = find_field(o, "id");
    let content = find_field(o, "content");
    match (id, content) {
        (Some(id), Some(content)) => Some(Note::new(id, content)),
        _ => None,
    }
}

/// The notes that the objects store, in order, or a format error where some
/// object lacks a field.
pub fn notes_from_objects(objs: &Vec<Object>) -> (r: Result<Vec<Note>, NoteError>)
    ensures
        notes_of_objects(objects_view(objs@)) matches Some(s) ==> (r matches Ok(v) && notes_view(
            v@,
        ) == s),
        notes_of_objects(objects_view(objs@)) is None ==> (r matches Err(e) && e is Format),
{
    let ghost ov = objects_view(objs@);
    let mut notes: Vec<Note> = Vec::new();
    let mut k: usize = 0;
    while k < objs.len()
        invariant
            k <= objs@.len(),
            ov == objects_view(objs@),
            notes@.len() == k,
            forall|j: int| 0 <= j < k ==> ((#[trigger] note_of_object(ov[j])) matches Some(n)
                && notes@[j]@ == n),
        decreases objs@.len() - k,
    {
        match note_from_object(&objs[k]) {
            Some(n) => notes.push(n),
            None => {
                assert(note_of_object(ov[k as int]) is None);
                return Err(NoteError::Format(String::from_str("note must have `id` and `content`")));
            },
        }
        k = k + 1;
    }
    assert(notes_view(notes@) =~= Seq::new(ov.len(), |i: int| note_of_object(ov[i])->Some_0));
    Ok(notes)
}

/// The object that stores each note, in order.
pub fn to_objects(notes: &Vec<Note>) -> (r: Vec<Object>)
    ensures
        objects_view(r@) == notes_view(notes@).map_values(|n: NoteView| note_object(n)),
{
    let mut objs: Vec<Object> = Vec::new();
    let mut k: usize = 0;
    while k < notes.len()
        invariant
            k <= notes@.len(),
            objs@.len() == k,
            forall|j: int| 0 <= j < k ==> object_view(#[trigger] objs@[j]) == note_object(
                notes@[j]@,
            ),
        decreases notes@.len() - k,
    {
        let o: Object = vec![
            (String::from_str("content"), notes[k].content.clone()),
            (String::from_str("id"), notes[k].id.clone()),
        ];
        assert(object_view(o) =~= note_object(notes@[k as int]@));
        objs.push(o);
        k = k + 1;
    }
    assert(objects_view(objs@) =~= notes_view(notes@).map_values(|n: NoteView| note_object(n)));
    objs
}

/// Reads a collection of notes from the stored text.
pub fn decode_notes(text: &str) -> (r: Result<Vec<Note>, NoteError>)
    ensures
        notes_of_text(text@) matches Some(s) ==> (r matches Ok(v) && notes_view(v@) == s),
        notes_of_text(text@) is None ==> (r matches Err(e) && e is Format),
        text@ == "[]"@ ==> (r matches Ok(v) && v@.len() == 0),
{
    match parse_objects(text) {
        Ok(objs) => {
            assert(objects_view(objs@).len() == objs@.len());
            let r = notes_from_objects(&objs);
            proof {
                if r is Ok {
                    assert(notes_view(r->Ok_0@).len() == r->Ok_0@.len());
                }
            }
            r
        },
        Err(e) => Err(NoteError::Format(error_message(&e))),
    }
}

/// Writes a collection of notes as compact JSON text.
pub fn encode_notes(notes: &Vec<Note>) -> (r: Result<String, NoteError>)
    ensures
        text_of_notes(notes_view(notes@)) matches Some(t) ==> (r matches Ok(u) && u@ == t),
        text_of_notes(notes_view(notes@)) is None ==> (r matches Err(e) && e is Format),
{
    let objs = to_objects(notes);
    match render_objects(&objs) {
        Ok(t) => Ok(t),
        Err(e) => Err(NoteError::Format(error_message(&e))),
    }
}

/// A note's stored object gives the note back.
pub proof fn lemma_note_object_round_trip(n: NoteView)
    ensures
        note_of_object(note_object(n)) == Some(n),
{
    reveal_strlit("id");
    reveal_strlit("content");
    let o = note_object(n);
    assert("content"@.len() != "id"@.len());
    assert(o[0].0 != "id"@);
    assert(o.drop_first() =~= seq![("id"@, n.id)]);
    assert(field_of(o.drop_first(), "id"@) == Some(n.id));
    assert(field_of(o, "id"@) == Some(n.id));
    assert(field_of(o, "content"@) == Some(n.content));
}

/// Turning notes into objects and back yields the same notes, in the same order.
pub proof fn lemma_objects_round_trip(s: Seq<NoteView>)
    ensures
        notes_of_objects(s.map_values(|n: NoteView| note_object(n))) == Some(s),
{
    let objs = s.map_values(|n: NoteView| note_object(n));
    assert forall|i: int| 0 <= i < objs.len() implies (#[trigger] note_of_object(objs[i])) == Some(
        s[i],
    ) by {
        lemma_note_object_round_trip(s[i]);
    }
    assert(Seq::new(objs.len(), |i: int| note_of_object(objs[i])->Some_0) =~= s);
}

} // verus!
