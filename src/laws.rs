use vstd::prelude::*;

use crate::action::ActionView;
use crate::commands::{
    first_index, has_id, is_first, lemma_first_index, lemma_has_first, lemma_without_id_len,
    list_output, run, without_id,
};
use crate::note::{note_line, NoteView};

verus! {

/// Listing changes nothing, so listing the same collection again prints the
/// same lines, whatever identifier an added note would have received.
pub proof fn law_list_repeatable(s: Seq<NoteView>, id1: Seq<char>, id2: Seq<char>)
    ensures
        run(ActionView::List, s, id1) == Some((list_output(s), None::<Seq<NoteView>>)),
        run(ActionView::List, s, id2) == run(ActionView::List, s, id1),
{
}

/// Listing an empty collection prints the single line `No notes found`.
pub proof fn law_list_empty(new_id: Seq<char>)
    ensures
        run(ActionView::List, Seq::<NoteView>::empty(), new_id) == Some(
            (seq!["No notes found"@], None::<Seq<NoteView>>),
        ),
{
}

/// Adding a note whose identifier no note has yet, then getting that
/// identifier, prints the line that the addition printed.
pub proof fn law_add_then_get(s: Seq<NoteView>, content: Seq<char>, id: Seq<char>, other: Seq<char>)
    requires
        !has_id(s, id),
    ensures
        run(ActionView::Add { content }, s, id) matches Some((lines, Some(t))) && run(
            ActionView::Get { id },
            t,
            other,
        ) == Some((lines, None::<Seq<NoteView>>)),
{
    let n = NoteView { id, content };
    let t = s.push(n);
    assert(t[s.len() as int] == n);
    assert(is_first(t, id, s.len() as int)) by {
        assert forall|j: int| 0 <= j < s.len() implies t[j].id != id by {
            assert(t[j] == s[j]);
        }
    }
    lemma_first_index(t, id, s.len() as int);
}

/// Adding a note, then patching its identifier with new content, then getting
/// that identifier prints the identifier with the new content.
pub proof fn law_add_patch_get(
    s: Seq<NoteView>,
    first: Seq<char>,
    second: Seq<char>,
    id: Seq<char>,
    other1: Seq<char>,
    other2: Seq<char>,
)
    ensures
        run(ActionView::Add { content: first }, s, id) matches Some((_, Some(t))) && run(
            ActionView::Patch { id, content: second },
            t,
            other1,
        ) matches Some((_, Some(u))) && run(ActionView::Get { id }, u, other2) == Some(
            (seq![note_line(NoteView { id, content: second })], None::<Seq<NoteView>>),
        ),
{
    let n = NoteView { id, content: first };
    let t = s.push(n);
    assert(t[s.len() as int] == n);
    assert(has_id(t, id));
    lemma_has_first(t, id);
    let i = first_index(t, id);
    let m = NoteView { id: t[i].id, content: second };
    let u = t.update(i, m);
    assert(is_first(u, id, i)) by {
        assert forall|j: int| 0 <= j < i implies u[j].id != id by {
            assert(u[j] == t[j]);
        }
    }
    lemma_first_index(u, id, i);
    assert(has_id(u, id));
}

/// Adding a note, then deleting its identifier, leaves no note with that
/// identifier, so getting it is not found. Where no note had that identifier
/// before, the deletion leaves one note fewer than the addition made.
pub proof fn law_add_delete_get(s: Seq<NoteView>, content: Seq<char>, id: Seq<char>, other1: Seq<char>, other2: Seq<char>)
    ensures
        run(ActionView::Add { content }, s, id) matches Some((_, Some(t))) && run(
            ActionView::Delete { id },
            t,
            other1,
        ) matches Some((_, Some(u))) && run(ActionView::Get { id }, u, other2) is None && (
        !has_id(s, id) ==> u.len() == t.len() - 1),
{
    let n = NoteView { id, content };
    let t = s.push(n);
    assert(t[s.len() as int] == n);
    assert(has_id(t, id));
    lemma_without_id_len(t, id);
    lemma_without_id_len(s, id);
    assert(t.drop_last() =~= s);
}

/// Patching an identifier that no note has is not found, and nothing is
/// written, so the store stays as it was.
pub proof fn law_patch_missing(s: Seq<NoteView>, id: Seq<char>, content: Seq<char>, other: Seq<char>)
    requires
        !has_id(s, id),
    ensures
        run(ActionView::Patch { id, content }, s, other) is None,
{
}

} // verus!
