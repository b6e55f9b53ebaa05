use notekeeper::action::{file_path, parse_action, Action};
use notekeeper::codec::{decode_notes, encode_notes, find_field};
use notekeeper::commands::{
    add_note, delete_notes, execute, find_note, get_line, list_lines, patch_note, perform,
};
use notekeeper::error::NoteError;
use notekeeper::id::{generate_id, id_from_bytes, ID_LEN};
use notekeeper::note::{format_note, Note};

fn note(id: &str, content: &str) -> Note {
    Note::new(id.to_string(), content.to_string())
}

fn args(items: &[&str]) -> Vec<String> {
    items.iter().map(|s| s.to_string()).collect()
}

fn pairs(notes: &[Note]) -> Vec<(String, String)> {
    notes.iter().map(|n| (n.id.clone(), n.content.clone())).collect()
}

#[test]
fn format_note_joins_id_and_content() {
    assert_eq!(format_note(&note("abc12345", "buy milk")), "abc12345 -> buy milk");
    assert_eq!(format_note(&note("", "")), " -> ");
}

#[test]
fn list_of_empty_collection_says_no_notes() {
    assert_eq!(list_lines(&Vec::new()), vec!["No notes found".to_string()]);
}

#[test]
fn list_prints_each_note_in_order() {
    let notes = vec![note("a", "one"), note("b", "two")];
    assert_eq!(list_lines(&notes), vec!["a -> one".to_string(), "b -> two".to_string()]);
}

#[test]
fn list_twice_gives_the_same_lines() {
    let notes = vec![note("a", "one"), note("b", "two")];
    let first = perform(Action::List, "[{\"content\":\"one\",\"id\":\"a\"}]", "zzzzzzzz".to_string()).unwrap();
    let second = perform(Action::List, "[{\"content\":\"one\",\"id\":\"a\"}]", "yyyyyyyy".to_string()).unwrap();
    assert_eq!(first.lines, second.lines);
    assert!(first.write.is_none() && second.write.is_none());
    assert_eq!(list_lines(&notes), list_lines(&notes));
}

#[test]
fn find_note_gives_first_match() {
    let notes = vec![note("a", "one"), note("b", "two"), note("b", "three")];
    assert_eq!(find_note(&notes, &"b".to_string()), Some(1));
    assert_eq!(find_note(&notes, &"c".to_string()), None);
}

#[test]
fn get_line_uses_first_match() {
    let notes = vec![note("x", "first"), note("x", "second")];
    assert_eq!(get_line(&notes, &"x".to_string()).unwrap(), "x -> first");
    assert!(matches!(get_line(&notes, &"y".to_string()), Err(NoteError::NotFound)));
}

#[test]
fn add_note_appends() {
    let mut notes = vec![note("a", "one")];
    let line = add_note(&mut notes, "b".to_string(), "two".to_string());
    assert_eq!(line, "b -> two");
    assert_eq!(pairs(&notes), vec![("a".to_string(), "one".to_string()), ("b".to_string(), "two".to_string())]);
}

#[test]
fn patch_note_replaces_first_match_only() {
    let mut notes = vec![note("a", "one"), note("a", "two")];
    let line = patch_note(&mut notes, &"a".to_string(), "new".to_string()).unwrap();
    assert_eq!(line, "a -> new");
    assert_eq!(pairs(&notes), vec![("a".to_string(), "new".to_string()), ("a".to_string(), "two".to_string())]);
}

#[test]
fn patch_note_missing_changes_nothing() {
    let mut notes = vec![note("a", "one")];
    let r = patch_note(&mut notes, &"b".to_string(), "x".to_string());
    assert!(matches!(r, Err(NoteError::NotFound)));
    assert_eq!(pairs(&notes), vec![("a".to_string(), "one".to_string())]);
}

#[test]
fn delete_notes_removes_every_match() {
    let mut notes = vec![note("a", "one"), note("b", "two"), note("a", "three")];
    delete_notes(&mut notes, &"a".to_string()).unwrap();
    assert_eq!(pairs(&notes), vec![("b".to_string(), "two".to_string())]);
}

#[test]
fn delete_notes_missing_is_not_found() {
    let mut notes = vec![note("a", "one")];
    assert!(matches!(delete_notes(&mut notes, &"z".to_string()), Err(NoteError::NotFound)));
    assert_eq!(notes.len(), 1);
}

#[test]
fn execute_add_then_get_prints_same_line() {
    let out = execute(Action::Add { content: "hello".to_string() }, Vec::new(), "abcdefgh".to_string()).unwrap();
    assert_eq!(out.lines, vec!["abcdefgh -> hello".to_string()]);
    let stored = out.store.unwrap();
    let got = execute(Action::Get { id: "abcdefgh".to_string() }, stored, "unused00".to_string()).unwrap();
    assert_eq!(got.lines, out.lines);
    assert!(got.store.is_none());
}

#[test]
fn execute_add_patch_get() {
    let out = execute(Action::Add { content: "a".to_string() }, Vec::new(), "XXXXXXXX".to_string()).unwrap();
    let patched = execute(
        Action::Patch { id: "XXXXXXXX".to_string(), content: "b".to_string() },
        out.store.unwrap(),
        "unused00".to_string(),
    )
    .unwrap();
    assert_eq!(patched.lines, vec!["XXXXXXXX -> b".to_string()]);
    let got = execute(Action::Get { id: "XXXXXXXX".to_string() }, patched.store.unwrap(), "unused00".to_string()).unwrap();
    assert_eq!(got.lines, vec!["XXXXXXXX -> b".to_string()]);
}

#[test]
fn execute_add_delete_get() {
    let start = vec![note("other000", "keep")];
    let out = execute(Action::Add { content: "a".to_string() }, start, "XXXXXXXX".to_string()).unwrap();
    let added = out.store.unwrap();
    assert_eq!(added.len(), 2);
    let deleted = execute(Action::Delete { id: "XXXXXXXX".to_string() }, added, "unused00".to_string()).unwrap();
    assert!(deleted.lines.is_empty());
    let remaining = deleted.store.unwrap();
    assert_eq!(remaining.len(), 1);
    let got = execute(Action::Get { id: "XXXXXXXX".to_string() }, remaining, "unused00".to_string());
    assert!(matches!(got, Err(NoteError::NotFound)));
}

#[test]
fn execute_patch_missing_writes_nothing() {
    let r = perform(
        Action::Patch { id: "nope".to_string(), content: "x".to_string() },
        "[{\"content\":\"one\",\"id\":\"a\"}]",
        "unused00".to_string(),
    );
    assert!(matches!(r, Err(NoteError::NotFound)));
}

#[test]
fn execute_delete_missing_is_not_found() {
    let r = perform(Action::Delete { id: "nope".to_string() }, "[]", "unused00".to_string());
    assert!(matches!(r, Err(NoteError::NotFound)));
}

#[test]
fn fresh_store_lists_no_notes() {
    let effect = perform(Action::List, "[]", "unused00".to_string()).unwrap();
    assert_eq!(effect.lines, vec!["No notes found".to_string()]);
    assert!(effect.write.is_none());
}

#[test]
fn buy_milk_scenario() {
    let added = perform(Action::Add { content: "buy milk".to_string() }, "[]", "k3J9ab0Z".to_string()).unwrap();
    assert_eq!(added.lines, vec!["k3J9ab0Z -> buy milk".to_string()]);
    let text = added.write.unwrap();
    assert_eq!(text, "[{\"content\":\"buy milk\",\"id\":\"k3J9ab0Z\"}]");
    let listed = perform(Action::List, &text, "unused00".to_string()).unwrap();
    assert_eq!(listed.lines, vec!["k3J9ab0Z -> buy milk".to_string()]);
    let deleted = perform(Action::Delete { id: "k3J9ab0Z".to_string() }, &text, "unused00".to_string()).unwrap();
    assert!(deleted.lines.is_empty());
    let text = deleted.write.unwrap();
    assert_eq!(text, "[]");
    let got = perform(Action::Get { id: "k3J9ab0Z".to_string() }, &text, "unused00".to_string());
    match got {
        Err(e) => {
            assert!(matches!(e, NoteError::NotFound));
            assert_eq!(e.message(), "note not found");
        }
        Ok(_) => panic!("expected not found"),
    }
}

#[test]
fn encode_is_compact_json_with_content_first() {
    let notes = vec![note("id1", "say \"hi\""), note("id2", "two")];
    assert_eq!(
        encode_notes(&notes).unwrap(),
        "[{\"content\":\"say \\\"hi\\\"\",\"id\":\"id1\"},{\"content\":\"two\",\"id\":\"id2\"}]"
    );
    assert_eq!(encode_notes(&Vec::new()).unwrap(), "[]");
}

#[test]
fn encode_then_decode_round_trips() {
    let notes = vec![note("b", "line\nbreak"), note("a", "ünïcode \\ slash"), note("b", "dup")];
    let text = encode_notes(&notes).unwrap();
    let back = decode_notes(&text).unwrap();
    assert_eq!(pairs(&back), pairs(&notes));
}

#[test]
fn decode_accepts_any_key_order_and_whitespace() {
    let back = decode_notes(" [ { \"id\" : \"q\", \"content\" : \"w\" } ] ").unwrap();
    assert_eq!(pairs(&back), vec![("q".to_string(), "w".to_string())]);
}

#[test]
fn decode_of_empty_array_is_empty() {
    assert!(decode_notes("[]").unwrap().is_empty());
}

#[test]
fn decode_rejects_invalid_json() {
    assert!(matches!(decode_notes("not json"), Err(NoteError::Format(_))));
    assert!(matches!(decode_notes(""), Err(NoteError::Format(_))));
}

#[test]
fn decode_rejects_missing_field() {
    assert!(matches!(decode_notes("[{\"id\":\"a\"}]"), Err(NoteError::Format(_))));
    assert!(matches!(decode_notes("[{\"content\":\"a\"}]"), Err(NoteError::Format(_))));
}

#[test]
fn find_field_takes_the_named_value() {
    let o = vec![("content".to_string(), "c".to_string()), ("id".to_string(), "i".to_string())];
    assert_eq!(find_field(&o, "id"), Some("i".to_string()));
    assert_eq!(find_field(&o, "content"), Some("c".to_string()));
    assert_eq!(find_field(&o, "other"), None);
}

#[test]
fn id_from_bytes_maps_each_byte_into_the_alphabet() {
    assert_eq!(id_from_bytes(&[0, 1, 10, 36, 61, 62, 255, 100]), "01aAZ07C");
}

#[test]
fn generated_ids_are_eight_alphanumeric_characters() {
    for _ in 0..20 {
        let id = generate_id();
        assert_eq!(id.chars().count(), ID_LEN);
        assert!(id.chars().all(|c| c.is_ascii_alphanumeric()));
    }
}

#[test]
fn parse_action_reads_each_command() {
    assert!(matches!(parse_action(&args(&["p", "f", "list"])), Ok(Action::List)));
    match parse_action(&args(&["p", "f", "get", "abc"])) {
        Ok(Action::Get { id }) => assert_eq!(id, "abc"),
        _ => panic!("expected get"),
    }
    match parse_action(&args(&["p", "f", "add", "text"])) {
        Ok(Action::Add { content }) => assert_eq!(content, "text"),
        _ => panic!("expected add"),
    }
    match parse_action(&args(&["p", "f", "patch", "abc", "text"])) {
        Ok(Action::Patch { id, content }) => {
            assert_eq!(id, "abc");
            assert_eq!(content, "text");
        }
        _ => panic!("expected patch"),
    }
    match parse_action(&args(&["p", "f", "delete", "abc"])) {
        Ok(Action::Delete { id }) => assert_eq!(id, "abc"),
        _ => panic!("expected delete"),
    }
}

fn usage_message(r: Result<Action, NoteError>) -> String {
    match r {
        Err(NoteError::Usage(m)) => m,
        _ => panic!("expected a usage error"),
    }
}

#[test]
fn parse_action_reports_missing_arguments() {
    assert_eq!(usage_message(parse_action(&args(&["p", "f"]))), "action must be provided");
    assert_eq!(usage_message(parse_action(&args(&["p", "f", "get"]))), "id must be provided");
    assert_eq!(usage_message(parse_action(&args(&["p", "f", "add"]))), "content must be provided");
    assert_eq!(usage_message(parse_action(&args(&["p", "f", "patch"]))), "id must be provided");
    assert_eq!(usage_message(parse_action(&args(&["p", "f", "patch", "i"]))), "content must be provided");
    assert_eq!(usage_message(parse_action(&args(&["p", "f", "delete"]))), "id must be provided");
    assert_eq!(usage_message(parse_action(&args(&["p", "f", "remove"]))), "unknown action");
}

#[test]
fn file_path_is_the_first_argument() {
    assert_eq!(file_path(&args(&["p", "notes.json"])).unwrap(), "notes.json");
    match file_path(&args(&["p"])) {
        Err(NoteError::Usage(m)) => assert_eq!(m, "file path must be provided"),
        _ => panic!("expected a usage error"),
    }
}

#[test]
fn error_messages() {
    assert_eq!(NoteError::NotFound.message(), "note not found");
    assert_eq!(NoteError::Io("disk".to_string()).message(), "disk");
    assert_eq!(NoteError::Format("bad".to_string()).message(), "bad");
}
