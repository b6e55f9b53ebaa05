use vstd::prelude::*;
use vstd::string::*;

use crate::error::NoteError;

verus! {

/// One of the five commands.
#[derive(Debug)]
pub enum Action {
    List,
    Get { id: String },
    Add { content: String },
    Patch { id: String, content: String },
    Delete { id: String },
}

/// The mathematical view of a command.
pub enum ActionView {
    List,
    Get { id: Seq<char> },
    Add { content: Seq<char> },
    Patch { id: Seq<char>, content: Seq<char> },
    Delete { id: Seq<char> },
}

impl View for Action {
    type V = ActionView;

    open spec fn view(&self) -> ActionView {
        match self {
            Action::List => ActionView::List,
            Action::Get { id } => ActionView::Get { id: id@ },
            Action::Add { content } => ActionView::Add { content: content@ },
            Action::Patch { id, content } => ActionView::Patch { id: id@, content: content@ },
            Action::Delete { id } => ActionView::Delete { id: id@ },
        }
    }
}

/// The command-line arguments, as views.
pub open spec fn args_view(args: Seq<String>) -> Seq<Seq<char>> {
    args.map_values(|a: String| a@)
}

/// The file path among the arguments (the first after the program name), or
/// the message of the usage error when it is missing.
pub open spec fn path_of(args: Seq<Seq<char>>) -> Result<Seq<char>, Seq<char>> {
    if args.len() > 1 {
        Ok(args[1])
    } else {
        Err("file path must be provided"@)
    }
}

/// The argument at position `i`, or the message naming the missing field.
pub open spec fn required(args: Seq<Seq<char>>, i: int, missing: Seq<char>) -> Result<
    Seq<char>,
    Seq<char>,
> {
    if i < args.len() {
        Ok(args[i])
    } else {
        Err(missing)
    }
}

/// The command that the arguments name, or the message of the usage error.
/// The command's name follows the file path; its own arguments follow it.
pub open spec fn action_of(args: Seq<Seq<char>>) -> Result<ActionView, Seq<char>> {
    if args.len() <= 2 {
        Err("action must be provided"@)
    } else {
        let name = args[2];
        let id = required(args, 3, "id must be provided"@);
        let content3 = required(args, 3, "content must be provided"@);
        let content4 = required(args, 4, "content must be provided"@);
        if name == "list"@ {
            Ok(ActionView::List)
        } else if name == "get"@ {
            match id {
                Ok(i) => Ok(ActionView::Get { id: i }),
                Err(m) => Err(m),
            }
        } else if name == "add"@ {
            match content3 {
                Ok(c) => Ok(ActionView::Add { content: c }),
                Err(m) => Err(m),
            }
        } else if name == "patch"@ {
            match (id, content4) {
                (Ok(i), Ok(c)) => Ok(ActionView::Patch { id: i, content: c }),
                (Err(m), _) => Err(m),
                (_, Err(m)) => Err(m),
            }
        } else if name == "delete"@ {
            match id {
                Ok(i) => Ok(ActionView::Delete { id: i }),
                Err(m) => Err(m),
            }
        } else {
            Err("unknown action"@)
        }
    }
}

fn is_word(s: &String, w: &str) -> (r: bool)
    ensures
        r == (s@ == w@),
{
    let t = String::from_str(w);
    *s == t
}

fn usage(m: &str) -> (r: NoteError)
    ensures
        r matches NoteError::Usage(t) && t@ == m@,
{
    NoteError::Usage(String::from_str(m))
}

fn required_arg(args: &Vec<String>, i: usize, missing: &str) -> (r: Result<String, NoteError>)
    ensures
        required(args_view(args@), i as int, missing@) matches Ok(a) ==> (r matches Ok(s) && s@ == a),
        required(args_view(args@), i as int, missing@) matches Err(m) ==> (r matches Err(
            NoteError::Usage(t),
        ) && t@ == m),
{
    if i < args.len() {
        Ok(args[i].clone())
    } else {
        Err(usage(missing))
    }
}

/// The file path among the command-line arguments.
pub fn file_path(args: &Vec<String>) -> (r: Result<String, NoteError>)
    ensures
        path_of(args_view(args@)) matches Ok(p) ==> (r matches Ok(s) && s@ == p),
        path_of(args_view(args@)) matches Err(m) ==> (r matches Err(NoteError::Usage(t)) && t@
            == m),
{
    proof {
        reveal_strlit("file path must be provided");
    }
    if args.len() > 1 {
        Ok(args[1].clone())
    } else {
        Err(usage("file path must be provided"))
    }
}

/// The command that the command-line arguments name.
pub fn parse_action(args: &Vec<String>) -> (r: Result<Action, NoteError>)
    ensures
        action_of(args_view(args@)) matches Ok(a) ==> (r matches Ok(b) && b@ == a),
        action_of(args_view(args@)) matches Err(m) ==> (r matches Err(NoteError::Usage(t)) && t@
            == m),
{
    proof {
        reveal_strlit("action must be provided");
        reveal_strlit("id must be provided");
        reveal_strlit("content must be provided");
        reveal_strlit("unknown action");
        reveal_strlit("list");
        reveal_strlit("get");
        reveal_strlit("add");
        reveal_strlit("patch");
        reveal_strlit("delete");
    }
    if args.len() <= 2 {
        return Err(usage("action must be provided"));
    }
    let name = &args[2];
    if is_word(name, "list") {
        Ok(Action::List)
    } else if is_word(name, "get") {
        let id = required_arg(args, 3, "id must be provided")?;
        Ok(Action::Get { id })
    } else if is_word(name, "add") {
        let content = required_arg(args, 3, "content must be provided")?;
        Ok(Action::Add { content })
    } else if is_word(name, "patch") {
        let id = required_arg(args, 3, "id must be provided")?;
        let content = required_arg(args, 4, "content must be provided")?;
        Ok(Action::Patch { id, content })
    } else if is_word(name, "delete") {
        let id = required_arg(args, 3, "id must be provided")?;
        Ok(Action::Delete { id })
    } else {
        Err(usage("unknown action"))
    }
}

} // verus!
