//! Key bindings: reading `KEY=FOLDER`, and turning the bindings of a session
//! into its key map and the folders that have to be created.

use vstd::prelude::*;
use vstd::string::*;
use crate::action::{lemma_steps_push, steps, Action, ActionView};
use crate::app::{action_views, App};
use crate::keymap::KeyMap;
use crate::text::{chars_of, find_char, text_between};

verus! {

/// What the file system showed at the path that a key is bound to.
#[derive(PartialEq, Eq, Clone, Copy, Debug)]
pub enum PathKind {
    /// Nothing is there.
    Missing,
    /// A directory is there.
    Directory,
    /// Something is there that is no directory.
    Other,
}

/// The folder that a key is bound to, with what was found there.
#[derive(Debug)]
pub struct Target {
    pub path: String,
    pub kind: PathKind,
}

/// Why a binding was refused.
#[derive(PartialEq, Eq, Clone, Debug)]
pub enum BindError {
    /// The argument holds no `=`.
    MissingSeparator(String),
    /// Nothing stands before the `=`.
    EmptyKey,
    /// More than one character stands before the `=`.
    LongKey,
    /// The path exists and is no directory.
    InvalidBindingTarget(String),
}

/// What `KEY=FOLDER` binds: the one character before the first `=`, and all
/// that follows that `=`.
pub open spec fn key_val(arg: Seq<char>) -> Option<(char, Seq<char>)> {
    match find_char(arg, '=', 0) {
        Some(at) => if at == 1 {
            Some((arg[0], arg.skip(2)))
        } else {
            None
        },
        None => None,
    }
}

/// The text that tells the user of the error.
pub open spec fn error_text(error: BindError) -> Seq<char> {
    match error {
        BindError::MissingSeparator(arg) => "invalid KEY=value: no `=` found in `"@ + arg@
            + "`"@,
        BindError::EmptyKey => "cannot parse char from empty string"@,
        BindError::LongKey => "too many characters in string"@,
        BindError::InvalidBindingTarget(path) => path@ + " exists and it's not a directory!"@,
    }
}

impl BindError {
    /// The text that tells the user of the error.
    pub fn message(&self) -> (text: String)
        ensures
            text@ == error_text(*self),
    {
        match self {
            BindError::MissingSeparator(arg) => {
                let mut text = String::from_str("invalid KEY=value: no `=` found in `");
                text.append(arg.as_str());
                text.append("`");
                text
            },
            BindError::EmptyKey => String::from_str("cannot parse char from empty string"),
            BindError::LongKey => String::from_str("too many characters in string"),
            BindError::InvalidBindingTarget(path) => {
                let mut text = path.clone();
                text.append(" exists and it's not a directory!");
                text
            },
        }
    }
}

/// Reads one `KEY=FOLDER` argument. The folder is handed back as it was
/// written.
pub fn parse_key_val(arg: &str) -> (bound: Result<(char, String), BindError>)
    ensures
        match bound {
            Ok((key, folder)) => key_val(arg@) == Some((key, folder@)),
            Err(BindError::MissingSeparator(text)) => find_char(arg@, '=', 0).is_none() && text@
                == arg@,
            Err(BindError::EmptyKey) => find_char(arg@, '=', 0) == Some(0nat),
            Err(BindError::LongKey) => find_char(arg@, '=', 0) matches Some(at) && at > 1,
            Err(BindError::InvalidBindingTarget(_)) => false,
        },
{
    let chars = chars_of(arg);
    let mut at: usize = 0;
    while at < chars.len() && chars[at] != '='
        invariant
            at <= chars.len(),
            chars@ == arg@,
            find_char(arg@, '=', 0) == find_char(arg@, '=', at as nat),
        decreases chars.len() - at,
    {
        at = at + 1;
    }
    if at == chars.len() {
        return Err(BindError::MissingSeparator(String::from_str(arg)));
    }
    if at == 0 {
        return Err(BindError::EmptyKey);
    }
    if at > 1 {
        return Err(BindError::LongKey);
    }
    let folder = text_between(&chars, 2, chars.len());
    Ok((chars[0], folder))
}

/// The first binding of `args[from..]` whose path exists and is no directory.
pub open spec fn first_invalid(args: Seq<(char, Target)>, from: nat) -> Option<nat>
    decreases args.len() - from,
{
    if from >= args.len() {
        None
    } else if args[from as int].1.kind == PathKind::Other {
        Some(from)
    } else {
        first_invalid(args, from + 1)
    }
}

/// The key map that the first `upto` bindings make: each key with the folder
/// of its last binding.
pub open spec fn bound_keys(args: Seq<(char, Target)>, upto: nat) -> Map<char, Seq<char>>
    decreases upto,
{
    if upto == 0 || upto > args.len() {
        Map::empty()
    } else {
        let (key, target) = args[upto - 1];
        bound_keys(args, (upto - 1) as nat).insert(key, target.path@)
    }
}

/// The folders that the first `upto` bindings ask to be created: one for each
/// path at which nothing was found, in the order of the bindings.
pub open spec fn seeded(args: Seq<(char, Target)>, upto: nat) -> Seq<ActionView>
    decreases upto,
{
    if upto == 0 || upto > args.len() {
        Seq::empty()
    } else {
        let before = seeded(args, (upto - 1) as nat);
        let target = args[upto - 1].1;
        if target.kind == PathKind::Missing {
            before.push(ActionView::MkDir(target.path@))
        } else {
            before
        }
    }
}

/// The folders to create consume no image, and undo leaves each of them.
pub proof fn lemma_seeded_are_folders(args: Seq<(char, Target)>, upto: nat)
    ensures
        steps(seeded(args, upto)) == 0,
        forall|i: int| 0 <= i < seeded(args, upto).len() ==> seeded(args, upto)[i] is MkDir,
    decreases upto,
{
    if upto == 0 || upto > args.len() {
    } else {
        lemma_seeded_are_folders(args, (upto - 1) as nat);
        let before = seeded(args, (upto - 1) as nat);
        let target = args[upto - 1].1;
        if target.kind == PathKind::Missing {
            lemma_steps_push(before, ActionView::MkDir(target.path@));
        }
    }
}

impl App {
    /// The key map and the first actions of a session. A binding to a path
    /// that exists and is no directory is refused, and nothing is built then;
    /// the error names the first such path. Otherwise every key is bound to
    /// the folder of its last binding, and for each path at which nothing was
    /// found the queue gets one `MkDir`, in the order of the bindings.
    pub fn parse_key_mapping(args: Vec<(char, Target)>) -> (parsed: Result<
        (KeyMap, Vec<Action>),
        BindError,
    >)
        ensures
            match parsed {
                Ok((keys, actions)) => {
                    &&& first_invalid(args@, 0).is_none()
                    &&& keys@ == bound_keys(args@, args@.len())
                    &&& action_views(actions@) == seeded(args@, args@.len())
                },
                Err(BindError::InvalidBindingTarget(path)) => first_invalid(args@, 0) matches Some(
                    at,
                ) && path@ == args@[at as int].1.path@,
                Err(_) => false,
            },
    {
        let mut keys = KeyMap::new();
        let mut actions: Vec<Action> = Vec::new();
        let mut i: usize = 0;
        while i < args.len()
            invariant
                i <= args.len(),
                first_invalid(args@, 0) == first_invalid(args@, i as nat),
                keys@ == bound_keys(args@, i as nat),
                action_views(actions@) == seeded(args@, i as nat),
            decreases args.len() - i,
        {
            let key = args[i].0;
            let target = &args[i].1;
            match target.kind {
                PathKind::Other => {
                    return Err(BindError::InvalidBindingTarget(target.path.clone()));
                },
                PathKind::Missing => {
                    let folder = target.path.clone();
                    actions.push(Action::MkDir(folder));
                },
                PathKind::Directory => {},
            }
            keys.insert(key, target.path.clone());
            i = i + 1;
        }
        Ok((keys, actions))
    }
}

} // verus!
