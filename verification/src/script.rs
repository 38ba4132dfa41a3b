//! The queue of actions as a shell script.

use vstd::prelude::*;
use vstd::string::*;
use crate::action::{Action, ActionView};
use crate::app::action_views;
use crate::paths::{join, joined};

verus! {

/// Where the `i`-th action, a move into `folder`, puts its image: into the
/// folder under the image's own name, or, if a rename stands right before the
/// move in the queue, into the folder under the new name.
pub open spec fn destination(actions: Seq<ActionView>, i: int, folder: Seq<char>) -> Seq<char> {
    if i > 0 && actions[i - 1] is Rename {
        joined(folder, actions[i - 1]->Rename_0)
    } else {
        folder
    }
}

/// The line of the script that carries out the `i`-th action. A skip and a
/// rename have none, and neither has a place outside the queue.
pub open spec fn script_line(actions: Seq<ActionView>, i: int) -> Option<Seq<char>> {
    if 0 <= i < actions.len() {
        match actions[i] {
            ActionView::MkDir(folder) => Some("mkdir -p \""@ + folder + "\""@),
            ActionView::Move(image, folder) => Some(
                "mv \""@ + image + "\" \""@ + destination(actions, i, folder) + "\""@,
            ),
            ActionView::Delete(image) => Some("rm \""@ + image + "\""@),
            ActionView::Skip(_) | ActionView::Rename(_) => None,
        }
    } else {
        None
    }
}

/// What the `i`-th action adds to the script: a line break and its line, or
/// nothing.
pub open spec fn script_part(actions: Seq<ActionView>, i: int) -> Seq<char> {
    match script_line(actions, i) {
        Some(line) => seq!['\n'] + line,
        None => Seq::empty(),
    }
}

/// The script of the first `upto` actions of a queue: the line `#!/bin/sh`,
/// then the lines of the actions in the order of the queue, each line on its
/// own, with no line break at the end.
pub open spec fn script_upto(actions: Seq<ActionView>, upto: nat) -> Seq<char>
    decreases upto,
{
    if upto == 0 {
        "#!/bin/sh"@
    } else {
        script_upto(actions, (upto - 1) as nat) + script_part(actions, upto - 1)
    }
}

/// The script of a queue.
pub open spec fn script_text(actions: Seq<ActionView>) -> Seq<char> {
    script_upto(actions, actions.len())
}

/// The line of the script that carries out `actions[i]`, if it has one.
pub fn line_of(actions: &Vec<Action>, i: usize) -> (line: Option<String>)
    ensures
        match line {
            Some(text) => script_line(action_views(actions@), i as int) == Some(text@),
            None => script_line(action_views(actions@), i as int).is_none(),
        },
{
    if i >= actions.len() {
        return None;
    }
    match &actions[i] {
        Action::MkDir(folder) => {
            let mut line = String::from_str("mkdir -p \"");
            line.append(folder.as_str());
            line.append("\"");
            Some(line)
        },
        Action::Move(image, folder) => {
            let mut line = String::from_str("mv \"");
            line.append(image.as_str());
            line.append("\" \"");
            if i > 0 {
                match &actions[i - 1] {
                    Action::Rename(name) => {
                        let target = join(folder.as_str(), name.as_str());
                        line.append(target.as_str());
                    },
                    _ => {
                        line.append(folder.as_str());
                    },
                }
            } else {
                line.append(folder.as_str());
            }
            line.append("\"");
            Some(line)
        },
        Action::Delete(image) => {
            let mut line = String::from_str("rm \"");
            line.append(image.as_str());
            line.append("\"");
            Some(line)
        },
        Action::Skip(_) | Action::Rename(_) => None,
    }
}

/// The script that carries out the queue.
pub fn script_of(actions: &Vec<Action>) -> (script: String)
    ensures
        script@ == script_text(action_views(actions@)),
{
    let mut script = String::from_str("#!/bin/sh");
    let mut i: usize = 0;
    while i < actions.len()
        invariant
            i <= actions.len(),
            script@ == script_upto(action_views(actions@), i as nat),
        decreases actions.len() - i,
    {
        match line_of(actions, i) {
            Some(line) => {
                script.push('\n');
                script.append(line.as_str());
            },
            None => {},
        }
        i = i + 1;
    }
    script
}

} // verus!
