//! What the screens say: the title of the image, the status, and the script
//! as it is shown.

use vstd::prelude::*;
use vstd::string::*;
use crate::action::{Action, ActionView};
use crate::app::{action_views, App};
use crate::number::{decimal, to_decimal};
use crate::script::{line_of, script_line};
use crate::session::AppView;

verus! {

/// For how many milliseconds the status tells that the script was written.
pub const SAVED_MILLIS: u64 = 2000;

/// One line of the script as it is shown.
#[derive(PartialEq, Eq, Clone, Debug)]
pub struct PreviewLine {
    pub text: String,
    /// Whether the line is a comment, which the shell passes over.
    pub comment: bool,
}

/// The title over the image: its path, with the new name behind it where a
/// rename is the last action of the queue, or the news that no image is left.
pub open spec fn title_text(app: AppView) -> Seq<char> {
    match app.current_image() {
        None => "No more images left to sort"@,
        Some(path) => if app.actions.len() > 0 && app.actions.last() is Rename {
            path + " - Renamed to "@ + app.actions.last()->Rename_0
        } else {
            path
        },
    }
}

/// Whether the status still tells that the script was written: it was
/// written, and less than `SAVED_MILLIS` milliseconds ago.
pub open spec fn just_saved(since_save: Option<u64>) -> bool {
    since_save matches Some(millis) && millis < SAVED_MILLIS
}

/// The status: how many images are decided, of how many; or, right after the
/// script was written, that it was. `since_save` is the time since the script
/// was last written, in milliseconds, if it ever was.
pub open spec fn status_text(app: AppView, since_save: Option<u64>) -> Seq<char> {
    if just_saved(since_save) {
        "Script saved!"@
    } else {
        "Sorted: "@ + decimal(app.current) + "/"@ + decimal(app.images.len())
    }
}

/// The line that the script screen shows for the `i`-th action, and whether
/// it is a comment: the action's line of the script, or, for a skip, a
/// comment that names the image. A rename has none.
pub open spec fn preview_line(actions: Seq<ActionView>, i: int) -> Option<(Seq<char>, bool)> {
    match actions[i] {
        ActionView::Skip(image) => Some(("# Skipped "@ + image, true)),
        _ => match script_line(actions, i) {
            Some(line) => Some((line, false)),
            None => None,
        },
    }
}

/// The lines that the script screen shows for the first `upto` actions, under
/// its three lines of heading.
pub open spec fn preview_upto(app: AppView, upto: nat) -> Seq<(Seq<char>, bool)>
    decreases upto,
{
    if upto == 0 {
        seq![
            ("#!/bin/sh"@, true),
            ("# Press Ctrl+W to save the following script to "@ + app.output, true),
            ("# Use the arrows keys (or h j k l) to scroll"@, true),
        ]
    } else {
        let before = preview_upto(app, (upto - 1) as nat);
        match preview_line(app.actions, upto - 1) {
            Some(line) => before.push(line),
            None => before,
        }
    }
}

/// The text of each line, and whether it is a comment.
pub open spec fn preview_views(lines: Seq<PreviewLine>) -> Seq<(Seq<char>, bool)> {
    lines.map_values(|line: PreviewLine| (line.text@, line.comment))
}

impl App {
    /// The title over the image.
    pub fn image_title(&self) -> (title: String)
        ensures
            title@ == title_text(self@),
    {
        let path = match self.current_image() {
            None => {
                return String::from_str("No more images left to sort");
            },
            Some(path) => path,
        };
        let actions = self.actions();
        let n = actions.len();
        if n > 0 {
            if let Action::Rename(name) = &actions[n - 1] {
                let mut title = path;
                title.append(" - Renamed to ");
                title.append(name.as_str());
                return title;
            }
        }
        path
    }

    /// The status line. `since_save` is the time since the script was last
    /// written, in milliseconds, if it ever was.
    pub fn status(&self, since_save: Option<u64>) -> (status: String)
        ensures
            status@ == status_text(self@, since_save),
    {
        if let Some(millis) = since_save {
            if millis < SAVED_MILLIS {
                return String::from_str("Script saved!");
            }
        }
        let mut status = String::from_str("Sorted: ");
        status.append(to_decimal(self.current()).as_str());
        status.append("/");
        let images = self.images();
        status.append(to_decimal(images.len()).as_str());
        status
    }

    /// The script as the script screen shows it, line by line.
    pub fn preview(&self) -> (lines: Vec<PreviewLine>)
        ensures
            preview_views(lines@) == preview_upto(self@, self@.actions.len()),
    {
        let mut lines: Vec<PreviewLine> = Vec::new();
        lines.push(PreviewLine { text: String::from_str("#!/bin/sh"), comment: true });
        let mut hint = String::from_str("# Press Ctrl+W to save the following script to ");
        hint.append(self.output().as_str());
        lines.push(PreviewLine { text: hint, comment: true });
        lines.push(
            PreviewLine {
                text: String::from_str("# Use the arrows keys (or h j k l) to scroll"),
                comment: true,
            },
        );
        let actions = self.actions();
        let mut i: usize = 0;
        while i < actions.len()
            invariant
                i <= actions.len(),
                action_views(actions@) == self@.actions,
                preview_views(lines@) == preview_upto(self@, i as nat),
            decreases actions.len() - i,
        {
            let shown = match &actions[i] {
                Action::Skip(image) => {
                    let mut text = String::from_str("# Skipped ");
                    text.append(image.as_str());
                    Some(PreviewLine { text, comment: true })
                },
                _ => match line_of(actions, i) {
                    Some(text) => Some(PreviewLine { text, comment: false }),
                    None => None,
                },
            };
            if let Some(line) = shown {
                lines.push(line);
            }
            i = i + 1;
        }
        lines
    }
}

} // verus!
