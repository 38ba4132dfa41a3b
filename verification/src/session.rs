//! The session as a mathematical value, the transitions of its queue, and
//! what holds of every run of them.

use vstd::prelude::*;
use crate::action::{lemma_steps_push, steps, ActionView};
use crate::app::TabId;
use crate::paths::file_name;
use crate::prompt::{lemma_apply_keeps_valid, Edit, PromptView};

verus! {

/// A session as a mathematical value: the images in discovery order, the
/// cursor, the key bindings, the queue of pending actions, where the script
/// is to be written, and the state of the screens and of the rename prompt.
pub struct AppView {
    pub tab: TabId,
    pub script_offset: (u16, u16),
    pub images: Seq<Seq<char>>,
    pub current: nat,
    pub key_mapping: Map<char, Seq<char>>,
    pub actions: Seq<ActionView>,
    pub output: Seq<char>,
    pub enable_input: bool,
    pub input: Seq<char>,
    pub input_idx: nat,
}

/// One call on the queue.
pub enum QueueOp {
    Push(ActionView),
    Pop,
}

impl AppView {
    /// The cursor counts the images that the queue has consumed and never
    /// passes the last image; the prompt's caret stays inside its text.
    pub open spec fn valid(self) -> bool {
        &&& self.current == steps(self.actions)
        &&& self.current <= self.images.len()
        &&& self.input_idx <= self.input.len()
    }

    /// The image under the cursor, if any is left.
    pub open spec fn current_image(self) -> Option<Seq<char>> {
        if self.current < self.images.len() {
            Some(self.images[self.current as int])
        } else {
            None
        }
    }

    /// Whether the queue takes the action: one that consumes an image needs an
    /// image under the cursor, the others are always taken.
    pub open spec fn accepts(self, action: ActionView) -> bool {
        action.queue_step() == 0 || self.current < self.images.len()
    }

    /// The session after `action` was offered to the queue: the action stands
    /// at the end of the queue and the cursor has moved on by its step, or,
    /// where the queue does not take it, nothing has changed.
    pub open spec fn push(self, action: ActionView) -> AppView {
        if self.accepts(action) {
            AppView {
                actions: self.actions.push(action),
                current: self.current + action.queue_step(),
                ..self
            }
        } else {
            self
        }
    }

    /// The session after one undo: the last action has left the queue, unless
    /// it creates a folder, and the cursor has moved back by its step. Undo
    /// does nothing to an empty queue.
    pub open spec fn pop(self) -> AppView {
        if self.actions.len() == 0 {
            self
        } else {
            let last = self.actions.last();
            AppView {
                actions: if last.is_poppable() {
                    self.actions.drop_last()
                } else {
                    self.actions
                },
                current: (self.current - last.queue_step()) as nat,
                ..self
            }
        }
    }

    /// The session after one call on the queue.
    pub open spec fn step(self, op: QueueOp) -> AppView {
        match op {
            QueueOp::Push(action) => self.push(action),
            QueueOp::Pop => self.pop(),
        }
    }

    /// The session after a run of calls on the queue, first call first.
    pub open spec fn run(self, ops: Seq<QueueOp>) -> AppView
        decreases ops.len(),
    {
        if ops.len() == 0 {
            self
        } else {
            self.run(ops.drop_last()).step(ops.last())
        }
    }

    /// The session after `n` undos.
    pub open spec fn pops(self, n: nat) -> AppView
        decreases n,
    {
        if n == 0 {
            self
        } else {
            self.pops((n - 1) as nat).pop()
        }
    }

    /// The rename prompt.
    pub open spec fn prompt(self) -> PromptView {
        PromptView { text: self.input, caret: self.input_idx }
    }

    /// The session after one editing command in the rename prompt.
    pub open spec fn edit(self, edit: Edit) -> AppView {
        let prompt = self.prompt().apply(edit);
        AppView { input: prompt.text, input_idx: prompt.caret, ..self }
    }

    /// The session after the rename prompt was left without a new name.
    pub open spec fn close_input(self) -> AppView {
        AppView { enable_input: false, ..self }
    }

    /// The session after the text of the prompt was taken as the new name:
    /// the queue was offered the rename, and the prompt is closed.
    pub open spec fn submit_input(self) -> AppView {
        self.push(ActionView::Rename(self.input)).close_input()
    }

    /// The session after a rename was asked for: the prompt opens on the file
    /// name of the image under the cursor, the caret behind it. Nothing
    /// happens where no image is left or the image's path has no file name.
    pub open spec fn rename_current_image(self) -> AppView {
        match self.current_image() {
            Some(path) => match file_name(path) {
                Some(name) => AppView {
                    input: name,
                    input_idx: name.len(),
                    enable_input: true,
                    ..self
                },
                None => self,
            },
            None => self,
        }
    }

    /// The session on the other screen, the script shown from its start.
    pub open spec fn switch_tab(self) -> AppView {
        AppView {
            tab: match self.tab {
                TabId::Main => TabId::Script,
                TabId::Script => TabId::Main,
            },
            script_offset: (0, 0),
            ..self
        }
    }

    /// How far down the script may be scrolled: three lines past its actions,
    /// and no further than a `u16` counts.
    pub open spec fn scroll_limit(self) -> int {
        if self.actions.len() + 3 < u16::MAX {
            (self.actions.len() + 3) as int
        } else {
            u16::MAX as int
        }
    }

    /// The session with the script one line up, unless it is at its first
    /// line.
    pub open spec fn scroll_up(self) -> AppView {
        let (y, x) = self.script_offset;
        if y > 0 {
            AppView { script_offset: ((y - 1) as u16, x), ..self }
        } else {
            self
        }
    }

    /// The session with the script one line down, unless it is at its limit.
    pub open spec fn scroll_down(self) -> AppView {
        let (y, x) = self.script_offset;
        if y < self.scroll_limit() {
            AppView { script_offset: ((y + 1) as u16, x), ..self }
        } else {
            self
        }
    }

    /// The session with the script one column left, unless it is at its first
    /// column.
    pub open spec fn scroll_left(self) -> AppView {
        let (y, x) = self.script_offset;
        if x > 0 {
            AppView { script_offset: (y, (x - 1) as u16), ..self }
        } else {
            self
        }
    }

    /// The session with the script one column right, as far as a `u16`
    /// counts.
    pub open spec fn scroll_right(self) -> AppView {
        let (y, x) = self.script_offset;
        if x < u16::MAX {
            AppView { script_offset: (y, (x + 1) as u16), ..self }
        } else {
            self
        }
    }
}

/// The steps of a queue are those of all but its last action and those of its
/// last action.
pub proof fn lemma_steps_last(actions: Seq<ActionView>)
    requires
        actions.len() > 0,
    ensures
        steps(actions) == steps(actions.drop_last()) + actions.last().queue_step(),
{
}

/// One call on the queue keeps the cursor at the sum of the steps of the
/// actions in the queue and inside `0..=N`, and leaves the images alone.
pub proof fn lemma_step_keeps_valid(app: AppView, op: QueueOp)
    requires
        app.valid(),
    ensures
        app.step(op).valid(),
        app.step(op).images == app.images,
{
    match op {
        QueueOp::Push(action) => {
            lemma_steps_push(app.actions, action);
        },
        QueueOp::Pop => {
            if app.actions.len() > 0 {
                lemma_steps_last(app.actions);
            }
        },
    }
}

/// After any run of pushes and undos the cursor equals the sum of the steps of
/// the actions that are left in the queue, and lies in `0..=N`, `N` being the
/// number of images.
pub proof fn lemma_run_keeps_valid(app: AppView, ops: Seq<QueueOp>)
    requires
        app.valid(),
    ensures
        app.run(ops).valid(),
        app.run(ops).images == app.images,
        app.run(ops).current == steps(app.run(ops).actions),
        0 <= app.run(ops).current <= app.images.len(),
    decreases ops.len(),
{
    if ops.len() > 0 {
        lemma_run_keeps_valid(app, ops.drop_last());
        lemma_step_keeps_valid(app.run(ops.drop_last()), ops.last());
    }
}

/// Undo on an empty queue, however often, changes nothing: the queue stays
/// empty and the cursor stays at 0.
pub proof fn lemma_pops_on_empty(app: AppView, n: nat)
    requires
        app.valid(),
        app.actions.len() == 0,
    ensures
        app.pops(n) == app,
        app.pops(n).current == 0,
        app.pops(n).actions.len() == 0,
    decreases n,
{
    if n > 0 {
        lemma_pops_on_empty(app, (n - 1) as nat);
    }
}

/// A skip that is undone leaves the session as it was, whatever the image.
/// This needs an image under the cursor, or a queue whose last action undo
/// cannot take: past the last image the skip is not taken, and the undo then
/// takes back an older action.
pub proof fn lemma_skip_then_undo(app: AppView, image: Seq<char>)
    requires
        app.current < app.images.len() || app.actions.len() == 0
            || !app.actions.last().is_poppable(),
    ensures
        app.push(ActionView::Skip(image)).pop() == app,
{
    let skip = ActionView::Skip(image);
    if app.accepts(skip) {
        assert(app.actions.push(skip).drop_last() =~= app.actions);
    }
}

/// Whether every action of a queue creates a folder.
pub open spec fn all_folders(actions: Seq<ActionView>) -> bool {
    forall|i: int| 0 <= i < actions.len() ==> (#[trigger] actions[i]) is MkDir
}

/// Whether `head` is how `actions` starts.
pub open spec fn starts_with(actions: Seq<ActionView>, head: Seq<ActionView>) -> bool {
    head.len() <= actions.len() && actions.take(head.len() as int) == head
}

/// A queue of folders to create consumes no image.
pub proof fn lemma_folders_take_no_step(actions: Seq<ActionView>)
    requires
        all_folders(actions),
    ensures
        steps(actions) == 0,
    decreases actions.len(),
{
    if actions.len() > 0 {
        lemma_folders_take_no_step(actions.drop_last());
    }
}

/// One call on the queue leaves the folders that a session started with at
/// the head of the queue.
proof fn lemma_step_keeps_head(app: AppView, head: Seq<ActionView>, op: QueueOp)
    requires
        all_folders(head),
        starts_with(app.actions, head),
    ensures
        starts_with(app.step(op).actions, head),
{
    let n = head.len() as int;
    match op {
        QueueOp::Push(action) => {
            assert(app.actions.push(action).take(n) =~= app.actions.take(n));
        },
        QueueOp::Pop => {
            if app.actions.len() > 0 {
                let last = app.actions.last();
                if last.is_poppable() {
                    if app.actions.len() == n {
                        assert(head[n - 1] is MkDir);
                    }
                    assert(app.actions.drop_last().take(n) =~= app.actions.take(n));
                }
            }
        },
    }
}

/// The folders that a session starts with are never removed: after any run
/// of pushes and undos they still stand at the head of the queue, in their
/// order. They consume no image: a session that holds nothing else has its
/// cursor at 0, and to push one leaves the cursor where it was.
pub proof fn lemma_folders_stay(app: AppView, ops: Seq<QueueOp>, folder: Seq<char>)
    requires
        app.valid(),
        all_folders(app.actions),
    ensures
        starts_with(app.run(ops).actions, app.actions),
        app.current == 0,
        app.push(ActionView::MkDir(folder)).current == app.current,
    decreases ops.len(),
{
    lemma_folders_take_no_step(app.actions);
    if ops.len() == 0 {
        assert(app.actions.take(app.actions.len() as int) =~= app.actions);
    } else {
        lemma_folders_stay(app, ops.drop_last(), folder);
        lemma_step_keeps_head(app.run(ops.drop_last()), app.actions, ops.last());
    }
}

/// An editing command keeps a valid session valid.
pub proof fn lemma_edit_keeps_valid(app: AppView, edit: Edit)
    requires
        app.valid(),
    ensures
        app.edit(edit).valid(),
{
    lemma_apply_keeps_valid(app.prompt(), edit);
}

} // verus!
