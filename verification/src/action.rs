//! Pending actions and what each one does to the cursor.

use vstd::prelude::*;

verus! {

/// One pending decision of the session. Paths and names are kept as text.
#[derive(PartialEq, Eq, Clone, Debug)]
pub enum Action {
    /// The image was passed over.
    Skip(String),
    /// The image goes into the folder.
    Move(String, String),
    /// The image that is moved next gets this file name.
    Rename(String),
    /// The folder has to be created before anything is moved into it.
    MkDir(String),
    /// The image is to be removed.
    Delete(String),
}

/// An action with every path and name as its sequence of characters.
pub enum ActionView {
    Skip(Seq<char>),
    Move(Seq<char>, Seq<char>),
    Rename(Seq<char>),
    MkDir(Seq<char>),
    Delete(Seq<char>),
}

impl View for Action {
    type V = ActionView;

    open spec fn view(&self) -> ActionView {
        match *self {
            Action::Skip(image) => ActionView::Skip(image@),
            Action::Move(image, folder) => ActionView::Move(image@, folder@),
            Action::Rename(name) => ActionView::Rename(name@),
            Action::MkDir(folder) => ActionView::MkDir(folder@),
            Action::Delete(image) => ActionView::Delete(image@),
        }
    }
}

impl ActionView {
    /// Undo may take every action back but the creation of a folder.
    pub open spec fn is_poppable(self) -> bool {
        !(self is MkDir)
    }

    /// How many images the action consumes: one for a skip, a move or a
    /// deletion, none for a rename or the creation of a folder.
    pub open spec fn queue_step(self) -> nat {
        match self {
            ActionView::Skip(_) | ActionView::Move(_, _) | ActionView::Delete(_) => 1,
            ActionView::Rename(_) | ActionView::MkDir(_) => 0,
        }
    }
}

/// The images consumed by a whole queue: the sum of its actions' steps.
pub open spec fn steps(actions: Seq<ActionView>) -> nat
    decreases actions.len(),
{
    if actions.len() == 0 {
        0
    } else {
        steps(actions.drop_last()) + actions.last().queue_step()
    }
}

/// Appending an action adds its step to the sum.
pub proof fn lemma_steps_push(actions: Seq<ActionView>, action: ActionView)
    ensures
        steps(actions.push(action)) == steps(actions) + action.queue_step(),
{
    assert(actions.push(action).drop_last() =~= actions);
}

impl Action {
    /// Whether undo may take the action back.
    pub fn is_poppable(&self) -> (poppable: bool)
        ensures
            poppable == self@.is_poppable(),
    {
        !matches!(self, Action::MkDir(_))
    }

    /// How many images the action consumes: 0 or 1.
    pub fn queue_step(&self) -> (step: usize)
        ensures
            step == self@.queue_step(),
    {
        match self {
            Action::Skip(_) | Action::Move(_, _) | Action::Delete(_) => 1,
            Action::Rename(_) | Action::MkDir(_) => 0,
        }
    }
}

} // verus!
