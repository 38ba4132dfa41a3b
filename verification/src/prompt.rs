//! The one-line prompt in which a new file name is typed.

use vstd::prelude::*;

verus! {

/// One editing command of the prompt.
#[derive(PartialEq, Eq, Clone, Copy, Debug)]
pub enum Edit {
    /// Remove everything from the caret to the end.
    KillToEnd,
    /// Remove everything before the caret.
    KillToStart,
    /// Remove the whole text.
    Clear,
    /// Remove the word before the caret, with the blanks that follow it.
    KillWord,
    /// Put the caret behind the last character.
    End,
    /// Put the caret before the first character.
    Home,
    /// Move the caret one character back.
    Left,
    /// Move the caret one character on.
    Right,
    /// Remove the character before the caret.
    Backspace,
    /// Remove the character under the caret.
    Delete,
    /// Put a character in at the caret.
    Insert(char),
}

/// The prompt as a mathematical value: its text and the place of the caret,
/// counted in characters from the start.
pub struct PromptView {
    pub text: Seq<char>,
    pub caret: nat,
}

/// The place reached from `i` by walking back over blanks.
pub open spec fn skip_blanks_back(text: Seq<char>, i: nat) -> nat
    decreases i,
{
    if 0 < i <= text.len() && text[i - 1] == ' ' {
        skip_blanks_back(text, (i - 1) as nat)
    } else {
        i
    }
}

/// The place reached from `i` by walking back over everything but blanks.
pub open spec fn skip_word_back(text: Seq<char>, i: nat) -> nat
    decreases i,
{
    if 0 < i <= text.len() && text[i - 1] != ' ' {
        skip_word_back(text, (i - 1) as nat)
    } else {
        i
    }
}

/// Where the word before the caret starts: back over the blanks before the
/// caret, then back over the word before them.
pub open spec fn word_start(text: Seq<char>, caret: nat) -> nat {
    skip_word_back(text, skip_blanks_back(text, caret))
}

/// Walking back over blanks does not go forward.
proof fn lemma_skip_blanks_back_bound(text: Seq<char>, i: nat)
    ensures
        skip_blanks_back(text, i) <= i,
    decreases i,
{
    if 0 < i <= text.len() && text[i - 1] == ' ' {
        lemma_skip_blanks_back_bound(text, (i - 1) as nat);
    }
}

/// Walking back over a word does not go forward.
proof fn lemma_skip_word_back_bound(text: Seq<char>, i: nat)
    ensures
        skip_word_back(text, i) <= i,
    decreases i,
{
    if 0 < i <= text.len() && text[i - 1] != ' ' {
        lemma_skip_word_back_bound(text, (i - 1) as nat);
    }
}

impl PromptView {
    /// The caret stands inside the text or right behind it.
    pub open spec fn valid(self) -> bool {
        self.caret <= self.text.len()
    }

    /// The prompt after one editing command.
    pub open spec fn apply(self, edit: Edit) -> PromptView {
        let len = self.text.len();
        let caret = self.caret as int;
        match edit {
            Edit::KillToEnd => PromptView { text: self.text.take(caret), caret: self.caret },
            Edit::KillToStart => PromptView { text: self.text.skip(caret), caret: 0 },
            Edit::Clear => PromptView { text: Seq::empty(), caret: 0 },
            Edit::KillWord => {
                let start = word_start(self.text, self.caret);
                PromptView {
                    text: self.text.take(start as int) + self.text.skip(caret),
                    caret: start,
                }
            },
            Edit::End => PromptView { text: self.text, caret: len },
            Edit::Home => PromptView { text: self.text, caret: 0 },
            Edit::Left => if self.caret > 0 {
                PromptView { text: self.text, caret: (self.caret - 1) as nat }
            } else {
                self
            },
            Edit::Right => if self.caret < len {
                PromptView { text: self.text, caret: self.caret + 1 }
            } else {
                self
            },
            Edit::Backspace => if self.caret > 0 {
                PromptView { text: self.text.remove(caret - 1), caret: (self.caret - 1) as nat }
            } else {
                self
            },
            Edit::Delete => if self.caret < len {
                PromptView { text: self.text.remove(caret), caret: self.caret }
            } else {
                self
            },
            Edit::Insert(c) => PromptView {
                text: self.text.insert(caret, c),
                caret: self.caret + 1,
            },
        }
    }
}

/// Every editing command leaves the caret inside the text.
pub proof fn lemma_apply_keeps_valid(prompt: PromptView, edit: Edit)
    requires
        prompt.valid(),
    ensures
        prompt.apply(edit).valid(),
{
    lemma_skip_blanks_back_bound(prompt.text, prompt.caret);
    lemma_skip_word_back_bound(prompt.text, skip_blanks_back(prompt.text, prompt.caret));
}

/// The text of the prompt and its caret. The caret never leaves the text.
pub struct Prompt {
    chars: Vec<char>,
    cursor: usize,
}

impl View for Prompt {
    type V = PromptView;

    closed spec fn view(&self) -> PromptView {
        PromptView { text: self.chars@, caret: self.cursor as nat }
    }
}

/// Where the word before `cursor` starts in `chars`.
fn find_word_start(chars: &Vec<char>, cursor: usize) -> (start: usize)
    requires
        cursor <= chars.len(),
    ensures
        start == word_start(chars@, cursor as nat),
        start <= cursor,
{
    let mut end: usize = cursor;
    while end > 0 && chars[end - 1] == ' '
        invariant
            end <= cursor <= chars.len(),
            skip_blanks_back(chars@, end as nat) == skip_blanks_back(chars@, cursor as nat),
        decreases end,
    {
        end = end - 1;
    }
    let mut start: usize = end;
    while start > 0 && chars[start - 1] != ' '
        invariant
            start <= end <= chars.len(),
            skip_word_back(chars@, start as nat) == skip_word_back(chars@, end as nat),
        decreases start,
    {
        start = start - 1;
    }
    start
}

impl Prompt {
    /// What holds of every value of the type.
    #[verifier::type_invariant]
    spec fn inv(&self) -> bool {
        self.cursor <= self.chars.len()
    }

    /// An empty prompt.
    pub fn new() -> (prompt: Prompt)
        ensures
            prompt@ == (PromptView { text: Seq::empty(), caret: 0 }),
    {
        Prompt { chars: Vec::new(), cursor: 0 }
    }

    /// A prompt that holds `chars`, with the caret behind them.
    pub fn with_text(chars: Vec<char>) -> (prompt: Prompt)
        ensures
            prompt@ == (PromptView { text: chars@, caret: chars@.len() }),
    {
        let cursor = chars.len();
        Prompt { chars, cursor }
    }

    /// The characters typed so far.
    pub fn chars(&self) -> (chars: &Vec<char>)
        ensures
            chars@ == self@.text,
            self@.valid(),
    {
        proof {
            use_type_invariant(self);
        }
        &self.chars
    }

    /// The place of the caret, counted in characters from the start.
    pub fn cursor(&self) -> (cursor: usize)
        ensures
            cursor == self@.caret,
            self@.valid(),
    {
        proof {
            use_type_invariant(self);
        }
        self.cursor
    }

    /// Carries out one editing command.
    pub fn apply(&mut self, edit: Edit)
        ensures
            final(self)@ == old(self)@.apply(edit),
            final(self)@.valid(),
    {
        proof {
            use_type_invariant(&*self);
            lemma_apply_keeps_valid(self@, edit);
        }
        let mut taken = Prompt { chars: Vec::new(), cursor: 0 };
        std::mem::swap(self, &mut taken);
        let Prompt { mut chars, mut cursor } = taken;
        match edit {
            Edit::KillToEnd => {
                chars.truncate(cursor);
            },
            Edit::KillToStart => {
                chars = chars.split_off(cursor);
                cursor = 0;
            },
            Edit::Clear => {
                chars = Vec::new();
                cursor = 0;
            },
            Edit::KillWord => {
                let start = find_word_start(&chars, cursor);
                let mut rest = chars.split_off(cursor);
                chars.truncate(start);
                chars.append(&mut rest);
                cursor = start;
            },
            Edit::End => {
                cursor = chars.len();
            },
            Edit::Home => {
                cursor = 0;
            },
            Edit::Left => {
                if cursor > 0 {
                    cursor = cursor - 1;
                }
            },
            Edit::Right => {
                if cursor < chars.len() {
                    cursor = cursor + 1;
                }
            },
            Edit::Backspace => {
                if cursor > 0 {
                    chars.remove(cursor - 1);
                    cursor = cursor - 1;
                }
            },
            Edit::Delete => {
                if cursor < chars.len() {
                    chars.remove(cursor);
                }
            },
            Edit::Insert(c) => {
                chars.insert(cursor, c);
                assert(cursor < chars.len());
                cursor = cursor + 1;
            },
        }
        assert(chars@ =~= old(self)@.apply(edit).text);
        *self = Prompt { chars, cursor };
    }
}

} // verus!
