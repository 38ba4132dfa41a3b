//! The session itself: the images, the cursor and the queue of actions.

use vstd::prelude::*;
use crate::action::{lemma_steps_push, Action, ActionView};
use crate::binding::{
    bound_keys, first_invalid, lemma_seeded_are_folders, seeded, BindError, Target,
};
use crate::discover::{discovered, Entry};
use crate::keymap::KeyMap;
use crate::paths::file_name_chars;
use crate::prompt::{Edit, Prompt};
use crate::script::{script_of, script_text};
use crate::session::{lemma_edit_keeps_valid, lemma_steps_last, AppView};
use crate::text::text_of;

verus! {

/// The two screens of the sorter.
#[derive(PartialEq, Eq, Clone, Copy, Debug, Structural)]
pub enum TabId {
    Main,
    Script,
}

/// The views of a run of actions.
pub open spec fn action_views(actions: Seq<Action>) -> Seq<ActionView> {
    actions.map_values(|a: Action| a@)
}

/// The characters of each path of a list.
pub open spec fn path_views(paths: Seq<String>) -> Seq<Seq<char>> {
    paths.map_values(|p: String| p@)
}

/// What a session is started with: the key bindings and the paths to sort,
/// each with what the file system showed there, and the settings.
pub struct Opt {
    /// The folder of each bound key.
    pub bind: Vec<(char, Target)>,
    /// The images and the folders of images to sort.
    pub input: Vec<Entry>,
    /// Whether the folders inside a folder are searched too.
    pub recurse: bool,
    /// Where the script is to be written.
    pub output: String,
    /// The time between two ticks of the screen, in milliseconds.
    pub tick_rate: u64,
}

/// The queue and its cursor, which change together.
struct Log {
    actions: Vec<Action>,
    current: usize,
}

/// A sorting session. Its cursor always equals the sum of the steps of the
/// actions in its queue and never passes the last image.
pub struct App {
    tab: TabId,
    script_offset: (u16, u16),
    images: Vec<String>,
    log: Log,
    key_mapping: KeyMap,
    output: String,
    enable_input: bool,
    prompt: Prompt,
}

impl View for App {
    type V = AppView;

    closed spec fn view(&self) -> AppView {
        AppView {
            tab: self.tab,
            script_offset: self.script_offset,
            images: path_views(self.images@),
            current: self.log.current as nat,
            key_mapping: self.key_mapping@,
            actions: action_views(self.log.actions@),
            output: self.output@,
            enable_input: self.enable_input,
            input: self.prompt@.text,
            input_idx: self.prompt@.caret,
        }
    }
}

impl Default for App {
    /// A session without images, bindings or actions.
    fn default() -> (app: App)
        ensures
            app@ == (AppView {
                tab: TabId::Main,
                script_offset: (0, 0),
                images: Seq::empty(),
                current: 0,
                key_mapping: Map::empty(),
                actions: Seq::empty(),
                output: Seq::empty(),
                enable_input: false,
                input: Seq::empty(),
                input_idx: 0,
            }),
            app@.valid(),
    {
        let app = App {
            tab: TabId::Main,
            script_offset: (0, 0),
            images: Vec::new(),
            log: Log { actions: Vec::new(), current: 0 },
            key_mapping: KeyMap::new(),
            output: String::new(),
            enable_input: false,
            prompt: Prompt::new(),
        };
        assert(app@.images =~= Seq::empty());
        assert(app@.actions =~= Seq::empty());
        app
    }
}

impl App {
    /// What holds of every value of the type.
    #[verifier::type_invariant]
    spec fn inv(&self) -> bool {
        self@.valid()
    }

    /// Starts a session: finds the images and binds the keys. A binding to a
    /// path that exists and is no directory is refused, and no session is
    /// built then. Otherwise the session stands at its first image, on the
    /// main screen, and its queue holds one `MkDir` for each bound folder that
    /// does not exist yet.
    pub fn new(opt: Opt) -> (made: Result<App, BindError>)
        ensures
            match made {
                Ok(app) => {
                    &&& first_invalid(opt.bind@, 0).is_none()
                    &&& app@ == (AppView {
                        tab: TabId::Main,
                        script_offset: (0, 0),
                        images: discovered(opt.input@, opt.recurse),
                        current: 0,
                        key_mapping: bound_keys(opt.bind@, opt.bind@.len()),
                        actions: seeded(opt.bind@, opt.bind@.len()),
                        output: opt.output@,
                        enable_input: false,
                        input: Seq::empty(),
                        input_idx: 0,
                    })
                    &&& app@.valid()
                },
                Err(BindError::InvalidBindingTarget(path)) => first_invalid(opt.bind@, 0) matches Some(
                    at,
                ) && path@ == opt.bind@[at as int].1.path@,
                Err(_) => false,
            },
    {
        let Opt { bind, input, recurse, output, tick_rate: _ } = opt;
        let images = App::parse_images(input, recurse);
        let (key_mapping, actions) = match App::parse_key_mapping(bind) {
            Ok(parsed) => parsed,
            Err(error) => {
                return Err(error);
            },
        };
        proof {
            lemma_seeded_are_folders(bind@, bind@.len());
        }
        Ok(
            App {
                tab: TabId::Main,
                script_offset: (0, 0),
                images,
                log: Log { actions, current: 0 },
                key_mapping,
                output,
                enable_input: false,
                prompt: Prompt::new(),
            },
        )
    }

    /// The images of the session, in the order in which they were found.
    pub fn images(&self) -> (images: &Vec<String>)
        ensures
            path_views(images@) == self@.images,
            self@.valid(),
    {
        proof {
            use_type_invariant(self);
        }
        &self.images
    }

    /// The cursor: how many images have been decided.
    pub fn current(&self) -> (current: usize)
        ensures
            current == self@.current,
            self@.valid(),
    {
        proof {
            use_type_invariant(self);
        }
        self.log.current
    }

    /// The queue of pending actions, oldest first.
    pub fn actions(&self) -> (actions: &Vec<Action>)
        ensures
            action_views(actions@) == self@.actions,
            self@.valid(),
    {
        proof {
            use_type_invariant(self);
        }
        &self.log.actions
    }

    /// The folders that the keys are bound to.
    pub fn key_mapping(&self) -> (keys: &KeyMap)
        ensures
            keys@ == self@.key_mapping,
    {
        &self.key_mapping
    }

    /// Where the script is to be written.
    pub fn output(&self) -> (output: &String)
        ensures
            output@ == self@.output,
    {
        &self.output
    }

    /// Whether the rename prompt is open.
    pub fn enable_input(&self) -> (open: bool)
        ensures
            open == self@.enable_input,
    {
        self.enable_input
    }

    /// The text of the rename prompt.
    pub fn input(&self) -> (input: &Vec<char>)
        ensures
            input@ == self@.input,
    {
        self.prompt.chars()
    }

    /// The place of the caret in the rename prompt.
    pub fn input_idx(&self) -> (at: usize)
        ensures
            at == self@.input_idx,
            at <= self@.input.len(),
    {
        self.prompt.cursor()
    }

    /// How far the script is scrolled: lines down, then columns right.
    pub fn script_offset(&self) -> (offset: (u16, u16))
        ensures
            offset == self@.script_offset,
    {
        self.script_offset
    }

    /// The screen that is shown.
    pub fn current_tab(&self) -> (tab: TabId)
        ensures
            tab == self@.tab,
    {
        self.tab
    }

    /// The image under the cursor, or `None` when every image is decided.
    pub fn current_image(&self) -> (image: Option<String>)
        ensures
            match image {
                Some(path) => self@.current_image() == Some(path@),
                None => self@.current_image().is_none(),
            },
    {
        proof {
            use_type_invariant(self);
        }
        if self.log.current == self.images.len() {
            return None;
        }
        Some(self.images[self.log.current].clone())
    }

    /// Undo: takes the last action back. See [`AppView::pop`].
    pub fn pop_action(&mut self)
        ensures
            final(self)@ == old(self)@.pop(),
            final(self)@.valid(),
    {
        proof {
            use_type_invariant(&*self);
        }
        let mut log = Log { actions: Vec::new(), current: 0 };
        std::mem::swap(&mut log, &mut self.log);
        let n = log.actions.len();
        if n > 0 {
            proof {
                lemma_steps_last(action_views(log.actions@));
                assert(action_views(log.actions@.drop_last()) =~= action_views(
                    log.actions@,
                ).drop_last());
            }
            let step = log.actions[n - 1].queue_step();
            if log.actions[n - 1].is_poppable() {
                log.actions.pop();
            }
            log.current = log.current - step;
        }
        self.log = log;
    }

    /// Offers an action to the queue. See [`AppView::push`].
    pub fn push_action(&mut self, action: Action)
        ensures
            final(self)@ == old(self)@.push(action@),
            final(self)@.valid(),
    {
        proof {
            use_type_invariant(&*self);
        }
        let step = action.queue_step();
        if step == 1 && self.log.current == self.images.len() {
            return;
        }
        let mut log = Log { actions: Vec::new(), current: 0 };
        std::mem::swap(&mut log, &mut self.log);
        proof {
            lemma_steps_push(action_views(log.actions@), action@);
            assert(action_views(log.actions@.push(action)) =~= action_views(log.actions@).push(
                action@,
            ));
        }
        log.current = log.current + step;
        log.actions.push(action);
        self.log = log;
    }

    /// Shows the other screen, the script from its start.
    pub fn switch_tab(&mut self)
        ensures
            final(self)@ == old(self)@.switch_tab(),
            final(self)@.valid(),
    {
        proof {
            use_type_invariant(&*self);
        }
        self.tab =
        match self.tab {
            TabId::Main => TabId::Script,
            TabId::Script => TabId::Main,
        };
        self.script_offset = (0, 0);
    }

    /// Scrolls the script one line up, unless it is at its first line.
    pub fn scroll_up(&mut self)
        ensures
            final(self)@ == old(self)@.scroll_up(),
            final(self)@.valid(),
    {
        proof {
            use_type_invariant(&*self);
        }
        let (y, x) = self.script_offset;
        if y > 0 {
            self.script_offset = (y - 1, x);
        }
    }

    /// Scrolls the script one line down, unless it is three lines past its
    /// last action.
    pub fn scroll_down(&mut self)
        ensures
            final(self)@ == old(self)@.scroll_down(),
            final(self)@.valid(),
    {
        proof {
            use_type_invariant(&*self);
        }
        let (y, x) = self.script_offset;
        let lines = self.log.actions.len();
        if y < u16::MAX && (lines >= u16::MAX as usize || (y as usize) < lines + 3) {
            self.script_offset = (y + 1, x);
        }
    }

    /// Scrolls the script one column left, unless it is at its first column.
    pub fn scroll_left(&mut self)
        ensures
            final(self)@ == old(self)@.scroll_left(),
            final(self)@.valid(),
    {
        proof {
            use_type_invariant(&*self);
        }
        let (y, x) = self.script_offset;
        if x > 0 {
            self.script_offset = (y, x - 1);
        }
    }

    /// Scrolls the script one column right, as far as a `u16` counts.
    pub fn scroll_right(&mut self)
        ensures
            final(self)@ == old(self)@.scroll_right(),
            final(self)@.valid(),
    {
        proof {
            use_type_invariant(&*self);
        }
        let (y, x) = self.script_offset;
        if x < u16::MAX {
            self.script_offset = (y, x + 1);
        }
    }

    /// Opens the rename prompt on the file name of the image under the
    /// cursor. See [`AppView::rename_current_image`].
    pub fn rename_current_image(&mut self)
        ensures
            final(self)@ == old(self)@.rename_current_image(),
            final(self)@.valid(),
    {
        proof {
            use_type_invariant(&*self);
        }
        if let Some(current_image) = self.current_image() {
            if let Some(name) = file_name_chars(current_image.as_str()) {
                self.prompt = Prompt::with_text(name);
                self.enable_input = true;
            }
        }
    }

    /// Carries out one editing command in the rename prompt.
    pub fn edit_input(&mut self, edit: Edit)
        ensures
            final(self)@ == old(self)@.edit(edit),
            final(self)@.valid(),
    {
        proof {
            use_type_invariant(&*self);
            lemma_edit_keeps_valid(self@, edit);
        }
        let mut prompt = Prompt::new();
        std::mem::swap(&mut prompt, &mut self.prompt);
        prompt.apply(edit);
        self.prompt = prompt;
    }

    /// Leaves the rename prompt without a new name. Its text stays.
    pub fn close_input(&mut self)
        ensures
            final(self)@ == old(self)@.close_input(),
            final(self)@.valid(),
    {
        proof {
            use_type_invariant(&*self);
        }
        self.enable_input = false;
    }

    /// Takes the text of the rename prompt as the new name: offers the rename
    /// to the queue and closes the prompt.
    pub fn submit_input(&mut self)
        ensures
            final(self)@ == old(self)@.submit_input(),
            final(self)@.valid(),
    {
        let name = text_of(self.prompt.chars());
        self.push_action(Action::Rename(name));
        self.close_input();
    }

    /// The shell script that carries out the queue. The queue is left as it
    /// is.
    pub fn script(&self) -> (script: String)
        ensures
            script@ == script_text(self@.actions),
    {
        script_of(&self.log.actions)
    }
}

} // verus!
