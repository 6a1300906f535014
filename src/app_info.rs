//! Application state and the key-driven state machine over it. The machine
//! decides; what it asks of the filesystem or the platform comes back as a
//! `Command` for the front end to carry out, which then reports the outcome.

use vstd::prelude::*;
use crate::filesystem::explorer::{error_text, FsError};
use crate::filesystem::util::{
    entries_view, move_up_in_path, parent_path, DirectoryEntry, SearchIndex,
};

verus! {

/// How keystrokes are read: as commands, or as text typed into the buffer.
#[derive(Clone, Copy, Debug, PartialEq, Eq, Structural)]
pub enum InputMode {
    Normal,
    Typing,
}

/// What the text being typed is for.
#[derive(Clone, Copy, Debug, PartialEq, Eq, Structural)]
pub enum InputType {
    Idle,
    Searching,
    MakeFile,
    RenameFile,
}

/// Which view is shown.
#[derive(Clone, Copy, Debug, PartialEq, Eq, Structural)]
pub enum MenuItem {
    Home,
    Text,
    Search,
    MakeFile,
}

pub open spec fn menu_position(m: MenuItem) -> usize {
    match m {
        MenuItem::Home => 0,
        MenuItem::Text => 1,
        MenuItem::Search => 2,
        MenuItem::MakeFile => 3,
    }
}

impl From<MenuItem> for usize {
    fn from(input: MenuItem) -> (r: usize)
        ensures
            r == menu_position(input),
    {
        match input {
            MenuItem::Home => 0,
            MenuItem::Text => 1,
            MenuItem::Search => 2,
            MenuItem::MakeFile => 3,
        }
    }
}

impl vstd::std_specs::convert::FromSpecImpl<MenuItem> for usize {
    open spec fn obeys_from_spec() -> bool {
        true
    }

    open spec fn from_spec(v: MenuItem) -> usize {
        menu_position(v)
    }
}

/// A keystroke, as far as the state machine tells keys apart.
#[derive(Clone, Copy, Debug, PartialEq, Eq, Structural)]
pub enum Key {
    Char(char),
    Up,
    Down,
    Enter,
    Backspace,
    Esc,
    Other,
}

/// Work that a keystroke asks of the outside world.
#[derive(Clone, Debug, PartialEq, Eq)]
pub enum Command {
    Nothing,
    Quit,
    /// Open the file with the platform's default application.
    Open(String),
    /// Delete the file.
    Delete(String),
    /// Stage the file for a later paste.
    Copy(String),
    /// Paste the staged file into the directory.
    Paste(String),
    /// Create a file `name` in `directory`.
    Create { directory: String, name: String },
    /// Rename `source` to `name` in `directory`, the one that holds it.
    Rename { source: String, directory: String, name: String },
}

pub enum CommandView {
    Nothing,
    Quit,
    Open(Seq<char>),
    Delete(Seq<char>),
    Copy(Seq<char>),
    Paste(Seq<char>),
    Create(Seq<char>, Seq<char>),
    Rename(Seq<char>, Seq<char>, Seq<char>),
}

impl View for Command {
    type V = CommandView;

    open spec fn view(&self) -> CommandView {
        match self {
            Command::Nothing => CommandView::Nothing,
            Command::Quit => CommandView::Quit,
            Command::Open(p) => CommandView::Open(p@),
            Command::Delete(p) => CommandView::Delete(p@),
            Command::Copy(p) => CommandView::Copy(p@),
            Command::Paste(p) => CommandView::Paste(p@),
            Command::Create { directory, name } => CommandView::Create(directory@, name@),
            Command::Rename { source, directory, name } => CommandView::Rename(
                source@,
                directory@,
                name@,
            ),
        }
    }
}

/// The state of the browser.
pub struct App {
    /// Text typed so far.
    pub input: String,
    /// Text last confirmed; while the search view is shown, the query.
    pub message: String,
    /// Outcome of the last operation, empty after a success.
    pub status: String,
    /// Path of the selected entry, or empty when nothing is selected.
    pub selected_file: String,
    pub current_directory: String,
    /// Entry to rename, taken when renaming begins.
    pub rename_source: String,
    pub input_type: InputType,
    pub input_mode: InputMode,
    pub active_menu_item: MenuItem,
    /// Position in whichever list is shown.
    pub list_selection_index: usize,
    pub loaded_files: SearchIndex,
}

pub struct AppView {
    pub input: Seq<char>,
    pub message: Seq<char>,
    pub status: Seq<char>,
    pub selected_file: Seq<char>,
    pub current_directory: Seq<char>,
    pub rename_source: Seq<char>,
    pub input_type: InputType,
    pub input_mode: InputMode,
    pub active_menu_item: MenuItem,
    pub list_selection_index: usize,
    pub loaded_files: Seq<(Seq<char>, Seq<char>)>,
}

impl View for App {
    type V = AppView;

    open spec fn view(&self) -> AppView {
        AppView {
            input: self.input@,
            message: self.message@,
            status: self.status@,
            selected_file: self.selected_file@,
            current_directory: self.current_directory@,
            rename_source: self.rename_source@,
            input_type: self.input_type,
            input_mode: self.input_mode,
            active_menu_item: self.active_menu_item,
            list_selection_index: self.list_selection_index,
            loaded_files: self.loaded_files@,
        }
    }
}

/// Mode, purpose and view agree: typing exactly when there is a purpose,
/// the text view exactly while typing, and no pending text otherwise.
pub open spec fn consistent(v: AppView) -> bool {
    &&& (v.input_mode == InputMode::Normal) == (v.input_type == InputType::Idle)
    &&& (v.input_mode == InputMode::Typing) == (v.active_menu_item == MenuItem::Text)
    &&& v.input_mode == InputMode::Normal ==> v.input.len() == 0
}

/// The index clamped to a list of `n` items (zero for an empty list).
pub open spec fn clamp_index(i: usize, n: usize) -> usize {
    if n == 0 {
        0
    } else if i >= n {
        (n - 1) as usize
    } else {
        i
    }
}

/// One step up a list of `n` items, wrapping from the first to the last.
pub open spec fn index_up(i: usize, n: usize) -> usize {
    if n == 0 {
        i
    } else if clamp_index(i, n) == 0 {
        (n - 1) as usize
    } else {
        (clamp_index(i, n) - 1) as usize
    }
}

/// One step down a list of `n` items, wrapping from the last to the first.
pub open spec fn index_down(i: usize, n: usize) -> usize {
    if n == 0 {
        i
    } else if clamp_index(i, n) + 1 >= n {
        0
    } else {
        (clamp_index(i, n) + 1) as usize
    }
}

/// Back to normal mode with the browse view and no pending text.
pub open spec fn leave_typing(v: AppView) -> AppView {
    AppView {
        input: Seq::empty(),
        input_mode: InputMode::Normal,
        input_type: InputType::Idle,
        active_menu_item: MenuItem::Home,
        ..v
    }
}

/// Into text entry for `purpose`.
pub open spec fn begin_typing(v: AppView, purpose: InputType) -> AppView {
    AppView {
        input: Seq::empty(),
        input_mode: InputMode::Typing,
        input_type: purpose,
        active_menu_item: MenuItem::Text,
        ..v
    }
}

/// Into directory `dir`, at the top of its listing, in the browse view.
pub open spec fn enter_directory(v: AppView, dir: Seq<char>) -> AppView {
    AppView {
        current_directory: dir,
        list_selection_index: 0,
        active_menu_item: MenuItem::Home,
        ..v
    }
}

/// A command on the selected entry, or nothing when none is selected.
pub open spec fn on_selected(v: AppView, c: CommandView) -> CommandView {
    if v.selected_file.len() == 0 {
        CommandView::Nothing
    } else {
        c
    }
}

/// A key in normal mode; `listing` is the list shown, as (path, is a
/// directory) pairs.
pub open spec fn normal_step(v: AppView, key: Key, listing: Seq<(Seq<char>, bool)>) -> (
    AppView,
    CommandView,
) {
    let i = v.list_selection_index;
    let n = listing.len() as usize;
    match key {
        Key::Char('q') => (v, CommandView::Quit),
        Key::Up => (AppView { list_selection_index: index_up(i, n), ..v }, CommandView::Nothing),
        Key::Down => (
            AppView { list_selection_index: index_down(i, n), ..v },
            CommandView::Nothing,
        ),
        Key::Char('o') => (v, on_selected(v, CommandView::Open(v.selected_file))),
        Key::Char('/') => (begin_typing(v, InputType::Searching), CommandView::Nothing),
        Key::Char('n') => (begin_typing(v, InputType::MakeFile), CommandView::Nothing),
        Key::Char('r') => (
            AppView { rename_source: v.selected_file, ..begin_typing(v, InputType::RenameFile) },
            CommandView::Nothing,
        ),
        Key::Char('d') => (v, on_selected(v, CommandView::Delete(v.selected_file))),
        Key::Char('c') => (v, on_selected(v, CommandView::Copy(v.selected_file))),
        Key::Char('v') => (v, CommandView::Paste(v.current_directory)),
        Key::Backspace => match parent_path(v.current_directory) {
            Some(p) => (enter_directory(v, p), CommandView::Nothing),
            None => (v, CommandView::Nothing),
        },
        Key::Enter => if (i as int) < listing.len() && listing[i as int].1 {
            (enter_directory(v, listing[i as int].0), CommandView::Nothing)
        } else {
            (v, CommandView::Nothing)
        },
        Key::Esc => if v.active_menu_item == MenuItem::Search {
            (AppView { active_menu_item: MenuItem::Home, list_selection_index: 0, ..v }, CommandView::Nothing)
        } else {
            (v, CommandView::Nothing)
        },
        _ => (v, CommandView::Nothing),
    }
}

/// Confirming the typed text.
pub open spec fn confirm_step(v: AppView) -> (AppView, CommandView) {
    let text = v.input;
    let done = AppView { message: text, ..leave_typing(v) };
    match v.input_type {
        InputType::Searching => (
            AppView { active_menu_item: MenuItem::Search, list_selection_index: 0, ..done },
            CommandView::Nothing,
        ),
        InputType::MakeFile => (done, CommandView::Create(v.current_directory, text)),
        InputType::RenameFile => match parent_path(v.rename_source) {
            Some(dir) => (done, CommandView::Rename(v.rename_source, dir, text)),
            None => (done, CommandView::Nothing),
        },
        InputType::Idle => (done, CommandView::Nothing),
    }
}

/// A key while typing.
pub open spec fn typing_step(v: AppView, key: Key) -> (AppView, CommandView) {
    match key {
        Key::Enter => confirm_step(v),
        Key::Char(c) => (AppView { input: v.input.push(c), ..v }, CommandView::Nothing),
        Key::Backspace => (
            AppView {
                input: if v.input.len() == 0 {
                    v.input
                } else {
                    v.input.drop_last()
                },
                ..v
            },
            CommandView::Nothing,
        ),
        Key::Esc => (leave_typing(v), CommandView::Nothing),
        _ => (v, CommandView::Nothing),
    }
}

/// The state and command that a key leads to.
pub open spec fn step(v: AppView, key: Key, listing: Seq<(Seq<char>, bool)>) -> (
    AppView,
    CommandView,
) {
    match v.input_mode {
        InputMode::Normal => normal_step(v, key, listing),
        InputMode::Typing => typing_step(v, key),
    }
}

/// After a listing of `listing` is computed: the index clamped to it and
/// the selection set to the entry under it, or emptied for an empty list.
pub open spec fn refreshed(v: AppView, listing: Seq<(Seq<char>, bool)>) -> AppView {
    let i = clamp_index(v.list_selection_index, listing.len() as usize);
    AppView {
        list_selection_index: i,
        selected_file: if listing.len() == 0 {
            Seq::empty()
        } else {
            listing[i as int].0
        },
        ..v
    }
}

/// The status after an operation: empty on success, else the failure's text.
pub open spec fn reported(v: AppView, outcome: Result<(), FsError>) -> AppView {
    AppView {
        status: match outcome {
            Ok(()) => Seq::empty(),
            Err(e) => error_text(e),
        },
        ..v
    }
}

impl App {
    pub open spec fn wf(&self) -> bool {
        &&& consistent(self@)
        &&& self.loaded_files.wf()
    }

    /// Normal mode, browse view, at the top of `start_directory`, with the
    /// index `loaded_files` built at startup.
    pub fn new(start_directory: String, loaded_files: SearchIndex) -> (r: App)
        requires
            loaded_files.wf(),
        ensures
            r.wf(),
            r@ == (AppView {
                input: Seq::empty(),
                message: Seq::empty(),
                status: Seq::empty(),
                selected_file: Seq::empty(),
                current_directory: start_directory@,
                rename_source: Seq::empty(),
                input_type: InputType::Idle,
                input_mode: InputMode::Normal,
                active_menu_item: MenuItem::Home,
                list_selection_index: 0,
                loaded_files: loaded_files@,
            }),
    {
        App {
            input: String::new(),
            message: String::new(),
            status: String::new(),
            selected_file: String::new(),
            current_directory: start_directory,
            rename_source: String::new(),
            input_type: InputType::Idle,
            input_mode: InputMode::Normal,
            active_menu_item: MenuItem::Home,
            list_selection_index: 0,
            loaded_files,
        }
    }

    fn normal_key(&mut self, key: Key, listing: &Vec<DirectoryEntry>) -> (r: Command)
        requires
            old(self).wf(),
            old(self).input_mode == InputMode::Normal,
        ensures
            final(self).wf(),
            (final(self)@, r@) == normal_step(old(self)@, key, entries_view(listing@)),
            key == Key::Backspace && old(self)@.current_directory == seq!['/'] ==> final(self)@
                == old(self)@,
    {
        let n = listing.len();
        match key {
            Key::Char('q') => Command::Quit,
            Key::Up => {
                if n > 0 {
                    let c = if self.list_selection_index >= n {
                        n - 1
                    } else {
                        self.list_selection_index
                    };
                    self.list_selection_index = if c == 0 {
                        n - 1
                    } else {
                        c - 1
                    };
                }
                Command::Nothing
            },
            Key::Down => {
                if n > 0 {
                    let c = if self.list_selection_index >= n {
                        n - 1
                    } else {
                        self.list_selection_index
                    };
                    self.list_selection_index = if c + 1 >= n {
                        0
                    } else {
                        c + 1
                    };
                }
                Command::Nothing
            },
            Key::Char('o') => {
                if self.selected_file.as_str().is_empty() {
                    Command::Nothing
                } else {
                    Command::Open(self.selected_file.clone())
                }
            },
            Key::Char('/') => {
                self.begin_typing(InputType::Searching);
                Command::Nothing
            },
            Key::Char('n') => {
                self.begin_typing(InputType::MakeFile);
                Command::Nothing
            },
            Key::Char('r') => {
                self.begin_typing(InputType::RenameFile);
                self.rename_source = self.selected_file.clone();
                Command::Nothing
            },
            Key::Char('d') => {
                if self.selected_file.as_str().is_empty() {
                    Command::Nothing
                } else {
                    Command::Delete(self.selected_file.clone())
                }
            },
            Key::Char('c') => {
                if self.selected_file.as_str().is_empty() {
                    Command::Nothing
                } else {
                    Command::Copy(self.selected_file.clone())
                }
            },
            Key::Char('v') => Command::Paste(self.current_directory.clone()),
            Key::Backspace => {
                match move_up_in_path(&self.current_directory) {
                    Some(p) => {
                        self.current_directory = p;
                        self.list_selection_index = 0;
                        self.active_menu_item = MenuItem::Home;
                    },
                    None => {},
                }
                Command::Nothing
            },
            Key::Enter => {
                let i = self.list_selection_index;
                if i < n && listing[i].is_directory {
                    self.current_directory = listing[i].path.clone();
                    self.list_selection_index = 0;
                    self.active_menu_item = MenuItem::Home;
                }
                Command::Nothing
            },
            Key::Esc => {
                if self.active_menu_item == MenuItem::Search {
                    self.active_menu_item = MenuItem::Home;
                    self.list_selection_index = 0;
                }
                Command::Nothing
            },
            _ => Command::Nothing,
        }
    }

    fn begin_typing(&mut self, purpose: InputType)
        requires
            purpose != InputType::Idle,
        ensures
            final(self)@ == begin_typing(old(self)@, purpose),
            final(self).loaded_files == old(self).loaded_files,
    {
        self.input = String::new();
        self.input_mode = InputMode::Typing;
        self.input_type = purpose;
        self.active_menu_item = MenuItem::Text;
    }

    fn leave_typing(&mut self)
        ensures
            final(self)@ == leave_typing(old(self)@),
            final(self).loaded_files == old(self).loaded_files,
    {
        self.input = String::new();
        self.input_mode = InputMode::Normal;
        self.input_type = InputType::Idle;
        self.active_menu_item = MenuItem::Home;
    }

    fn typing_key(&mut self, key: Key) -> (r: Command)
        requires
            old(self).wf(),
            old(self).input_mode == InputMode::Typing,
        ensures
            final(self).wf(),
            (final(self)@, r@) == typing_step(old(self)@, key),
    {
        match key {
            Key::Enter => {
                let text = self.input.clone();
                let purpose = self.input_type;
                self.leave_typing();
                self.message = text.clone();
                match purpose {
                    InputType::Searching => {
                        self.active_menu_item = MenuItem::Search;
                        self.list_selection_index = 0;
                        Command::Nothing
                    },
                    InputType::MakeFile => Command::Create {
                        directory: self.current_directory.clone(),
                        name: text,
                    },
                    InputType::RenameFile => match move_up_in_path(&self.rename_source) {
                        Some(directory) => Command::Rename {
                            source: self.rename_source.clone(),
                            directory,
                            name: text,
                        },
                        None => Command::Nothing,
                    },
                    InputType::Idle => Command::Nothing,
                }
            },
            Key::Char(c) => {
                self.input.push(c);
                Command::Nothing
            },
            Key::Backspace => {
                let _ = self.input.pop();
                Command::Nothing
            },
            Key::Esc => {
                self.leave_typing();
                Command::Nothing
            },
            _ => Command::Nothing,
        }
    }

    /// Applies one keystroke; `listing` is the list now shown. The state
    /// changes and the command returned are those of `step`.
    pub fn handle_key(&mut self, key: Key, listing: &Vec<DirectoryEntry>) -> (r: Command)
        requires
            old(self).wf(),
        ensures
            final(self).wf(),
            (final(self)@, r@) == step(old(self)@, key, entries_view(listing@)),
            old(self).input_mode == InputMode::Normal && key == Key::Backspace
                && old(self)@.current_directory == seq!['/'] ==> final(self)@ == old(self)@,
    {
        match self.input_mode {
            InputMode::Normal => self.normal_key(key, listing),
            InputMode::Typing => self.typing_key(key),
        }
    }

    /// Brings the selection in line with a freshly computed listing: the
    /// index is clamped to it and the selected path is the entry under it.
    pub fn refresh_selection(&mut self, listing: &Vec<DirectoryEntry>)
        requires
            old(self).wf(),
        ensures
            final(self).wf(),
            final(self)@ == refreshed(old(self)@, entries_view(listing@)),
    {
        let n = listing.len();
        if n == 0 {
            self.list_selection_index = 0;
            self.selected_file = String::new();
        } else {
            if self.list_selection_index >= n {
                self.list_selection_index = n - 1;
            }
            self.selected_file = listing[self.list_selection_index].path.clone();
        }
    }

    /// Records the outcome of the last operation for display.
    pub fn report(&mut self, outcome: Result<(), FsError>)
        requires
            old(self).wf(),
        ensures
            final(self).wf(),
            final(self)@ == reported(old(self)@, outcome),
    {
        self.status = match outcome {
            Ok(()) => String::new(),
            Err(e) => e.message(),
        };
    }
}

impl Default for App {
    /// A state with no current directory and an empty index.
    fn default() -> (r: App)
        ensures
            r.wf(),
            r@ == (AppView {
                input: Seq::empty(),
                message: Seq::empty(),
                status: Seq::empty(),
                selected_file: Seq::empty(),
                current_directory: Seq::empty(),
                rename_source: Seq::empty(),
                input_type: InputType::Idle,
                input_mode: InputMode::Normal,
                active_menu_item: MenuItem::Home,
                list_selection_index: 0,
                loaded_files: Seq::empty(),
            }),
    {
        App::new(String::new(), SearchIndex::new())
    }
}

/// On a non-empty list, moving up then down, or down then up, comes back to
/// the index started from.
pub proof fn lemma_up_down_round_trip(i: usize, n: usize)
    requires
        i < n,
    ensures
        index_down(index_up(i, n), n) == i,
        index_up(index_down(i, n), n) == i,
{
}

/// Backspace in normal mode leaves everything as it is at the top of the
/// tree, where the current directory has no parent; elsewhere it moves to
/// the parent, at the top of its listing, and asks for nothing.
pub proof fn lemma_backspace_moves_up(v: AppView, listing: Seq<(Seq<char>, bool)>)
    requires
        v.input_mode == InputMode::Normal,
    ensures
        parent_path(v.current_directory) is None ==> step(v, Key::Backspace, listing) == (
            v,
            CommandView::Nothing,
        ),
        parent_path(v.current_directory) matches Some(p) ==> step(v, Key::Backspace, listing) == (
            AppView { current_directory: p, list_selection_index: 0, active_menu_item: MenuItem::Home, ..v },
            CommandView::Nothing,
        ),
{
}

} // verus!
