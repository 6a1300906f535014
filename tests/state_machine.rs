use file_explorer::app_info::{App, Command, InputMode, InputType, Key, MenuItem};
use file_explorer::filesystem::explorer::FsError;
use file_explorer::filesystem::util::{DirectoryEntry, SearchIndex};

fn entry(path: &str, is_directory: bool) -> DirectoryEntry {
    let name = path.rsplit('/').next().unwrap().to_string();
    DirectoryEntry {
        name,
        path: path.to_string(),
        is_directory,
        size_bytes: if is_directory { 0 } else { 12 },
        modified_secs: 0,
    }
}

fn start(dir: &str) -> App {
    App::new(dir.to_string(), SearchIndex::new())
}

fn three() -> Vec<DirectoryEntry> {
    vec![entry("/a/x", false), entry("/a/y", false), entry("/a/z", true)]
}

#[test]
fn initial_state_is_normal_browse() {
    let app = start("/a");
    assert_eq!(app.input_mode, InputMode::Normal);
    assert_eq!(app.input_type, InputType::Idle);
    assert_eq!(app.active_menu_item, MenuItem::Home);
    assert_eq!(app.list_selection_index, 0);
    assert_eq!(app.current_directory, "/a");
}

#[test]
fn default_app_has_no_directory() {
    let app = App::default();
    assert_eq!(app.current_directory, "");
    assert_eq!(app.loaded_files.len(), 0);
}

#[test]
fn up_from_first_wraps_to_last() {
    let mut app = start("/a");
    let cmd = app.handle_key(Key::Up, &three());
    assert_eq!(cmd, Command::Nothing);
    assert_eq!(app.list_selection_index, 2);
}

#[test]
fn down_from_last_wraps_to_first() {
    let mut app = start("/a");
    app.list_selection_index = 2;
    app.handle_key(Key::Down, &three());
    assert_eq!(app.list_selection_index, 0);
}

#[test]
fn up_then_down_returns_to_start() {
    let listing = three();
    for i in 0..3 {
        let mut app = start("/a");
        app.list_selection_index = i;
        app.handle_key(Key::Up, &listing);
        app.handle_key(Key::Down, &listing);
        assert_eq!(app.list_selection_index, i);
        app.handle_key(Key::Down, &listing);
        app.handle_key(Key::Up, &listing);
        assert_eq!(app.list_selection_index, i);
    }
}

#[test]
fn up_and_down_on_empty_list_do_nothing() {
    let mut app = start("/a");
    app.handle_key(Key::Up, &Vec::new());
    assert_eq!(app.list_selection_index, 0);
    app.handle_key(Key::Down, &Vec::new());
    assert_eq!(app.list_selection_index, 0);
}

#[test]
fn enter_on_directory_moves_into_it() {
    // /a holds the directory /a/b and the file /a/c.txt
    let listing = vec![entry("/a/b", true), entry("/a/c.txt", false)];
    let mut app = start("/a");
    app.refresh_selection(&listing);
    assert_eq!(app.selected_file, "/a/b");
    let cmd = app.handle_key(Key::Enter, &listing);
    assert_eq!(cmd, Command::Nothing);
    assert_eq!(app.current_directory, "/a/b");
    assert_eq!(app.list_selection_index, 0);
}

#[test]
fn enter_on_file_keeps_directory() {
    let listing = vec![entry("/a/b", true), entry("/a/c.txt", false)];
    let mut app = start("/a");
    app.list_selection_index = 1;
    app.refresh_selection(&listing);
    app.handle_key(Key::Enter, &listing);
    assert_eq!(app.current_directory, "/a");
    assert_eq!(app.list_selection_index, 1);
}

#[test]
fn backspace_at_root_is_a_no_op() {
    let mut app = start("/");
    app.list_selection_index = 1;
    app.handle_key(Key::Backspace, &three());
    assert_eq!(app.current_directory, "/");
    assert_eq!(app.list_selection_index, 1);
}

#[test]
fn backspace_moves_to_parent() {
    let mut app = start("/a/b");
    app.list_selection_index = 2;
    app.handle_key(Key::Backspace, &three());
    assert_eq!(app.current_directory, "/a");
    assert_eq!(app.list_selection_index, 0);
}

#[test]
fn quit_key_quits() {
    let mut app = start("/a");
    assert_eq!(app.handle_key(Key::Char('q'), &three()), Command::Quit);
}

#[test]
fn search_flow_switches_to_search_view() {
    let mut app = start("/a");
    app.handle_key(Key::Char('/'), &three());
    assert_eq!(app.input_mode, InputMode::Typing);
    assert_eq!(app.input_type, InputType::Searching);
    assert_eq!(app.active_menu_item, MenuItem::Text);
    for c in "rep".chars() {
        app.handle_key(Key::Char(c), &three());
    }
    app.handle_key(Key::Backspace, &three());
    assert_eq!(app.input, "re");
    let cmd = app.handle_key(Key::Enter, &three());
    assert_eq!(cmd, Command::Nothing);
    assert_eq!(app.message, "re");
    assert_eq!(app.input, "");
    assert_eq!(app.input_mode, InputMode::Normal);
    assert_eq!(app.active_menu_item, MenuItem::Search);
    app.handle_key(Key::Esc, &three());
    assert_eq!(app.active_menu_item, MenuItem::Home);
}

#[test]
fn q_while_typing_is_text() {
    let mut app = start("/a");
    app.handle_key(Key::Char('n'), &three());
    let cmd = app.handle_key(Key::Char('q'), &three());
    assert_eq!(cmd, Command::Nothing);
    assert_eq!(app.input, "q");
}

#[test]
fn escape_discards_typed_text() {
    let mut app = start("/a");
    app.handle_key(Key::Char('n'), &three());
    app.handle_key(Key::Char('z'), &three());
    app.handle_key(Key::Esc, &three());
    assert_eq!(app.input, "");
    assert_eq!(app.input_mode, InputMode::Normal);
    assert_eq!(app.input_type, InputType::Idle);
    assert_eq!(app.active_menu_item, MenuItem::Home);
}

#[test]
fn new_file_confirm_asks_for_creation() {
    let mut app = start("/a");
    app.handle_key(Key::Char('n'), &three());
    for c in "f.txt".chars() {
        app.handle_key(Key::Char(c), &three());
    }
    let cmd = app.handle_key(Key::Enter, &three());
    assert_eq!(
        cmd,
        Command::Create { directory: "/a".to_string(), name: "f.txt".to_string() }
    );
    assert_eq!(app.active_menu_item, MenuItem::Home);
}

#[test]
fn rename_uses_selection_taken_at_start() {
    let listing = three();
    let mut app = start("/a");
    app.refresh_selection(&listing);
    app.handle_key(Key::Char('r'), &listing);
    app.list_selection_index = 1;
    app.refresh_selection(&listing);
    app.handle_key(Key::Char('w'), &listing);
    let cmd = app.handle_key(Key::Enter, &listing);
    assert_eq!(
        cmd,
        Command::Rename {
            source: "/a/x".to_string(),
            directory: "/a".to_string(),
            name: "w".to_string(),
        }
    );
}

#[test]
fn file_commands_name_the_selection() {
    let listing = three();
    let mut app = start("/a");
    app.list_selection_index = 1;
    app.refresh_selection(&listing);
    assert_eq!(app.handle_key(Key::Char('o'), &listing), Command::Open("/a/y".to_string()));
    assert_eq!(app.handle_key(Key::Char('d'), &listing), Command::Delete("/a/y".to_string()));
    assert_eq!(app.handle_key(Key::Char('c'), &listing), Command::Copy("/a/y".to_string()));
    assert_eq!(app.handle_key(Key::Char('v'), &listing), Command::Paste("/a".to_string()));
}

#[test]
fn file_commands_without_selection_do_nothing() {
    let mut app = start("/a");
    app.refresh_selection(&Vec::new());
    assert_eq!(app.handle_key(Key::Char('d'), &Vec::new()), Command::Nothing);
    assert_eq!(app.handle_key(Key::Char('o'), &Vec::new()), Command::Nothing);
}

#[test]
fn refresh_clamps_index_to_shorter_list() {
    let mut app = start("/a");
    app.list_selection_index = 7;
    app.refresh_selection(&three());
    assert_eq!(app.list_selection_index, 2);
    assert_eq!(app.selected_file, "/a/z");
    app.refresh_selection(&Vec::new());
    assert_eq!(app.list_selection_index, 0);
    assert_eq!(app.selected_file, "");
}

#[test]
fn report_sets_status() {
    let mut app = start("/a");
    app.report(Err(FsError::NothingStaged));
    assert_eq!(app.status, "nothing staged");
    app.report(Err(FsError::AlreadyExists));
    assert_eq!(app.status, "already exists");
    app.report(Ok(()));
    assert_eq!(app.status, "");
}

#[test]
fn menu_items_have_positions() {
    assert_eq!(usize::from(MenuItem::Home), 0);
    assert_eq!(usize::from(MenuItem::Text), 1);
    assert_eq!(usize::from(MenuItem::Search), 2);
    assert_eq!(usize::from(MenuItem::MakeFile), 3);
}

#[test]
fn rename_stays_in_the_source_directory() {
    let results = vec![entry("/elsewhere/deep/r.txt", false)];
    let mut app = start("/a");
    app.refresh_selection(&results);
    app.handle_key(Key::Char('r'), &results);
    app.handle_key(Key::Char('s'), &results);
    let cmd = app.handle_key(Key::Enter, &results);
    assert_eq!(
        cmd,
        Command::Rename {
            source: "/elsewhere/deep/r.txt".to_string(),
            directory: "/elsewhere/deep".to_string(),
            name: "s".to_string(),
        }
    );
}

#[test]
fn rename_without_selection_does_nothing() {
    let mut app = start("/a");
    app.refresh_selection(&Vec::new());
    app.handle_key(Key::Char('r'), &Vec::new());
    app.handle_key(Key::Char('s'), &Vec::new());
    assert_eq!(app.handle_key(Key::Enter, &Vec::new()), Command::Nothing);
    assert_eq!(app.input_mode, InputMode::Normal);
}
