use notes_core::app::{Action, App, InputMode, Key, Window};
use notes_core::lines::{edit_note, parse_notes_file, split_lines, style_of, LineStyle};

fn sample_app() -> App {
    let files = vec![String::from("a.txt"), String::from("b.txt")];
    let lines = parse_notes_file(Some("one\n~two\n*three\n"));
    App::new(files, lines, String::from("/notes")).unwrap()
}

#[test]
fn empty_directory_is_refused_up_front() {
    // The fail-fast precondition: no note files, no session.
    let r = App::new(Vec::new(), Vec::new(), String::from("/notes"));
    assert!(r.is_none());
}

#[test]
fn fresh_session_selects_the_first_file() {
    let app = sample_app();
    assert_eq!(app.files.get_current_index(), Some(0));
    assert_eq!(app.files.get_current(), "a.txt");
    assert_eq!(app.get_current_file_path(), "/notes/a.txt");
    assert_eq!(app.content, vec!["one", "~two", "*three"]);
    assert_eq!(app.content_state.get_current_index(), None);
    assert_eq!(app.focused_window, Window::FileList);
    assert_eq!(app.input_mode, InputMode::Normal);
}

#[test]
fn loaded_scenario_styles_and_edit() {
    // Directory ["a.txt", "b.txt"], a.txt holding one plain, one struck and
    // one emphasized line; editing line 1 rewrites only that line.
    let app = sample_app();
    let tags: Vec<LineStyle> = app.content.iter().map(|l| style_of(l)).collect();
    assert_eq!(tags, vec![LineStyle::Plain, LineStyle::Struck, LineStyle::Emphasized]);
    let rewritten = edit_note("one\n~two\n*three\n", "TWO", 1).unwrap();
    assert_eq!(split_lines(&rewritten), vec!["one", "TWO", "*three"]);
}

#[test]
fn file_navigation_asks_for_a_load() {
    let mut app = sample_app();
    let action = app.handle_key(Key::Char('j'));
    assert_eq!(action, Action::LoadCurrent);
    assert_eq!(app.files.get_current_index(), Some(1));
    assert_eq!(app.get_current_file_path(), "/notes/b.txt");

    let action = app.handle_key(Key::Char('k'));
    assert_eq!(action, Action::LoadCurrent);
    assert_eq!(app.files.get_current_index(), Some(0));
}

#[test]
fn quit_comes_from_the_file_list() {
    let mut app = sample_app();
    assert_eq!(app.handle_key(Key::Char('q')), Action::Quit);
    assert_eq!(app.focused_window, Window::FileList);
}

#[test]
fn focusing_content_highlights_its_first_line() {
    let mut app = sample_app();
    assert_eq!(app.handle_key(Key::Char('e')), Action::Idle);
    assert_eq!(app.focused_window, Window::Content);
    assert_eq!(app.content_state.get_current_index(), Some(0));
}

#[test]
fn focusing_an_empty_note_highlights_nothing() {
    let files = vec![String::from("empty.txt")];
    let mut app = App::new(files, Vec::new(), String::from("/notes")).unwrap();
    assert_eq!(app.handle_key(Key::Char('e')), Action::Idle);
    assert_eq!(app.focused_window, Window::Content);
    assert_eq!(app.content_state.get_current_index(), None);
    // Navigation and edits on a note with no lines stay no-ops.
    assert_eq!(app.handle_key(Key::Char('j')), Action::Idle);
    assert_eq!(app.content_state.get_current_index(), None);
    assert_eq!(app.handle_key(Key::Char('e')), Action::Idle);
    assert_eq!(app.input_mode, InputMode::Normal);
}

#[test]
fn leaving_content_unselects() {
    let mut app = sample_app();
    app.handle_key(Key::Char('e'));
    app.handle_key(Key::Char('j'));
    assert_eq!(app.content_state.get_current_index(), Some(1));
    assert_eq!(app.handle_key(Key::Char('q')), Action::Idle);
    assert_eq!(app.focused_window, Window::FileList);
    assert_eq!(app.content_state.get_current_index(), None);
}

#[test]
fn edit_seeds_the_buffer_from_the_current_line() {
    let mut app = sample_app();
    app.handle_key(Key::Char('e'));
    app.handle_key(Key::Char('j'));
    assert_eq!(app.handle_key(Key::Char('e')), Action::BeginEdit);
    assert_eq!(app.input_mode, InputMode::Editing);
    assert_eq!(app.input, "~two");
}

#[test]
fn editing_keys_belong_to_the_input_widget() {
    let mut app = sample_app();
    app.handle_key(Key::Char('e'));
    app.handle_key(Key::Char('e'));
    assert_eq!(app.handle_key(Key::Char('x')), Action::EditInput);
    app.set_input(String::from("onex"));
    assert_eq!(app.input, "onex");
    // Even the navigation letters go to the widget while editing.
    assert_eq!(app.handle_key(Key::Char('j')), Action::EditInput);
    assert_eq!(app.handle_key(Key::Char('q')), Action::EditInput);
}

#[test]
fn escape_discards_the_edit() {
    let mut app = sample_app();
    app.handle_key(Key::Char('e'));
    app.handle_key(Key::Char('e'));
    assert_eq!(app.handle_key(Key::Esc), Action::Idle);
    assert_eq!(app.input_mode, InputMode::Normal);
    assert_eq!(app.focused_window, Window::Content);
}

#[test]
fn commit_round_trip_keeps_the_edited_line_selected() {
    let mut app = sample_app();
    app.handle_key(Key::Char('e'));
    app.handle_key(Key::Char('j'));
    app.handle_key(Key::Char('e'));
    app.set_input(String::from("TWO"));

    let action = app.handle_key(Key::Enter);
    assert_eq!(action, Action::CommitEdit(1));
    assert_eq!(app.input_mode, InputMode::Normal);

    // What the caller does with the action: rewrite the file and reload.
    let on_disk = "one\n~two\n*three\n";
    let rewritten = edit_note(on_disk, &app.input, 1).unwrap();
    assert_eq!(rewritten, "one\nTWO\n*three\n");
    let reloaded = split_lines(&rewritten);
    app.update_content_with_selected(reloaded, 1);
    assert_eq!(app.content, vec!["one", "TWO", "*three"]);
    assert_eq!(app.content_state.get_current_index(), Some(1));
}

#[test]
fn loading_a_file_resets_the_content_cursor() {
    let mut app = sample_app();
    app.handle_key(Key::Char('j'));
    app.update_content(parse_notes_file(Some("alpha\nbeta\n")));
    assert_eq!(app.content, vec!["alpha", "beta"]);
    assert_eq!(app.content_state.get_current_index(), None);
    // An unreadable file degrades to an empty document.
    app.update_content(parse_notes_file(None));
    assert_eq!(app.content, Vec::<String>::new());
}
