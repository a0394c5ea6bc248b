use rustymemo::app::App;
use rustymemo::app::AppMode;
use rustymemo::engine::handle_key;
use rustymemo::engine::Action;
use rustymemo::engine::Key;

fn names(list: &[&str]) -> Vec<String> {
    list.iter().map(|s| s.to_string()).collect()
}

fn type_chars(app: &mut App, text: &str) {
    for c in text.chars() {
        let act = handle_key(app, Key::Char(c));
        assert_eq!(act, Action::Nothing);
    }
}

#[test]
fn quit_key_quits_from_normal_mode() {
    let mut app = App::new("dir", names(&["a.txt"]));
    let act = handle_key(&mut app, Key::Char('q'));
    assert_eq!(act, Action::Quit);
}

#[test]
fn quit_key_does_not_quit_from_create_or_search() {
    let mut app = App::new("dir", names(&["a.txt"]));
    handle_key(&mut app, Key::Char('i'));
    let act = handle_key(&mut app, Key::Char('q'));
    assert_eq!(act, Action::Nothing);
    assert!(app.mode == AppMode::Create);
    assert_eq!(app.input, "q");

    let mut app = App::new("dir", names(&["a.txt"]));
    handle_key(&mut app, Key::Char('/'));
    let act = handle_key(&mut app, Key::Char('q'));
    assert_eq!(act, Action::Nothing);
    assert!(app.mode == AppMode::Search);
    assert_eq!(app.search_query, "q");
}

#[test]
fn delete_needs_two_presses() {
    let mut app = App::new("dir", names(&["a.txt"]));
    let act = handle_key(&mut app, Key::Char('d'));
    assert_eq!(act, Action::Nothing);
    assert!(app.pending_delete);
    assert_eq!(app.notes, names(&["a.txt"]));

    let act = handle_key(&mut app, Key::Char('d'));
    assert_eq!(act, Action::Delete { name: "a.txt".to_string() });
    assert!(!app.pending_delete);

    // the caller removes the file and hands back a fresh snapshot
    app.refresh_notes(Vec::new());
    assert!(!app.notes.contains(&"a.txt".to_string()));
    assert_eq!(app.cursor, None);
}

#[test]
fn any_other_key_disarms_a_pending_delete() {
    let mut app = App::new("dir", names(&["a.txt"]));
    handle_key(&mut app, Key::Char('d'));
    assert!(app.pending_delete);
    let act = handle_key(&mut app, Key::Char('x'));
    assert_eq!(act, Action::Nothing);
    assert!(!app.pending_delete);
    assert_eq!(app.notes, names(&["a.txt"]));
}

#[test]
fn navigation_disarms_a_pending_delete() {
    let mut app = App::new("dir", names(&["a.txt", "b.txt"]));
    handle_key(&mut app, Key::Char('d'));
    let act = handle_key(&mut app, Key::Char('j'));
    assert_eq!(act, Action::Nothing);
    assert!(!app.pending_delete);
    assert_eq!(app.cursor, Some(1));
    handle_key(&mut app, Key::Char('d'));
    handle_key(&mut app, Key::Char('k'));
    assert!(!app.pending_delete);
    assert_eq!(app.cursor, Some(0));
}

#[test]
fn delete_with_no_selection_deletes_nothing() {
    let mut app = App::new("dir", Vec::new());
    handle_key(&mut app, Key::Char('d'));
    let act = handle_key(&mut app, Key::Char('d'));
    assert_eq!(act, Action::Nothing);
    assert!(!app.pending_delete);
}

#[test]
fn open_key_requests_the_selected_note() {
    let mut app = App::new("dir", names(&["a.txt", "b.txt"]));
    handle_key(&mut app, Key::Down);
    let act = handle_key(&mut app, Key::Char('o'));
    assert_eq!(act, Action::Open { name: "b.txt".to_string() });
}

#[test]
fn open_key_with_no_selection_does_nothing() {
    let mut app = App::new("dir", Vec::new());
    let act = handle_key(&mut app, Key::Char('o'));
    assert_eq!(act, Action::Nothing);
}

#[test]
fn create_flow_requests_a_fresh_name() {
    let mut app = App::new("dir", names(&["a.txt"]));
    handle_key(&mut app, Key::Char('i'));
    assert!(app.mode == AppMode::Create);
    type_chars(&mut app, "b.txt");
    assert_eq!(app.input, "b.txt");
    let act = handle_key(&mut app, Key::Enter);
    assert_eq!(act, Action::Create { name: "b.txt".to_string() });
    assert!(app.mode == AppMode::Normal);
    assert_eq!(app.input, "");

    // the caller creates the file and hands back a fresh snapshot
    app.refresh_notes(names(&["a.txt", "b.txt"]));
    assert_eq!(app.notes, names(&["a.txt", "b.txt"]));
}

#[test]
fn creating_an_existing_name_is_swallowed() {
    let mut app = App::new("dir", names(&["a.txt"]));
    handle_key(&mut app, Key::Char('i'));
    type_chars(&mut app, "a.txt");
    let act = handle_key(&mut app, Key::Enter);
    assert_eq!(act, Action::Nothing);
    assert!(app.mode == AppMode::Create);
    assert_eq!(app.input, "a.txt");
    assert_eq!(app.notes, names(&["a.txt"]));
}

#[test]
fn creating_with_an_empty_name_is_swallowed() {
    let mut app = App::new("dir", names(&["a.txt"]));
    handle_key(&mut app, Key::Char('i'));
    let act = handle_key(&mut app, Key::Enter);
    assert_eq!(act, Action::Nothing);
    assert!(app.mode == AppMode::Create);
}

#[test]
fn escape_cancels_create_mode() {
    let mut app = App::new("dir", names(&["a.txt"]));
    handle_key(&mut app, Key::Char('i'));
    type_chars(&mut app, "dra");
    let act = handle_key(&mut app, Key::Esc);
    assert_eq!(act, Action::Nothing);
    assert!(app.mode == AppMode::Normal);
    assert_eq!(app.input, "");
}

#[test]
fn backspace_edits_the_create_buffer() {
    let mut app = App::new("dir", names(&["a.txt"]));
    handle_key(&mut app, Key::Char('i'));
    type_chars(&mut app, "ab");
    handle_key(&mut app, Key::Backspace);
    assert_eq!(app.input, "a");
    handle_key(&mut app, Key::Backspace);
    handle_key(&mut app, Key::Backspace);
    assert_eq!(app.input, "");
    assert!(app.mode == AppMode::Create);
}

#[test]
fn search_filters_as_typed_and_escape_restores() {
    let mut app = App::new("dir", names(&["a.txt", "b.txt"]));
    handle_key(&mut app, Key::Char('/'));
    assert!(app.mode == AppMode::Search);
    let act = handle_key(&mut app, Key::Char('a'));
    assert_eq!(act, Action::Nothing);
    assert_eq!(app.filtered_notes, names(&["a.txt"]));
    assert_eq!(app.cursor, Some(0));
    let act = handle_key(&mut app, Key::Esc);
    assert_eq!(act, Action::Nothing);
    assert!(app.mode == AppMode::Normal);
    assert_eq!(app.get_current_notes(), &names(&["a.txt", "b.txt"]));
    assert_eq!(app.cursor, Some(0));
}

#[test]
fn search_backspace_widens_the_matches_again() {
    let mut app = App::new("dir", names(&["a.txt", "b.txt"]));
    handle_key(&mut app, Key::Char('/'));
    type_chars(&mut app, "b");
    assert_eq!(app.filtered_notes, names(&["b.txt"]));
    handle_key(&mut app, Key::Backspace);
    assert_eq!(app.search_query, "");
    assert_eq!(app.filtered_notes, names(&["a.txt", "b.txt"]));
    assert_eq!(app.cursor, Some(0));
}

#[test]
fn search_with_no_match_clears_the_cursor() {
    let mut app = App::new("dir", names(&["a.txt"]));
    handle_key(&mut app, Key::Char('/'));
    type_chars(&mut app, "zzz");
    assert!(app.filtered_notes.is_empty());
    assert_eq!(app.cursor, None);
}

#[test]
fn search_enter_opens_the_selected_match_and_leaves_search() {
    let mut app = App::new("dir", names(&["a.txt", "ab.txt", "b.txt"]));
    handle_key(&mut app, Key::Char('/'));
    type_chars(&mut app, "a");
    assert_eq!(app.filtered_notes, names(&["a.txt", "ab.txt"]));
    handle_key(&mut app, Key::Down);
    let act = handle_key(&mut app, Key::Enter);
    assert_eq!(act, Action::Open { name: "ab.txt".to_string() });
    assert!(app.mode == AppMode::Normal);
    assert_eq!(app.search_query, "");
    assert_eq!(app.filtered_notes, names(&["a.txt", "ab.txt", "b.txt"]));
}

#[test]
fn search_enter_with_no_match_stays_in_search() {
    let mut app = App::new("dir", names(&["a.txt"]));
    handle_key(&mut app, Key::Char('/'));
    type_chars(&mut app, "zzz");
    let act = handle_key(&mut app, Key::Enter);
    assert_eq!(act, Action::Nothing);
    assert!(app.mode == AppMode::Search);
}

#[test]
fn search_navigation_moves_within_the_matches() {
    let mut app = App::new("dir", names(&["a.txt", "ab.txt", "b.txt"]));
    handle_key(&mut app, Key::Char('/'));
    type_chars(&mut app, "a");
    handle_key(&mut app, Key::Down);
    assert_eq!(app.cursor, Some(1));
    handle_key(&mut app, Key::Down);
    assert_eq!(app.cursor, Some(1));
    handle_key(&mut app, Key::Up);
    assert_eq!(app.cursor, Some(0));
}

#[test]
fn end_to_end_search_scenario() {
    let mut app = App::new("dir", names(&["a.txt", "b.txt"]));
    handle_key(&mut app, Key::Char('/'));
    assert!(app.mode == AppMode::Search);
    handle_key(&mut app, Key::Char('a'));
    assert_eq!(app.filtered_notes, names(&["a.txt"]));
    assert_eq!(app.cursor, Some(0));
    handle_key(&mut app, Key::Esc);
    assert!(app.mode == AppMode::Normal);
    assert_eq!(app.get_current_notes(), &names(&["a.txt", "b.txt"]));
    assert_eq!(app.cursor, Some(0));
}
