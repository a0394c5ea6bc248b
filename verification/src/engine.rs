use crate::app::contains_name;
use crate::app::has_name;
use crate::app::App;
use crate::app::AppMode;
use crate::app::AppView;
use vstd::prelude::*;

verus! {

/// One input event, as the engine interprets it. Anything the engine does
/// not react to arrives as `Other`.
#[derive(Clone, Copy, Debug, PartialEq, Eq)]
pub enum Key {
    Char(char),
    Enter,
    Esc,
    Backspace,
    Up,
    Down,
    Other,
}

/// A side-effect request handed back to the caller. The engine itself never
/// touches the file system, the terminal or the editor: the caller performs
/// the request (opening a note, deleting or creating a file under the
/// session's directory) and, after a successful create or delete, hands a
/// fresh directory snapshot back through `App::refresh_notes`.
#[derive(Debug, PartialEq, Eq)]
pub enum Action {
    Nothing,
    Quit,
    Open { name: String },
    Delete { name: String },
    Create { name: String },
}

/// Model of an action, with the note name as a character sequence.
pub enum ActionView {
    Nothing,
    Quit,
    Open(Seq<char>),
    Delete(Seq<char>),
    Create(Seq<char>),
}

impl View for Action {
    type V = ActionView;

    open spec fn view(&self) -> ActionView {
        match self {
            Action::Nothing => ActionView::Nothing,
            Action::Quit => ActionView::Quit,
            Action::Open { name } => ActionView::Open(name@),
            Action::Delete { name } => ActionView::Delete(name@),
            Action::Create { name } => ActionView::Create(name@),
        }
    }
}

/// The state after one key event in Normal mode.
pub open spec fn step_state_normal(pre: AppView, key: Key) -> AppView {
    match key {
        Key::Char(c) => if c == 'q' {
            pre
        } else if c == 'i' {
            pre.entered(AppMode::Create)
        } else if c == '/' {
            pre.entered(AppMode::Search)
        } else if c == 'd' {
            AppView { pending_delete: !pre.pending_delete, ..pre }
        } else if c == 'j' {
            AppView { pending_delete: false, ..pre.moved_down() }
        } else if c == 'k' {
            AppView { pending_delete: false, ..pre.moved_up() }
        } else {
            AppView { pending_delete: false, ..pre }
        },
        Key::Down => AppView { pending_delete: false, ..pre.moved_down() },
        Key::Up => AppView { pending_delete: false, ..pre.moved_up() },
        _ => AppView { pending_delete: false, ..pre },
    }
}

/// The state after one key event in Create mode. Confirming an empty name,
/// or one that already exists in the directory snapshot, is swallowed: no
/// mode change, no request.
pub open spec fn step_state_create(pre: AppView, key: Key) -> AppView {
    match key {
        Key::Enter => if pre.input.len() == 0 || has_name(pre.notes, pre.input) {
            pre
        } else {
            AppView { mode: AppMode::Normal, input: Seq::empty(), pending_delete: false, ..pre }
        },
        Key::Esc => AppView {
            mode: AppMode::Normal,
            input: Seq::empty(),
            pending_delete: false,
            ..pre
        },
        Key::Char(c) => AppView { input: pre.input.push(c), ..pre },
        Key::Backspace => if pre.input.len() == 0 {
            pre
        } else {
            AppView { input: pre.input.drop_last(), ..pre }
        },
        _ => pre,
    }
}

/// The state after one key event in Search mode. Every query edit re-applies
/// the filter and re-anchors the cursor at the top of the matches.
pub open spec fn step_state_search(pre: AppView, key: Key) -> AppView {
    match key {
        Key::Esc => pre.exited_search(),
        Key::Enter => match pre.cursor {
            Some(_) => pre.exited_search(),
            None => pre,
        },
        Key::Backspace => if pre.query.len() == 0 {
            pre.set_query_spec(pre.query)
        } else {
            pre.set_query_spec(pre.query.drop_last())
        },
        Key::Char(c) => pre.set_query_spec(pre.query.push(c)),
        Key::Up => pre.moved_up(),
        Key::Down => pre.moved_down(),
        _ => pre,
    }
}

/// The complete transition table of the interaction engine: the state after
/// one key event.
pub open spec fn step_state(pre: AppView, key: Key) -> AppView {
    match pre.mode {
        AppMode::Normal => step_state_normal(pre, key),
        AppMode::Create => step_state_create(pre, key),
        AppMode::Search => step_state_search(pre, key),
    }
}

/// The side-effect request that one key event emits: quit only on the quit
/// key in Normal mode; open on the selected note; delete on a confirmed
/// second delete press; create on a confirmed fresh, non-empty name.
pub open spec fn step_action(pre: AppView, key: Key) -> ActionView {
    match pre.mode {
        AppMode::Normal => match key {
            Key::Char(c) => if c == 'q' {
                ActionView::Quit
            } else if c == 'o' {
                match pre.cursor {
                    Some(i) => ActionView::Open(pre.current()[i as int]@),
                    None => ActionView::Nothing,
                }
            } else if c == 'd' && pre.pending_delete {
                match pre.cursor {
                    Some(i) => ActionView::Delete(pre.current()[i as int]@),
                    None => ActionView::Nothing,
                }
            } else {
                ActionView::Nothing
            },
            _ => ActionView::Nothing,
        },
        AppMode::Create => match key {
            Key::Enter => if pre.input.len() > 0 && !has_name(pre.notes, pre.input) {
                ActionView::Create(pre.input)
            } else {
                ActionView::Nothing
            },
            _ => ActionView::Nothing,
        },
        AppMode::Search => match key {
            Key::Enter => match pre.cursor {
                Some(i) => ActionView::Open(pre.filtered[i as int]@),
                None => ActionView::Nothing,
            },
            _ => ActionView::Nothing,
        },
    }
}

/// Consumes one input event: mutates the session state exactly as the
/// transition table `step_state` says and returns exactly the request that
/// `step_action` says. The session invariant is preserved, and the quit
/// request can only come out of Normal mode.
pub fn handle_key(app: &mut App, key: Key) -> (act: Action)
    requires
        old(app)@.inv(),
    ensures
        final(app)@ == step_state(old(app)@, key),
        act@ == step_action(old(app)@, key),
        final(app)@.inv(),
        old(app)@.mode != AppMode::Normal ==> !(act@ is Quit),
{
    match app.mode {
        AppMode::Normal => match key {
            Key::Char(c) => {
                if c == 'q' {
                    Action::Quit
                } else if c == 'i' {
                    app.enter_mode(AppMode::Create);
                    Action::Nothing
                } else if c == '/' {
                    app.enter_mode(AppMode::Search);
                    Action::Nothing
                } else if c == 'o' {
                    app.pending_delete = false;
                    match app.cursor {
                        Some(i) => Action::Open { name: app.notes[i].clone() },
                        None => Action::Nothing,
                    }
                } else if c == 'd' {
                    if app.pending_delete {
                        app.pending_delete = false;
                        match app.cursor {
                            Some(i) => Action::Delete { name: app.notes[i].clone() },
                            None => Action::Nothing,
                        }
                    } else {
                        app.pending_delete = true;
                        Action::Nothing
                    }
                } else if c == 'j' {
                    app.move_cursor_down();
                    app.pending_delete = false;
                    Action::Nothing
                } else if c == 'k' {
                    app.move_cursor_up();
                    app.pending_delete = false;
                    Action::Nothing
                } else {
                    app.pending_delete = false;
                    Action::Nothing
                }
            }
            Key::Down => {
                app.move_cursor_down();
                app.pending_delete = false;
                Action::Nothing
            }
            Key::Up => {
                app.move_cursor_up();
                app.pending_delete = false;
                Action::Nothing
            }
            _ => {
                app.pending_delete = false;
                Action::Nothing
            }
        },
        AppMode::Create => match key {
            Key::Enter => {
                if app.input.as_str().is_empty() {
                    Action::Nothing
                } else if contains_name(&app.notes, &app.input) {
                    Action::Nothing
                } else {
                    let name = app.input.clone();
                    app.input.clear();
                    app.mode = AppMode::Normal;
                    app.pending_delete = false;
                    Action::Create { name }
                }
            }
            Key::Esc => {
                app.input.clear();
                app.mode = AppMode::Normal;
                app.pending_delete = false;
                Action::Nothing
            }
            Key::Char(c) => {
                app.input.push(c);
                Action::Nothing
            }
            Key::Backspace => {
                let _ = app.input.pop();
                Action::Nothing
            }
            _ => Action::Nothing,
        },
        AppMode::Search => match key {
            Key::Esc => {
                app.exit_search();
                Action::Nothing
            }
            Key::Enter => {
                match app.cursor {
                    Some(i) => {
                        let name = app.filtered_notes[i].clone();
                        app.exit_search();
                        Action::Open { name }
                    }
                    None => Action::Nothing,
                }
            }
            Key::Backspace => {
                let _ = app.search_query.pop();
                app.update_filtered_notes();
                Action::Nothing
            }
            Key::Char(c) => {
                app.search_query.push(c);
                app.update_filtered_notes();
                Action::Nothing
            }
            Key::Up => {
                app.move_cursor_up();
                Action::Nothing
            }
            Key::Down => {
                app.move_cursor_down();
                Action::Nothing
            }
            _ => Action::Nothing,
        },
    }
}

} // verus!
