use crate::clamped_cursor;
use crate::fuzzy::fuzzy_match;
use crate::fuzzy::skim_match;
use crate::reset_cursor;
use vstd::prelude::*;

verus! {

/// The interaction context: governs which list is current and how key events
/// are interpreted. Exactly one mode is active at a time.
#[derive(Clone, Copy, Debug, PartialEq, Eq, Structural)]
pub enum AppMode {
    Normal,
    Create,
    Search,
}

/// The notes of `all` that the fuzzy matcher accepts for `query`, in their
/// original relative order.
pub open spec fn filter_notes(all: Seq<String>, query: Seq<char>) -> Seq<String>
    decreases all.len(),
{
    if all.len() == 0 {
        Seq::empty()
    } else {
        let init = filter_notes(all.drop_last(), query);
        if skim_match(all.last()@, query) {
            init.push(all.last())
        } else {
            init
        }
    }
}

/// The filtered list derived from `all` and `query`: all of `all` for an
/// empty query, otherwise the matching notes in their original order.
pub open spec fn filtered_spec(all: Seq<String>, query: Seq<char>) -> Seq<String> {
    if query.len() == 0 {
        all
    } else {
        filter_notes(all, query)
    }
}

/// Whether some note in `notes` is named exactly `name`.
pub open spec fn has_name(notes: Seq<String>, name: Seq<char>) -> bool {
    exists|i: int| 0 <= i < notes.len() && notes[i]@ == name
}

/// Mathematical model of a session state: the value of every field of `App`,
/// with the text buffers as character sequences.
#[verifier::ext_equal]
pub struct AppView {
    pub notes: Seq<String>,
    pub filtered: Seq<String>,
    pub directory: Seq<char>,
    pub input: Seq<char>,
    pub query: Seq<char>,
    pub mode: AppMode,
    pub pending_delete: bool,
    pub cursor: Option<usize>,
}

impl AppView {
    /// The list the cursor indexes into: the filtered list in Search mode,
    /// the full list otherwise.
    pub open spec fn current(self) -> Seq<String> {
        if self.mode == AppMode::Search {
            self.filtered
        } else {
            self.notes
        }
    }

    pub open spec fn current_len(self) -> nat {
        self.current().len()
    }

    /// The filtered list is derived from the current full list and the
    /// current query; it is never stale relative to either.
    pub open spec fn filter_synced(self) -> bool {
        self.filtered == filtered_spec(self.notes, self.query)
    }

    /// The cursor is `None` exactly when the current list is empty, and
    /// otherwise indexes into the current list.
    pub open spec fn cursor_in_bounds(self) -> bool {
        match self.cursor {
            None => self.current_len() == 0,
            Some(i) => i < self.current_len(),
        }
    }

    pub open spec fn wf(self) -> bool {
        self.filter_synced() && self.cursor_in_bounds()
    }

    /// The invariant the interaction engine maintains: well-formedness, and
    /// an empty query outside Search mode (the query is cleared both when
    /// Search is entered and when it is left).
    pub open spec fn inv(self) -> bool {
        self.wf() && (self.mode != AppMode::Search ==> self.query.len() == 0)
    }

    /// The state after the filtered list was recomputed from the full list
    /// and the query, with the cursor re-anchored at the top of the result.
    pub open spec fn with_filter_reset(self) -> AppView {
        let f = filtered_spec(self.notes, self.query);
        AppView { filtered: f, cursor: reset_cursor(f.len()), ..self }
    }

    /// The state after the query was replaced by `query`.
    pub open spec fn set_query_spec(self, query: Seq<char>) -> AppView {
        AppView { query, ..self }.with_filter_reset()
    }

    /// The state after the full list was replaced by a fresh directory
    /// snapshot: the filtered list is recomputed and the cursor re-validated
    /// against whichever list is current for the active mode.
    pub open spec fn refreshed(self, notes: Seq<String>) -> AppView {
        let mid = AppView { notes, filtered: filtered_spec(notes, self.query), ..self };
        AppView { cursor: clamped_cursor(self.cursor, mid.current_len()), ..mid }
    }

    /// The state after the selection moved one entry up, clamped at the top.
    pub open spec fn moved_up(self) -> AppView {
        match self.cursor {
            Some(i) => if i > 0 {
                AppView { cursor: Some((i - 1) as usize), ..self }
            } else {
                self
            },
            None => self,
        }
    }

    /// The state after the selection moved one entry down, clamped at the
    /// end of the current list.
    pub open spec fn moved_down(self) -> AppView {
        match self.cursor {
            Some(i) => if i + 1 < self.current_len() {
                AppView { cursor: Some((i + 1) as usize), ..self }
            } else {
                self
            },
            None => self,
        }
    }

    /// The state after switching to `mode`: entering Create clears the input
    /// buffer, entering Search clears the query and recomputes the filter,
    /// and every switch disarms a pending delete.
    pub open spec fn entered(self, mode: AppMode) -> AppView {
        match mode {
            AppMode::Normal => AppView { mode: AppMode::Normal, pending_delete: false, ..self },
            AppMode::Create => AppView {
                mode: AppMode::Create,
                input: Seq::empty(),
                pending_delete: false,
                ..self
            },
            AppMode::Search => AppView {
                mode: AppMode::Search,
                query: Seq::empty(),
                pending_delete: false,
                ..self
            }.with_filter_reset(),
        }
    }

    /// The state after leaving Search mode: the query is cleared, the filter
    /// recomputed (so it matches everything again), and Normal mode resumed.
    pub open spec fn exited_search(self) -> AppView {
        AppView {
            mode: AppMode::Normal,
            query: Seq::empty(),
            pending_delete: false,
            ..self
        }.with_filter_reset()
    }
}

/// The initial session state over a directory snapshot: Normal mode, empty
/// buffers, the filter matching everything, the cursor on the first note if
/// any.
pub open spec fn initial_view(directory: Seq<char>, notes: Seq<String>) -> AppView {
    AppView {
        notes,
        filtered: notes,
        directory,
        input: Seq::empty(),
        query: Seq::empty(),
        mode: AppMode::Normal,
        pending_delete: false,
        cursor: reset_cursor(notes.len()),
    }
}

/// The session state: the full note list, the derived filtered list, the
/// selection cursor, the active mode, the text buffers and the pending-delete
/// flag.
pub struct App {
    pub notes: Vec<String>,
    pub filtered_notes: Vec<String>,
    pub directory: String,
    pub input: String,
    pub mode: AppMode,
    pub pending_delete: bool,
    pub search_query: String,
    pub cursor: Option<usize>,
}

impl View for App {
    type V = AppView;

    open spec fn view(&self) -> AppView {
        AppView {
            notes: self.notes@,
            filtered: self.filtered_notes@,
            directory: self.directory@,
            input: self.input@,
            query: self.search_query@,
            mode: self.mode,
            pending_delete: self.pending_delete,
            cursor: self.cursor,
        }
    }
}

fn clone_notes(notes: &Vec<String>) -> (r: Vec<String>)
    ensures
        r@ == notes@,
{
    let mut r: Vec<String> = Vec::new();
    let mut i: usize = 0;
    while i < notes.len()
        invariant
            i <= notes.len(),
            r@ == notes@.take(i as int),
        decreases notes.len() - i,
    {
        r.push(notes[i].clone());
        proof {
            assert(notes@.take(i as int).push(notes@[i as int]) =~= notes@.take(i + 1));
        }
        i = i + 1;
    }
    proof {
        assert(notes@.take(notes@.len() as int) =~= notes@);
    }
    r
}

/// Applies the match predicate to every entry of `notes`, keeping matches in
/// their original relative order; an empty query keeps everything.
fn compute_filtered(notes: &Vec<String>, query: &String) -> (r: Vec<String>)
    ensures
        r@ == filtered_spec(notes@, query@),
{
    if query.as_str().is_empty() {
        clone_notes(notes)
    } else {
        let mut r: Vec<String> = Vec::new();
        let mut i: usize = 0;
        while i < notes.len()
            invariant
                i <= notes.len(),
                query@.len() > 0,
                r@ == filter_notes(notes@.take(i as int), query@),
            decreases notes.len() - i,
        {
            proof {
                assert(notes@.take(i + 1).drop_last() =~= notes@.take(i as int));
                assert(notes@.take(i + 1).last() == notes@[i as int]);
            }
            if fuzzy_match(notes[i].as_str(), query.as_str()) {
                r.push(notes[i].clone());
            }
            i = i + 1;
        }
        proof {
            assert(notes@.take(notes@.len() as int) =~= notes@);
        }
        r
    }
}

/// Whether some note in `notes` is named exactly `name`.
pub fn contains_name(notes: &Vec<String>, name: &String) -> (r: bool)
    ensures
        r == has_name(notes@, name@),
{
    let mut i: usize = 0;
    while i < notes.len()
        invariant
            i <= notes.len(),
            forall|j: int| 0 <= j < i ==> notes@[j]@ != name@,
        decreases notes.len() - i,
    {
        if notes[i] == *name {
            return true;
        }
        i = i + 1;
    }
    false
}

impl App {
    /// A fresh session over a directory snapshot.
    pub fn new(directory: &str, notes: Vec<String>) -> (app: App)
        ensures
            app@ == initial_view(directory@, notes@),
            app@.inv(),
    {
        let filtered = clone_notes(&notes);
        let cursor: Option<usize> = if notes.len() == 0 {
            None
        } else {
            Some(0)
        };
        let app = App {
            notes,
            filtered_notes: filtered,
            directory: directory.to_owned(),
            input: String::new(),
            mode: AppMode::Normal,
            pending_delete: false,
            search_query: String::new(),
            cursor,
        };
        proof {
            assert(app@ =~= initial_view(directory@, app.notes@));
        }
        app
    }

    /// Recomputes the filtered list from the full list and the query, and
    /// re-anchors the cursor at the top of the result.
    pub fn update_filtered_notes(&mut self)
        ensures
            final(self)@ == old(self)@.with_filter_reset(),
    {
        self.filtered_notes = compute_filtered(&self.notes, &self.search_query);
        if self.filtered_notes.len() == 0 {
            self.cursor = None;
        } else {
            self.cursor = Some(0);
        }
        proof {
            assert(self@ =~= old(self)@.with_filter_reset());
        }
    }

    /// Replaces the query and recomputes the filtered list, re-anchoring the
    /// cursor at the top.
    pub fn set_query(&mut self, query: String)
        ensures
            final(self)@ == old(self)@.set_query_spec(query@),
    {
        self.search_query = query;
        self.update_filtered_notes();
        proof {
            assert(self@ =~= old(self)@.set_query_spec(self.search_query@));
        }
    }

    /// Installs a fresh directory snapshot: recomputes the filtered list and
    /// re-validates the cursor against whichever list is current for the
    /// active mode (clamped to the last valid index if it overflows, `None`
    /// if that list became empty, `Some(0)` if it was `None`).
    pub fn refresh_notes(&mut self, notes: Vec<String>)
        ensures
            final(self)@ == old(self)@.refreshed(notes@),
    {
        self.notes = notes;
        self.filtered_notes = compute_filtered(&self.notes, &self.search_query);
        let len = if self.mode == AppMode::Search {
            self.filtered_notes.len()
        } else {
            self.notes.len()
        };
        if len == 0 {
            self.cursor = None;
        } else {
            match self.cursor {
                None => {
                    self.cursor = Some(0);
                }
                Some(i) => {
                    if i >= len {
                        self.cursor = Some(len - 1);
                    }
                }
            }
        }
        proof {
            assert(self@ =~= old(self)@.refreshed(self.notes@));
        }
    }

    /// The list the cursor indexes into for the active mode.
    pub fn get_current_notes(&self) -> (r: &Vec<String>)
        ensures
            r@ == self@.current(),
    {
        if self.mode == AppMode::Search {
            &self.filtered_notes
        } else {
            &self.notes
        }
    }

    /// Moves the selection one entry up, clamped at the top.
    pub fn move_cursor_up(&mut self)
        ensures
            final(self)@ == old(self)@.moved_up(),
    {
        match self.cursor {
            Some(i) => {
                if i > 0 {
                    self.cursor = Some(i - 1);
                }
            }
            None => {}
        }
        proof {
            assert(self@ =~= old(self)@.moved_up());
        }
    }

    /// Moves the selection one entry down, clamped at the end of the current
    /// list.
    pub fn move_cursor_down(&mut self)
        requires
            old(self)@.cursor_in_bounds(),
        ensures
            final(self)@ == old(self)@.moved_down(),
    {
        let len = if self.mode == AppMode::Search {
            self.filtered_notes.len()
        } else {
            self.notes.len()
        };
        match self.cursor {
            Some(i) => {
                if i + 1 < len {
                    self.cursor = Some(i + 1);
                }
            }
            None => {}
        }
        proof {
            assert(self@ =~= old(self)@.moved_down());
        }
    }

    /// Switches mode: entering Create clears the input buffer, entering
    /// Search clears the query and recomputes the filter, and every switch
    /// disarms a pending delete.
    pub fn enter_mode(&mut self, mode: AppMode)
        ensures
            final(self)@ == old(self)@.entered(mode),
    {
        match mode {
            AppMode::Normal => {
                self.mode = AppMode::Normal;
                self.pending_delete = false;
            }
            AppMode::Create => {
                self.mode = AppMode::Create;
                self.input.clear();
                self.pending_delete = false;
            }
            AppMode::Search => {
                self.mode = AppMode::Search;
                self.search_query.clear();
                self.pending_delete = false;
                self.update_filtered_notes();
            }
        }
        proof {
            assert(self@ =~= old(self)@.entered(mode));
        }
    }

    /// Leaves Search mode: clears the query, recomputes the filter (so it
    /// matches everything again) and returns to Normal mode.
    pub fn exit_search(&mut self)
        ensures
            final(self)@ == old(self)@.exited_search(),
    {
        self.mode = AppMode::Normal;
        self.search_query.clear();
        self.pending_delete = false;
        self.update_filtered_notes();
        proof {
            assert(self@ =~= old(self)@.exited_search());
        }
    }
}

} // verus!
