use crate::app::has_name;
use crate::app::AppMode;
use crate::app::AppView;
use crate::engine::step_action;
use crate::engine::step_state;
use crate::engine::ActionView;
use crate::engine::Key;
use vstd::prelude::*;

verus! {

/// Cursor bounds: every step of the interaction engine preserves the session
/// invariant, so across any sequence of key events the cursor is `None`
/// exactly when the current list is empty, and otherwise indexes into it.
pub proof fn lemma_step_preserves_inv(pre: AppView, key: Key)
    requires
        pre.inv(),
    ensures
        step_state(pre, key).inv(),
        step_state(pre, key).cursor_in_bounds(),
{
}

/// The state after a whole sequence of key events, first event first.
pub open spec fn run(pre: AppView, keys: Seq<Key>) -> AppView
    decreases keys.len(),
{
    if keys.len() == 0 {
        pre
    } else {
        run(step_state(pre, keys[0]), keys.skip(1))
    }
}

/// Cursor bounds over whole sessions: after any sequence of key events from
/// a state satisfying the invariant — a fresh session satisfies it — the
/// cursor is still `None` exactly when the current list is empty, and
/// otherwise indexes into it.
pub proof fn lemma_run_preserves_inv(pre: AppView, keys: Seq<Key>)
    requires
        pre.inv(),
    ensures
        run(pre, keys).inv(),
        run(pre, keys).cursor_in_bounds(),
    decreases keys.len(),
{
    if keys.len() > 0 {
        lemma_step_preserves_inv(pre, keys[0]);
        lemma_run_preserves_inv(step_state(pre, keys[0]), keys.skip(1));
    }
}

/// Cursor bounds on refresh: installing any fresh directory snapshot yields
/// a well-formed state, whatever state it starts from, and preserves the
/// engine invariant.
pub proof fn lemma_refresh_wf(s: AppView, notes: Seq<String>)
    ensures
        s.refreshed(notes).wf(),
        s.inv() ==> s.refreshed(notes).inv(),
{
}

/// Filter idempotence: setting the same query twice in a row yields the same
/// state — in particular the same filtered list — as setting it once.
pub proof fn lemma_set_query_idempotent(s: AppView, query: Seq<char>)
    ensures
        s.set_query_spec(query).set_query_spec(query) == s.set_query_spec(query),
{
    assert(s.set_query_spec(query).set_query_spec(query) =~= s.set_query_spec(query));
}

/// Filter identity: setting an empty query yields a filtered list equal to
/// the full list — same order, same members.
pub proof fn lemma_empty_query_identity(s: AppView, query: Seq<char>)
    requires
        query.len() == 0,
    ensures
        s.set_query_spec(query).filtered == s.notes,
{
}

/// Delete arm/disarm: in Normal mode, a first delete press arms the pending
/// flag without requesting a deletion; a second press requests deletion of
/// the selected note and disarms; any other key requests no deletion and,
/// unless it is the quit key (which ends the session with the state as it
/// is), disarms.
pub proof fn lemma_delete_arm_disarm(pre: AppView, key: Key)
    requires
        pre.mode == AppMode::Normal,
    ensures
        !pre.pending_delete && key == Key::Char('d') ==> step_state(pre, key).pending_delete
            && step_action(pre, key) == ActionView::Nothing,
        pre.pending_delete && key == Key::Char('d') ==> !step_state(pre, key).pending_delete,
        forall|i: usize|
            pre.pending_delete && key == Key::Char('d') && pre.cursor == Some(i) ==> step_action(
                pre,
                key,
            ) == ActionView::Delete(pre.current()[i as int]@),
        key != Key::Char('d') ==> !(step_action(pre, key) is Delete),
        pre.pending_delete && key != Key::Char('d') && key != Key::Char('q')
            ==> !step_state(pre, key).pending_delete,
{
}

/// Create guard: confirming a note name that already exists in the directory
/// snapshot leaves the whole session state unchanged — in particular the
/// full list and the mode — and requests nothing.
pub proof fn lemma_create_guard(pre: AppView)
    requires
        pre.mode == AppMode::Create,
        has_name(pre.notes, pre.input),
    ensures
        step_state(pre, Key::Enter) == pre,
        step_action(pre, Key::Enter) == ActionView::Nothing,
{
}

/// Mode isolation: the quit key never ends the session from Create or Search
/// mode; only Normal mode can emit the quit request.
pub proof fn lemma_quit_only_from_normal(pre: AppView, key: Key)
    requires
        pre.mode != AppMode::Normal,
    ensures
        !(step_action(pre, key) is Quit),
{
}

} // verus!
