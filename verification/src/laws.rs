//! Laws of the state machine: properties that hold of every key sequence,
//! stated and proved over the mathematical model.

use vstd::prelude::*;

use crate::state::event_action;
use crate::state::event_step;
use crate::state::Focus;
use crate::state::Key;
use crate::state::KeyEvent;
use crate::state::Mode;
use crate::state::StateModel;
use crate::state::focus_index;
use crate::state::init_model;
use crate::state::navigate_exit;
use crate::state::step;
use crate::state::step_action;

verus! {

/// The state after a whole sequence of key presses, applied left to right.
pub open spec fn run_keys(m: StateModel, keys: Seq<Key>) -> StateModel
    decreases keys.len(),
{
    if keys.len() == 0 {
        m
    } else {
        run_keys(step(m, keys[0]), keys.drop_first())
    }
}

/// One key press preserves the state invariant: the mileage percentage stays
/// in [0, 100], and while a text field is being edited the cursor stays
/// within its buffer.
pub proof fn lemma_step_preserves_wf(m: StateModel, key: Key)
    requires
        m.wf(),
    ensures
        step(m, key).wf(),
{
}

/// The invariant holds after every transition of every sequence of key
/// presses from a well-formed state — in particular, from the initial state:
/// `cursor <= length(edited text buffer)` and `0 <= mileage <= 100` always.
pub proof fn lemma_run_keys_preserves_wf(m: StateModel, keys: Seq<Key>)
    requires
        m.wf(),
    ensures
        run_keys(m, keys).wf(),
    decreases keys.len(),
{
    if keys.len() > 0 {
        lemma_step_preserves_wf(m, keys[0]);
        lemma_run_keys_preserves_wf(step(m, keys[0]), keys.drop_first());
    }
}

/// The initial state is well formed.
pub proof fn lemma_init_wf()
    ensures
        init_model().wf(),
{
}

/// Focus transitions never skip: one key press moves the focus at most one
/// position along the chain Account – Password – Mileage.
pub proof fn lemma_focus_moves_at_most_one(m: StateModel, key: Key)
    ensures
        focus_index(step(m, key).focus) - focus_index(m.focus) <= 1,
        focus_index(m.focus) - focus_index(step(m, key).focus) <= 1,
{
}

/// From Account, `Down` in Navigate mode reaches Password only, never
/// Mileage, in one step.
pub proof fn lemma_down_from_account(m: StateModel)
    requires
        m.mode == Mode::Navigate,
        m.focus == Focus::Account,
    ensures
        step(m, Key::Down).focus == Focus::Password,
{
}

/// A result is produced exactly by `Enter` while editing the mileage field:
/// no other (state, key) pair submits, and that pair always does, carrying
/// the current field values.
pub proof fn lemma_submit_iff_enter_on_mileage_edit(m: StateModel, key: Key)
    ensures
        step_action(m, key) is Submit <==> (m.mode == Mode::Edit && m.focus == Focus::Mileage
            && key == Key::Enter),
        step_action(m, key) is Submit ==> step_action(m, key)->0.account == m.account
            && step_action(m, key)->0.password == m.password && step_action(m, key)->0.mileage
            == m.mileage,
{
}

/// A key event that is not a press — a release, or any other delivery
/// artifact — changes nothing and produces nothing.
pub proof fn lemma_release_is_inert(m: StateModel, ev: KeyEvent)
    requires
        !ev.press,
    ensures
        event_step(m, ev) == m,
        event_action(m, ev) is Continue,
{
}

/// In Navigate mode a key press never produces a result, only a possible
/// cancellation.
pub proof fn lemma_navigate_never_submits(m: StateModel, key: Key)
    requires
        m.mode == Mode::Navigate,
    ensures
        !(step_action(m, key) is Submit),
        step_action(m, key) is Cancel <==> navigate_exit(key),
{
}

/// `Backspace` with the cursor at the start of the edited field changes
/// nothing (and on the mileage field it never does).
pub proof fn lemma_backspace_at_start_is_noop(m: StateModel)
    requires
        m.mode == Mode::Edit,
        m.cursor == 0 || m.focus == Focus::Mileage,
    ensures
        step(m, Key::Backspace) == m,
{
}

/// `Right` with the cursor at the end of the edited text field changes
/// nothing.
pub proof fn lemma_right_at_end_is_noop(m: StateModel)
    requires
        m.mode == Mode::Edit,
        m.focus != Focus::Mileage,
        m.cursor == m.focused_text().len(),
    ensures
        step(m, Key::Right) == m,
{
}

/// Decrementing the mileage at 0 changes nothing, by key or by arrow.
pub proof fn lemma_mileage_dec_at_zero_is_noop(m: StateModel)
    requires
        m.mode == Mode::Edit,
        m.focus == Focus::Mileage,
        m.mileage == 0,
    ensures
        step(m, Key::Char('h')) == m,
        step(m, Key::Left) == m,
{
}

/// Incrementing the mileage at 100 changes nothing, by key or by arrow.
pub proof fn lemma_mileage_inc_at_full_is_noop(m: StateModel)
    requires
        m.mode == Mode::Edit,
        m.focus == Focus::Mileage,
        m.mileage == 100,
    ensures
        step(m, Key::Char('l')) == m,
        step(m, Key::Right) == m,
{
}

/// A key whose single press changes nothing can be repeated any number of
/// times and still changes nothing: the bound checks are idempotent.
pub proof fn lemma_noop_key_repeats(m: StateModel, key: Key, n: nat)
    requires
        step(m, key) == m,
    ensures
        run_keys(m, Seq::new(n, |i: int| key)) == m,
    decreases n,
{
    let keys = Seq::new(n, |i: int| key);
    if n > 0 {
        assert(keys.drop_first() =~= Seq::new((n - 1) as nat, |i: int| key));
        lemma_noop_key_repeats(m, key, (n - 1) as nat);
    }
}

} // verus!
