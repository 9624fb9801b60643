//! Properties of the dispatcher over sequences of keystrokes.
use vstd::prelude::*;

use crate::app::{shortcut_screen, step, Action, AppModel, Key, MAX_EPOCHS, MIN_EPOCHS};

verus! {

/// The state after the keystrokes `keys`, one after the other.
pub open spec fn run(m: AppModel, keys: Seq<Key>) -> AppModel
    decreases keys.len(),
{
    if keys.len() == 0 {
        m
    } else {
        run(step(m, keys[0]).0, keys.subrange(1, keys.len() as int))
    }
}

/// However many keys are pressed, a well-formed state stays well formed;
/// in particular the epoch count stays between its bounds.
pub proof fn lemma_run_keeps_epochs_in_range(m: AppModel, keys: Seq<Key>)
    requires
        m.wf(),
    ensures
        run(m, keys).wf(),
        MIN_EPOCHS <= run(m, keys).epochs <= MAX_EPOCHS,
    decreases keys.len(),
{
    if keys.len() > 0 {
        crate::app::lemma_step_keeps_wf(m, keys[0]);
        lemma_run_keeps_epochs_in_range(step(m, keys[0]).0, keys.subrange(1, keys.len() as int));
    }
}

/// Escape changes nothing but edit mode: every text field stays as it was.
pub proof fn lemma_escape_keeps_text(m: AppModel)
    ensures
        !m.should_quit ==> step(m, Key::Esc) == (AppModel { is_editing: false, ..m }, Action::Nothing),
        m.should_quit ==> step(m, Key::Esc) == (m, Action::Nothing),
{
}

/// Entering edit mode and pressing Escape gives back the state one started
/// from: edit mode is off again and no text field has changed.
pub proof fn lemma_edit_then_escape(m: AppModel)
    requires
        !m.should_quit,
        !m.is_editing,
    ensures
        step(m, Key::Char('e')).0.is_editing,
        step(step(m, Key::Char('e')).0, Key::Esc).0 == m,
{
}

/// A screen switch changes the screen and leaves edit mode, and touches no
/// field of any screen.
pub proof fn lemma_switch_keeps_fields(m: AppModel, k: Key)
    requires
        !m.should_quit,
        shortcut_screen(k) is Some,
    ensures
        step(m, k) == (AppModel { screen: shortcut_screen(k)->0, is_editing: false, ..m }, Action::Nothing),
{
}

/// Switching to another screen and back gives back the state one left,
/// out of edit mode: what was typed there is still there.
pub proof fn lemma_switch_away_and_back(m: AppModel, away: Key, back: Key)
    requires
        !m.should_quit,
        shortcut_screen(away) is Some,
        shortcut_screen(back) == Some(m.screen),
    ensures
        step(step(m, away).0, back).0 == (AppModel { is_editing: false, ..m }),
{
}

/// Backspace with an empty file name changes nothing.
pub proof fn lemma_backspace_on_empty_filename(m: AppModel)
    requires
        m.filename.len() == 0,
    ensures
        step(m, Key::Backspace) == (m, Action::Nothing),
{
}

} // verus!
