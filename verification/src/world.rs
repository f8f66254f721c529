//! The phase machine that gates which per-frame systems run.

use vstd::prelude::*;

verus! {

/// The phase of the demo; exactly one value is active at a time.
#[derive(Clone, Copy, PartialEq, Eq, Structural, Debug, Hash)]
pub enum GameState {
    /// Assets are being loaded.
    Loading,
    /// Declared for a menu, but no implemented path ever enters it.
    Menu,
    /// The scene is built and animated.
    Playing,
}

impl Default for GameState {
    /// The demo starts in the loading phase.
    fn default() -> (s: Self)
        ensures
            s == GameState::Loading,
    {
        GameState::Loading
    }
}

/// The next phase after one frame: loading continues to playing exactly
/// when the external load-complete signal arrives, and no other phase
/// ever changes.
pub open spec fn spec_advance(s: GameState, load_complete: bool) -> GameState {
    match s {
        GameState::Loading => if load_complete {
            GameState::Playing
        } else {
            GameState::Loading
        },
        GameState::Menu => GameState::Menu,
        GameState::Playing => GameState::Playing,
    }
}

/// Advances the phase machine by one frame.
pub fn advance(s: GameState, load_complete: bool) -> (r: GameState)
    ensures
        r == spec_advance(s, load_complete),
{
    match s {
        GameState::Loading => if load_complete {
            GameState::Playing
        } else {
            GameState::Loading
        },
        GameState::Menu => GameState::Menu,
        GameState::Playing => GameState::Playing,
    }
}

/// The loading phase leads to the playing phase exactly when the external
/// load-complete signal arrives; without it, loading continues.
pub proof fn lemma_playing_needs_load_complete(load_complete: bool)
    ensures
        spec_advance(GameState::Loading, load_complete) == GameState::Playing <==> load_complete,
        !load_complete ==> spec_advance(GameState::Loading, load_complete) == GameState::Loading,
{
}

/// No implemented transition enters the menu phase.
pub proof fn lemma_menu_not_entered(s: GameState, load_complete: bool)
    requires
        s != GameState::Menu,
    ensures
        spec_advance(s, load_complete) != GameState::Menu,
{
}

/// The phase after a whole run of frames, given the load-complete signal
/// observed on each.
pub open spec fn spec_run(s: GameState, signals: Seq<bool>) -> GameState
    decreases signals.len(),
{
    if signals.len() == 0 {
        s
    } else {
        spec_run(spec_advance(s, signals[0]), signals.subrange(1, signals.len() as int))
    }
}

/// Starting anywhere but the menu — in particular from the initial
/// loading phase — no run of frames ever reaches the menu.
pub proof fn lemma_menu_unreachable(s: GameState, signals: Seq<bool>)
    requires
        s != GameState::Menu,
    ensures
        spec_run(s, signals) != GameState::Menu,
    decreases signals.len(),
{
    if signals.len() > 0 {
        lemma_menu_not_entered(s, signals[0]);
        lemma_menu_unreachable(spec_advance(s, signals[0]), signals.subrange(1, signals.len() as int));
    }
}

} // verus!
