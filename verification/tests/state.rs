use scene_demo::world::{advance, GameState};

#[test]
fn starts_in_loading() {
    assert_eq!(GameState::default(), GameState::Loading);
}

#[test]
fn loading_without_signal_stays_loading() {
    assert_eq!(advance(GameState::Loading, false), GameState::Loading);
}

#[test]
fn loading_with_signal_enters_playing() {
    assert_eq!(advance(GameState::Loading, true), GameState::Playing);
}

#[test]
fn playing_is_terminal() {
    assert_eq!(advance(GameState::Playing, false), GameState::Playing);
    assert_eq!(advance(GameState::Playing, true), GameState::Playing);
}

#[test]
fn menu_is_never_entered() {
    for state in [GameState::Loading, GameState::Playing] {
        for signal in [false, true] {
            assert_ne!(advance(state, signal), GameState::Menu);
        }
    }
}
