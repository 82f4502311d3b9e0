use vstd::prelude::*;

verus! {

/// The in-game state.  Drawing is the host's work; beyond it this state
/// has no behaviour of its own and never requests a transition.
pub struct GameState {}

impl GameState {
    pub fn new() -> (r: GameState) {
        GameState {}
    }

    /// The in-game state never leaves itself.
    pub fn transition(&self) -> (r: Option<GameState>)
        ensures
            r is None,
    {
        None
    }
}

/// The main menu: any key press requests the switch into the game.
pub struct MainMenuState {
    pub transition: bool,
}

impl MainMenuState {
    pub fn new() -> (r: MainMenuState)
        ensures
            !r.transition,
    {
        MainMenuState { transition: false }
    }

    /// A key went down: request the switch.
    pub fn handle_key_down(&mut self)
        ensures
            final(self).transition,
    {
        self.transition = true;
    }

    /// The switch into the game, exactly once it was requested.
    pub fn transition(&self) -> (r: Option<GameState>)
        ensures
            r is Some <==> self.transition,
    {
        if self.transition {
            Some(GameState {  })
        } else {
            None
        }
    }
}

} // verus!
