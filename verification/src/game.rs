use vstd::prelude::*;

use crate::actions::action::Action;
use crate::components::games::game_state::GameState;
use crate::components::player::PlayerCharacter;
use crate::errors::Errors;
use crate::events::event::{spec_apply_events, Event};
use crate::handlers::{handle, resolve_err, resolve_ok, HandledAction};
use crate::utils::rolls::Roller;

verus! {

/// One running game session: the authoritative state and the player,
/// owned exclusively and advanced one action at a time.
pub struct Game {
    pub state: GameState,
    pub player: PlayerCharacter,
}

impl Game {
    /// The session invariant: a valid state and a player within the
    /// generation bounds.
    pub open spec fn wf(self) -> bool {
        &&& self.state.wf()
        &&& self.player.model().character.wf()
    }

    /// Replace the authoritative state wholesale.
    pub fn update_state(&mut self, state: GameState)
        ensures
            final(self).state == state,
            final(self).player == old(self).player,
    {
        self.state = state;
    }

    /// Resolve one action and advance the session to the state its
    /// events produce, returning those events. On failure nothing
    /// changes.
    pub fn handle_action(&mut self, action: &Action, roller: &mut Roller) -> (r: Result<
        Vec<Event>,
        Errors,
    >)
        requires
            old(self).wf(),
        ensures
            match r {
                Ok(events) => {
                    &&& resolve_ok(
                        *action,
                        old(self).state.model(),
                        old(self).player.model(),
                        events@.map_values(|e: Event| e.model()),
                    )
                    &&& (final(self).state.model(), final(self).player.model())
                        == spec_apply_events(
                        events@.map_values(|e: Event| e.model()),
                        old(self).state.model(),
                        old(self).player.model(),
                    )
                    &&& final(self).wf()
                },
                Err(e) => {
                    &&& resolve_err(
                        *action,
                        old(self).state.model(),
                        old(self).player.model(),
                        e.model(),
                    )
                    &&& *final(self) == *old(self)
                },
            },
    {
        let HandledAction { events, new_state, new_player } = match handle(
            action,
            &self.state,
            &self.player,
            roller,
        ) {
            Ok(handled) => handled,
            Err(e) => {
                return Err(e);
            },
        };
        self.state = new_state;
        self.player = new_player;
        Ok(events)
    }
}

} // verus!
