use vstd::prelude::*;
use crate::error::RustUndeadError;
use crate::state::{GameConfig, Pubkey};

verus! {

/// Accounts of the one-time setup of the game's configuration.
#[derive(Clone, Copy, Debug)]
pub struct InitializeGameConfig {
    pub authority: Pubkey,
    pub game_config: GameConfig,
}

/// The configuration the game starts with: owned by `authority`, no
/// warriors yet, boss battles off, not paused.
pub open spec fn initial_game_config(authority: Pubkey, released_chapters: u8, bump: u8) -> GameConfig {
    GameConfig {
        authority: authority,
        released_chapters: released_chapters,
        total_warriors: 0,
        boss_battles_enabled: false,
        paused: false,
        bump: bump,
    }
}

impl InitializeGameConfig {
    /// Writes the game's configuration, with the signer as its authority.
    pub fn initialize_game_config(&mut self, released_chapters: u8, game_config_bump: u8) -> (r:
        Result<(), RustUndeadError>)
        ensures
            r == Ok::<(), RustUndeadError>(()),
            final(self).authority == old(self).authority,
            final(self).game_config == initial_game_config(
                old(self).authority,
                released_chapters,
                game_config_bump,
            ),
    {
        self.game_config = GameConfig {
            authority: self.authority,
            total_warriors: 0,
            released_chapters: released_chapters,
            boss_battles_enabled: false,
            paused: false,
            bump: game_config_bump,
        };
        Ok(())
    }
}

} // verus!
