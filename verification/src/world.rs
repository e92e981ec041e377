use vstd::prelude::*;
use crate::error::RustUndeadError;
use crate::state::{zero_key, GameConfig, Pubkey, UndeadWorld};

verus! {

/// Accounts of the instruction through which the authority opens a world.
#[derive(Clone, Copy, Debug)]
pub struct InitializeUndeadWorld {
    pub authority: Pubkey,
    pub game_config: GameConfig,
    pub undead_world: UndeadWorld,
}

/// Whether `w` is a newly opened world `world_id`: no players, no
/// completions, an empty leaderboard held by the default address.
pub open spec fn is_new_world(w: UndeadWorld, world_id: [u8; 32], now: i64, bump: u8) -> bool {
    &&& w.world_id == world_id
    &&& w.active_players == 0
    &&& w.total_players == 0
    &&& w.total_completions == 0
    &&& w.highest_undead_score_average == 0
    &&& w.top_commander@ == zero_key()
    &&& w.created_at == now
    &&& w.bump == bump
}

impl InitializeUndeadWorld {
    /// Opens world `world_id`, created at `now`.
    pub fn initialize_undead_world(&mut self, world_id: [u8; 32], now: i64, world_bump: u8) -> (r:
        Result<(), RustUndeadError>)
        ensures
            r == Ok::<(), RustUndeadError>(()),
            final(self).authority == old(self).authority,
            final(self).game_config == old(self).game_config,
            is_new_world(final(self).undead_world, world_id, now, world_bump),
    {
        self.undead_world = UndeadWorld {
            world_id: world_id,
            active_players: 0,
            total_players: 0,
            total_completions: 0,
            highest_undead_score_average: 0,
            top_commander: Pubkey::zero(),
            created_at: now,
            bump: world_bump,
        };
        Ok(())
    }
}

} // verus!
