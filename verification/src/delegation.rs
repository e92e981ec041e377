use vstd::prelude::*;
use crate::constants::{UNDEAD_WORLD, USER_GAME_PROFILE};
use crate::error::RustUndeadError;
use crate::state::Pubkey;

verus! {

/// The seeds of an account address: a text prefix and a 32-byte key.
#[derive(Clone, Copy, Debug)]
pub struct AccountSeeds {
    pub prefix: &'static str,
    pub key: [u8; 32],
}

/// Accounts of the instruction that hands a game profile to the rollup.
#[derive(Clone, Copy, Debug)]
pub struct GamingDelegate {
    pub signer: Pubkey,
    pub user_game_profile: Pubkey,
}

/// Accounts of the instruction that hands a world to the rollup.
#[derive(Clone, Copy, Debug)]
pub struct WorldDelegate {
    pub signer: Pubkey,
    pub undead_world: Pubkey,
}

impl GamingDelegate {
    /// The seeds of the game profile of `player`, which is to be delegated.
    pub fn game_profile_to_rollup(&self, player: Pubkey) -> (r: Result<AccountSeeds, RustUndeadError>)
        ensures
            r matches Ok(seeds) && seeds.prefix@ == USER_GAME_PROFILE@ && seeds.key@ == player@,
    {
        Ok(AccountSeeds { prefix: USER_GAME_PROFILE, key: player.bytes })
    }
}

impl WorldDelegate {
    /// The seeds of world `world_id`, which is to be delegated.
    pub fn world_to_rollup(&self, world_id: [u8; 32]) -> (r: Result<AccountSeeds, RustUndeadError>)
        ensures
            r matches Ok(seeds) && seeds.prefix@ == UNDEAD_WORLD@ && seeds.key@ == world_id@,
    {
        Ok(AccountSeeds { prefix: UNDEAD_WORLD, key: world_id })
    }
}

} // verus!
