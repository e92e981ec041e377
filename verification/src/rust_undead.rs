//! The program's instructions: each checks who may act (through a session
//! token or the accounts' owners) and then runs its accounts' transition.

use vstd::prelude::*;
use crate::config::{initial_game_config, InitializeGameConfig};
use crate::delegation::{AccountSeeds, GamingDelegate, WorldDelegate};
use crate::error::RustUndeadError;
use crate::rollup::{
    profile_after_quiz, profile_at_chapter_start, quiz_refusal, world_after_quiz,
    world_at_chapter_start, StartChapter, SubmitQuiz, UpdatePosition,
};
use crate::session::{first_refusal, outcome, session_auth_or, session_refusal, SessionCheck};
use crate::state::{zero_key, GamerProfile, Pubkey, UserPersona, WarriorClass};
use crate::users::{
    gamer_profile_after_build, user_profile_built, user_profile_refusal,
    BuildGamingProfile, BuildUserProfile,
};
use crate::constants::{UNDEAD_WORLD, USER_GAME_PROFILE};
use crate::world::{is_new_world, InitializeUndeadWorld};

pub use crate::warrior::{callback_warrior_stats, create_warrior};

verus! {

/// Sets up the game's configuration.
pub fn initialize_game_config(
    ctx: &mut InitializeGameConfig,
    released_chapters: u8,
    game_config_bump: u8,
) -> (r: Result<(), RustUndeadError>)
    ensures
        r == Ok::<(), RustUndeadError>(()),
        final(ctx).authority == old(ctx).authority,
        final(ctx).game_config == initial_game_config(
            old(ctx).authority,
            released_chapters,
            game_config_bump,
        ),
{
    ctx.initialize_game_config(released_chapters, game_config_bump)
}

/// Claims a username and writes the player's profile. Without a session
/// token, the profile must be the player's or never written before.
pub fn build_user_profile(
    ctx: &mut BuildUserProfile,
    session: SessionCheck,
    username: String,
    persona: UserPersona,
    now: i64,
    registry_bump: u8,
    profile_bump: u8,
) -> (r: Result<(), RustUndeadError>)
    ensures
        r == outcome(
            first_refusal(
                session_refusal(
                    session,
                    old(ctx).user_profile.owner@ == old(ctx).player@
                        || old(ctx).user_profile.owner@ == zero_key(),
                    RustUndeadError::NotAuthorized,
                ),
                user_profile_refusal(
                    username@,
                    old(ctx).user_registry,
                    old(ctx).user_profile,
                    old(ctx).player,
                ),
            ),
        ),
        r is Err ==> *final(ctx) == *old(ctx),
        r is Ok ==> user_profile_built(
            *old(ctx),
            *final(ctx),
            username@,
            persona,
            now,
            registry_bump,
            profile_bump,
        ),
{
    let owner_ok = ctx.user_profile.owner.same_as(&ctx.player) || ctx.user_profile.owner.is_default();
    if let Err(e) = session_auth_or(session, owner_ok, RustUndeadError::NotAuthorized) {
        return Err(e);
    }
    ctx.build_user_profile(username, persona, now, registry_bump, profile_bump)
}

/// Creates the player's game profile or changes its class. Without a
/// session token, the profile must be the player's or never written before.
pub fn build_gaming_profile(
    ctx: &mut BuildGamingProfile,
    session: SessionCheck,
    character_class: WarriorClass,
    now: i64,
    profile_bump: u8,
) -> (r: Result<(), RustUndeadError>)
    ensures
        r == outcome(
            session_refusal(
                session,
                old(ctx).gamer_profile.owner@ == old(ctx).player@
                    || old(ctx).gamer_profile.owner@ == zero_key(),
                RustUndeadError::NotAuthorized,
            ),
        ),
        r is Err ==> *final(ctx) == *old(ctx),
        r is Ok ==> final(ctx).player == old(ctx).player && final(ctx).gamer_profile
            == gamer_profile_after_build(
            old(ctx).gamer_profile,
            old(ctx).player,
            character_class,
            now,
            profile_bump,
        ),
{
    let owner_ok = ctx.gamer_profile.owner.same_as(&ctx.player)
        || ctx.gamer_profile.owner.is_default();
    if let Err(e) = session_auth_or(session, owner_ok, RustUndeadError::NotAuthorized) {
        return Err(e);
    }
    ctx.build_gaming_profile(character_class, now, profile_bump)
}

/// Opens a world; only the game's authority may.
pub fn initialize_undead_world(
    ctx: &mut InitializeUndeadWorld,
    world_id: [u8; 32],
    now: i64,
    world_bump: u8,
) -> (r: Result<(), RustUndeadError>)
    ensures
        r is Err <==> old(ctx).game_config.authority@ != old(ctx).authority@,
        r matches Err(e) ==> e == RustUndeadError::NotAuthorized && *final(ctx) == *old(ctx),
        r is Ok ==> {
            &&& final(ctx).authority == old(ctx).authority
            &&& final(ctx).game_config == old(ctx).game_config
            &&& is_new_world(final(ctx).undead_world, world_id, now, world_bump)
        },
{
    if !ctx.game_config.authority.same_as(&ctx.authority) {
        return Err(RustUndeadError::NotAuthorized);
    }
    ctx.initialize_undead_world(world_id, now, world_bump)
}

/// Names the game profile of `player` for delegation to the rollup.
pub fn game_profile_to_rollup(ctx: &GamingDelegate, session: SessionCheck, player: Pubkey) -> (r:
    Result<AccountSeeds, RustUndeadError>)
    ensures
        session_refusal(session, true, RustUndeadError::NotAuthorized) matches Some(e) ==> r
            == Err::<AccountSeeds, RustUndeadError>(e),
        session_refusal(session, true, RustUndeadError::NotAuthorized) is None ==> (r matches Ok(seeds) && seeds.prefix@
            == USER_GAME_PROFILE@ && seeds.key@ == player@),
{
    if let Err(e) = session_auth_or(session, true, RustUndeadError::NotAuthorized) {
        return Err(e);
    }
    ctx.game_profile_to_rollup(player)
}

/// Names world `world_id` for delegation to the rollup.
pub fn world_to_rollup(ctx: &WorldDelegate, session: SessionCheck, world_id: [u8; 32]) -> (r: Result<
    AccountSeeds,
    RustUndeadError,
>)
    ensures
        session_refusal(session, true, RustUndeadError::NotAuthorized) matches Some(e) ==> r
            == Err::<AccountSeeds, RustUndeadError>(e),
        session_refusal(session, true, RustUndeadError::NotAuthorized) is None ==> (r matches Ok(seeds) && seeds.prefix@ == UNDEAD_WORLD@
            && seeds.key@ == world_id@),
{
    if let Err(e) = session_auth_or(session, true, RustUndeadError::NotAuthorized) {
        return Err(e);
    }
    ctx.world_to_rollup(world_id)
}

/// Whether the profile may be played by `player` without a session token.
pub open spec fn owned_by(profile: GamerProfile, player: Pubkey) -> bool {
    profile.owner@ == player@
}

/// Starts chapter `chapter_number` for the player.
pub fn start_chapter(
    ctx: &mut StartChapter,
    session: SessionCheck,
    player: Pubkey,
    chapter_number: u16,
    world_id: [u8; 32],
) -> (r: Result<(), RustUndeadError>)
    ensures
        r == outcome(
            session_refusal(
                session,
                owned_by(old(ctx).gamer_profile, old(ctx).player),
                RustUndeadError::NotAuthorized,
            ),
        ),
        r is Err ==> *final(ctx) == *old(ctx),
        r is Ok ==> {
            &&& final(ctx).player == old(ctx).player
            &&& final(ctx).gamer_profile == profile_at_chapter_start(
                old(ctx).gamer_profile,
                chapter_number,
            )
            &&& final(ctx).undead_world == world_at_chapter_start(old(ctx).undead_world)
        },
{
    let owner_ok = ctx.gamer_profile.owner.same_as(&ctx.player);
    if let Err(e) = session_auth_or(session, owner_ok, RustUndeadError::NotAuthorized) {
        return Err(e);
    }
    ctx.start_chapter(player, chapter_number, world_id)
}

/// Moves the player to `position` in the current chapter.
pub fn update_position(
    ctx: &mut UpdatePosition,
    session: SessionCheck,
    player: Pubkey,
    position: u32,
) -> (r: Result<(), RustUndeadError>)
    ensures
        r == outcome(
            session_refusal(
                session,
                owned_by(old(ctx).gamer_profile, old(ctx).player),
                RustUndeadError::NotAuthorized,
            ),
        ),
        r is Err ==> *final(ctx) == *old(ctx),
        r is Ok ==> {
            &&& final(ctx).player == old(ctx).player
            &&& final(ctx).gamer_profile == (GamerProfile {
                current_position: position,
                ..old(ctx).gamer_profile
            })
        },
{
    let owner_ok = ctx.gamer_profile.owner.same_as(&ctx.player);
    if let Err(e) = session_auth_or(session, owner_ok, RustUndeadError::NotAuthorized) {
        return Err(e);
    }
    ctx.update_position(player, position)
}

/// Records a quiz score and updates the world's leaderboard.
pub fn submit_quiz(
    ctx: &mut SubmitQuiz,
    session: SessionCheck,
    player: Pubkey,
    score: u8,
    world_id: [u8; 32],
) -> (r: Result<(), RustUndeadError>)
    ensures
        r == outcome(
            first_refusal(
                session_refusal(
                    session,
                    owned_by(old(ctx).gamer_profile, old(ctx).player),
                    RustUndeadError::NotAuthorized,
                ),
                quiz_refusal(score, world_id@, old(ctx).undead_world),
            ),
        ),
        r is Err ==> *final(ctx) == *old(ctx),
        r is Ok ==> {
            &&& final(ctx).player == old(ctx).player
            &&& final(ctx).gamer_profile == profile_after_quiz(old(ctx).gamer_profile, score)
            &&& final(ctx).undead_world == world_after_quiz(
                old(ctx).undead_world,
                final(ctx).gamer_profile,
                old(ctx).player,
            )
        },
{
    let owner_ok = ctx.gamer_profile.owner.same_as(&ctx.player);
    if let Err(e) = session_auth_or(session, owner_ok, RustUndeadError::NotAuthorized) {
        return Err(e);
    }
    ctx.submit_quiz(score, world_id)
}

} // verus!
