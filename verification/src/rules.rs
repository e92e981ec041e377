//! The game's rules stated on their own terms: concrete tables, the exact
//! effect of each transition on every field, and when each refusal comes.

use vstd::prelude::*;
use crate::config::initial_game_config;
use crate::constants::{
    DAEMON_FOLDER_HASH, GUARDIAN_FOLDER_HASH, IPFS_GATEWAY, ORACLE_FOLDER_HASH,
    VALIDATOR_FOLDER_HASH,
};
use crate::error::RustUndeadError;
use crate::rollup::{
    profile_after_quiz, profile_at_chapter_start, quiz_refusal, world_after_quiz,
    world_at_chapter_start,
};
use crate::rust_undead::owned_by;
use crate::session::{first_refusal, outcome, session_refusal, SessionCheck};
use crate::state::{
    class_display, rarity_display, zero_key, AchievementLevel, GamerProfile, ImageRarity, Pubkey,
    UndeadWarrior, UndeadWorld, UserAchievements, UserPersona, UserProfile, UsernameRegistry,
    WarriorClass,
};
use crate::text::utf8_len;
use crate::users::{gamer_profile_after_build, user_profile_built, user_profile_refusal, BuildUserProfile};
use crate::vrf::vrf_random_u8_with_range;
use crate::warrior::{
    achievements_after_warrior, callback_applied, class_default_stats, create_warrior_refusal,
    fallback_image_uri, folder_hash, image_of, initial_stats, is_new_warrior, profile_after_warrior,
    vrf_stat_bounds, vrf_stats, WarriorImage,
};
use crate::world::is_new_world;

verus! {

// ---------------------------------------------------------------- quizzes

/// A quiz is refused when its score is above 100, else when the world id is
/// not the world's; a score of at most 100 for the right world is accepted.
pub proof fn quiz_refused_exactly_for_bad_score_or_world(score: u8, world_id: Seq<u8>, w: UndeadWorld)
    ensures
        score > 100 ==> quiz_refusal(score, world_id, w) == Some(RustUndeadError::InvalidScore),
        score <= 100 && world_id != w.world_id@ ==> quiz_refusal(score, world_id, w) == Some(
            RustUndeadError::InvalidRoomId,
        ),
        score <= 100 && world_id == w.world_id@ ==> quiz_refusal(score, world_id, w) is None,
{
}

/// Below the counters' maxima, a quiz adds its score to the total, counts
/// one more quiz, sets the average to the new total over the new count, and
/// leaves every other field of the profile as it was.
pub proof fn quiz_adds_score_and_counts_one(p: GamerProfile, score: u8)
    requires
        p.total_quiz_score + score <= u32::MAX,
        p.quizzes_taken < u16::MAX,
    ensures
        profile_after_quiz(p, score).total_quiz_score == p.total_quiz_score + score,
        profile_after_quiz(p, score).quizzes_taken == p.quizzes_taken + 1,
        profile_after_quiz(p, score).undead_score == (p.total_quiz_score + score) / (
        p.quizzes_taken + 1),
        profile_after_quiz(p, score) == (GamerProfile {
            total_quiz_score: profile_after_quiz(p, score).total_quiz_score,
            quizzes_taken: profile_after_quiz(p, score).quizzes_taken,
            undead_score: profile_after_quiz(p, score).undead_score,
            ..p
        }),
{
}

/// At their maxima the quiz counters stay there.
pub proof fn quiz_counters_hold_at_maximum(p: GamerProfile, score: u8)
    ensures
        p.quizzes_taken == u16::MAX ==> profile_after_quiz(p, score).quizzes_taken == u16::MAX,
        p.total_quiz_score + score > u32::MAX ==> profile_after_quiz(p, score).total_quiz_score
            == u32::MAX,
{
}

/// The world's leaderboard moves only for a strictly better average: when
/// the player's average is not above the world's best, the world stays as it
/// was (its top commander included); when it is above, the average becomes
/// the best and the player the top commander, and nothing else changes.
pub proof fn leaderboard_changes_only_for_a_better_average(
    w: UndeadWorld,
    profile: GamerProfile,
    player: Pubkey,
)
    ensures
        profile.undead_score <= w.highest_undead_score_average ==> world_after_quiz(
            w,
            profile,
            player,
        ) == w,
        profile.undead_score > w.highest_undead_score_average ==> {
            let after = world_after_quiz(w, profile, player);
            &&& after.highest_undead_score_average == profile.undead_score
            &&& after.top_commander == player
            &&& after.world_id == w.world_id
            &&& after.active_players == w.active_players
            &&& after.total_players == w.total_players
            &&& after.total_completions == w.total_completions
            &&& after.created_at == w.created_at
            &&& after.bump == w.bump
        },
        world_after_quiz(w, profile, player).top_commander != w.top_commander
            ==> world_after_quiz(w, profile, player).highest_undead_score_average
            > w.highest_undead_score_average,
{
}

// ---------------------------------------------------------------- chapters

/// Starting chapter `n` puts the player in chapter `n`, whatever chapter they
/// were in before, at position 0; nothing else about the profile changes.
pub proof fn chapter_start_sets_chapter_and_resets_position(p: GamerProfile, n: u16)
    ensures
        profile_at_chapter_start(p, n).current_chapter == n,
        profile_at_chapter_start(p, n).current_position == 0,
        profile_at_chapter_start(p, n) == (GamerProfile {
            current_chapter: n,
            current_position: 0,
            ..p
        }),
{
}

/// Starting a chapter counts one more active player in the world, held at
/// the maximum; nothing else about the world changes.
pub proof fn chapter_start_counts_one_active_player(w: UndeadWorld)
    ensures
        w.active_players < u16::MAX ==> world_at_chapter_start(w).active_players
            == w.active_players + 1,
        w.active_players == u16::MAX ==> world_at_chapter_start(w).active_players == u16::MAX,
        world_at_chapter_start(w) == (UndeadWorld {
            active_players: world_at_chapter_start(w).active_players,
            ..w
        }),
{
}

// ---------------------------------------------------------------- profiles

/// A game profile never written before starts with the player as its owner,
/// the chosen class, no progress at all, and the given creation time and
/// bump.
pub proof fn new_game_profile_has_no_progress(
    p: GamerProfile,
    player: Pubkey,
    class: WarriorClass,
    now: i64,
    bump: u8,
)
    requires
        p.owner@ == zero_key(),
    ensures
        ({
            let g = gamer_profile_after_build(p, player, class, now, bump);
            &&& g.owner == player
            &&& g.character_class == class
            &&& g.current_chapter == 0
            &&& g.chapters_completed == 0
            &&& g.total_distance == 0
            &&& g.current_position == 0
            &&& g.total_playtime == 0
            &&& g.total_battles_won == 0
            &&& g.total_battles_lost == 0
            &&& g.total_battles_fought == 0
            &&& g.quizzes_taken == 0
            &&& g.total_quiz_score == 0
            &&& g.undead_score == 0
            &&& g.bump == bump
            &&& g.created_at == now
        }),
{
}

/// Building a user profile is refused exactly when the name is not 1 to 20
/// bytes, the name is already claimed, or the profile belongs to someone
/// else; the errors come in that order.
pub proof fn user_profile_refused_exactly(
    username: Seq<char>,
    registry: UsernameRegistry,
    profile: UserProfile,
    player: Pubkey,
)
    ensures
        user_profile_refusal(username, registry, profile, player) is None <==> {
            &&& 1 <= utf8_len(username) <= 20
            &&& !registry.claimed
            &&& (profile.owner@ == zero_key() || profile.owner@ == player@)
        },
        utf8_len(username) > 20 ==> user_profile_refusal(username, registry, profile, player)
            == Some(RustUndeadError::NameTooLong),
        utf8_len(username) == 0 ==> user_profile_refusal(username, registry, profile, player)
            == Some(RustUndeadError::NameEmpty),
        1 <= utf8_len(username) <= 20 && registry.claimed ==> user_profile_refusal(
            username,
            registry,
            profile,
            player,
        ) == Some(RustUndeadError::UsernameAlreadyChoosen),
        1 <= utf8_len(username) <= 20 && !registry.claimed && profile.owner@ != zero_key()
            && profile.owner@ != player@ ==> user_profile_refusal(username, registry, profile, player)
            == Some(RustUndeadError::NotAuthorized),
{
}

/// A newly built user profile belongs to the player, carries the chosen
/// name and persona, has no warriors and no achievement, joined now; the
/// name is claimed by the player.
pub proof fn new_user_profile_is_set_up(
    before: BuildUserProfile,
    after: BuildUserProfile,
    username: Seq<char>,
    persona: UserPersona,
    now: i64,
    registry_bump: u8,
    profile_bump: u8,
)
    requires
        user_profile_built(before, after, username, persona, now, registry_bump, profile_bump),
        before.user_profile.owner@ == zero_key(),
    ensures
        after.user_profile.owner == before.player,
        after.user_profile.username matches Some(u) && u@ == username,
        after.user_profile.user_persona == Some(persona),
        after.user_profile.warriors == 0,
        after.user_profile.warriors_created == before.user_profile.warriors_created,
        after.user_profile.total_points == before.user_profile.total_points,
        after.user_profile.achievement_level == AchievementLevel::Unranked,
        after.user_profile.join_date == now,
        after.user_profile.bump == profile_bump,
        after.user_registry.claimed,
        after.user_registry.owner == before.player,
        after.user_registry.bump == registry_bump,
{
}

/// The game's configuration starts owned by its authority with no warriors,
/// boss battles off and the game running.
pub proof fn game_config_starts_empty(authority: Pubkey, released_chapters: u8, bump: u8)
    ensures
        initial_game_config(authority, released_chapters, bump).authority == authority,
        initial_game_config(authority, released_chapters, bump).released_chapters
            == released_chapters,
        initial_game_config(authority, released_chapters, bump).total_warriors == 0,
        !initial_game_config(authority, released_chapters, bump).boss_battles_enabled,
        !initial_game_config(authority, released_chapters, bump).paused,
        initial_game_config(authority, released_chapters, bump).bump == bump,
{
}

/// A newly opened world has no players, no completions and an empty
/// leaderboard held by the default address.
pub proof fn new_world_is_empty(w: UndeadWorld, world_id: [u8; 32], now: i64, bump: u8)
    requires
        is_new_world(w, world_id, now, bump),
    ensures
        w.world_id == world_id,
        w.active_players == 0,
        w.total_players == 0,
        w.total_completions == 0,
        w.highest_undead_score_average == 0,
        w.top_commander@ == zero_key(),
        w.created_at == now,
        w.bump == bump,
{
}

// ---------------------------------------------------------------- sessions

/// A valid session token of the player's authorizes; an invalid token is
/// refused as invalid; a token of another authority is refused with the
/// given error; without a token the condition decides.
pub proof fn session_decides_as_the_token_says(condition: bool, or_error: RustUndeadError)
    ensures
        session_refusal(SessionCheck::Valid, condition, or_error) is None,
        session_refusal(SessionCheck::Invalid, condition, or_error) == Some(
            RustUndeadError::InvalidSessionToken,
        ),
        session_refusal(SessionCheck::OtherAuthority, condition, or_error) == Some(or_error),
        session_refusal(SessionCheck::Absent, condition, or_error) is None <==> condition,
        !condition ==> session_refusal(SessionCheck::Absent, condition, or_error) == Some(or_error),
{
}

/// Refusals are checked in order: the first one found is the answer; with
/// none the instruction succeeds.
pub proof fn refusals_checked_in_order(e: RustUndeadError, later: Option<RustUndeadError>)
    ensures
        first_refusal(Some(e), later) == Some(e),
        first_refusal(None, later) == later,
        outcome(Some(e)) == Err::<(), RustUndeadError>(e),
        outcome(None) == Ok::<(), RustUndeadError>(()),
{
}

/// Without a session token, a game profile may be played only by its owner.
pub proof fn game_profile_played_by_owner(p: GamerProfile, player: Pubkey)
    ensures
        owned_by(p, player) <==> p.owner@ == player@,
{
}

/// Building an existing user profile keeps its owner, warriors, points,
/// achievement, join date and bump; only the name and persona change.
pub proof fn existing_user_profile_keeps_its_record(
    before: BuildUserProfile,
    after: BuildUserProfile,
    username: Seq<char>,
    persona: UserPersona,
    now: i64,
    registry_bump: u8,
    profile_bump: u8,
)
    requires
        user_profile_built(before, after, username, persona, now, registry_bump, profile_bump),
        before.user_profile.owner@ != zero_key(),
    ensures
        after.user_profile.owner == before.user_profile.owner,
        after.user_profile.username matches Some(u) && u@ == username,
        after.user_profile.user_persona == Some(persona),
        after.user_profile.warriors == before.user_profile.warriors,
        after.user_profile.warriors_created == before.user_profile.warriors_created,
        after.user_profile.total_points == before.user_profile.total_points,
        after.user_profile.achievement_level == before.user_profile.achievement_level,
        after.user_profile.join_date == before.user_profile.join_date,
        after.user_profile.bump == before.user_profile.bump,
        after.user_registry.claimed,
        after.user_registry.owner == before.player,
{
}

// ---------------------------------------------------------------- warriors

/// The class names and rarity names shown to players.
pub proof fn display_names()
    ensures
        class_display(WarriorClass::Validator) == "Validator Warrior"@,
        class_display(WarriorClass::Oracle) == "Oracle Warrior"@,
        class_display(WarriorClass::Guardian) == "Guardian Warrior"@,
        class_display(WarriorClass::Daemon) == "Daemon Warrior"@,
        rarity_display(ImageRarity::Common) == "common"@,
        rarity_display(ImageRarity::Uncommon) == "uncommon"@,
        rarity_display(ImageRarity::Rare) == "rare"@,
{
}

/// The fallback stats (attack, defense, knowledge) of each class.
pub proof fn class_default_stats_table()
    ensures
        class_default_stats(WarriorClass::Daemon) == (120u16, 50u16, 75u16),
        class_default_stats(WarriorClass::Guardian) == (50u16, 120u16, 75u16),
        class_default_stats(WarriorClass::Oracle) == (75u16, 60u16, 120u16),
        class_default_stats(WarriorClass::Validator) == (80u16, 80u16, 60u16),
{
}

/// A new warrior's stats are the rolled ones when there are any, else its
/// class's defaults.
pub proof fn initial_stats_are_rolled_or_default(class: WarriorClass, rolled: (u16, u16, u16))
    ensures
        initial_stats(class, Some(rolled)) == rolled,
        initial_stats(class, None) == class_default_stats(class),
{
}

/// The inclusive bounds within which the randomness callback draws each
/// class's (attack, defense, knowledge).
pub proof fn vrf_stat_bounds_table()
    ensures
        vrf_stat_bounds(WarriorClass::Validator) == ((60u8, 100u8), (40u8, 100u8), (40u8, 80u8)),
        vrf_stat_bounds(WarriorClass::Oracle) == ((50u8, 100u8), (40u8, 80u8), (100u8, 141u8)),
        vrf_stat_bounds(WarriorClass::Guardian) == ((40u8, 61u8), (100u8, 141u8), (50u8, 100u8)),
        vrf_stat_bounds(WarriorClass::Daemon) == ((100u8, 141u8), (40u8, 61u8), (50u8, 100u8)),
{
}

/// Each stat the callback draws is the draw from the same randomness in that
/// stat's range for the class.
pub proof fn vrf_stats_draw_in_class_ranges(r: Seq<u8>)
    ensures
        vrf_stats(r, WarriorClass::Validator) == (
            vrf_random_u8_with_range(r, 60, 100),
            vrf_random_u8_with_range(r, 40, 100),
            vrf_random_u8_with_range(r, 40, 80),
        ),
        vrf_stats(r, WarriorClass::Oracle) == (
            vrf_random_u8_with_range(r, 50, 100),
            vrf_random_u8_with_range(r, 40, 80),
            vrf_random_u8_with_range(r, 100, 141),
        ),
        vrf_stats(r, WarriorClass::Guardian) == (
            vrf_random_u8_with_range(r, 40, 61),
            vrf_random_u8_with_range(r, 100, 141),
            vrf_random_u8_with_range(r, 50, 100),
        ),
        vrf_stats(r, WarriorClass::Daemon) == (
            vrf_random_u8_with_range(r, 100, 141),
            vrf_random_u8_with_range(r, 40, 61),
            vrf_random_u8_with_range(r, 50, 100),
        ),
{
}

/// Each class's image folder.
pub proof fn class_folders()
    ensures
        folder_hash(WarriorClass::Validator) == VALIDATOR_FOLDER_HASH@,
        folder_hash(WarriorClass::Oracle) == ORACLE_FOLDER_HASH@,
        folder_hash(WarriorClass::Guardian) == GUARDIAN_FOLDER_HASH@,
        folder_hash(WarriorClass::Daemon) == DAEMON_FOLDER_HASH@,
{
}

/// The fallback image of a class is the first common image in that class's
/// own folder: `{gateway}/{folder of the class}/c1.png`.
pub proof fn fallback_image_in_own_class_folder()
    ensures
        fallback_image_uri(WarriorClass::Validator) == IPFS_GATEWAY@ + "/"@ + VALIDATOR_FOLDER_HASH@
            + "/c1.png"@,
        fallback_image_uri(WarriorClass::Oracle) == IPFS_GATEWAY@ + "/"@ + ORACLE_FOLDER_HASH@
            + "/c1.png"@,
        fallback_image_uri(WarriorClass::Guardian) == IPFS_GATEWAY@ + "/"@ + GUARDIAN_FOLDER_HASH@
            + "/c1.png"@,
        fallback_image_uri(WarriorClass::Daemon) == IPFS_GATEWAY@ + "/"@ + DAEMON_FOLDER_HASH@
            + "/c1.png"@,
{
}

/// Without a picked image a warrior gets the first common image of its
/// class; with one, exactly that image.
pub proof fn image_is_picked_or_fallback(class: WarriorClass, img: WarriorImage)
    ensures
        image_of(class, None) == (ImageRarity::Common, 1u8, fallback_image_uri(class)),
        image_of(class, Some(img)) == (img.rarity, img.index, img.uri@),
{
}

/// After the callback without a picked image, the warrior shows its class's
/// fallback image and has the stats drawn in its class's ranges.
pub proof fn callback_without_image_uses_fallback(
    before: UndeadWarrior,
    after: UndeadWarrior,
    r: Seq<u8>,
)
    requires
        callback_applied(before, after, r, None),
    ensures
        after.image_rarity == ImageRarity::Common,
        after.image_index == 1,
        after.image_uri@ == fallback_image_uri(before.warrior_class),
        after.base_attack == vrf_random_u8_with_range(
            r,
            vrf_stat_bounds(before.warrior_class).0.0,
            vrf_stat_bounds(before.warrior_class).0.1,
        ),
        after.base_defense == vrf_random_u8_with_range(
            r,
            vrf_stat_bounds(before.warrior_class).1.0,
            vrf_stat_bounds(before.warrior_class).1.1,
        ),
        after.base_knowledge == vrf_random_u8_with_range(
            r,
            vrf_stat_bounds(before.warrior_class).2.0,
            vrf_stat_bounds(before.warrior_class).2.1,
        ),
        after.warrior_class == before.warrior_class,
        after.name == before.name,
        after.address == before.address,
        after.owner == before.owner,
        after.dna == before.dna,
        after.created_at == before.created_at,
        after.current_hp == before.current_hp,
        after.max_hp == before.max_hp,
        after.battles_won == before.battles_won,
        after.battles_lost == before.battles_lost,
        after.experience_points == before.experience_points,
        after.level == before.level,
        after.last_battle_at == before.last_battle_at,
        after.cooldown_expires_at == before.cooldown_expires_at,
        after.bump == before.bump,
{
}

/// Creating a warrior is refused exactly when the profile is not the
/// player's, a session token is invalid or of another authority, or the
/// name is not 1 to 32 bytes; the errors come in that order.
pub proof fn warrior_refused_exactly(
    owner: Pubkey,
    player: Pubkey,
    session: SessionCheck,
    name: Seq<char>,
)
    ensures
        create_warrior_refusal(owner, player, session, name) is None <==> {
            &&& owner@ == player@
            &&& session != SessionCheck::Invalid
            &&& session != SessionCheck::OtherAuthority
            &&& 1 <= utf8_len(name) <= 32
        },
        owner@ != player@ ==> create_warrior_refusal(owner, player, session, name) == Some(
            RustUndeadError::NotAuthorized,
        ),
        owner@ == player@ && session == SessionCheck::Invalid ==> create_warrior_refusal(
            owner,
            player,
            session,
            name,
        ) == Some(RustUndeadError::InvalidSessionToken),
        owner@ == player@ && session == SessionCheck::OtherAuthority ==> create_warrior_refusal(
            owner,
            player,
            session,
            name,
        ) == Some(RustUndeadError::NotAuthorized),
        owner@ == player@ && (session == SessionCheck::Absent || session == SessionCheck::Valid)
            && utf8_len(name) > 32 ==> create_warrior_refusal(owner, player, session, name) == Some(
            RustUndeadError::NameTooLong,
        ),
        owner@ == player@ && (session == SessionCheck::Absent || session == SessionCheck::Valid)
            && utf8_len(name) == 0 ==> create_warrior_refusal(owner, player, session, name) == Some(
            RustUndeadError::NameEmpty,
        ),
{
}

/// A new warrior is at full health (100 of 100), level 1, with no battles,
/// no experience and no cooldown, owned by the player at the given address.
pub proof fn new_warrior_is_fresh(
    w: UndeadWarrior,
    name: Seq<char>,
    owner: Pubkey,
    address: Pubkey,
    bump: u8,
    dna: [u8; 8],
    class: WarriorClass,
    now: i64,
)
    requires
        is_new_warrior(w, name, owner, address, bump, dna, class, now),
    ensures
        w.current_hp == 100,
        w.max_hp == 100,
        w.level == 1,
        w.battles_won == 0,
        w.battles_lost == 0,
        w.experience_points == 0,
        w.last_battle_at == 0,
        w.cooldown_expires_at == 0,
        w.name@ == name,
        w.owner == owner,
        w.address == address,
        w.warrior_class == class,
        w.created_at == now,
        w.dna == dna,
        w.bump == bump,
{
}

/// Below the counters' maxima, a created warrior counts once among the
/// player's warriors and created warriors and earns 200 points; nothing else
/// about the profile changes.
pub proof fn warrior_counts_once_and_earns_points(p: UserProfile)
    requires
        p.warriors < u32::MAX,
        p.warriors_created < u32::MAX,
        p.total_points + 200 <= u64::MAX,
    ensures
        profile_after_warrior(p).warriors == p.warriors + 1,
        profile_after_warrior(p).warriors_created == p.warriors_created + 1,
        profile_after_warrior(p).total_points == p.total_points + 200,
        profile_after_warrior(p).owner == p.owner,
        profile_after_warrior(p).username == p.username,
        profile_after_warrior(p).user_persona == p.user_persona,
        profile_after_warrior(p).achievement_level == p.achievement_level,
        profile_after_warrior(p).join_date == p.join_date,
        profile_after_warrior(p).bump == p.bump,
{
}

/// A player's first warrior sets up their achievements record (owner, no
/// winner or battle achievement, first warrior now); a later one keeps the
/// record and only replaces the warrior and overall levels.
pub proof fn achievements_set_up_once(
    a: UserAchievements,
    player: Pubkey,
    now: i64,
    bump: u8,
    warrior_level: AchievementLevel,
    overall_level: AchievementLevel,
)
    ensures
        ({
            let after = achievements_after_warrior(a, player, now, bump, warrior_level, overall_level);
            &&& after.warrior_achivement == warrior_level
            &&& after.overall_achievements == overall_level
            &&& a.owner@ == zero_key() ==> {
                &&& after.owner == player
                &&& after.winner_achievement == AchievementLevel::Unranked
                &&& after.battle_achievement == AchievementLevel::Unranked
                &&& after.first_warrior_date == now
                &&& after.bump == bump
            }
            &&& a.owner@ != zero_key() ==> {
                &&& after.owner == a.owner
                &&& after.winner_achievement == a.winner_achievement
                &&& after.battle_achievement == a.battle_achievement
                &&& after.first_warrior_date == a.first_warrior_date
                &&& after.bump == a.bump
            }
        }),
{
}

} // verus!
