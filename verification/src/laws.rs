//! Properties that hold across the instructions' transitions.

use vstd::prelude::*;
use crate::error::RustUndeadError;
use crate::rollup::{profile_after_quiz, world_after_quiz};
use crate::state::{
    zero_key, GamerProfile, Pubkey, UndeadWarrior, UndeadWorld, UserPersona, UserProfile,
    WarriorClass,
};
use crate::users::{
    gamer_profile_after_build, user_profile_built, user_profile_refusal, BuildUserProfile,
};
use crate::text::utf8_len;
use crate::warrior::{profile_after_warrior, callback_applied, class_default_stats, vrf_stat_bounds, WarriorImage};

verus! {

/// After any recorded quiz at least one quiz is counted, and the player's
/// average is the total score divided by the number of quizzes.
pub proof fn quiz_average_is_total_over_count(p: GamerProfile, score: u8)
    ensures
        profile_after_quiz(p, score).quizzes_taken > 0,
        profile_after_quiz(p, score).undead_score == profile_after_quiz(p, score).total_quiz_score
            / (profile_after_quiz(p, score).quizzes_taken as u32),
{
}

/// While every recorded score is at most 100 and the quiz count has not
/// reached its maximum, the total never exceeds 100 per quiz, so the average
/// stays at most 100.
pub proof fn quiz_average_stays_within_100(p: GamerProfile, score: u8)
    requires
        score <= 100,
        p.total_quiz_score <= 100 * p.quizzes_taken,
        p.quizzes_taken < u16::MAX,
    ensures
        profile_after_quiz(p, score).total_quiz_score <= 100 * profile_after_quiz(
            p,
            score,
        ).quizzes_taken,
        profile_after_quiz(p, score).undead_score <= 100,
{
    let q = profile_after_quiz(p, score);
    let t = q.total_quiz_score as int;
    let n = q.quizzes_taken as int;
    assert(t <= 100 * n);
    assert(n > 0);
    assert(t / n <= 100) by (nonlinear_arith)
        requires
            0 <= t <= 100 * n,
            n > 0,
    ;
}

/// The world's best average never drops, it is at least the average of the
/// player who just took a quiz, and when it changes the player becomes the
/// world's top commander. Nothing else about the world changes.
pub proof fn leaderboard_keeps_the_best(w: UndeadWorld, profile: GamerProfile, player: Pubkey)
    ensures
        world_after_quiz(w, profile, player).highest_undead_score_average
            >= w.highest_undead_score_average,
        world_after_quiz(w, profile, player).highest_undead_score_average >= profile.undead_score,
        world_after_quiz(w, profile, player).highest_undead_score_average
            != w.highest_undead_score_average ==> world_after_quiz(
            w,
            profile,
            player,
        ).top_commander == player,
        world_after_quiz(w, profile, player).world_id == w.world_id,
        world_after_quiz(w, profile, player).active_players == w.active_players,
        world_after_quiz(w, profile, player).total_players == w.total_players,
        world_after_quiz(w, profile, player).total_completions == w.total_completions,
{
}

/// Once a username has been claimed, every later attempt to claim it is
/// refused as already chosen, whoever asks and whatever the profile.
pub proof fn username_is_claimed_once(
    before: BuildUserProfile,
    after: BuildUserProfile,
    username: Seq<char>,
    persona: UserPersona,
    now: i64,
    registry_bump: u8,
    profile_bump: u8,
    next_username: Seq<char>,
    next_profile: UserProfile,
    next_player: Pubkey,
)
    requires
        user_profile_built(before, after, username, persona, now, registry_bump, profile_bump),
        1 <= utf8_len(next_username) <= 20,
    ensures
        after.user_registry.claimed,
        after.user_registry.owner == before.player,
        user_profile_refusal(next_username, after.user_registry, next_profile, next_player)
            == Some(RustUndeadError::UsernameAlreadyChoosen),
{
}

/// Building a user profile never takes it from its owner: an existing
/// profile keeps its owner, and a new one becomes the player's.
pub proof fn user_profile_owner_is_kept(
    before: BuildUserProfile,
    after: BuildUserProfile,
    username: Seq<char>,
    persona: UserPersona,
    now: i64,
    registry_bump: u8,
    profile_bump: u8,
)
    requires
        user_profile_built(before, after, username, persona, now, registry_bump, profile_bump),
    ensures
        before.user_profile.owner@ != zero_key() ==> after.user_profile.owner
            == before.user_profile.owner,
        before.user_profile.owner@ == zero_key() ==> after.user_profile.owner == before.player,
{
}

/// Building a game profile that already exists keeps its owner and all its
/// progress; only the class changes.
pub proof fn gamer_profile_progress_is_kept(
    p: GamerProfile,
    player: Pubkey,
    class: WarriorClass,
    now: i64,
    bump: u8,
)
    requires
        p.owner@ != zero_key(),
    ensures
        gamer_profile_after_build(p, player, class, now, bump) == (GamerProfile {
            character_class: class,
            ..p
        }),
{
}

/// Building a game profile twice with the same class gives what building it
/// once gives: the second build finds the profile owned and keeps it. This
/// needs a player whose address is not the default one.
pub proof fn gamer_profile_build_is_idempotent(
    p: GamerProfile,
    player: Pubkey,
    class: WarriorClass,
    now: i64,
    bump: u8,
    later: i64,
    later_bump: u8,
)
    requires
        player@ != zero_key(),
    ensures
        gamer_profile_after_build(
            gamer_profile_after_build(p, player, class, now, bump),
            player,
            class,
            later,
            later_bump,
        ) == gamer_profile_after_build(p, player, class, now, bump),
{
}

/// The stats a class falls back to lie within the bounds from which the
/// randomness callback draws that class's stats.
pub proof fn default_stats_within_vrf_bounds(class: WarriorClass)
    ensures
        ({
            let d = class_default_stats(class);
            let b = vrf_stat_bounds(class);
            &&& b.0.0 <= d.0 <= b.0.1
            &&& b.1.0 <= d.1 <= b.1.1
            &&& b.2.0 <= d.2 <= b.2.1
        }),
{
}

/// Each created warrior earns the player 200 points and counts once among
/// the warriors created, until the counters reach their maximum.
pub proof fn warrior_earns_two_hundred_points(p: UserProfile)
    requires
        p.total_points + 200 <= u64::MAX,
        p.warriors_created < u32::MAX,
    ensures
        profile_after_warrior(p).total_points == p.total_points + 200,
        profile_after_warrior(p).warriors_created == p.warriors_created + 1,
{
}

/// The randomness callback gives two warriors of the same class, called
/// back with the same randomness and the same picked image, the same stats
/// and the same image, whatever their stats and image were before.
pub proof fn callback_depends_on_randomness_class_and_image(
    before1: UndeadWarrior,
    after1: UndeadWarrior,
    before2: UndeadWarrior,
    after2: UndeadWarrior,
    randomness: Seq<u8>,
    picked: Option<WarriorImage>,
)
    requires
        callback_applied(before1, after1, randomness, picked),
        callback_applied(before2, after2, randomness, picked),
        before1.warrior_class == before2.warrior_class,
    ensures
        after1.base_attack == after2.base_attack,
        after1.base_defense == after2.base_defense,
        after1.base_knowledge == after2.base_knowledge,
        after1.image_rarity == after2.image_rarity,
        after1.image_index == after2.image_index,
        after1.image_uri@ == after2.image_uri@,
{
}

} // verus!
