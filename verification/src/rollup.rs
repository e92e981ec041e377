use vstd::prelude::*;
use crate::error::RustUndeadError;
use crate::saturating::{saturating_add_u32, saturating_inc_u16};
use crate::session::outcome;
use crate::state::{same_bytes32, GamerProfile, Pubkey, UndeadWorld};

verus! {

// ---------------------------------------------------------------- start

/// Accounts of the instruction that starts a chapter.
#[derive(Clone, Copy, Debug)]
pub struct StartChapter {
    pub player: Pubkey,
    pub gamer_profile: GamerProfile,
    pub undead_world: UndeadWorld,
}

/// The profile once chapter `chapter_number` has been started.
pub open spec fn profile_at_chapter_start(p: GamerProfile, chapter_number: u16) -> GamerProfile {
    GamerProfile { current_chapter: chapter_number, current_position: 0, ..p }
}

/// The world once one more player has started a chapter in it.
pub open spec fn world_at_chapter_start(w: UndeadWorld) -> UndeadWorld {
    UndeadWorld { active_players: saturating_inc_u16(w.active_players), ..w }
}

impl StartChapter {
    /// Puts the player at the start of chapter `chapter_number` and counts
    /// them among the world's active players.
    pub fn start_chapter(&mut self, player: Pubkey, chapter_number: u16, world_id: [u8; 32]) -> (r:
        Result<(), RustUndeadError>)
        ensures
            r == Ok::<(), RustUndeadError>(()),
            final(self).player == old(self).player,
            final(self).gamer_profile == profile_at_chapter_start(
                old(self).gamer_profile,
                chapter_number,
            ),
            final(self).undead_world == world_at_chapter_start(old(self).undead_world),
    {
        self.gamer_profile.current_chapter = chapter_number;
        self.gamer_profile.current_position = 0;
        self.undead_world.active_players = self.undead_world.active_players.saturating_add(1);
        Ok(())
    }
}

// ---------------------------------------------------------------- position

/// Accounts of the instruction that moves a player.
#[derive(Clone, Copy, Debug)]
pub struct UpdatePosition {
    pub player: Pubkey,
    pub gamer_profile: GamerProfile,
}

impl UpdatePosition {
    /// Sets the player's position in the current chapter; nothing else changes.
    pub fn update_position(&mut self, player: Pubkey, position: u32) -> (r: Result<
        (),
        RustUndeadError,
    >)
        ensures
            r == Ok::<(), RustUndeadError>(()),
            final(self).player == old(self).player,
            final(self).gamer_profile == (GamerProfile {
                current_position: position,
                ..old(self).gamer_profile
            }),
    {
        self.gamer_profile.current_position = position;
        Ok(())
    }
}

// ---------------------------------------------------------------- quiz

/// Accounts of the instruction that records a quiz.
#[derive(Clone, Copy, Debug)]
pub struct SubmitQuiz {
    pub player: Pubkey,
    pub gamer_profile: GamerProfile,
    pub undead_world: UndeadWorld,
}

/// Why a quiz submission is refused, if it is.
pub open spec fn quiz_refusal(score: u8, world_id: Seq<u8>, world: UndeadWorld) -> Option<
    RustUndeadError,
> {
    if score > 100 {
        Some(RustUndeadError::InvalidScore)
    } else if world_id != world.world_id@ {
        Some(RustUndeadError::InvalidRoomId)
    } else {
        None
    }
}

/// The profile once a quiz with `score` has been recorded: the score is
/// added to the total, one more quiz is counted (both held at their
/// maximum), and the average is the total divided by the count.
pub open spec fn profile_after_quiz(p: GamerProfile, score: u8) -> GamerProfile {
    let total: u32 = saturating_add_u32(p.total_quiz_score, score as u32);
    let taken: u16 = saturating_inc_u16(p.quizzes_taken);
    GamerProfile {
        total_quiz_score: total,
        quizzes_taken: taken,
        undead_score: (total / (taken as u32)) as u32,
        ..p
    }
}

/// The world once `player`'s profile has reached `profile`: a strictly
/// better average takes the leaderboard.
pub open spec fn world_after_quiz(w: UndeadWorld, profile: GamerProfile, player: Pubkey) -> UndeadWorld {
    if profile.undead_score > w.highest_undead_score_average {
        UndeadWorld {
            highest_undead_score_average: profile.undead_score,
            top_commander: player,
            ..w
        }
    } else {
        w
    }
}

impl SubmitQuiz {
    /// Records a quiz score in the player's profile and updates the world's
    /// leaderboard. A score above 100 or a world id that is not this
    /// world's is refused, and then nothing changes.
    pub fn submit_quiz(&mut self, score: u8, world_id: [u8; 32]) -> (r: Result<(), RustUndeadError>)
        ensures
            r == outcome(quiz_refusal(score, world_id@, old(self).undead_world)),
            r is Err ==> *final(self) == *old(self),
            r is Ok ==> {
                &&& final(self).player == old(self).player
                &&& final(self).gamer_profile == profile_after_quiz(old(self).gamer_profile, score)
                &&& final(self).undead_world == world_after_quiz(
                    old(self).undead_world,
                    final(self).gamer_profile,
                    old(self).player,
                )
            },
    {
        if score > 100 {
            return Err(RustUndeadError::InvalidScore);
        }
        if !same_bytes32(&world_id, &self.undead_world.world_id) {
            return Err(RustUndeadError::InvalidRoomId);
        }
        let total: u32 = self.gamer_profile.total_quiz_score.saturating_add(score as u32);
        let taken: u16 = self.gamer_profile.quizzes_taken.saturating_add(1);
        self.gamer_profile.total_quiz_score = total;
        self.gamer_profile.quizzes_taken = taken;
        self.gamer_profile.undead_score = total / (taken as u32);
        if self.gamer_profile.undead_score > self.undead_world.highest_undead_score_average {
            self.undead_world.highest_undead_score_average = self.gamer_profile.undead_score;
            self.undead_world.top_commander = self.player;
        }
        Ok(())
    }
}

} // verus!
