use vstd::prelude::*;
use crate::error::RustUndeadError;
use crate::session::outcome;
use crate::text::{utf8_len, utf8_len_up_to};
use crate::state::{
    zero_key, AchievementLevel, GamerProfile, Pubkey, UserPersona, UserProfile, UsernameRegistry,
    WarriorClass,
};

verus! {

/// Longest username, in bytes.
pub const MAX_USERNAME_LEN: usize = 20;

// ---------------------------------------------------------------- user profile

/// Accounts of the instruction that claims a username and writes a profile.
#[derive(Clone, Debug)]
pub struct BuildUserProfile {
    pub player: Pubkey,
    pub user_registry: UsernameRegistry,
    pub user_profile: UserProfile,
}

/// Why building a user profile is refused, if it is: the username must be
/// 1 to 20 bytes, not yet claimed, and an existing profile must belong to
/// the player.
pub open spec fn user_profile_refusal(
    username: Seq<char>,
    registry: UsernameRegistry,
    profile: UserProfile,
    player: Pubkey,
) -> Option<RustUndeadError> {
    if utf8_len(username) > 20 {
        Some(RustUndeadError::NameTooLong)
    } else if utf8_len(username) == 0 {
        Some(RustUndeadError::NameEmpty)
    } else if registry.claimed {
        Some(RustUndeadError::UsernameAlreadyChoosen)
    } else if profile.owner@ != zero_key() && profile.owner@ != player@ {
        Some(RustUndeadError::NotAuthorized)
    } else {
        None
    }
}

/// Whether `after` is what building the profile makes of `before`: the
/// username is claimed by the player, the profile carries the new name and
/// persona, and a profile never written before is set up in full.
pub open spec fn user_profile_built(
    before: BuildUserProfile,
    after: BuildUserProfile,
    username: Seq<char>,
    persona: UserPersona,
    now: i64,
    registry_bump: u8,
    profile_bump: u8,
) -> bool {
    &&& after.player == before.player
    &&& after.user_registry == (UsernameRegistry {
        claimed: true,
        owner: before.player,
        bump: registry_bump,
    })
    &&& after.user_profile.username matches Some(u) && u@ == username
    &&& after.user_profile.user_persona == Some(persona)
    &&& if before.user_profile.owner@ == zero_key() {
        &&& after.user_profile.owner == before.player
        &&& after.user_profile.warriors == 0
        &&& after.user_profile.warriors_created == before.user_profile.warriors_created
        &&& after.user_profile.total_points == before.user_profile.total_points
        &&& after.user_profile.achievement_level == AchievementLevel::Unranked
        &&& after.user_profile.join_date == now
        &&& after.user_profile.bump == profile_bump
    } else {
        &&& after.user_profile.owner == before.user_profile.owner
        &&& after.user_profile.warriors == before.user_profile.warriors
        &&& after.user_profile.warriors_created == before.user_profile.warriors_created
        &&& after.user_profile.total_points == before.user_profile.total_points
        &&& after.user_profile.achievement_level == before.user_profile.achievement_level
        &&& after.user_profile.join_date == before.user_profile.join_date
        &&& after.user_profile.bump == before.user_profile.bump
    }
}

impl BuildUserProfile {
    /// Claims `username` for the player and records it, with `persona`, in
    /// the player's profile. A profile never written before is set up in
    /// full (joined at `now`); an existing one only gets the new name and
    /// persona. When refused, no account changes.
    pub fn build_user_profile(
        &mut self,
        username: String,
        persona: UserPersona,
        now: i64,
        registry_bump: u8,
        profile_bump: u8,
    ) -> (r: Result<(), RustUndeadError>)
        ensures
            r == outcome(
                user_profile_refusal(
                    username@,
                    old(self).user_registry,
                    old(self).user_profile,
                    old(self).player,
                ),
            ),
            r is Err ==> *final(self) == *old(self),
            r is Ok ==> user_profile_built(
                *old(self),
                *final(self),
                username@,
                persona,
                now,
                registry_bump,
                profile_bump,
            ),
    {
        let len: usize = utf8_len_up_to(username.as_str(), MAX_USERNAME_LEN);
        if len > MAX_USERNAME_LEN {
            return Err(RustUndeadError::NameTooLong);
        }
        if len == 0 {
            return Err(RustUndeadError::NameEmpty);
        }
        if self.user_registry.claimed {
            return Err(RustUndeadError::UsernameAlreadyChoosen);
        }
        let is_new_account = self.user_profile.owner.is_default();
        if !is_new_account && !self.user_profile.owner.same_as(&self.player) {
            return Err(RustUndeadError::NotAuthorized);
        }
        self.user_registry.claimed = true;
        self.user_registry.owner = self.player;
        self.user_registry.bump = registry_bump;
        if is_new_account {
            self.user_profile.owner = self.player;
            self.user_profile.warriors = 0;
            self.user_profile.username = Some(username);
            self.user_profile.user_persona = Some(persona);
            self.user_profile.achievement_level = AchievementLevel::Unranked;
            self.user_profile.join_date = now;
            self.user_profile.bump = profile_bump;
        } else {
            self.user_profile.username = Some(username);
            self.user_profile.user_persona = Some(persona);
        }
        Ok(())
    }
}

// ---------------------------------------------------------------- gaming profile

/// Accounts of the instruction that writes a player's game profile.
#[derive(Clone, Copy, Debug)]
pub struct BuildGamingProfile {
    pub player: Pubkey,
    pub gamer_profile: GamerProfile,
}

/// A fresh game profile of `player`, created at `now`.
pub open spec fn new_gamer_profile(
    player: Pubkey,
    class: WarriorClass,
    now: i64,
    bump: u8,
) -> GamerProfile {
    GamerProfile {
        owner: player,
        character_class: class,
        current_chapter: 0,
        chapters_completed: 0,
        total_distance: 0,
        current_position: 0,
        total_playtime: 0,
        total_battles_won: 0,
        total_battles_lost: 0,
        total_battles_fought: 0,
        quizzes_taken: 0,
        total_quiz_score: 0,
        undead_score: 0,
        bump: bump,
        created_at: now,
    }
}

/// The game profile after the player picks `class`: a profile never
/// written before starts fresh; an existing one keeps its progress.
pub open spec fn gamer_profile_after_build(
    p: GamerProfile,
    player: Pubkey,
    class: WarriorClass,
    now: i64,
    bump: u8,
) -> GamerProfile {
    if p.owner@ == zero_key() {
        new_gamer_profile(player, class, now, bump)
    } else {
        GamerProfile { character_class: class, ..p }
    }
}

impl BuildGamingProfile {
    /// Creates the player's game profile, or changes the class of an
    /// existing one.
    pub fn build_gaming_profile(
        &mut self,
        character_class: WarriorClass,
        now: i64,
        profile_bump: u8,
    ) -> (r: Result<(), RustUndeadError>)
        ensures
            r == Ok::<(), RustUndeadError>(()),
            final(self).player == old(self).player,
            final(self).gamer_profile == gamer_profile_after_build(
                old(self).gamer_profile,
                old(self).player,
                character_class,
                now,
                profile_bump,
            ),
    {
        if self.gamer_profile.owner.is_default() {
            self.gamer_profile = GamerProfile {
                owner: self.player,
                character_class: character_class,
                current_chapter: 0,
                chapters_completed: 0,
                total_distance: 0,
                current_position: 0,
                total_playtime: 0,
                total_battles_won: 0,
                total_battles_lost: 0,
                total_battles_fought: 0,
                quizzes_taken: 0,
                total_quiz_score: 0,
                undead_score: 0,
                bump: profile_bump,
                created_at: now,
            };
        } else {
            self.gamer_profile.character_class = character_class;
        }
        Ok(())
    }
}

} // verus!
