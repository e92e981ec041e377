use undead::config::InitializeGameConfig;
use undead::delegation::{GamingDelegate, WorldDelegate};
use undead::error::RustUndeadError;
use undead::rollup::{StartChapter, SubmitQuiz, UpdatePosition};
use undead::rust_undead;
use undead::session::{session_auth_or, SessionCheck};
use undead::state::{
    AchievementLevel, GameConfig, GamerProfile, Pubkey, UndeadWorld, UserPersona, UserProfile,
    UsernameRegistry, WarriorClass,
};
use undead::users::{BuildGamingProfile, BuildUserProfile};
use undead::world::InitializeUndeadWorld;

fn key(n: u8) -> Pubkey {
    Pubkey { bytes: [n; 32] }
}

fn blank_profile() -> GamerProfile {
    GamerProfile {
        owner: key(0),
        character_class: WarriorClass::Validator,
        current_chapter: 0,
        chapters_completed: 0,
        total_distance: 0,
        current_position: 0,
        total_playtime: 0,
        total_battles_won: 0,
        total_battles_lost: 0,
        total_battles_fought: 0,
        quizzes_taken: 0,
        total_quiz_score: 0,
        undead_score: 0,
        bump: 0,
        created_at: 0,
    }
}

fn owned_profile(owner: Pubkey) -> GamerProfile {
    GamerProfile { owner, ..blank_profile() }
}

fn world(id: u8) -> UndeadWorld {
    UndeadWorld {
        world_id: [id; 32],
        active_players: 0,
        total_players: 0,
        total_completions: 0,
        highest_undead_score_average: 0,
        top_commander: key(0),
        created_at: 0,
        bump: 0,
    }
}

fn blank_user_profile() -> UserProfile {
    UserProfile {
        owner: key(0),
        username: None,
        user_persona: None,
        warriors: 0,
        warriors_created: 0,
        total_points: 0,
        achievement_level: AchievementLevel::Unranked,
        join_date: 0,
        bump: 0,
    }
}

fn free_registry() -> UsernameRegistry {
    UsernameRegistry { claimed: false, owner: key(0), bump: 0 }
}

// ------------------------------------------------------------ keys

#[test]
fn pubkey_default_and_equality() {
    assert!(Pubkey::zero().is_default());
    assert!(!key(1).is_default());
    assert!(key(3) == key(3));
    assert!(key(3) != key(4));
    let mut k = key(3);
    k.bytes[31] = 9;
    assert!(!k.same_as(&key(3)));
}

// ------------------------------------------------------------ session

#[test]
fn session_token_decides_before_condition() {
    assert_eq!(session_auth_or(SessionCheck::Valid, false, RustUndeadError::NotAuthorized), Ok(()));
    assert_eq!(
        session_auth_or(SessionCheck::Invalid, true, RustUndeadError::NotAuthorized),
        Err(RustUndeadError::InvalidSessionToken)
    );
    assert_eq!(session_auth_or(SessionCheck::Absent, true, RustUndeadError::NotAuthorized), Ok(()));
    assert_eq!(
        session_auth_or(SessionCheck::Absent, false, RustUndeadError::NotAuthorized),
        Err(RustUndeadError::NotAuthorized)
    );
}

// ------------------------------------------------------------ config and world

#[test]
fn game_config_starts_empty() {
    let mut ctx = InitializeGameConfig {
        authority: key(7),
        game_config: GameConfig {
            authority: key(1),
            released_chapters: 9,
            total_warriors: 44,
            boss_battles_enabled: true,
            paused: true,
            bump: 1,
        },
    };
    assert_eq!(rust_undead::initialize_game_config(&mut ctx, 3, 254), Ok(()));
    let c = ctx.game_config;
    assert!(c.authority == key(7));
    assert_eq!(c.released_chapters, 3);
    assert_eq!(c.total_warriors, 0);
    assert!(!c.boss_battles_enabled);
    assert!(!c.paused);
    assert_eq!(c.bump, 254);
}

fn config_of(authority: Pubkey) -> GameConfig {
    GameConfig {
        authority,
        released_chapters: 1,
        total_warriors: 0,
        boss_battles_enabled: false,
        paused: false,
        bump: 0,
    }
}

#[test]
fn world_opened_by_authority() {
    let mut ctx = InitializeUndeadWorld {
        authority: key(7),
        game_config: config_of(key(7)),
        undead_world: UndeadWorld { active_players: 5, top_commander: key(9), ..world(1) },
    };
    assert_eq!(rust_undead::initialize_undead_world(&mut ctx, [4; 32], 1_700_000_000, 253), Ok(()));
    let w = ctx.undead_world;
    assert_eq!(w.world_id, [4; 32]);
    assert_eq!(w.active_players, 0);
    assert_eq!(w.total_players, 0);
    assert_eq!(w.total_completions, 0);
    assert_eq!(w.highest_undead_score_average, 0);
    assert!(w.top_commander.is_default());
    assert_eq!(w.created_at, 1_700_000_000);
    assert_eq!(w.bump, 253);
}

#[test]
fn world_refused_to_others() {
    let mut ctx = InitializeUndeadWorld {
        authority: key(8),
        game_config: config_of(key(7)),
        undead_world: world(1),
    };
    assert_eq!(
        rust_undead::initialize_undead_world(&mut ctx, [4; 32], 5, 1),
        Err(RustUndeadError::NotAuthorized)
    );
    assert_eq!(ctx.undead_world.world_id, [1; 32]);
}

// ------------------------------------------------------------ user profile

fn user_ctx(player: Pubkey) -> BuildUserProfile {
    BuildUserProfile { player, user_registry: free_registry(), user_profile: blank_user_profile() }
}

#[test]
fn new_user_profile_is_set_up() {
    let mut ctx = user_ctx(key(2));
    let r = rust_undead::build_user_profile(
        &mut ctx,
        SessionCheck::Absent,
        "boneseeker".to_string(),
        UserPersona::GraveBaron,
        1_650_000_000,
        11,
        12,
    );
    assert_eq!(r, Ok(()));
    assert!(ctx.user_registry.claimed);
    assert!(ctx.user_registry.owner == key(2));
    assert_eq!(ctx.user_registry.bump, 11);
    let p = &ctx.user_profile;
    assert!(p.owner == key(2));
    assert_eq!(p.username.as_deref(), Some("boneseeker"));
    assert_eq!(p.user_persona, Some(UserPersona::GraveBaron));
    assert_eq!(p.warriors, 0);
    assert_eq!(p.achievement_level, AchievementLevel::Unranked);
    assert_eq!(p.join_date, 1_650_000_000);
    assert_eq!(p.bump, 12);
}

#[test]
fn existing_user_profile_only_renamed() {
    let mut ctx = user_ctx(key(2));
    ctx.user_profile = UserProfile {
        owner: key(2),
        username: Some("old".to_string()),
        user_persona: Some(UserPersona::Demeter),
        warriors: 4,
        warriors_created: 6,
        total_points: 1200,
        achievement_level: AchievementLevel::Gold,
        join_date: 77,
        bump: 3,
    };
    let r = rust_undead::build_user_profile(
        &mut ctx,
        SessionCheck::Absent,
        "newname".to_string(),
        UserPersona::Cerberus,
        999,
        11,
        12,
    );
    assert_eq!(r, Ok(()));
    let p = &ctx.user_profile;
    assert_eq!(p.username.as_deref(), Some("newname"));
    assert_eq!(p.user_persona, Some(UserPersona::Cerberus));
    assert_eq!(p.warriors, 4);
    assert_eq!(p.warriors_created, 6);
    assert_eq!(p.total_points, 1200);
    assert_eq!(p.achievement_level, AchievementLevel::Gold);
    assert_eq!(p.join_date, 77);
    assert_eq!(p.bump, 3);
}

#[test]
fn username_length_limits() {
    let mut ctx = user_ctx(key(2));
    let too_long = "a".repeat(21);
    assert_eq!(
        ctx.build_user_profile(too_long, UserPersona::Collector, 1, 1, 1),
        Err(RustUndeadError::NameTooLong)
    );
    assert_eq!(
        ctx.build_user_profile(String::new(), UserPersona::Collector, 1, 1, 1),
        Err(RustUndeadError::NameEmpty)
    );
    // 10 characters of two bytes each: 20 bytes, the longest allowed.
    assert_eq!(ctx.build_user_profile("éééééééééé".to_string(), UserPersona::Collector, 1, 1, 1), Ok(()));
    let mut ctx = user_ctx(key(2));
    // 11 characters of two bytes each: 22 bytes.
    assert_eq!(
        ctx.build_user_profile("ééééééééééé".to_string(), UserPersona::Collector, 1, 1, 1),
        Err(RustUndeadError::NameTooLong)
    );
    assert!(!ctx.user_registry.claimed);
    assert!(ctx.user_profile.username.is_none());
}

#[test]
fn username_claimed_only_once() {
    let mut ctx = user_ctx(key(2));
    assert_eq!(ctx.build_user_profile("crypt".to_string(), UserPersona::SeerOfAsh, 1, 1, 1), Ok(()));
    // Another player presents the same (now claimed) registry.
    let mut other = BuildUserProfile {
        player: key(3),
        user_registry: ctx.user_registry,
        user_profile: blank_user_profile(),
    };
    assert_eq!(
        rust_undead::build_user_profile(
            &mut other,
            SessionCheck::Absent,
            "crypt".to_string(),
            UserPersona::SeerOfAsh,
            2,
            1,
            1,
        ),
        Err(RustUndeadError::UsernameAlreadyChoosen)
    );
    assert!(other.user_profile.owner.is_default());
    assert!(other.user_registry.owner == key(2));
}

#[test]
fn user_profile_of_another_player_refused() {
    let mut ctx = user_ctx(key(2));
    ctx.user_profile.owner = key(5);
    assert_eq!(
        rust_undead::build_user_profile(
            &mut ctx,
            SessionCheck::Absent,
            "thief".to_string(),
            UserPersona::BoneSmith,
            1,
            1,
            1,
        ),
        Err(RustUndeadError::NotAuthorized)
    );
    assert!(!ctx.user_registry.claimed);
    // With a valid session token the owner check inside still refuses.
    assert_eq!(
        rust_undead::build_user_profile(
            &mut ctx,
            SessionCheck::Valid,
            "thief".to_string(),
            UserPersona::BoneSmith,
            1,
            1,
            1,
        ),
        Err(RustUndeadError::NotAuthorized)
    );
    assert!(!ctx.user_registry.claimed);
    assert!(ctx.user_profile.username.is_none());
}

#[test]
fn invalid_session_refuses_user_profile() {
    let mut ctx = user_ctx(key(2));
    assert_eq!(
        rust_undead::build_user_profile(
            &mut ctx,
            SessionCheck::Invalid,
            "ghoul".to_string(),
            UserPersona::BoneSmith,
            1,
            1,
            1,
        ),
        Err(RustUndeadError::InvalidSessionToken)
    );
    assert!(!ctx.user_registry.claimed);
}

// ------------------------------------------------------------ gaming profile

#[test]
fn new_gaming_profile_starts_fresh() {
    let mut ctx = BuildGamingProfile {
        player: key(2),
        gamer_profile: GamerProfile {
            current_chapter: 9,
            quizzes_taken: 3,
            total_distance: 500,
            total_playtime: 7200,
            ..blank_profile()
        },
    };
    assert_eq!(
        rust_undead::build_gaming_profile(&mut ctx, SessionCheck::Absent, WarriorClass::Oracle, 42, 250),
        Ok(())
    );
    let g = ctx.gamer_profile;
    assert!(g.owner == key(2));
    assert_eq!(g.character_class, WarriorClass::Oracle);
    assert_eq!(g.current_chapter, 0);
    assert_eq!(g.quizzes_taken, 0);
    assert_eq!(g.total_distance, 0);
    assert_eq!(g.total_playtime, 0);
    assert_eq!(g.created_at, 42);
    assert_eq!(g.bump, 250);
}

#[test]
fn existing_gaming_profile_keeps_progress_and_build_is_idempotent() {
    let mut ctx = BuildGamingProfile { player: key(2), gamer_profile: blank_profile() };
    assert_eq!(ctx.build_gaming_profile(WarriorClass::Guardian, 10, 1), Ok(()));
    let once = ctx.gamer_profile;
    assert_eq!(ctx.build_gaming_profile(WarriorClass::Guardian, 99, 7), Ok(()));
    let twice = ctx.gamer_profile;
    assert!(twice.owner == once.owner);
    assert_eq!(twice.created_at, once.created_at);
    assert_eq!(twice.bump, once.bump);
    assert_eq!(twice.character_class, once.character_class);

    ctx.gamer_profile.current_chapter = 4;
    ctx.gamer_profile.total_quiz_score = 300;
    ctx.gamer_profile.total_distance = 80;
    assert_eq!(ctx.build_gaming_profile(WarriorClass::Daemon, 5, 5), Ok(()));
    assert_eq!(ctx.gamer_profile.character_class, WarriorClass::Daemon);
    assert_eq!(ctx.gamer_profile.current_chapter, 4);
    assert_eq!(ctx.gamer_profile.total_quiz_score, 300);
    assert_eq!(ctx.gamer_profile.total_distance, 80);
    assert_eq!(ctx.gamer_profile.created_at, 10);
}

#[test]
fn gaming_profile_of_another_player_refused() {
    let mut ctx = BuildGamingProfile { player: key(2), gamer_profile: owned_profile(key(3)) };
    assert_eq!(
        rust_undead::build_gaming_profile(&mut ctx, SessionCheck::Absent, WarriorClass::Oracle, 1, 1),
        Err(RustUndeadError::NotAuthorized)
    );
    assert_eq!(ctx.gamer_profile.character_class, WarriorClass::Validator);
    // A valid session token lets a delegated signer act.
    assert_eq!(
        rust_undead::build_gaming_profile(&mut ctx, SessionCheck::Valid, WarriorClass::Oracle, 1, 1),
        Ok(())
    );
    assert_eq!(ctx.gamer_profile.character_class, WarriorClass::Oracle);
    assert!(ctx.gamer_profile.owner == key(3));
}

// ------------------------------------------------------------ chapters

#[test]
fn start_chapter_resets_position() {
    let mut ctx = StartChapter {
        player: key(2),
        gamer_profile: GamerProfile { current_position: 77, ..owned_profile(key(2)) },
        undead_world: world(1),
    };
    assert_eq!(rust_undead::start_chapter(&mut ctx, SessionCheck::Absent, key(2), 3, [1; 32]), Ok(()));
    assert_eq!(ctx.gamer_profile.current_chapter, 3);
    assert_eq!(ctx.gamer_profile.current_position, 0);
    assert_eq!(ctx.undead_world.active_players, 1);
}

#[test]
fn active_players_saturate() {
    let mut ctx = StartChapter {
        player: key(2),
        gamer_profile: owned_profile(key(2)),
        undead_world: UndeadWorld { active_players: u16::MAX, ..world(1) },
    };
    assert_eq!(ctx.start_chapter(key(2), 1, [1; 32]), Ok(()));
    assert_eq!(ctx.undead_world.active_players, u16::MAX);
}

#[test]
fn start_chapter_refused_to_others() {
    let mut ctx = StartChapter {
        player: key(2),
        gamer_profile: owned_profile(key(3)),
        undead_world: world(1),
    };
    assert_eq!(
        rust_undead::start_chapter(&mut ctx, SessionCheck::Absent, key(2), 3, [1; 32]),
        Err(RustUndeadError::NotAuthorized)
    );
    assert_eq!(ctx.gamer_profile.current_chapter, 0);
    assert_eq!(ctx.undead_world.active_players, 0);
}

#[test]
fn position_update_changes_only_position() {
    let mut ctx = UpdatePosition {
        player: key(2),
        gamer_profile: GamerProfile { current_chapter: 2, ..owned_profile(key(2)) },
    };
    assert_eq!(rust_undead::update_position(&mut ctx, SessionCheck::Absent, key(2), 1234), Ok(()));
    assert_eq!(ctx.gamer_profile.current_position, 1234);
    assert_eq!(ctx.gamer_profile.current_chapter, 2);
    let mut other = UpdatePosition { player: key(9), gamer_profile: owned_profile(key(2)) };
    assert_eq!(
        rust_undead::update_position(&mut other, SessionCheck::Absent, key(9), 5),
        Err(RustUndeadError::NotAuthorized)
    );
    assert_eq!(other.gamer_profile.current_position, 0);
}

// ------------------------------------------------------------ quizzes

fn quiz_ctx() -> SubmitQuiz {
    SubmitQuiz { player: key(2), gamer_profile: owned_profile(key(2)), undead_world: world(1) }
}

#[test]
fn quiz_scores_average_and_leaderboard() {
    let mut ctx = quiz_ctx();
    assert_eq!(rust_undead::submit_quiz(&mut ctx, SessionCheck::Absent, key(2), 80, [1; 32]), Ok(()));
    assert_eq!(ctx.gamer_profile.total_quiz_score, 80);
    assert_eq!(ctx.gamer_profile.quizzes_taken, 1);
    assert_eq!(ctx.gamer_profile.undead_score, 80);
    assert_eq!(ctx.undead_world.highest_undead_score_average, 80);
    assert!(ctx.undead_world.top_commander == key(2));

    assert_eq!(ctx.submit_quiz(61, [1; 32]), Ok(()));
    assert_eq!(ctx.gamer_profile.total_quiz_score, 141);
    assert_eq!(ctx.gamer_profile.quizzes_taken, 2);
    // Integer division: 141 / 2.
    assert_eq!(ctx.gamer_profile.undead_score, 70);
    // The best average is kept.
    assert_eq!(ctx.undead_world.highest_undead_score_average, 80);
}

#[test]
fn leaderboard_taken_only_by_a_strictly_better_average() {
    let mut ctx = quiz_ctx();
    ctx.undead_world.highest_undead_score_average = 90;
    ctx.undead_world.top_commander = key(5);
    assert_eq!(ctx.submit_quiz(90, [1; 32]), Ok(()));
    assert!(ctx.undead_world.top_commander == key(5));
    assert_eq!(ctx.submit_quiz(100, [1; 32]), Ok(()));
    assert_eq!(ctx.gamer_profile.undead_score, 95);
    assert_eq!(ctx.undead_world.highest_undead_score_average, 95);
    assert!(ctx.undead_world.top_commander == key(2));
}

#[test]
fn quiz_score_above_100_refused() {
    let mut ctx = quiz_ctx();
    assert_eq!(ctx.submit_quiz(101, [1; 32]), Err(RustUndeadError::InvalidScore));
    assert_eq!(ctx.gamer_profile.quizzes_taken, 0);
    assert_eq!(ctx.submit_quiz(100, [1; 32]), Ok(()));
    assert_eq!(ctx.gamer_profile.undead_score, 100);
}

#[test]
fn quiz_for_another_world_refused() {
    let mut ctx = quiz_ctx();
    assert_eq!(ctx.submit_quiz(50, [2; 32]), Err(RustUndeadError::InvalidRoomId));
    assert_eq!(ctx.gamer_profile.total_quiz_score, 0);
    // The score check comes first.
    assert_eq!(ctx.submit_quiz(200, [2; 32]), Err(RustUndeadError::InvalidScore));
}

#[test]
fn quiz_counters_saturate() {
    let mut ctx = quiz_ctx();
    ctx.gamer_profile.quizzes_taken = u16::MAX;
    ctx.gamer_profile.total_quiz_score = u32::MAX - 10;
    assert_eq!(ctx.submit_quiz(50, [1; 32]), Ok(()));
    assert_eq!(ctx.gamer_profile.quizzes_taken, u16::MAX);
    assert_eq!(ctx.gamer_profile.total_quiz_score, u32::MAX);
    assert_eq!(ctx.gamer_profile.undead_score, u32::MAX / 65535);
}

#[test]
fn quiz_refused_without_authority() {
    let mut ctx = SubmitQuiz { player: key(9), ..quiz_ctx() };
    assert_eq!(
        rust_undead::submit_quiz(&mut ctx, SessionCheck::Absent, key(9), 50, [1; 32]),
        Err(RustUndeadError::NotAuthorized)
    );
    assert_eq!(
        rust_undead::submit_quiz(&mut ctx, SessionCheck::Invalid, key(9), 50, [1; 32]),
        Err(RustUndeadError::InvalidSessionToken)
    );
    assert_eq!(ctx.gamer_profile.quizzes_taken, 0);
}

// ------------------------------------------------------------ delegation

#[test]
fn delegation_names_the_accounts() {
    let g = GamingDelegate { signer: key(1), user_game_profile: key(2) };
    let seeds = rust_undead::game_profile_to_rollup(&g, SessionCheck::Absent, key(3)).unwrap();
    assert_eq!(seeds.prefix, "user_game_profile");
    assert_eq!(seeds.key, [3; 32]);
    let w = WorldDelegate { signer: key(1), undead_world: key(2) };
    let seeds = rust_undead::world_to_rollup(&w, SessionCheck::Valid, [8; 32]).unwrap();
    assert_eq!(seeds.prefix, "undead_world");
    assert_eq!(seeds.key, [8; 32]);
    assert!(rust_undead::world_to_rollup(&w, SessionCheck::Invalid, [8; 32]).is_err());
}

#[test]
fn session_of_another_authority_refused() {
    assert_eq!(
        session_auth_or(SessionCheck::OtherAuthority, true, RustUndeadError::NotAuthorized),
        Err(RustUndeadError::NotAuthorized)
    );
    let mut ctx = SubmitQuiz {
        player: key(2),
        gamer_profile: owned_profile(key(2)),
        undead_world: world(1),
    };
    assert_eq!(
        rust_undead::submit_quiz(&mut ctx, SessionCheck::OtherAuthority, key(2), 50, [1; 32]),
        Err(RustUndeadError::NotAuthorized)
    );
    assert_eq!(ctx.gamer_profile.quizzes_taken, 0);
}
