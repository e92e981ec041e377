use vstd::prelude::*;
use crate::constants::{
    DAEMON_FOLDER_HASH, GUARDIAN_FOLDER_HASH, IPFS_GATEWAY, ORACLE_FOLDER_HASH,
    VALIDATOR_FOLDER_HASH,
};
use crate::error::RustUndeadError;
use crate::saturating::{saturating_add_u64, saturating_inc_u32};
use crate::session::SessionCheck;
use crate::state::{
    zero_key, AchievementLevel, GameConfig, ImageRarity, Pubkey, UndeadWarrior, UserAchievements,
    UserProfile, WarriorClass,
};
use crate::text::{utf8_len, utf8_len_up_to};
use crate::vrf::{random_u8_with_range, vrf_random_u8_with_range};

verus! {

// ---------------------------------------------------------------- stats

/// The stats (attack, defense, knowledge) a warrior of `class` gets when no
/// rolled stats are available.
pub open spec fn class_default_stats(class: WarriorClass) -> (u16, u16, u16) {
    match class {
        WarriorClass::Daemon => (120, 50, 75),
        WarriorClass::Guardian => (50, 120, 75),
        WarriorClass::Oracle => (75, 60, 120),
        WarriorClass::Validator => (80, 80, 60),
    }
}

/// The fallback stats of a class.
pub fn default_stats(class: WarriorClass) -> (s: (u16, u16, u16))
    ensures
        s == class_default_stats(class),
{
    match class {
        WarriorClass::Daemon => (120, 50, 75),
        WarriorClass::Guardian => (50, 120, 75),
        WarriorClass::Oracle => (75, 60, 120),
        WarriorClass::Validator => (80, 80, 60),
    }
}

/// The stats a new warrior gets: the rolled ones when there are any, else
/// its class's defaults.
pub open spec fn initial_stats(class: WarriorClass, rolled: Option<(u16, u16, u16)>) -> (
    u16,
    u16,
    u16,
) {
    match rolled {
        Some(s) => s,
        None => class_default_stats(class),
    }
}

/// The inclusive bounds (attack, defense, knowledge) within which the
/// randomness callback draws a class's stats.
pub open spec fn vrf_stat_bounds(class: WarriorClass) -> ((u8, u8), (u8, u8), (u8, u8)) {
    match class {
        WarriorClass::Validator => ((60, 100), (40, 100), (40, 80)),
        WarriorClass::Oracle => ((50, 100), (40, 80), (100, 141)),
        WarriorClass::Guardian => ((40, 61), (100, 141), (50, 100)),
        WarriorClass::Daemon => ((100, 141), (40, 61), (50, 100)),
    }
}

/// The stats drawn from `randomness` for `class`: each one is the draw in
/// its bound from the same 32 bytes.
pub open spec fn vrf_stats(randomness: Seq<u8>, class: WarriorClass) -> (u8, u8, u8) {
    let b = vrf_stat_bounds(class);
    (
        vrf_random_u8_with_range(randomness, b.0.0, b.0.1),
        vrf_random_u8_with_range(randomness, b.1.0, b.1.1),
        vrf_random_u8_with_range(randomness, b.2.0, b.2.1),
    )
}

/// Whether `stats` lies within the class's bounds.
pub open spec fn within_vrf_bounds(stats: (u8, u8, u8), class: WarriorClass) -> bool {
    let b = vrf_stat_bounds(class);
    &&& b.0.0 <= stats.0 <= b.0.1
    &&& b.1.0 <= stats.1 <= b.1.1
    &&& b.2.0 <= stats.2 <= b.2.1
}

/// Draws a warrior's stats for `class` from the randomness of a VRF.
pub fn roll_warrior_stats(randomness: &[u8; 32], class: WarriorClass) -> (r: (u8, u8, u8))
    ensures
        r == vrf_stats(randomness@, class),
        within_vrf_bounds(r, class),
{
    match class {
        WarriorClass::Validator => (
            random_u8_with_range(randomness, 60, 100),
            random_u8_with_range(randomness, 40, 100),
            random_u8_with_range(randomness, 40, 80),
        ),
        WarriorClass::Oracle => (
            random_u8_with_range(randomness, 50, 100),
            random_u8_with_range(randomness, 40, 80),
            random_u8_with_range(randomness, 100, 141),
        ),
        WarriorClass::Guardian => (
            random_u8_with_range(randomness, 40, 61),
            random_u8_with_range(randomness, 100, 141),
            random_u8_with_range(randomness, 50, 100),
        ),
        WarriorClass::Daemon => (
            random_u8_with_range(randomness, 100, 141),
            random_u8_with_range(randomness, 40, 61),
            random_u8_with_range(randomness, 50, 100),
        ),
    }
}

// ---------------------------------------------------------------- images

/// An image picked for a warrior.
#[derive(Clone, Debug)]
pub struct WarriorImage {
    pub rarity: ImageRarity,
    pub index: u8,
    pub uri: String,
}

/// The image folder of a class.
pub open spec fn folder_hash(class: WarriorClass) -> Seq<char> {
    match class {
        WarriorClass::Guardian => GUARDIAN_FOLDER_HASH@,
        WarriorClass::Validator => VALIDATOR_FOLDER_HASH@,
        WarriorClass::Oracle => ORACLE_FOLDER_HASH@,
        WarriorClass::Daemon => DAEMON_FOLDER_HASH@,
    }
}

/// The image folder of a class.
pub fn get_class_folder_hash(class: WarriorClass) -> (h: &'static str)
    ensures
        h@ == folder_hash(class),
{
    match class {
        WarriorClass::Guardian => GUARDIAN_FOLDER_HASH,
        WarriorClass::Validator => VALIDATOR_FOLDER_HASH,
        WarriorClass::Oracle => ORACLE_FOLDER_HASH,
        WarriorClass::Daemon => DAEMON_FOLDER_HASH,
    }
}

/// Where the first common image of a class is served:
/// `{gateway}/{folder}/c1.png`.
pub open spec fn fallback_image_uri(class: WarriorClass) -> Seq<char> {
    IPFS_GATEWAY@ + "/"@ + folder_hash(class) + "/c1.png"@
}

/// The image a warrior shows when no image could be picked for it: the
/// first common image of its class.
pub fn fallback_image(class: WarriorClass) -> (img: WarriorImage)
    ensures
        img.rarity == ImageRarity::Common,
        img.index == 1,
        img.uri@ == fallback_image_uri(class),
{
    let uri = String::from_str(IPFS_GATEWAY).concat("/").concat(get_class_folder_hash(class)).concat(
        "/c1.png",
    );
    WarriorImage { rarity: ImageRarity::Common, index: 1, uri }
}

/// The (rarity, index, address) of the image a warrior of `class` ends up
/// with: the picked one when there is one, else the fallback.
pub open spec fn image_of(class: WarriorClass, picked: Option<WarriorImage>) -> (
    ImageRarity,
    u8,
    Seq<char>,
) {
    match picked {
        Some(img) => (img.rarity, img.index, img.uri@),
        None => (ImageRarity::Common, 1u8, fallback_image_uri(class)),
    }
}

/// Whether the warrior shows image `img`.
pub open spec fn shows_image(w: UndeadWarrior, img: (ImageRarity, u8, Seq<char>)) -> bool {
    &&& w.image_rarity == img.0
    &&& w.image_index == img.1
    &&& w.image_uri@ == img.2
}

/// Whether `a` and `b` agree on every field but the stats and the image.
pub open spec fn same_but_stats_and_image(a: UndeadWarrior, b: UndeadWarrior) -> bool {
    &&& a.name == b.name
    &&& a.address == b.address
    &&& a.owner == b.owner
    &&& a.dna == b.dna
    &&& a.created_at == b.created_at
    &&& a.current_hp == b.current_hp
    &&& a.max_hp == b.max_hp
    &&& a.warrior_class == b.warrior_class
    &&& a.battles_won == b.battles_won
    &&& a.battles_lost == b.battles_lost
    &&& a.experience_points == b.experience_points
    &&& a.level == b.level
    &&& a.last_battle_at == b.last_battle_at
    &&& a.cooldown_expires_at == b.cooldown_expires_at
    &&& a.bump == b.bump
}

// ---------------------------------------------------------------- callback

/// Accounts of the callback through which the VRF delivers randomness.
#[derive(Clone, Debug)]
pub struct CallbackWarriorStats {
    pub warrior: UndeadWarrior,
}

/// Gives a warrior the drawn stats and an image: the picked one, else its
/// class's fallback image. Nothing else about the warrior changes.
pub fn apply_vrf_outcome(warrior: &mut UndeadWarrior, rolls: (u8, u8, u8), picked: Option<WarriorImage>)
    ensures
        final(warrior).base_attack == rolls.0 as u16,
        final(warrior).base_defense == rolls.1 as u16,
        final(warrior).base_knowledge == rolls.2 as u16,
        shows_image(*final(warrior), image_of(old(warrior).warrior_class, picked)),
        same_but_stats_and_image(*final(warrior), *old(warrior)),
{
    warrior.base_attack = rolls.0 as u16;
    warrior.base_defense = rolls.1 as u16;
    warrior.base_knowledge = rolls.2 as u16;
    let img = match picked {
        Some(img) => img,
        None => fallback_image(warrior.warrior_class),
    };
    warrior.image_rarity = img.rarity;
    warrior.image_index = img.index;
    warrior.image_uri = img.uri;
}

/// Whether `after` is `before` once the randomness callback has run: the
/// stats are the ones drawn from `randomness` for the warrior's class, the
/// image is the picked one (else the class's fallback), and nothing else
/// changes.
pub open spec fn callback_applied(
    before: UndeadWarrior,
    after: UndeadWarrior,
    randomness: Seq<u8>,
    picked: Option<WarriorImage>,
) -> bool {
    let s = vrf_stats(randomness, before.warrior_class);
    &&& after.base_attack == s.0 as u16
    &&& after.base_defense == s.1 as u16
    &&& after.base_knowledge == s.2 as u16
    &&& shows_image(after, image_of(before.warrior_class, picked))
    &&& same_but_stats_and_image(after, before)
}

/// Replaces a warrior's stats with ones drawn from the VRF's `randomness`
/// within its class's bounds, and gives it the picked image (else its
/// class's fallback image).
pub fn callback_warrior_stats(
    ctx: &mut CallbackWarriorStats,
    randomness: [u8; 32],
    picked: Option<WarriorImage>,
) -> (r: Result<(), RustUndeadError>)
    ensures
        r == Ok::<(), RustUndeadError>(()),
        callback_applied(old(ctx).warrior, final(ctx).warrior, randomness@, picked),
        within_vrf_bounds(vrf_stats(randomness@, old(ctx).warrior.warrior_class), old(ctx).warrior.warrior_class),
{
    let class = ctx.warrior.warrior_class;
    let rolls = roll_warrior_stats(&randomness, class);
    apply_vrf_outcome(&mut ctx.warrior, rolls, picked);
    Ok(())
}

// ---------------------------------------------------------------- creation

/// Longest warrior name, in bytes.
pub const MAX_WARRIOR_NAME_LEN: usize = 32;

/// Accounts of the instruction that creates a warrior.
#[derive(Clone, Debug)]
pub struct CreateWarrior {
    /// Who signs and pays.
    pub signer: Pubkey,
    /// The player who will own the warrior.
    pub player: Pubkey,
    /// Address of the new warrior account.
    pub warrior_address: Pubkey,
    /// Bump of the new warrior account's address.
    pub warrior_bump: u8,
    pub user_profile: UserProfile,
    pub config: GameConfig,
    pub user_achievements: UserAchievements,
    /// Bump of the achievements account's address.
    pub achievements_bump: u8,
}

/// A request for verifiable randomness that will come back through the
/// stats callback.
#[derive(Clone, Copy, Debug)]
pub struct VrfRequest {
    /// Who pays for the request.
    pub payer: Pubkey,
    /// Seed mixed into the randomness.
    pub caller_seed: [u8; 32],
    /// The warrior account handed to the callback.
    pub warrior: Pubkey,
}

/// A created warrior, and the randomness request to send if one was asked for.
#[derive(Clone, Debug)]
pub struct CreatedWarrior {
    pub warrior: UndeadWarrior,
    pub vrf_request: Option<VrfRequest>,
}

/// Why creating a warrior is refused, if it is: the profile must belong to
/// the player, a session token presented must be valid and the player's,
/// and the name must be 1 to 32 bytes.
pub open spec fn create_warrior_refusal(
    profile_owner: Pubkey,
    player: Pubkey,
    session: SessionCheck,
    name: Seq<char>,
) -> Option<RustUndeadError> {
    if profile_owner@ != player@ {
        Some(RustUndeadError::NotAuthorized)
    } else if session == SessionCheck::Invalid {
        Some(RustUndeadError::InvalidSessionToken)
    } else if session == SessionCheck::OtherAuthority {
        Some(RustUndeadError::NotAuthorized)
    } else if utf8_len(name) > 32 {
        Some(RustUndeadError::NameTooLong)
    } else if utf8_len(name) == 0 {
        Some(RustUndeadError::NameEmpty)
    } else {
        None
    }
}

/// Whether `w` is a newly created warrior with these identity fields: full
/// health (100 of 100), level 1, no battles, no experience, no cooldown.
pub open spec fn is_new_warrior(
    w: UndeadWarrior,
    name: Seq<char>,
    owner: Pubkey,
    address: Pubkey,
    bump: u8,
    dna: [u8; 8],
    class: WarriorClass,
    now: i64,
) -> bool {
    &&& w.name@ == name
    &&& w.owner == owner
    &&& w.address == address
    &&& w.bump == bump
    &&& w.dna == dna
    &&& w.warrior_class == class
    &&& w.created_at == now
    &&& w.last_battle_at == 0
    &&& w.cooldown_expires_at == 0
    &&& w.max_hp == 100
    &&& w.current_hp == 100
    &&& w.battles_won == 0
    &&& w.battles_lost == 0
    &&& w.experience_points == 0
    &&& w.level == 1
}

/// Points a player earns, twice, for each warrior created.
pub const WARRIOR_POINTS: u64 = 100;

/// The player's profile once a warrior has been created: one more warrior
/// and one more created warrior, and twice 100 points (all held at their
/// maximum).
pub open spec fn profile_after_warrior(p: UserProfile) -> UserProfile {
    UserProfile {
        warriors: saturating_inc_u32(p.warriors),
        warriors_created: saturating_inc_u32(p.warriors_created),
        total_points: saturating_add_u64(saturating_add_u64(p.total_points, 100), 100),
        ..p
    }
}

/// The player's achievements once a warrior has been created: a record
/// never written before is set up for `player` (no winner or battle
/// achievement, first warrior at `now`); in every case the warrior and
/// overall levels become the given ones.
pub open spec fn achievements_after_warrior(
    a: UserAchievements,
    player: Pubkey,
    now: i64,
    bump: u8,
    warrior_level: AchievementLevel,
    overall_level: AchievementLevel,
) -> UserAchievements {
    if a.owner@ == zero_key() {
        UserAchievements {
            owner: player,
            overall_achievements: overall_level,
            warrior_achivement: warrior_level,
            winner_achievement: AchievementLevel::Unranked,
            battle_achievement: AchievementLevel::Unranked,
            first_warrior_date: now,
            bump: bump,
        }
    } else {
        UserAchievements {
            overall_achievements: overall_level,
            warrior_achivement: warrior_level,
            ..a
        }
    }
}

/// Creates a warrior named `name` of class `class` for the player, counts
/// it in the player's profile and in the game's total, awards the player
/// points, updates the player's achievements, and asks for randomness
/// unless `no_vrf`. `rolled_stats` and `picked_image` are the stats and
/// image drawn from the player's seed material, when there are any; without
/// them the class's defaults and fallback image are used.
/// `warrior_achievement` and `overall_achievement` are the levels that the
/// achievement rules give for the player's updated count of created
/// warriors and updated points. When refused, no account changes.
pub fn create_warrior(
    ctx: &mut CreateWarrior,
    session: SessionCheck,
    name: String,
    dna: [u8; 8],
    class: WarriorClass,
    client_seed: u8,
    no_vrf: bool,
    now: i64,
    rolled_stats: Option<(u16, u16, u16)>,
    picked_image: Option<WarriorImage>,
    warrior_achievement: AchievementLevel,
    overall_achievement: AchievementLevel,
) -> (r: Result<CreatedWarrior, RustUndeadError>)
    ensures
        r is Err <==> create_warrior_refusal(
            old(ctx).user_profile.owner,
            old(ctx).player,
            session,
            name@,
        ) is Some,
        r matches Err(e) ==> create_warrior_refusal(
            old(ctx).user_profile.owner,
            old(ctx).player,
            session,
            name@,
        ) == Some(e) && *final(ctx) == *old(ctx),
        r matches Ok(created) ==> {
            &&& is_new_warrior(
                created.warrior,
                name@,
                old(ctx).player,
                old(ctx).warrior_address,
                old(ctx).warrior_bump,
                dna,
                class,
                now,
            )
            &&& (created.warrior.base_attack, created.warrior.base_defense, created.warrior.base_knowledge)
                == initial_stats(class, rolled_stats)
            &&& shows_image(created.warrior, image_of(class, picked_image))
            &&& final(ctx).user_profile == profile_after_warrior(old(ctx).user_profile)
            &&& final(ctx).user_achievements == achievements_after_warrior(
                old(ctx).user_achievements,
                old(ctx).player,
                now,
                old(ctx).achievements_bump,
                warrior_achievement,
                overall_achievement,
            )
            &&& final(ctx).achievements_bump == old(ctx).achievements_bump
            &&& final(ctx).config == (GameConfig {
                total_warriors: saturating_inc_u32(old(ctx).config.total_warriors),
                ..old(ctx).config
            })
            &&& final(ctx).signer == old(ctx).signer
            &&& final(ctx).player == old(ctx).player
            &&& final(ctx).warrior_address == old(ctx).warrior_address
            &&& final(ctx).warrior_bump == old(ctx).warrior_bump
            &&& (created.vrf_request is Some <==> !no_vrf)
            &&& created.vrf_request matches Some(q) ==> {
                &&& q.payer == old(ctx).signer
                &&& q.warrior == old(ctx).warrior_address
                &&& q.caller_seed@ == Seq::new(32, |i: int| client_seed)
            }
        },
{
    if !ctx.user_profile.owner.same_as(&ctx.player) {
        return Err(RustUndeadError::NotAuthorized);
    }
    match session {
        SessionCheck::Invalid => {
            return Err(RustUndeadError::InvalidSessionToken);
        },
        SessionCheck::OtherAuthority => {
            return Err(RustUndeadError::NotAuthorized);
        },
        _ => {},
    }
    let len: usize = utf8_len_up_to(name.as_str(), MAX_WARRIOR_NAME_LEN);
    if len > MAX_WARRIOR_NAME_LEN {
        return Err(RustUndeadError::NameTooLong);
    }
    if len == 0 {
        return Err(RustUndeadError::NameEmpty);
    }
    ctx.user_profile.warriors = ctx.user_profile.warriors.saturating_add(1);
    let stats = match rolled_stats {
        Some(s) => s,
        None => default_stats(class),
    };
    let img = match picked_image {
        Some(img) => img,
        None => fallback_image(class),
    };
    let warrior = UndeadWarrior {
        name,
        address: ctx.warrior_address,
        owner: ctx.player,
        dna,
        created_at: now,
        base_attack: stats.0,
        base_defense: stats.1,
        base_knowledge: stats.2,
        current_hp: 100,
        max_hp: 100,
        warrior_class: class,
        battles_won: 0,
        battles_lost: 0,
        experience_points: 0,
        level: 1,
        last_battle_at: 0,
        cooldown_expires_at: 0,
        bump: ctx.warrior_bump,
        image_rarity: img.rarity,
        image_index: img.index,
        image_uri: img.uri,
    };
    ctx.config.total_warriors = ctx.config.total_warriors.saturating_add(1);
    ctx.user_profile.warriors_created = ctx.user_profile.warriors_created.saturating_add(1);
    ctx.user_profile.total_points = ctx.user_profile.total_points.saturating_add(WARRIOR_POINTS);
    if ctx.user_achievements.owner.is_default() {
        ctx.user_achievements.owner = ctx.player;
        ctx.user_achievements.overall_achievements = AchievementLevel::Unranked;
        ctx.user_achievements.warrior_achivement = AchievementLevel::Bronze;
        ctx.user_achievements.winner_achievement = AchievementLevel::Unranked;
        ctx.user_achievements.battle_achievement = AchievementLevel::Unranked;
        ctx.user_achievements.first_warrior_date = now;
        ctx.user_achievements.bump = ctx.achievements_bump;
        ctx.user_achievements.warrior_achivement = warrior_achievement;
    } else {
        ctx.user_achievements.warrior_achivement = warrior_achievement;
    }
    ctx.user_profile.total_points = ctx.user_profile.total_points.saturating_add(WARRIOR_POINTS);
    ctx.user_achievements.overall_achievements = overall_achievement;
    let vrf_request = if no_vrf {
        None
    } else {
        let seed: [u8; 32] = [client_seed; 32];
        assert(seed@ =~= Seq::new(32, |i: int| client_seed));
        Some(VrfRequest { payer: ctx.signer, caller_seed: seed, warrior: ctx.warrior_address })
    };
    Ok(CreatedWarrior { warrior, vrf_request })
}

} // verus!
