use vstd::prelude::*;
use vstd::std_specs::cmp::PartialEqSpecImpl;

verus! {

/// A 32-byte account address.
#[derive(Clone, Copy, Debug)]
pub struct Pubkey {
    pub bytes: [u8; 32],
}

impl View for Pubkey {
    type V = Seq<u8>;

    open spec fn view(&self) -> Seq<u8> {
        self.bytes@
    }
}

/// Whether two 32-byte arrays hold the same bytes.
pub fn same_bytes32(a: &[u8; 32], b: &[u8; 32]) -> (r: bool)
    ensures
        r == (a@ == b@),
{
    let mut i: usize = 0;
    while i < 32
        invariant
            0 <= i <= 32,
            a@.len() == 32,
            b@.len() == 32,
            forall|j: int| 0 <= j < i ==> a@[j] == b@[j],
        decreases 32 - i,
    {
        if a[i] != b[i] {
            return false;
        }
        i = i + 1;
    }
    assert(a@ =~= b@);
    true
}

/// The address made of 32 zero bytes; an account whose owner is this
/// address has never been written.
pub open spec fn zero_key() -> Seq<u8> {
    Seq::new(32, |i: int| 0u8)
}

impl Pubkey {
    /// The default address: 32 zero bytes.
    pub fn zero() -> (k: Pubkey)
        ensures
            k@ == zero_key(),
    {
        let k = Pubkey { bytes: [0u8; 32] };
        assert(k@ =~= zero_key());
        k
    }

    /// Whether two addresses hold the same bytes.
    pub fn same_as(&self, other: &Pubkey) -> (r: bool)
        ensures
            r == (self@ == other@),
    {
        same_bytes32(&self.bytes, &other.bytes)
    }

    /// Whether this is the default (all-zero) address.
    pub fn is_default(&self) -> (r: bool)
        ensures
            r == (self@ == zero_key()),
    {
        let z = Pubkey::zero();
        self.same_as(&z)
    }
}

impl PartialEq for Pubkey {
    fn eq(&self, other: &Pubkey) -> (r: bool) {
        self.same_as(other)
    }
}

impl PartialEqSpecImpl for Pubkey {
    open spec fn obeys_eq_spec() -> bool {
        true
    }

    open spec fn eq_spec(&self, other: &Pubkey) -> bool {
        self@ == other@
    }
}

/// Global settings, written once by the game's authority.
#[derive(Clone, Copy, Debug)]
pub struct GameConfig {
    pub authority: Pubkey,
    pub released_chapters: u8,
    pub total_warriors: u32,
    pub boss_battles_enabled: bool,
    pub paused: bool,
    pub bump: u8,
}

/// The persona a player picks for their user profile.
#[derive(Clone, Copy, Debug, PartialEq, Eq, Structural)]
pub enum UserPersona {
    TreasureHunter,
    BoneSmith,
    ObsidianProphet,
    GraveBaron,
    Demeter,
    Collector,
    CovenCaller,
    SeerOfAsh,
    Cerberus,
}

/// A player's profile on the base layer.
#[derive(Clone, Debug)]
pub struct UserProfile {
    pub owner: Pubkey,
    pub username: Option<String>,
    pub user_persona: Option<UserPersona>,
    pub warriors: u32,
    /// Warriors created by the player so far.
    pub warriors_created: u32,
    /// Points earned by the player.
    pub total_points: u64,
    pub achievement_level: AchievementLevel,
    pub join_date: i64,
    pub bump: u8,
}

/// One account per username, so that each name is claimed at most once.
#[derive(Clone, Copy, Debug)]
pub struct UsernameRegistry {
    pub claimed: bool,
    pub owner: Pubkey,
    pub bump: u8,
}

/// Achievement tiers, lowest first.
#[derive(Clone, Copy, Debug, PartialEq, Eq, Structural)]
pub enum AchievementLevel {
    /// No achievement yet.
    Unranked,
    Bronze,
    Silver,
    Gold,
    Platinum,
    Diamond,
}

/// A player's achievements, set up with their first warrior.
#[derive(Clone, Copy, Debug)]
pub struct UserAchievements {
    pub owner: Pubkey,
    pub overall_achievements: AchievementLevel,
    pub warrior_achivement: AchievementLevel,
    pub winner_achievement: AchievementLevel,
    pub battle_achievement: AchievementLevel,
    pub first_warrior_date: i64,
    pub bump: u8,
}

/// A player's game progress, kept on the ephemeral rollup.
#[derive(Clone, Copy, Debug)]
pub struct GamerProfile {
    pub owner: Pubkey,
    pub character_class: WarriorClass,
    pub current_chapter: u16,
    pub chapters_completed: u16,
    pub total_distance: u64,
    pub current_position: u32,
    pub total_playtime: u64,
    pub total_battles_won: u64,
    pub total_battles_lost: u64,
    pub total_battles_fought: u64,
    pub quizzes_taken: u16,
    pub total_quiz_score: u32,
    /// Average quiz score: `total_quiz_score / quizzes_taken`.
    pub undead_score: u32,
    pub bump: u8,
    pub created_at: i64,
}

/// The four warrior classes.
#[derive(Clone, Copy, Debug, PartialEq, Eq, Structural)]
pub enum WarriorClass {
    Validator,
    Oracle,
    Guardian,
    Daemon,
}

/// The text a warrior class is shown as.
pub open spec fn class_display(class: WarriorClass) -> Seq<char> {
    match class {
        WarriorClass::Validator => "Validator Warrior"@,
        WarriorClass::Oracle => "Oracle Warrior"@,
        WarriorClass::Guardian => "Guardian Warrior"@,
        WarriorClass::Daemon => "Daemon Warrior"@,
    }
}

impl WarriorClass {
    /// The class as it is shown to players.
    pub fn display_text(&self) -> (s: String)
        ensures
            s@ == class_display(*self),
    {
        match self {
            WarriorClass::Validator => String::from_str("Validator Warrior"),
            WarriorClass::Oracle => String::from_str("Oracle Warrior"),
            WarriorClass::Guardian => String::from_str("Guardian Warrior"),
            WarriorClass::Daemon => String::from_str("Daemon Warrior"),
        }
    }
}

/// How rare a warrior's image is.
#[derive(Clone, Copy, Debug, PartialEq, Eq, Structural)]
pub enum ImageRarity {
    Common,
    Uncommon,
    Rare,
}

/// The text an image rarity is shown as.
pub open spec fn rarity_display(rarity: ImageRarity) -> Seq<char> {
    match rarity {
        ImageRarity::Common => "common"@,
        ImageRarity::Uncommon => "uncommon"@,
        ImageRarity::Rare => "rare"@,
    }
}

impl ImageRarity {
    /// The rarity as it is shown to players.
    pub fn display_text(&self) -> (s: String)
        ensures
            s@ == rarity_display(*self),
    {
        match self {
            ImageRarity::Common => String::from_str("common"),
            ImageRarity::Uncommon => String::from_str("uncommon"),
            ImageRarity::Rare => String::from_str("rare"),
        }
    }
}

/// A warrior account.
#[derive(Clone, Debug)]
pub struct UndeadWarrior {
    pub name: String,
    pub address: Pubkey,
    pub owner: Pubkey,
    pub dna: [u8; 8],
    pub created_at: i64,
    pub base_attack: u16,
    pub base_defense: u16,
    pub base_knowledge: u16,
    pub current_hp: u16,
    pub max_hp: u16,
    pub warrior_class: WarriorClass,
    pub battles_won: u32,
    pub battles_lost: u32,
    pub experience_points: u64,
    pub level: u16,
    pub last_battle_at: i64,
    pub cooldown_expires_at: i64,
    pub bump: u8,
    pub image_rarity: ImageRarity,
    pub image_index: u8,
    pub image_uri: String,
}

/// A world (room) in which players take chapters and quizzes.
#[derive(Clone, Copy, Debug)]
pub struct UndeadWorld {
    pub world_id: [u8; 32],
    pub active_players: u16,
    pub total_players: u32,
    pub total_completions: u32,
    pub highest_undead_score_average: u32,
    pub top_commander: Pubkey,
    pub created_at: i64,
    pub bump: u8,
}

} // verus!
