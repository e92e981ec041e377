use vstd::prelude::*;

verus! {

/// Bytes that Anchor puts in front of every account's data.
pub const ANCHOR_DISCRIMINATOR: usize = 8;

/// Seed prefix of a player's user profile account.
pub const USER_PROFILE: &'static str = "user_profile";

/// Seed prefix of a username's registry account.
pub const USER_REGISTRY: &'static str = "user_registry";

/// Seed prefix of a player's game profile account.
pub const USER_GAME_PROFILE: &'static str = "user_game_profile";

/// Seed prefix of a warrior account.
pub const UNDEAD_WARRIOR: &'static str = "undead_warrior";

/// Seed prefix of a world account.
pub const UNDEAD_WORLD: &'static str = "undead_world";

/// Seed prefix of the game configuration account.
pub const GAME_CONFIG: &'static str = "game_config";

/// Image folder of the Guardian class.
pub const GUARDIAN_FOLDER_HASH: &'static str = "bafybeieg4s45fshekdmtqssax4c2tw3ro5z6rmv4ka5dnit7x66f4tmsby";

/// Image folder of the Validator class.
pub const VALIDATOR_FOLDER_HASH: &'static str = "bafybeibs2qb55efetumvknddcbizjwg4kvzdnyojys6jtovclfodxhec2a";

/// Image folder of the Oracle class.
pub const ORACLE_FOLDER_HASH: &'static str = "bafybeia3ukkyzpqo6sjtjxj3iqdtfnpyh5szffxdo3avov2muo2wnzs6dy";

/// Image folder of the Daemon class.
pub const DAEMON_FOLDER_HASH: &'static str = "bafybeicyzvtflal64zu5jrfhveuuqaoizhiaulvyax7s5c3jnoxyyendxu";

/// Web gateway through which warrior images are served.
pub const IPFS_GATEWAY: &'static str = "https://gateway.pinata.cloud/ipfs";

/// Number of common images per class.
pub const COMMON_COUNT: u8 = 10;

/// Number of uncommon images per class.
pub const UNCOMMON_COUNT: u8 = 6;

/// Number of rare images per class.
pub const RARE_COUNT: u8 = 4;

/// Experience a battle's winner earns.
pub const WINNER_XP: u8 = 20;

/// Experience a battle's loser earns.
pub const LOSER_XP: u8 = 10;

} // verus!
