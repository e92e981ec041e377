//! Game rules of an on-chain "undead" adventure: player profiles, warriors,
//! worlds, chapters and quizzes, as plain account values and verified
//! state transitions.

pub mod constants;
pub mod error;
pub mod state;
pub mod rollup;
pub mod session;
pub mod users;
pub mod vrf;
pub mod warrior;
pub mod saturating;
pub mod config;
pub mod delegation;
pub mod world;
pub mod rust_undead;
pub mod laws;
pub mod text;
pub mod rules;
