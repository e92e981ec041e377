# undead

The game rules of an on-chain adventure in which players keep a profile,
create warriors of four classes, open worlds, play chapters and take quizzes
whose average score feeds a per-world leaderboard.

- `src/` is the library, verified with Verus. Every instruction is a
  transition on plain account values with a contract: when it is refused,
  and with which error; what every field becomes otherwise. `src/laws.rs`
  holds the properties that span instructions (the quiz average, the
  leaderboard, usernames claimed once, profiles kept by their owners, class
  stats within the randomness bounds).
- `tests/` runs the library on concrete values.
- `app/` is the Anchor program around it: account layouts, the clock,
  session tokens, randomness requests, delegation and commits to the rollup.
