use vstd::prelude::*;

verus! {

/// Why an instruction is refused.
#[derive(Clone, Copy, Debug, PartialEq, Eq, Structural)]
pub enum RustUndeadError {
    /// The signer may not act on this account.
    NotAuthorized,
    /// A name is longer than allowed.
    NameTooLong,
    /// A name is empty.
    NameEmpty,
    /// The username has already been claimed.
    UsernameAlreadyChoosen,
    /// A quiz score above 100.
    InvalidScore,
    /// The world id given does not match the world account.
    InvalidRoomId,
    /// A session token was presented and is not valid.
    InvalidSessionToken,
}

} // verus!
