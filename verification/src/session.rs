use vstd::prelude::*;
use crate::error::RustUndeadError;

verus! {

/// What became of the session token that may come with an instruction.
#[derive(Clone, Copy, Debug, PartialEq, Eq, Structural)]
pub enum SessionCheck {
    /// No session token was presented.
    Absent,
    /// A token was presented, it belongs to the signer and has not expired.
    Valid,
    /// A token was presented and it is not valid (wrong address for its
    /// signer, or expired).
    Invalid,
    /// A valid token was presented, but it was issued by another authority
    /// than the player's.
    OtherAuthority,
}

/// The refusal, if any, of a session check: a valid token of the player's
/// authorizes, an invalid one is refused as such, one of another authority
/// is refused with `or_error`, and without a token `condition` decides.
pub open spec fn session_refusal(
    session: SessionCheck,
    condition: bool,
    or_error: RustUndeadError,
) -> Option<RustUndeadError> {
    match session {
        SessionCheck::Absent => if condition {
            None
        } else {
            Some(or_error)
        },
        SessionCheck::Valid => None,
        SessionCheck::Invalid => Some(RustUndeadError::InvalidSessionToken),
        SessionCheck::OtherAuthority => Some(or_error),
    }
}

/// The first of two refusals, checked in order.
pub open spec fn first_refusal(
    first: Option<RustUndeadError>,
    second: Option<RustUndeadError>,
) -> Option<RustUndeadError> {
    if first is Some {
        first
    } else {
        second
    }
}

/// The result that a refusal, if any, gives.
pub open spec fn outcome(refusal: Option<RustUndeadError>) -> Result<(), RustUndeadError> {
    match refusal {
        Some(e) => Err(e),
        None => Ok(()),
    }
}

/// Authorizes an instruction either through a session token or, when none
/// is presented, through `condition`.
pub fn session_auth_or(
    session: SessionCheck,
    condition: bool,
    or_error: RustUndeadError,
) -> (r: Result<(), RustUndeadError>)
    ensures
        r == outcome(session_refusal(session, condition, or_error)),
{
    match session {
        SessionCheck::Absent => if condition {
            Ok(())
        } else {
            Err(or_error)
        },
        SessionCheck::Valid => Ok(()),
        SessionCheck::Invalid => Err(RustUndeadError::InvalidSessionToken),
        SessionCheck::OtherAuthority => Err(or_error),
    }
}

} // verus!
