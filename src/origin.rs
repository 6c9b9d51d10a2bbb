//! Who asks for an operation.
use vstd::prelude::*;

use crate::AccountId;

verus! {

/// The origin of a call, as the surrounding dispatch layer hands it over.
#[derive(Clone, Copy, Debug, PartialEq, Eq, Structural)]
pub enum Origin {
    /// A caller whose signature was checked.
    Signed(AccountId),
    /// The privileged system origin, which stands for no account.
    Root,
    /// A call that carries no identity at all.
    Unsigned,
}

/// The error of a call whose origin is not a signed account.
#[derive(Clone, Copy, Debug, PartialEq, Eq, Structural)]
pub struct BadOrigin;

impl Origin {
    /// A call signed by `who`.
    pub fn signed(who: AccountId) -> (r: Origin)
        ensures
            r == Origin::Signed(who),
    {
        Origin::Signed(who)
    }

    /// The privileged system origin.
    pub fn root() -> (r: Origin)
        ensures
            r == Origin::Root,
    {
        Origin::Root
    }

    /// A call without identity.
    pub fn unsigned() -> (r: Origin)
        ensures
            r == Origin::Unsigned,
    {
        Origin::Unsigned
    }
}

/// The account that signed `origin`, or `BadOrigin` when nobody did.
pub fn ensure_signed(origin: Origin) -> (r: Result<AccountId, BadOrigin>)
    ensures
        match origin {
            Origin::Signed(who) => r == Ok::<AccountId, BadOrigin>(who),
            _ => r == Err::<AccountId, BadOrigin>(BadOrigin),
        },
{
    match origin {
        Origin::Signed(who) => Ok(who),
        _ => Err(BadOrigin),
    }
}

} // verus!
