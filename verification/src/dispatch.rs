//! Who a call comes from, what a call weighs, and the errors that a call
//! can end with.

use vstd::prelude::*;

verus! {

/// An account on the chain.
pub type AccountId = u64;

/// The number of a block.
pub type BlockNumber = u64;

/// An amount of the chain's currency.
pub type Balance = u64;

/// The weight of a call whose weight does not depend on its arguments.
pub const CALL_WEIGHT: u64 = 10_000;

/// The origin of a call: the chain itself, a signed account, or nobody.
#[derive(Clone, Copy, PartialEq, Eq, Debug, Structural)]
pub enum Origin {
    Root,
    Signed(AccountId),
    Unsigned,
}

/// Why a call failed.
#[derive(Clone, Copy, PartialEq, Eq, Debug)]
pub enum DispatchError<E> {
    /// The call was not signed by an account.
    BadOrigin,
    /// An account named by the call could not be looked up.
    CannotLookup,
    /// The currency transfer that the call makes was refused.
    Currency,
    /// One of the pallet's own errors.
    Module(E),
}

/// The account that signed `origin`, if any.
pub open spec fn signer(origin: Origin) -> Option<AccountId> {
    match origin {
        Origin::Signed(who) => Some(who),
        _ => None,
    }
}

/// The account that signed the call; `BadOrigin` for the root and for an
/// unsigned call.
pub fn ensure_signed<E>(origin: Origin) -> (r: Result<AccountId, DispatchError<E>>)
    ensures
        r == match signer(origin) {
            Some(who) => Ok::<AccountId, DispatchError<E>>(who),
            None => Err(DispatchError::BadOrigin),
        },
{
    match origin {
        Origin::Signed(who) => Ok(who),
        _ => Err(DispatchError::BadOrigin),
    }
}

/// Only a signed origin has a signer, and it is the account that signed;
/// the root and unsigned origins are refused with `BadOrigin`.
pub proof fn law_signer_of_origins(who: AccountId)
    ensures
        signer(Origin::Signed(who)) == Some(who),
        signer(Origin::Root) is None,
        signer(Origin::Unsigned) is None,
{
}

} // verus!
