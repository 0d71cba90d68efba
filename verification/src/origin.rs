//! Where a call comes from, and the two checks the dispatchables make on it.

use vstd::prelude::*;

verus! {

/// The identifier of a parachain.
#[derive(Clone, Copy, Debug, PartialEq, Eq, Structural)]
pub struct ParaId(pub u32);

/// The public key behind a signed transaction.
#[derive(Clone, Copy, Debug, PartialEq, Eq)]
pub struct AccountId(pub [u8; 32]);

/// The provenance of a call, as the host established it before the call
/// reached this crate.
#[derive(Clone, Copy, Debug, PartialEq, Eq)]
pub enum Origin {
    /// The chain's own root authority.
    Root,
    /// A transaction signed by a local account.
    Signed(AccountId),
    /// A call that nobody signed.
    Unsigned,
    /// A message from the relay chain.
    Relay,
    /// A message that the transport attests as sent by a sibling parachain.
    SiblingParachain(ParaId),
    /// Any other origin that the runtime knows.
    Other,
}

/// The call's origin is not one the dispatchable accepts.
#[derive(Clone, Copy, Debug, PartialEq, Eq, Structural)]
pub struct BadOrigin;

impl Origin {
    /// The account that signed the call, if it is a signed transaction.
    pub open spec fn signer(self) -> Option<AccountId> {
        match self {
            Origin::Signed(who) => Some(who),
            _ => None,
        }
    }

    /// The sibling parachain that sent the call, if one did.
    pub open spec fn sibling(self) -> Option<ParaId> {
        match self {
            Origin::SiblingParachain(para) => Some(para),
            _ => None,
        }
    }
}

/// Accepts a signed transaction and yields its signer; every other origin
/// is refused.
pub fn ensure_signed(origin: Origin) -> (res: Result<AccountId, BadOrigin>)
    ensures
        res == match origin.signer() {
            Some(who) => Ok::<AccountId, BadOrigin>(who),
            None => Err(BadOrigin),
        },
{
    match origin {
        Origin::Signed(who) => Ok(who),
        _ => Err(BadOrigin),
    }
}

/// Accepts a call that a sibling parachain sent and yields that parachain;
/// every other origin is refused.
pub fn ensure_sibling_para(origin: Origin) -> (res: Result<ParaId, BadOrigin>)
    ensures
        res == match origin.sibling() {
            Some(para) => Ok::<ParaId, BadOrigin>(para),
            None => Err(BadOrigin),
        },
{
    match origin {
        Origin::SiblingParachain(para) => Ok(para),
        _ => Err(BadOrigin),
    }
}

} // verus!
