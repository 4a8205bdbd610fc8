use vstd::prelude::*;

verus! {

/// The identity of an account: its name.
pub type AccountId = String;

/// An amount held by an account.
pub type Balance = u128;

/// The number of a block.
pub type BlockNumber = u32;

/// How many extrinsics an account has submitted.
pub type Nonce = u32;

/// The content that an account can claim.
pub type Content = String;

/// The outcome of one module operation: success, or a static message that
/// says why nothing was changed.
pub type DispatchResult = Result<(), &'static str>;

/// The protocol by which a module applies a call on behalf of a caller that
/// the dispatcher supplies. `outcome` and `next` say, over the module's
/// view, what a call returns and what the module's state becomes: a call
/// that fails leaves the state as it was.
pub trait Dispatch: View + Sized {
    type Caller;
    type Call;

    /// The module's internal invariant.
    spec fn inv(&self) -> bool;

    /// What `call` made by `caller` returns on `state`.
    spec fn outcome(state: Self::V, caller: Self::Caller, call: Self::Call) -> DispatchResult;

    /// The state after `call` made by `caller` on `state`.
    spec fn next(state: Self::V, caller: Self::Caller, call: Self::Call) -> Self::V;

    /// Applies `call` on behalf of `caller`.
    fn dispatch(&mut self, caller: Self::Caller, call: Self::Call) -> (r: DispatchResult)
        requires
            old(self).inv(),
        ensures
            final(self).inv(),
            r == Self::outcome(old(self)@, caller, call),
            final(self)@ == Self::next(old(self)@, caller, call),
            r is Err ==> final(self)@ == old(self)@,
    ;
}

/// A transfer asked for more than the sender holds.
pub const NOT_ENOUGH_FUNDS: &'static str = "Not enough funds";

/// A transfer would push the receiver's balance past the largest balance.
pub const OVERFLOW: &'static str = "Overflow";

/// Some account already holds a claim on this content.
pub const ALREADY_CLAIMED: &'static str = "this content is already claimed";

/// Nobody holds a claim on this content.
pub const CLAIM_NOT_EXISTING: &'static str = "Claim not existing";

/// The claim is held by an account other than the caller.
pub const NOT_CLAIM_OWNER: &'static str = "Cannot revoke claim that is not owned by caller";

/// The block's number is not the one that follows the current block number.
pub const INVALID_BLOCK_NUMBER: &'static str = "block number does not match what is expected";

} // verus!
