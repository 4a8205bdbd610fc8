use vstd::prelude::*;

use crate::store::Store;
use crate::support::{
    AccountId, Content, Dispatch, DispatchResult, ALREADY_CLAIMED, CLAIM_NOT_EXISTING,
    NOT_CLAIM_OWNER,
};

verus! {

/// What a claim on `content` returns on `claims`.
pub open spec fn create_outcome(
    claims: Map<Seq<char>, AccountId>,
    content: Seq<char>,
) -> DispatchResult {
    if claims.contains_key(content) {
        Err(ALREADY_CLAIMED)
    } else {
        Ok(())
    }
}

/// The claims after `caller` claims `content`.
pub open spec fn create_claims(
    claims: Map<Seq<char>, AccountId>,
    caller: AccountId,
    content: Seq<char>,
) -> Map<Seq<char>, AccountId> {
    if claims.contains_key(content) {
        claims
    } else {
        claims.insert(content, caller)
    }
}

/// What a revocation of the claim on `content` by `caller` returns on
/// `claims`.
pub open spec fn revoke_outcome(
    claims: Map<Seq<char>, AccountId>,
    caller: Seq<char>,
    content: Seq<char>,
) -> DispatchResult {
    if !claims.contains_key(content) {
        Err(CLAIM_NOT_EXISTING)
    } else if claims[content]@ != caller {
        Err(NOT_CLAIM_OWNER)
    } else {
        Ok(())
    }
}

/// The claims after `caller` revokes the claim on `content`.
pub open spec fn revoke_claims(
    claims: Map<Seq<char>, AccountId>,
    caller: Seq<char>,
    content: Seq<char>,
) -> Map<Seq<char>, AccountId> {
    if revoke_outcome(claims, caller, content) is Ok {
        claims.remove(content)
    } else {
        claims
    }
}

/// A claim on unclaimed content succeeds and makes the caller its owner;
/// after that, a claim on the same content by anyone fails as already
/// claimed and leaves the owner as it is.
pub proof fn lemma_claim_once(
    claims: Map<Seq<char>, AccountId>,
    first: AccountId,
    second: AccountId,
    content: Seq<char>,
)
    requires
        !claims.contains_key(content),
    ensures
        create_outcome(claims, content) is Ok,
        ({
            let after = create_claims(claims, first, content);
            &&& after[content] == first
            &&& create_outcome(after, content) == Err::<(), &'static str>(ALREADY_CLAIMED)
            &&& create_claims(after, second, content) == after
        }),
{
}

/// Revoking unclaimed content fails as not existing; revoking content
/// claimed by another account fails as not owned; both change nothing. A
/// successful revocation leaves the content unclaimed.
pub proof fn lemma_revoke(claims: Map<Seq<char>, AccountId>, caller: Seq<char>, content: Seq<char>)
    ensures
        !claims.contains_key(content) ==> revoke_outcome(claims, caller, content) == Err::<
            (),
            &'static str,
        >(CLAIM_NOT_EXISTING) && revoke_claims(claims, caller, content) == claims,
        claims.contains_key(content) && claims[content]@ != caller ==> revoke_outcome(
            claims,
            caller,
            content,
        ) == Err::<(), &'static str>(NOT_CLAIM_OWNER) && revoke_claims(claims, caller, content)
            == claims,
        revoke_outcome(claims, caller, content) is Ok ==> !revoke_claims(
            claims,
            caller,
            content,
        ).contains_key(content),
{
}

/// A call to the claims registry, made on behalf of a caller that the
/// dispatcher supplies.
pub enum Call {
    CreateClaim { claim: Content },
    RevokeClaim { claim: Content },
}

/// The claims registry: which account, if any, owns each piece of content.
pub struct Pallet {
    claims: Store<AccountId>,
}

impl View for Pallet {
    type V = Map<Seq<char>, AccountId>;

    closed spec fn view(&self) -> Map<Seq<char>, AccountId> {
        self.claims@
    }
}

impl Pallet {
    /// The claim store is well formed.
    pub closed spec fn wf(&self) -> bool {
        self.claims.wf()
    }

    /// A registry with no claims.
    pub fn new() -> (s: Self)
        ensures
            s.wf(),
            s@ == Map::<Seq<char>, AccountId>::empty(),
    {
        Pallet { claims: Store::new() }
    }

    /// The owner of the claim on `claim`, if there is one.
    pub fn get_claim(&self, claim: &Content) -> (r: Option<&AccountId>)
        requires
            self.wf(),
        ensures
            match r {
                Some(owner) => self@.contains_key(claim@) && *owner == self@[claim@],
                None => !self@.contains_key(claim@),
            },
    {
        self.claims.get(claim)
    }

    /// Claims `claim` for `caller`. Fails, changing nothing, when the content
    /// is already claimed.
    pub fn create_claim(&mut self, caller: AccountId, claim: Content) -> (r: DispatchResult)
        requires
            old(self).wf(),
        ensures
            final(self).wf(),
            r == create_outcome(old(self)@, claim@),
            final(self)@ == create_claims(old(self)@, caller, claim@),
    {
        if self.claims.get(&claim).is_some() {
            return Err(ALREADY_CLAIMED);
        }
        self.claims.insert(claim, caller);
        Ok(())
    }

    /// Revokes the claim on `claim`. Fails, changing nothing, when nobody
    /// holds it or when someone other than `caller` does.
    pub fn revoke_claim(&mut self, caller: AccountId, claim: Content) -> (r: DispatchResult)
        requires
            old(self).wf(),
        ensures
            final(self).wf(),
            r == revoke_outcome(old(self)@, caller@, claim@),
            final(self)@ == revoke_claims(old(self)@, caller@, claim@),
    {
        match self.claims.get(&claim) {
            None => return Err(CLAIM_NOT_EXISTING),
            Some(owner) => {
                if *owner != caller {
                    return Err(NOT_CLAIM_OWNER);
                }
            },
        }
        self.claims.remove(&claim);
        Ok(())
    }
}

impl Dispatch for Pallet {
    type Caller = AccountId;
    type Call = Call;

    open spec fn inv(&self) -> bool {
        self.wf()
    }

    open spec fn outcome(
        state: Map<Seq<char>, AccountId>,
        caller: AccountId,
        call: Call,
    ) -> DispatchResult {
        match call {
            Call::CreateClaim { claim } => create_outcome(state, claim@),
            Call::RevokeClaim { claim } => revoke_outcome(state, caller@, claim@),
        }
    }

    open spec fn next(state: Map<Seq<char>, AccountId>, caller: AccountId, call: Call) -> Map<
        Seq<char>,
        AccountId,
    > {
        match call {
            Call::CreateClaim { claim } => create_claims(state, caller, claim@),
            Call::RevokeClaim { claim } => revoke_claims(state, caller@, claim@),
        }
    }

    fn dispatch(&mut self, caller: AccountId, call: Call) -> (r: DispatchResult) {
        match call {
            Call::CreateClaim { claim } => self.create_claim(caller, claim),
            Call::RevokeClaim { claim } => self.revoke_claim(caller, claim),
        }
    }
}

} // verus!
