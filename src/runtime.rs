use vstd::prelude::*;

use crate::balances;
use crate::proof_of_existence;
use crate::support::{
    AccountId, Balance, BlockNumber, Dispatch, DispatchResult, Nonce, INVALID_BLOCK_NUMBER,
};
use crate::system;
use crate::system::nonce_in;

verus! {

/// A call to one of the runtime's state modules.
pub enum RuntimeCall {
    Balances(balances::Call),
    ProofOfExistence(proof_of_existence::Call),
}

/// One caller-attributed request.
pub struct Extrinsic {
    pub caller: AccountId,
    pub call: RuntimeCall,
}

/// What a block carries besides its extrinsics.
pub struct Header {
    pub block_number: BlockNumber,
}

/// A numbered, ordered sequence of extrinsics.
pub struct Block {
    pub header: Header,
    pub extrinsics: Vec<Extrinsic>,
}

/// The stores of the state modules, seen as maps: the ledger, then the
/// claims.
pub type Stores = (Map<Seq<char>, Balance>, Map<Seq<char>, AccountId>);

/// What `call` made by `caller` returns on `stores`.
pub open spec fn call_outcome(
    stores: Stores,
    caller: AccountId,
    call: RuntimeCall,
) -> DispatchResult {
    match call {
        RuntimeCall::Balances(balances::Call::Transfer { to, amount }) => {
            balances::transfer_outcome(stores.0, caller@, to@, amount)
        },
        RuntimeCall::ProofOfExistence(proof_of_existence::Call::CreateClaim { claim }) => {
            proof_of_existence::create_outcome(stores.1, claim@)
        },
        RuntimeCall::ProofOfExistence(proof_of_existence::Call::RevokeClaim { claim }) => {
            proof_of_existence::revoke_outcome(stores.1, caller@, claim@)
        },
    }
}

/// The stores after `call` made by `caller`: only the owning module's store
/// may change.
pub open spec fn call_stores(stores: Stores, caller: AccountId, call: RuntimeCall) -> Stores {
    match call {
        RuntimeCall::Balances(balances::Call::Transfer { to, amount }) => {
            (balances::transfer_ledger(stores.0, caller@, to@, amount), stores.1)
        },
        RuntimeCall::ProofOfExistence(proof_of_existence::Call::CreateClaim { claim }) => {
            (stores.0, proof_of_existence::create_claims(stores.1, caller, claim@))
        },
        RuntimeCall::ProofOfExistence(proof_of_existence::Call::RevokeClaim { claim }) => {
            (stores.0, proof_of_existence::revoke_claims(stores.1, caller@, claim@))
        },
    }
}

/// The stores after the extrinsics `exts` are applied in order, whatever
/// each of them returns.
pub open spec fn run_stores(stores: Stores, exts: Seq<Extrinsic>) -> Stores
    decreases exts.len(),
{
    if exts.len() == 0 {
        stores
    } else {
        let before = run_stores(stores, exts.drop_last());
        call_stores(before, exts.last().caller, exts.last().call)
    }
}

/// What each of the extrinsics `exts`, applied in order, returns.
pub open spec fn run_outcomes(stores: Stores, exts: Seq<Extrinsic>) -> Seq<DispatchResult>
    decreases exts.len(),
{
    if exts.len() == 0 {
        Seq::empty()
    } else {
        let before = run_stores(stores, exts.drop_last());
        run_outcomes(stores, exts.drop_last()).push(
            call_outcome(before, exts.last().caller, exts.last().call),
        )
    }
}

/// The nonces after each caller of `exts` has had its nonce increased once
/// per extrinsic.
pub open spec fn run_nonces(nonces: Map<Seq<char>, Nonce>, exts: Seq<Extrinsic>) -> Map<
    Seq<char>,
    Nonce,
>
    decreases exts.len(),
{
    if exts.len() == 0 {
        nonces
    } else {
        let before = run_nonces(nonces, exts.drop_last());
        let who = exts.last().caller@;
        before.insert(who, (nonce_in(before, who) + 1) as Nonce)
    }
}

/// No caller's nonce can overflow while `exts` run.
pub open spec fn nonces_fit(nonces: Map<Seq<char>, Nonce>, exts: Seq<Extrinsic>) -> bool {
    forall|i: int|
        0 <= i < exts.len() ==> nonce_in(nonces, (#[trigger] exts[i]).caller@) + exts.len()
            <= Nonce::MAX
}

/// A call that fails leaves every store as it was.
pub proof fn lemma_failed_call_changes_nothing(stores: Stores, caller: AccountId, call: RuntimeCall)
    requires
        call_outcome(stores, caller, call) is Err,
    ensures
        call_stores(stores, caller, call) == stores,
{
}

proof fn lemma_nonce_bound(nonces: Map<Seq<char>, Nonce>, exts: Seq<Extrinsic>, who: Seq<char>)
    requires
        nonces_fit(nonces, exts),
    ensures
        nonce_in(run_nonces(nonces, exts), who) <= nonce_in(nonces, who) + exts.len(),
    decreases exts.len(),
{
    if exts.len() > 0 {
        let rest = exts.drop_last();
        assert forall|i: int| 0 <= i < rest.len() implies nonce_in(
            nonces,
            (#[trigger] rest[i]).caller@,
        ) + rest.len() <= Nonce::MAX by {
            assert(rest[i] == exts[i]);
        }
        lemma_nonce_bound(nonces, rest, who);
        if who == exts.last().caller@ {
            assert(exts[exts.len() - 1] == exts.last());
        }
    }
}

/// The runtime: the block tracker and one instance of each state module.
pub struct Runtime {
    pub system: system::Pallet,
    pub balances: balances::Pallet,
    pub proof_of_existence: proof_of_existence::Pallet,
}

impl Runtime {
    /// Each module's internal invariant holds.
    pub open spec fn wf(&self) -> bool {
        &&& self.system.wf()
        &&& self.balances.wf()
        &&& self.proof_of_existence.wf()
    }

    /// The state modules' stores.
    pub open spec fn stores(&self) -> Stores {
        (self.balances@, self.proof_of_existence@)
    }

    /// A runtime at block zero with every store empty.
    pub fn new() -> (r: Self)
        ensures
            r.wf(),
            r.system.current() == 0,
            r.system.nonces() == Map::<Seq<char>, Nonce>::empty(),
            r.balances@ == Map::<Seq<char>, Balance>::empty(),
            r.proof_of_existence@ == Map::<Seq<char>, AccountId>::empty(),
    {
        Runtime {
            system: system::Pallet::new(),
            balances: balances::Pallet::new(),
            proof_of_existence: proof_of_existence::Pallet::new(),
        }
    }

    /// Executes `block` and returns what each of its extrinsics returned, in
    /// order. A block whose number does not follow the current block number
    /// is rejected whole, with nothing changed. Otherwise the block number
    /// advances by one and each extrinsic, in order, increases its caller's
    /// nonce and is dispatched; one that fails changes no store and does not
    /// stop the ones after it.
    pub fn execute_block_reporting(&mut self, block: Block) -> (r: Result<
        Vec<DispatchResult>,
        &'static str,
    >)
        requires
            old(self).wf(),
            nonces_fit(old(self).system.nonces(), block.extrinsics@),
        ensures
            final(self).wf(),
            block.header.block_number != old(self).system.current() + 1 ==> {
                &&& r == Err::<Vec<DispatchResult>, &'static str>(INVALID_BLOCK_NUMBER)
                &&& *final(self) == *old(self)
            },
            block.header.block_number == old(self).system.current() + 1 ==> {
                &&& r is Ok
                &&& r->Ok_0@ == run_outcomes(old(self).stores(), block.extrinsics@)
                &&& final(self).system.current() == block.header.block_number
                &&& final(self).system.nonces() == run_nonces(
                    old(self).system.nonces(),
                    block.extrinsics@,
                )
                &&& final(self).stores() == run_stores(old(self).stores(), block.extrinsics@)
            },
    {
        let current = self.system.block_number();
        if current == BlockNumber::MAX || block.header.block_number != current + 1 {
            return Err(INVALID_BLOCK_NUMBER);
        }
        self.system.inc_block_number();
        let ghost exts = block.extrinsics@;
        let ghost nonces0 = self.system.nonces();
        let ghost stores0 = self.stores();
        let mut outcomes: Vec<DispatchResult> = Vec::new();
        for ext in iter: block.extrinsics.into_iter()
            invariant
                iter.seq() == exts,
                self.wf(),
                self.system.current() == block.header.block_number,
                nonces_fit(nonces0, exts),
                self.system.nonces() == run_nonces(nonces0, exts.take(iter.index() as int)),
                self.stores() == run_stores(stores0, exts.take(iter.index() as int)),
                outcomes@ == run_outcomes(stores0, exts.take(iter.index() as int)),
        {
            let ghost k = iter.index() as int;
            proof {
                lemma_nonce_bound(nonces0, exts.take(k), ext.caller@);
                assert(exts.take(k + 1).drop_last() == exts.take(k));
                assert(exts.take(k + 1).last() == ext);
            }
            let Extrinsic { caller, call } = ext;
            self.system.inc_nonce(&caller);
            let outcome = self.dispatch(caller, call);
            outcomes.push(outcome);
        }
        proof {
            assert(exts.take(exts.len() as int) == exts);
        }
        Ok(outcomes)
    }

    /// Executes `block`: the block is rejected whole when its number does not
    /// follow the current block number; otherwise every extrinsic is applied
    /// in order and a failing one does not make the block fail.
    pub fn execute_block(&mut self, block: Block) -> (r: DispatchResult)
        requires
            old(self).wf(),
            nonces_fit(old(self).system.nonces(), block.extrinsics@),
        ensures
            final(self).wf(),
            block.header.block_number != old(self).system.current() + 1 ==> {
                &&& r == Err::<(), &'static str>(INVALID_BLOCK_NUMBER)
                &&& *final(self) == *old(self)
            },
            block.header.block_number == old(self).system.current() + 1 ==> {
                &&& r == Ok::<(), &'static str>(())
                &&& final(self).system.current() == block.header.block_number
                &&& final(self).system.nonces() == run_nonces(
                    old(self).system.nonces(),
                    block.extrinsics@,
                )
                &&& final(self).stores() == run_stores(old(self).stores(), block.extrinsics@)
            },
    {
        match self.execute_block_reporting(block) {
            Ok(_) => Ok(()),
            Err(e) => Err(e),
        }
    }
}

/// The runtime's state: the block number, the nonces, and the state
/// modules' stores.
pub type RuntimeState = (BlockNumber, Map<Seq<char>, Nonce>, Stores);

impl View for Runtime {
    type V = RuntimeState;

    open spec fn view(&self) -> RuntimeState {
        (self.system.current(), self.system.nonces(), self.stores())
    }
}

impl Dispatch for Runtime {
    type Caller = AccountId;
    type Call = RuntimeCall;

    open spec fn inv(&self) -> bool {
        self.wf()
    }

    open spec fn outcome(
        state: RuntimeState,
        caller: AccountId,
        call: RuntimeCall,
    ) -> DispatchResult {
        call_outcome(state.2, caller, call)
    }

    /// Only the stores change, and of them only the owning module's.
    open spec fn next(state: RuntimeState, caller: AccountId, call: RuntimeCall) -> RuntimeState {
        (state.0, state.1, call_stores(state.2, caller, call))
    }

    /// Forwards `call` to the module that owns it, on behalf of `caller`.
    fn dispatch(&mut self, caller: AccountId, call: RuntimeCall) -> (r: DispatchResult) {
        match call {
            RuntimeCall::Balances(call) => self.balances.dispatch(caller, call),
            RuntimeCall::ProofOfExistence(call) => self.proof_of_existence.dispatch(caller, call),
        }
    }
}

} // verus!
