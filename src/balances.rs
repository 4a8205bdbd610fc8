use vstd::prelude::*;

use crate::store::Store;
use crate::support::{
    AccountId, Balance, Dispatch, DispatchResult, NOT_ENOUGH_FUNDS, OVERFLOW,
};

verus! {

/// The balance of `who` in `ledger`: zero where none is stored.
pub open spec fn balance_in(ledger: Map<Seq<char>, Balance>, who: Seq<char>) -> nat {
    if ledger.contains_key(who) {
        ledger[who] as nat
    } else {
        0
    }
}

/// What a transfer of `amount` from `from` to `to` returns on `ledger`.
pub open spec fn transfer_outcome(
    ledger: Map<Seq<char>, Balance>,
    from: Seq<char>,
    to: Seq<char>,
    amount: Balance,
) -> DispatchResult {
    if amount > balance_in(ledger, from) {
        Err(NOT_ENOUGH_FUNDS)
    } else if balance_in(ledger, to) + amount > Balance::MAX {
        Err(OVERFLOW)
    } else {
        Ok(())
    }
}

/// The ledger after a transfer of `amount` from `from` to `to`: unchanged
/// when the transfer fails or goes to the sender itself.
pub open spec fn transfer_ledger(
    ledger: Map<Seq<char>, Balance>,
    from: Seq<char>,
    to: Seq<char>,
    amount: Balance,
) -> Map<Seq<char>, Balance> {
    if transfer_outcome(ledger, from, to, amount) is Ok && from != to {
        ledger.insert(from, (balance_in(ledger, from) - amount) as Balance).insert(
            to,
            (balance_in(ledger, to) + amount) as Balance,
        )
    } else {
        ledger
    }
}

/// An account holds nothing in a fresh ledger, and a transfer leaves an
/// account that holds nothing still holding nothing unless the transfer
/// succeeds with that account as its receiver.
pub proof fn lemma_zero_until_credited(
    ledger: Map<Seq<char>, Balance>,
    from: Seq<char>,
    to: Seq<char>,
    amount: Balance,
    who: Seq<char>,
)
    ensures
        balance_in(Map::empty(), who) == 0,
        balance_in(ledger, who) == 0 && !(who == to && transfer_outcome(
            ledger,
            from,
            to,
            amount,
        ) is Ok) ==> balance_in(transfer_ledger(ledger, from, to, amount), who) == 0,
{
}

/// A successful transfer keeps the sum of the sender's and the receiver's
/// balances.
pub proof fn lemma_transfer_preserves_supply(
    ledger: Map<Seq<char>, Balance>,
    from: Seq<char>,
    to: Seq<char>,
    amount: Balance,
)
    requires
        transfer_outcome(ledger, from, to, amount) is Ok,
    ensures
        ({
            let after = transfer_ledger(ledger, from, to, amount);
            balance_in(after, from) + balance_in(after, to) == balance_in(ledger, from)
                + balance_in(ledger, to)
        }),
{
}

/// A transfer of more than the sender holds fails for want of funds and
/// changes nothing.
pub proof fn lemma_transfer_insufficient_funds(
    ledger: Map<Seq<char>, Balance>,
    from: Seq<char>,
    to: Seq<char>,
    amount: Balance,
)
    requires
        amount > balance_in(ledger, from),
    ensures
        transfer_outcome(ledger, from, to, amount) == Err::<(), &'static str>(NOT_ENOUGH_FUNDS),
        transfer_ledger(ledger, from, to, amount) == ledger,
{
}

/// A transfer that the sender can afford, but that would push the receiver
/// past the largest balance, fails with an overflow and changes nothing.
pub proof fn lemma_transfer_overflow(
    ledger: Map<Seq<char>, Balance>,
    from: Seq<char>,
    to: Seq<char>,
    amount: Balance,
)
    requires
        amount <= balance_in(ledger, from),
        balance_in(ledger, to) + amount > Balance::MAX,
    ensures
        transfer_outcome(ledger, from, to, amount) == Err::<(), &'static str>(OVERFLOW),
        transfer_ledger(ledger, from, to, amount) == ledger,
{
}

/// A call to the ledger, made on behalf of a caller that the dispatcher
/// supplies.
pub enum Call {
    Transfer { to: AccountId, amount: Balance },
}

/// The ledger: how much each account holds.
pub struct Pallet {
    balances: Store<Balance>,
}

impl View for Pallet {
    type V = Map<Seq<char>, Balance>;

    closed spec fn view(&self) -> Map<Seq<char>, Balance> {
        self.balances@
    }
}

impl Pallet {
    /// The balance store is well formed.
    pub closed spec fn wf(&self) -> bool {
        self.balances.wf()
    }

    /// An empty ledger.
    pub fn new() -> (s: Self)
        ensures
            s.wf(),
            s@ == Map::<Seq<char>, Balance>::empty(),
    {
        Pallet { balances: Store::new() }
    }

    /// Sets the balance of `who` to `amount`.
    pub fn set_balance(&mut self, who: &AccountId, amount: Balance)
        requires
            old(self).wf(),
        ensures
            final(self).wf(),
            final(self)@ == old(self)@.insert(who@, amount),
    {
        self.balances.insert(who.clone(), amount);
    }

    /// The balance of `who`: zero where none is stored.
    pub fn balance(&self, who: &AccountId) -> (r: Balance)
        requires
            self.wf(),
        ensures
            r as nat == balance_in(self@, who@),
    {
        match self.balances.get(who) {
            Some(b) => *b,
            None => 0,
        }
    }

    /// Moves `amount` from `caller` to `to`. Fails, changing nothing, when
    /// `caller` holds less than `amount` or when `to` would hold more than
    /// the largest balance. A transfer to oneself changes nothing.
    pub fn transfer(&mut self, caller: AccountId, to: AccountId, amount: Balance) -> (r:
        DispatchResult)
        requires
            old(self).wf(),
        ensures
            final(self).wf(),
            r == transfer_outcome(old(self)@, caller@, to@, amount),
            final(self)@ == transfer_ledger(old(self)@, caller@, to@, amount),
    {
        let caller_balance = self.balance(&caller);
        let to_balance = self.balance(&to);
        let new_caller_balance = match caller_balance.checked_sub(amount) {
            Some(b) => b,
            None => return Err(NOT_ENOUGH_FUNDS),
        };
        let new_to_balance = match to_balance.checked_add(amount) {
            Some(b) => b,
            None => return Err(OVERFLOW),
        };
        if caller != to {
            self.set_balance(&caller, new_caller_balance);
            self.set_balance(&to, new_to_balance);
        }
        Ok(())
    }
}

impl Dispatch for Pallet {
    type Caller = AccountId;
    type Call = Call;

    open spec fn inv(&self) -> bool {
        self.wf()
    }

    open spec fn outcome(
        state: Map<Seq<char>, Balance>,
        caller: AccountId,
        call: Call,
    ) -> DispatchResult {
        match call {
            Call::Transfer { to, amount } => transfer_outcome(state, caller@, to@, amount),
        }
    }

    open spec fn next(state: Map<Seq<char>, Balance>, caller: AccountId, call: Call) -> Map<
        Seq<char>,
        Balance,
    > {
        match call {
            Call::Transfer { to, amount } => transfer_ledger(state, caller@, to@, amount),
        }
    }

    fn dispatch(&mut self, caller: AccountId, call: Call) -> (r: DispatchResult) {
        match call {
            Call::Transfer { to, amount } => self.transfer(caller, to, amount),
        }
    }
}

} // verus!
