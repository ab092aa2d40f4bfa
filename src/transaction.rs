use crate::amount::Amount;
use vstd::prelude::*;

verus! {

/// The kind of a record: two that move money, three that belong to a dispute.
#[derive(Clone, Copy, Debug, PartialEq, Eq, Structural)]
pub enum Type {
    Deposit,
    Withdrawal,
    Dispute,
    Resolve,
    Chargeback,
}

/// Where a stored transaction stands in its dispute lifecycle.
#[derive(Clone, Copy, Debug, PartialEq, Eq, Structural)]
pub enum State {
    Undisputed,
    Disputed,
    Chargeback,
}

/// One incoming record.
#[derive(Clone, Copy, Debug, PartialEq, Eq)]
pub struct Input {
    pub transaction_type: Type,
    pub client: u16,
    pub tx: u32,
    pub amount: Option<Amount>,
}

/// A record that the ledger keeps, with its dispute state.
#[derive(Clone, Copy, Debug, PartialEq, Eq)]
pub struct Transaction {
    pub transaction_type: Type,
    pub client: u16,
    pub amount: Option<Amount>,
    pub state: State,
}

impl Transaction {
    /// The record as it is first stored.
    pub open spec fn from_input(input: Input) -> Transaction {
        Transaction {
            transaction_type: input.transaction_type,
            client: input.client,
            amount: input.amount,
            state: State::Undisputed,
        }
    }

    /// The same record in another state.
    pub open spec fn with_state(self, state: State) -> Transaction {
        Transaction { state, ..self }
    }

    pub fn new(input: &Input) -> (r: Transaction)
        ensures
            r == Transaction::from_input(*input),
    {
        Transaction {
            transaction_type: input.transaction_type,
            client: input.client,
            amount: input.amount,
            state: State::Undisputed,
        }
    }

    pub fn open_dispute(&mut self)
        ensures
            *final(self) == old(self).with_state(State::Disputed),
    {
        self.state = State::Disputed
    }

    pub fn resolve_dispute(&mut self)
        ensures
            *final(self) == old(self).with_state(State::Undisputed),
    {
        self.state = State::Undisputed
    }

    pub fn chargeback_dispute(&mut self)
        ensures
            *final(self) == old(self).with_state(State::Chargeback),
    {
        self.state = State::Chargeback
    }
}

} // verus!
