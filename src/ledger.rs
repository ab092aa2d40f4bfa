use crate::account::{
    lemma_operation_keeps_balance, lemma_operation_keeps_wf, operation_applied,
    operation_outcome, Account, AccountView,
};
use crate::amount::{Amount, AmountView};
use crate::errors::EngineError;
use crate::transaction::{Input, State, Transaction, Type};
use std::collections::HashMap;
use vstd::prelude::*;

verus! {

broadcast use vstd::std_specs::hash::group_hash_axioms;

/// What a `Ledger` holds: the account of each client and the record of each transaction.
pub struct LedgerView {
    pub accounts: Map<u16, AccountView>,
    pub transactions: Map<u32, Transaction>,
}

impl LedgerView {
    /// Each account sits under its own client id, holds well-formed decimals, and is
    /// balanced.
    pub open spec fn wf(self) -> bool {
        forall|c: u16| #[trigger]
            self.accounts.contains_key(c) ==> self.accounts[c].client == c
                && self.accounts[c].wf() && self.accounts[c].balanced()
    }

    /// The ledger with an account opened for `client`, if it had none.
    pub open spec fn touch(self, client: u16) -> LedgerView {
        if self.accounts.contains_key(client) {
            self
        } else {
            LedgerView {
                accounts: self.accounts.insert(client, AccountView::fresh(client)),
                transactions: self.transactions,
            }
        }
    }

    /// The checks that the ledger makes on a record before any account operation, and
    /// the amount that the operation then gets: the record's own for a deposit or a
    /// withdrawal, the stored transaction's for the three steps of a dispute.
    pub open spec fn amount_to_apply(self, input: Input) -> Result<AmountView, EngineError> {
        match input.transaction_type {
            Type::Deposit | Type::Withdrawal => {
                if self.transactions.contains_key(input.tx) {
                    Err(EngineError::TrxAlreadyProcessed)
                } else {
                    match input.amount {
                        Some(a) => Ok(a@),
                        None => Err(EngineError::TrxInvalidAmount),
                    }
                }
            },
            Type::Dispute => {
                if !self.transactions.contains_key(input.tx) {
                    Err(EngineError::TrxNotFound)
                } else {
                    let t = self.transactions[input.tx];
                    if input.client != t.client {
                        Err(EngineError::TrxClientIdInconsistency)
                    } else if t.transaction_type != Type::Deposit {
                        Err(EngineError::TrxNotDisputable)
                    } else if t.state != State::Undisputed {
                        Err(EngineError::TrxNotInDisputableState)
                    } else {
                        match t.amount {
                            Some(a) => Ok(a@),
                            None => Err(EngineError::TrxInvalidAmount),
                        }
                    }
                }
            },
            Type::Resolve => {
                if !self.transactions.contains_key(input.tx) {
                    Err(EngineError::TrxNotFound)
                } else {
                    let t = self.transactions[input.tx];
                    if t.state != State::Disputed {
                        Err(EngineError::TrxNotInDispute)
                    } else if input.client != t.client {
                        Err(EngineError::TrxClientIdInconsistency)
                    } else {
                        match t.amount {
                            Some(a) => Ok(a@),
                            None => Err(EngineError::TrxInvalidAmount),
                        }
                    }
                }
            },
            Type::Chargeback => {
                if !self.transactions.contains_key(input.tx) {
                    Err(EngineError::TrxNotFound)
                } else {
                    let t = self.transactions[input.tx];
                    if input.client != t.client {
                        Err(EngineError::TrxClientIdInconsistency)
                    } else {
                        match t.amount {
                            Some(a) => Ok(a@),
                            None => Err(EngineError::TrxInvalidAmount),
                        }
                    }
                }
            },
        }
    }

    /// The outcome of processing `input`: the ledger's checks, then the account's.
    pub open spec fn outcome(self, input: Input) -> Result<(), EngineError> {
        match self.amount_to_apply(input) {
            Err(e) => Err(e),
            Ok(a) => operation_outcome(
                input.transaction_type,
                self.touch(input.client).accounts[input.client],
                a,
            ),
        }
    }

    /// The stored transactions after `input` went through: a deposit or a withdrawal is
    /// stored anew, a dispute step moves the stored record to its next state.
    pub open spec fn recorded(self, input: Input) -> Map<u32, Transaction> {
        match input.transaction_type {
            Type::Deposit | Type::Withdrawal => self.transactions.insert(
                input.tx,
                Transaction::from_input(input),
            ),
            Type::Dispute => self.transactions.insert(
                input.tx,
                self.transactions[input.tx].with_state(State::Disputed),
            ),
            Type::Resolve => self.transactions.insert(
                input.tx,
                self.transactions[input.tx].with_state(State::Undisputed),
            ),
            Type::Chargeback => self.transactions.insert(
                input.tx,
                self.transactions[input.tx].with_state(State::Chargeback),
            ),
        }
    }

    /// `new` is this ledger after `input` went through: the client's account made the
    /// operation, no other account changed, and the transaction was recorded.
    pub open spec fn applied(self, new: LedgerView, input: Input) -> bool {
        let opened = self.touch(input.client);
        &&& new.accounts == opened.accounts.insert(input.client, new.accounts[input.client])
        &&& new.transactions == self.recorded(input)
        &&& match self.amount_to_apply(input) {
            Ok(a) => operation_applied(
                input.transaction_type,
                opened.accounts[input.client],
                new.accounts[input.client],
                a,
            ),
            Err(_) => false,
        }
    }
}

/// Processing a record keeps every account balanced, well-formed and under its own
/// client id.
pub proof fn lemma_processing_keeps_balance(old: LedgerView, new: LedgerView, input: Input)
    requires
        old.wf(),
        old.outcome(input) is Ok ==> old.applied(new, input),
        old.outcome(input) is Err ==> new == old.touch(input.client),
    ensures
        new.wf(),
{
    let opened = old.touch(input.client);
    assert(opened.wf());
    if old.outcome(input) is Ok {
        let a = old.amount_to_apply(input)->Ok_0;
        lemma_operation_keeps_balance(
            input.transaction_type,
            opened.accounts[input.client],
            new.accounts[input.client],
            a,
        );
        lemma_operation_keeps_wf(
            input.transaction_type,
            opened.accounts[input.client],
            new.accounts[input.client],
            a,
        );
        assert forall|c: u16| #[trigger] new.accounts.contains_key(c) implies new.accounts[c].client
            == c && new.accounts[c].wf() && new.accounts[c].balanced() by {
            if c != input.client {
                assert(opened.accounts.contains_key(c));
            }
        }
    }
}

/// A deposit or withdrawal whose transaction id is already stored is refused, and the
/// account it names, if it exists, is left as it was.
pub proof fn lemma_processed_id_refused(l: LedgerView, input: Input)
    requires
        input.transaction_type == Type::Deposit || input.transaction_type == Type::Withdrawal,
        l.transactions.contains_key(input.tx),
    ensures
        l.outcome(input) == Err::<(), EngineError>(EngineError::TrxAlreadyProcessed),
        forall|c: u16| #[trigger]
            l.accounts.contains_key(c) ==> l.touch(input.client).accounts[c] == l.accounts[c],
{
}

/// A record that went through keeps every stored transaction id and stores its own.
pub proof fn lemma_transaction_ids_kept(old: LedgerView, new: LedgerView, input: Input)
    requires
        old.outcome(input) is Ok,
        old.applied(new, input),
    ensures
        new.transactions.contains_key(input.tx),
        forall|tx: u32| #[trigger]
            old.transactions.contains_key(tx) ==> new.transactions.contains_key(tx),
{
}

/// Submitting the same deposit or withdrawal twice: the second is refused as already
/// processed and leaves the ledger as the first left it.
pub proof fn lemma_repeated_transaction_refused(old: LedgerView, new: LedgerView, input: Input)
    requires
        input.transaction_type == Type::Deposit || input.transaction_type == Type::Withdrawal,
        old.outcome(input) is Ok,
        old.applied(new, input),
    ensures
        new.outcome(input) == Err::<(), EngineError>(EngineError::TrxAlreadyProcessed),
        new.touch(input.client) == new,
{
    lemma_transaction_ids_kept(old, new, input);
    lemma_processed_id_refused(new, input);
}

/// Once an account is locked, every record for its client is refused and changes
/// nothing; one that passes the ledger's own checks with an amount of at least zero is
/// refused as locked.
pub proof fn lemma_locked_account_final(l: LedgerView, input: Input)
    requires
        l.accounts.contains_key(input.client),
        l.accounts[input.client].locked,
    ensures
        l.outcome(input) is Err,
        l.touch(input.client) == l,
        l.amount_to_apply(input) matches Ok(a) && a.mantissa >= 0 ==> l.outcome(input) == Err::<
            (),
            EngineError,
        >(EngineError::AccountLocked),
{
}

/// A record whose amount to apply is below zero is refused as such, whatever the ledger.
pub proof fn lemma_negative_record_refused(l: LedgerView, input: Input)
    requires
        l.amount_to_apply(input) matches Ok(a) && a.mantissa < 0,
    ensures
        l.outcome(input) == Err::<(), EngineError>(EngineError::NegativeAmount),
{
}

/// Makes the account operation that `op` names.
fn apply_operation(account: &mut Account, op: Type, amount: Amount) -> (r: Result<(), EngineError>)
    ensures
        r == operation_outcome(op, old(account)@, amount@),
        r is Ok ==> operation_applied(op, old(account)@, final(account)@, amount@),
        r is Err ==> final(account)@ == old(account)@,
        old(account)@.balanced() ==> final(account)@.balanced(),
{
    match op {
        Type::Deposit => account.deposit(amount),
        Type::Withdrawal => account.withdrawal(amount),
        Type::Dispute => account.dispute(amount),
        Type::Resolve => account.resolve(amount),
        Type::Chargeback => account.chargeback(amount),
    }
}

/// The accounts and the stored transactions of one run. Records are applied one at a
/// time through `process_trx`; a refused record changes nothing but may open an empty
/// account for its client.
pub struct Ledger {
    accounts: HashMap<u16, Account>,
    trx: HashMap<u32, Transaction>,
}

impl View for Ledger {
    type V = LedgerView;

    closed spec fn view(&self) -> LedgerView {
        LedgerView {
            accounts: self.accounts@.map_values(|a: Account| a@),
            transactions: self.trx@,
        }
    }
}

impl Ledger {
    pub fn new() -> (r: Ledger)
        ensures
            r@.accounts.is_empty(),
            r@.transactions.is_empty(),
            r@.wf(),
    {
        let r = Ledger { accounts: HashMap::new(), trx: HashMap::new() };
        assert(r@.accounts =~= Map::empty());
        r
    }

    /// The accounts, once the run is over.
    pub fn get_accounts(self) -> (r: HashMap<u16, Account>)
        ensures
            r@.map_values(|a: Account| a@) == self@.accounts,
    {
        self.accounts
    }

    /// A copy of the account of `client`, if it has one.
    pub fn get_account(&self, client: u16) -> (r: Option<Account>)
        ensures
            r is Some <==> self@.accounts.contains_key(client),
            r matches Some(a) ==> a@ == self@.accounts[client],
    {
        match self.accounts.get(&client) {
            Some(a) => Some(*a),
            None => None,
        }
    }

    /// A copy of the stored record of transaction `tx`, if there is one.
    pub fn get_transaction(&self, tx: u32) -> (r: Option<Transaction>)
        ensures
            r is Some <==> self@.transactions.contains_key(tx),
            r matches Some(t) ==> t == self@.transactions[tx],
    {
        match self.trx.get(&tx) {
            Some(t) => Some(*t),
            None => None,
        }
    }

    /// How many transactions are stored.
    pub fn transaction_count(&self) -> (r: usize)
        ensures
            r == self@.transactions.len(),
    {
        self.trx.len()
    }

    /// Stores `record` under `tx` as it is, bypassing every check of `process_trx`.
    /// This is test support (to set up a ledger in a given state) and a way to restore
    /// earlier history; records of a run go through `process_trx` alone. The accounts are
    /// left alone.
    pub fn seed_transaction(&mut self, tx: u32, record: Transaction)
        ensures
            final(self)@.accounts == old(self)@.accounts,
            final(self)@.transactions == old(self)@.transactions.insert(tx, record),
            old(self)@.wf() ==> final(self)@.wf(),
    {
        self.trx.insert(tx, record);
        assert(self@.accounts == old(self)@.accounts);
    }

    /// Opens an account for `client` if it has none, and hands back a copy of it.
    fn open_account(&mut self, client: u16) -> (r: Account)
        ensures
            final(self)@ == old(self)@.touch(client),
            r@ == final(self)@.accounts[client],
            old(self)@.wf() ==> final(self)@.wf(),
    {
        let found = match self.accounts.get(&client) {
            Some(a) => Some(*a),
            None => None,
        };
        match found {
            Some(a) => a,
            None => {
                let a = Account::new(client);
                self.accounts.insert(client, a);
                assert(self@.accounts =~= old(self)@.accounts.insert(client, a@));
                a
            },
        }
    }

    /// Applies one record, or refuses it with the first check it fails.
    pub fn process_trx(&mut self, input: &Input) -> (r: Result<(), EngineError>)
        ensures
            r == old(self)@.outcome(*input),
            r is Ok ==> old(self)@.applied(final(self)@, *input),
            r is Err ==> final(self)@ == old(self)@.touch(input.client),
            old(self)@.wf() ==> final(self)@.wf(),
    {
        let client = input.client;
        let mut account = self.open_account(client);
        let ghost opened = self@;
        let record = match input.transaction_type {
            Type::Deposit | Type::Withdrawal => {
                if self.trx.contains_key(&input.tx) {
                    return Err(EngineError::TrxAlreadyProcessed);
                }
                let amount = match input.amount {
                    Some(a) => a,
                    None => return Err(EngineError::TrxInvalidAmount),
                };
                if let Err(e) = apply_operation(&mut account, input.transaction_type, amount) {
                    return Err(e);
                }
                Transaction::new(input)
            },
            Type::Dispute => {
                let mut disputed = match self.trx.get(&input.tx) {
                    Some(t) => *t,
                    None => return Err(EngineError::TrxNotFound),
                };
                if client != disputed.client {
                    return Err(EngineError::TrxClientIdInconsistency);
                }
                match disputed.transaction_type {
                    Type::Deposit => {},
                    _ => return Err(EngineError::TrxNotDisputable),
                }
                match disputed.state {
                    State::Undisputed => {},
                    _ => return Err(EngineError::TrxNotInDisputableState),
                }
                let amount = match disputed.amount {
                    Some(a) => a,
                    None => return Err(EngineError::TrxInvalidAmount),
                };
                if let Err(e) = apply_operation(&mut account, Type::Dispute, amount) {
                    return Err(e);
                }
                disputed.open_dispute();
                disputed
            },
            Type::Resolve => {
                let mut resolved = match self.trx.get(&input.tx) {
                    Some(t) => *t,
                    None => return Err(EngineError::TrxNotFound),
                };
                match resolved.state {
                    State::Disputed => {},
                    _ => return Err(EngineError::TrxNotInDispute),
                }
                if client != resolved.client {
                    return Err(EngineError::TrxClientIdInconsistency);
                }
                let amount = match resolved.amount {
                    Some(a) => a,
                    None => return Err(EngineError::TrxInvalidAmount),
                };
                if let Err(e) = apply_operation(&mut account, Type::Resolve, amount) {
                    return Err(e);
                }
                resolved.resolve_dispute();
                resolved
            },
            Type::Chargeback => {
                let mut charged = match self.trx.get(&input.tx) {
                    Some(t) => *t,
                    None => return Err(EngineError::TrxNotFound),
                };
                if client != charged.client {
                    return Err(EngineError::TrxClientIdInconsistency);
                }
                let amount = match charged.amount {
                    Some(a) => a,
                    None => return Err(EngineError::TrxInvalidAmount),
                };
                if let Err(e) = apply_operation(&mut account, Type::Chargeback, amount) {
                    return Err(e);
                }
                charged.chargeback_dispute();
                charged
            },
        };
        self.accounts.insert(client, account);
        self.trx.insert(input.tx, record);
        assert(self@.accounts =~= opened.accounts.insert(client, account@));
        Ok(())
    }
}

} // verus!
