use crate::amount::{common_scale, difference_fits, sum_fits, Amount, AmountView};
use crate::errors::EngineError;
use crate::transaction::Type;
use vstd::prelude::*;

verus! {

/// What an `Account` holds.
pub struct AccountView {
    pub client: u16,
    pub available: AmountView,
    pub held: AmountView,
    pub total: AmountView,
    pub locked: bool,
}

impl AccountView {
    /// A client's account as it is first opened: all balances zero, not locked.
    pub open spec fn fresh(client: u16) -> AccountView {
        let zero = AmountView { mantissa: 0, scale: 1, negative: false };
        AccountView { client, available: zero, held: zero, total: zero, locked: false }
    }

    /// Each balance is a well-formed decimal.
    pub open spec fn wf(self) -> bool {
        &&& self.available.wf()
        &&& self.held.wf()
        &&& self.total.wf()
    }

    /// The total is what is available plus what is held.
    pub open spec fn balanced(self) -> bool {
        self.total.units() == self.available.units() + self.held.units()
    }
}

/// Whether the exact results of operation `op` with `amount` on account `a` can all be
/// held without rounding.
pub open spec fn results_fit(op: Type, a: AccountView, amount: AmountView) -> bool {
    match op {
        Type::Deposit => sum_fits(a.available, amount) && sum_fits(a.total, amount),
        Type::Withdrawal => difference_fits(a.available, amount) && difference_fits(a.total, amount),
        Type::Dispute => difference_fits(a.available, amount) && sum_fits(a.held, amount),
        Type::Resolve => sum_fits(a.available, amount) && difference_fits(a.held, amount),
        Type::Chargeback => difference_fits(a.total, amount) && difference_fits(a.held, amount),
    }
}

/// The outcome of operation `op` with `amount` on account `a`: the amount is checked
/// first (below zero is refused; a `-0` is not below zero), then the lock, then (for a
/// withdrawal) the available funds.
pub open spec fn operation_outcome(op: Type, a: AccountView, amount: AmountView) -> Result<
    (),
    EngineError,
> {
    if amount.mantissa < 0 {
        Err(EngineError::NegativeAmount)
    } else if a.locked {
        Err(EngineError::AccountLocked)
    } else if op == Type::Withdrawal && amount.units() > a.available.units() {
        Err(EngineError::InsufficientFunds)
    } else if !results_fit(op, a, amount) {
        Err(EngineError::AmountOverflow)
    } else {
        Ok(())
    }
}

/// `new` is `old` after operation `op` with `amount` went through:
/// a deposit adds to available and total, a withdrawal takes from both, a dispute moves
/// the amount from available to held, a resolve moves it back, and a chargeback takes it
/// from held and total and locks the account. A balance that the operation does not
/// name is left as it was; one that it names becomes a well-formed decimal written at
/// no larger a scale than the old balance and the amount have in common.
pub open spec fn operation_applied(
    op: Type,
    old: AccountView,
    new: AccountView,
    amount: AmountView,
) -> bool {
    &&& new.client == old.client
    &&& match op {
        Type::Deposit | Type::Withdrawal => {
            &&& changed(old.available, new.available, amount)
            &&& changed(old.total, new.total, amount)
        },
        Type::Dispute | Type::Resolve => {
            &&& changed(old.available, new.available, amount)
            &&& changed(old.held, new.held, amount)
        },
        Type::Chargeback => {
            &&& changed(old.total, new.total, amount)
            &&& changed(old.held, new.held, amount)
        },
    }
    &&& match op {
        Type::Deposit => {
            &&& new.available.units() == old.available.units() + amount.units()
            &&& new.held == old.held
            &&& new.total.units() == old.total.units() + amount.units()
            &&& new.locked == old.locked
        },
        Type::Withdrawal => {
            &&& new.available.units() == old.available.units() - amount.units()
            &&& new.held == old.held
            &&& new.total.units() == old.total.units() - amount.units()
            &&& new.locked == old.locked
        },
        Type::Dispute => {
            &&& new.available.units() == old.available.units() - amount.units()
            &&& new.held.units() == old.held.units() + amount.units()
            &&& new.total == old.total
            &&& new.locked == old.locked
        },
        Type::Resolve => {
            &&& new.available.units() == old.available.units() + amount.units()
            &&& new.held.units() == old.held.units() - amount.units()
            &&& new.total == old.total
            &&& new.locked == old.locked
        },
        Type::Chargeback => {
            &&& new.available == old.available
            &&& new.held.units() == old.held.units() - amount.units()
            &&& new.total.units() == old.total.units() - amount.units()
            &&& new.locked
        },
    }
}

/// A balance that an operation with `amount` rewrote from `old` to `new`.
pub open spec fn changed(old: AmountView, new: AmountView, amount: AmountView) -> bool {
    new.wf() && new.scale <= common_scale(old, amount)
}

/// Every operation keeps each balance a well-formed decimal.
pub proof fn lemma_operation_keeps_wf(
    op: Type,
    old: AccountView,
    new: AccountView,
    amount: AmountView,
)
    requires
        old.wf(),
        operation_applied(op, old, new, amount),
    ensures
        new.wf(),
{
}

/// Every operation keeps the total equal to available plus held.
pub proof fn lemma_operation_keeps_balance(
    op: Type,
    old: AccountView,
    new: AccountView,
    amount: AmountView,
)
    requires
        old.balanced(),
        operation_applied(op, old, new, amount),
    ensures
        new.balanced(),
{
}

/// An operation with an amount below zero is refused as such, whatever the account.
pub proof fn lemma_negative_amount_refused(op: Type, a: AccountView, amount: AmountView)
    requires
        amount.mantissa < 0,
    ensures
        operation_outcome(op, a, amount) == Err::<(), EngineError>(EngineError::NegativeAmount),
{
}

/// On a locked account every operation with an amount of at least zero is refused as
/// locked.
pub proof fn lemma_locked_account_refuses(op: Type, a: AccountView, amount: AmountView)
    requires
        a.locked,
        amount.mantissa >= 0,
    ensures
        operation_outcome(op, a, amount) == Err::<(), EngineError>(EngineError::AccountLocked),
{
}

/// A withdrawal of more than is available is refused for want of funds, once the amount
/// and the lock have passed.
pub proof fn lemma_withdrawal_beyond_available_refused(a: AccountView, amount: AmountView)
    requires
        amount.mantissa >= 0,
        !a.locked,
        amount.units() > a.available.units(),
    ensures
        operation_outcome(Type::Withdrawal, a, amount) == Err::<(), EngineError>(
            EngineError::InsufficientFunds,
        ),
{
}

/// A client's balances. They change only through the five operations below, each of
/// which either makes its whole change or none.
#[derive(Clone, Copy, Debug, PartialEq, Eq, Hash)]
pub struct Account {
    pub client: u16,
    available: Amount,
    held: Amount,
    total: Amount,
    locked: bool,
}

impl View for Account {
    type V = AccountView;

    closed spec fn view(&self) -> AccountView {
        AccountView {
            client: self.client,
            available: self.available@,
            held: self.held@,
            total: self.total@,
            locked: self.locked,
        }
    }
}

/// Refuses an amount below zero (a `-0` is not).
pub fn is_amount_negative(amount: &Amount) -> (r: Result<(), EngineError>)
    ensures
        r == if amount@.mantissa < 0 {
            Err(EngineError::NegativeAmount)
        } else {
            Ok(())
        },
{
    if amount.is_below_zero() {
        return Err(EngineError::NegativeAmount);
    }
    Ok(())
}

impl Account {
    pub fn new(id: u16) -> (r: Account)
        ensures
            r@ == AccountView::fresh(id),
            r@.wf(),
            r@.balanced(),
    {
        Account {
            client: id,
            available: Amount::zero(),
            held: Amount::zero(),
            total: Amount::zero(),
            locked: false,
        }
    }

    pub fn available(&self) -> (r: Amount)
        ensures
            r@ == self@.available,
    {
        self.available
    }

    pub fn held(&self) -> (r: Amount)
        ensures
            r@ == self@.held,
    {
        self.held
    }

    pub fn total(&self) -> (r: Amount)
        ensures
            r@ == self@.total,
    {
        self.total
    }

    pub fn locked(&self) -> (r: bool)
        ensures
            r == self@.locked,
    {
        self.locked
    }

    pub fn is_account_locked(&self) -> (r: Result<(), EngineError>)
        ensures
            r == if self@.locked {
                Err(EngineError::AccountLocked)
            } else {
                Ok(())
            },
    {
        if self.locked {
            return Err(EngineError::AccountLocked);
        }
        Ok(())
    }

    /// Adds `amount` to available and total.
    pub fn deposit(&mut self, amount: Amount) -> (r: Result<(), EngineError>)
        ensures
            r == operation_outcome(Type::Deposit, old(self)@, amount@),
            r is Ok ==> operation_applied(Type::Deposit, old(self)@, final(self)@, amount@),
            r is Err ==> final(self)@ == old(self)@,
            old(self)@.balanced() ==> final(self)@.balanced(),
            final(self)@.wf(),
    {
        proof {
            use_type_invariant(&self.available);
            use_type_invariant(&self.held);
            use_type_invariant(&self.total);
        }
        if let Err(e) = is_amount_negative(&amount) {
            return Err(e);
        }
        if let Err(e) = self.is_account_locked() {
            return Err(e);
        }
        let available = match self.available.add_exact(&amount) {
            Some(x) => x,
            None => return Err(EngineError::AmountOverflow),
        };
        let total = match self.total.add_exact(&amount) {
            Some(x) => x,
            None => return Err(EngineError::AmountOverflow),
        };
        self.available = available;
        self.total = total;
        Ok(())
    }

    /// Takes `amount` from available and total, if that much is available.
    pub fn withdrawal(&mut self, amount: Amount) -> (r: Result<(), EngineError>)
        ensures
            r == operation_outcome(Type::Withdrawal, old(self)@, amount@),
            r is Ok ==> operation_applied(Type::Withdrawal, old(self)@, final(self)@, amount@),
            r is Err ==> final(self)@ == old(self)@,
            old(self)@.balanced() ==> final(self)@.balanced(),
            final(self)@.wf(),
    {
        proof {
            use_type_invariant(&self.available);
            use_type_invariant(&self.held);
            use_type_invariant(&self.total);
        }
        if let Err(e) = is_amount_negative(&amount) {
            return Err(e);
        }
        if let Err(e) = self.is_account_locked() {
            return Err(e);
        }
        if amount.is_greater_than(&self.available) {
            return Err(EngineError::InsufficientFunds);
        }
        let available = match self.available.sub_exact(&amount) {
            Some(x) => x,
            None => return Err(EngineError::AmountOverflow),
        };
        let total = match self.total.sub_exact(&amount) {
            Some(x) => x,
            None => return Err(EngineError::AmountOverflow),
        };
        self.available = available;
        self.total = total;
        Ok(())
    }

    /// Moves `amount` from available to held. Available may go below zero.
    pub fn dispute(&mut self, amount: Amount) -> (r: Result<(), EngineError>)
        ensures
            r == operation_outcome(Type::Dispute, old(self)@, amount@),
            r is Ok ==> operation_applied(Type::Dispute, old(self)@, final(self)@, amount@),
            r is Err ==> final(self)@ == old(self)@,
            old(self)@.balanced() ==> final(self)@.balanced(),
            final(self)@.wf(),
    {
        proof {
            use_type_invariant(&self.available);
            use_type_invariant(&self.held);
            use_type_invariant(&self.total);
        }
        if let Err(e) = is_amount_negative(&amount) {
            return Err(e);
        }
        if let Err(e) = self.is_account_locked() {
            return Err(e);
        }
        let available = match self.available.sub_exact(&amount) {
            Some(x) => x,
            None => return Err(EngineError::AmountOverflow),
        };
        let held = match self.held.add_exact(&amount) {
            Some(x) => x,
            None => return Err(EngineError::AmountOverflow),
        };
        self.available = available;
        self.held = held;
        Ok(())
    }

    /// Moves `amount` from held back to available. Held may go below zero.
    pub fn resolve(&mut self, amount: Amount) -> (r: Result<(), EngineError>)
        ensures
            r == operation_outcome(Type::Resolve, old(self)@, amount@),
            r is Ok ==> operation_applied(Type::Resolve, old(self)@, final(self)@, amount@),
            r is Err ==> final(self)@ == old(self)@,
            old(self)@.balanced() ==> final(self)@.balanced(),
            final(self)@.wf(),
    {
        proof {
            use_type_invariant(&self.available);
            use_type_invariant(&self.held);
            use_type_invariant(&self.total);
        }
        if let Err(e) = is_amount_negative(&amount) {
            return Err(e);
        }
        if let Err(e) = self.is_account_locked() {
            return Err(e);
        }
        let available = match self.available.add_exact(&amount) {
            Some(x) => x,
            None => return Err(EngineError::AmountOverflow),
        };
        let held = match self.held.sub_exact(&amount) {
            Some(x) => x,
            None => return Err(EngineError::AmountOverflow),
        };
        self.available = available;
        self.held = held;
        Ok(())
    }

    /// Takes `amount` from held and total and locks the account for good. Held may go
    /// below zero.
    pub fn chargeback(&mut self, amount: Amount) -> (r: Result<(), EngineError>)
        ensures
            r == operation_outcome(Type::Chargeback, old(self)@, amount@),
            r is Ok ==> operation_applied(Type::Chargeback, old(self)@, final(self)@, amount@),
            r is Err ==> final(self)@ == old(self)@,
            old(self)@.balanced() ==> final(self)@.balanced(),
            final(self)@.wf(),
    {
        proof {
            use_type_invariant(&self.available);
            use_type_invariant(&self.held);
            use_type_invariant(&self.total);
        }
        if let Err(e) = is_amount_negative(&amount) {
            return Err(e);
        }
        if let Err(e) = self.is_account_locked() {
            return Err(e);
        }
        let total = match self.total.sub_exact(&amount) {
            Some(x) => x,
            None => return Err(EngineError::AmountOverflow),
        };
        let held = match self.held.sub_exact(&amount) {
            Some(x) => x,
            None => return Err(EngineError::AmountOverflow),
        };
        self.total = total;
        self.held = held;
        self.locked = true;
        Ok(())
    }
}

} // verus!
