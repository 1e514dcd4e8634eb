//! A client's account and the five movements of money on it.
//!
//! Each movement adds or subtracts amounts with `rust_decimal`; its contract says
//! which decimal sums it stores (`Amount::plus`, `Amount::minus`) and, where those
//! sums need no rounding, what their values are.
use vstd::prelude::*;
use crate::amount::Amount;

verus! {

#[derive(Clone, Copy, Debug)]
pub struct Account {
    pub client_id: u16,
    pub available: Amount,
    pub held: Amount,
    pub locked: bool,
    pub total: Amount,
}

impl Account {
    /// A fresh, unlocked account with nothing in it.
    pub open spec fn initial(client_id: u16) -> Account {
        Account {
            client_id,
            available: Amount::spec_zero(),
            held: Amount::spec_zero(),
            locked: false,
            total: Amount::spec_zero(),
        }
    }

    /// The total is what is available plus what is held.
    pub open spec fn is_balanced(self) -> bool {
        self.total@ == self.available@ + self.held@
    }

    pub open spec fn can_deposit(self, amount: Amount) -> bool {
        &&& self.available.plus(amount) is Some
        &&& self.total.plus(amount) is Some
    }

    pub open spec fn deposit_is_exact(self, amount: Amount) -> bool {
        &&& self.available.sum_is_exact(amount)
        &&& self.total.sum_is_exact(amount)
    }

    pub open spec fn deposited(self, amount: Amount) -> Account {
        Account {
            available: self.available.plus(amount).unwrap(),
            total: self.total.plus(amount).unwrap(),
            ..self
        }
    }

    pub open spec fn can_withdraw(self, amount: Amount) -> bool {
        &&& self.available.minus(amount) is Some
        &&& self.total.minus(amount) is Some
    }

    pub open spec fn withdrawal_is_exact(self, amount: Amount) -> bool {
        &&& self.available.difference_is_exact(amount)
        &&& self.total.difference_is_exact(amount)
    }

    pub open spec fn withdrawn(self, amount: Amount) -> Account {
        Account {
            available: self.available.minus(amount).unwrap(),
            total: self.total.minus(amount).unwrap(),
            ..self
        }
    }

    pub open spec fn can_dispute(self, amount: Amount) -> bool {
        &&& self.available.minus(amount) is Some
        &&& self.held.plus(amount) is Some
    }

    pub open spec fn dispute_is_exact(self, amount: Amount) -> bool {
        &&& self.available.difference_is_exact(amount)
        &&& self.held.sum_is_exact(amount)
    }

    pub open spec fn disputed(self, amount: Amount) -> Account {
        Account {
            available: self.available.minus(amount).unwrap(),
            held: self.held.plus(amount).unwrap(),
            ..self
        }
    }

    pub open spec fn can_resolve(self, amount: Amount) -> bool {
        &&& self.available.plus(amount) is Some
        &&& self.held.minus(amount) is Some
    }

    pub open spec fn resolve_is_exact(self, amount: Amount) -> bool {
        &&& self.available.sum_is_exact(amount)
        &&& self.held.difference_is_exact(amount)
    }

    pub open spec fn resolved(self, amount: Amount) -> Account {
        Account {
            available: self.available.plus(amount).unwrap(),
            held: self.held.minus(amount).unwrap(),
            ..self
        }
    }

    pub open spec fn can_charge_back(self, amount: Amount) -> bool {
        &&& self.held.minus(amount) is Some
        &&& self.total.minus(amount) is Some
    }

    pub open spec fn chargeback_is_exact(self, amount: Amount) -> bool {
        &&& self.held.difference_is_exact(amount)
        &&& self.total.difference_is_exact(amount)
    }

    pub open spec fn charged_back(self, amount: Amount) -> Account {
        Account {
            held: self.held.minus(amount).unwrap(),
            total: self.total.minus(amount).unwrap(),
            locked: true,
            ..self
        }
    }

    /// Each movement changes only the funds it is about: none changes the
    /// client; a deposit or a withdrawal leaves the held funds, a dispute or a
    /// resolve leaves the total, and a chargeback leaves the available funds as
    /// they were. Only a chargeback touches the lock, and it always locks.
    pub proof fn lemma_movements_keep_other_fields(self, amount: Amount)
        ensures
            self.deposited(amount).client_id == self.client_id,
            self.deposited(amount).held == self.held,
            self.deposited(amount).locked == self.locked,
            self.withdrawn(amount).client_id == self.client_id,
            self.withdrawn(amount).held == self.held,
            self.withdrawn(amount).locked == self.locked,
            self.disputed(amount).client_id == self.client_id,
            self.disputed(amount).total == self.total,
            self.disputed(amount).locked == self.locked,
            self.resolved(amount).client_id == self.client_id,
            self.resolved(amount).total == self.total,
            self.resolved(amount).locked == self.locked,
            self.charged_back(amount).client_id == self.client_id,
            self.charged_back(amount).available == self.available,
            self.charged_back(amount).locked,
    {
    }

    /// A fresh account belongs to its client, is unlocked and holds nothing.
    pub proof fn lemma_initial_is_empty(client_id: u16)
        ensures
            Account::initial(client_id).client_id == client_id,
            !Account::initial(client_id).locked,
            Account::initial(client_id).available@ == 0,
            Account::initial(client_id).held@ == 0,
            Account::initial(client_id).total@ == 0,
    {
        Amount::lemma_zero_value();
    }

    /// Each movement that needs no rounding can be made, and moves the values of
    /// the funds by exactly its amount.
    pub proof fn lemma_exact_movements(self, amount: Amount)
        ensures
            self.deposit_is_exact(amount) ==> {
                &&& self.can_deposit(amount)
                &&& self.deposited(amount).available@ == self.available@ + amount@
                &&& self.deposited(amount).total@ == self.total@ + amount@
            },
            self.withdrawal_is_exact(amount) ==> {
                &&& self.can_withdraw(amount)
                &&& self.withdrawn(amount).available@ == self.available@ - amount@
                &&& self.withdrawn(amount).total@ == self.total@ - amount@
            },
            self.dispute_is_exact(amount) ==> {
                &&& self.can_dispute(amount)
                &&& self.disputed(amount).available@ == self.available@ - amount@
                &&& self.disputed(amount).held@ == self.held@ + amount@
            },
            self.resolve_is_exact(amount) ==> {
                &&& self.can_resolve(amount)
                &&& self.resolved(amount).available@ == self.available@ + amount@
                &&& self.resolved(amount).held@ == self.held@ - amount@
            },
            self.chargeback_is_exact(amount) ==> {
                &&& self.can_charge_back(amount)
                &&& self.charged_back(amount).held@ == self.held@ - amount@
                &&& self.charged_back(amount).total@ == self.total@ - amount@
            },
    {
        if self.available.sum_is_exact(amount) {
            self.available.lemma_plus_when_exact(amount);
        }
        if self.available.difference_is_exact(amount) {
            self.available.lemma_minus_when_exact(amount);
        }
        if self.held.sum_is_exact(amount) {
            self.held.lemma_plus_when_exact(amount);
        }
        if self.held.difference_is_exact(amount) {
            self.held.lemma_minus_when_exact(amount);
        }
        if self.total.sum_is_exact(amount) {
            self.total.lemma_plus_when_exact(amount);
        }
        if self.total.difference_is_exact(amount) {
            self.total.lemma_minus_when_exact(amount);
        }
    }

    pub fn new(client_id: u16) -> (r: Account)
        ensures
            r == Account::initial(client_id),
            r.available@ == 0 && r.held@ == 0 && r.total@ == 0,
            r.client_id == client_id,
            !r.locked,
    {
        Account {
            client_id,
            available: Amount::zero(),
            held: Amount::zero(),
            total: Amount::zero(),
            locked: false,
        }
    }

    /// Credits `amount` to the available funds and to the total.
    pub fn deposit(&mut self, amount: Amount)
        requires
            old(self).can_deposit(amount),
        ensures
            *final(self) == old(self).deposited(amount),
            final(self).client_id == old(self).client_id,
            final(self).held == old(self).held,
            final(self).locked == old(self).locked,
            old(self).deposit_is_exact(amount) ==> {
                &&& final(self).available@ == old(self).available@ + amount@
                &&& final(self).total@ == old(self).total@ + amount@
            },
    {
        proof {
            old(self).lemma_exact_movements(amount);
        }
        self.available = self.available.checked_add(amount).unwrap();
        self.total = self.total.checked_add(amount).unwrap();
    }

    /// Debits `amount` from the available funds and from the total.
    pub fn withdraw(&mut self, amount: Amount)
        requires
            old(self).can_withdraw(amount),
        ensures
            *final(self) == old(self).withdrawn(amount),
            final(self).client_id == old(self).client_id,
            final(self).held == old(self).held,
            final(self).locked == old(self).locked,
            old(self).withdrawal_is_exact(amount) ==> {
                &&& final(self).available@ == old(self).available@ - amount@
                &&& final(self).total@ == old(self).total@ - amount@
            },
    {
        self.available = self.available.checked_sub(amount).unwrap();
        self.total = self.total.checked_sub(amount).unwrap();
    }

    /// Moves `amount` from the available funds to the held funds.
    pub fn dispute(&mut self, amount: Amount)
        requires
            old(self).can_dispute(amount),
        ensures
            *final(self) == old(self).disputed(amount),
            final(self).client_id == old(self).client_id,
            final(self).total == old(self).total,
            final(self).locked == old(self).locked,
            old(self).dispute_is_exact(amount) ==> {
                &&& final(self).available@ == old(self).available@ - amount@
                &&& final(self).held@ == old(self).held@ + amount@
            },
    {
        self.available = self.available.checked_sub(amount).unwrap();
        self.held = self.held.checked_add(amount).unwrap();
    }

    /// Moves `amount` from the held funds back to the available funds.
    pub fn resolve(&mut self, amount: Amount)
        requires
            old(self).can_resolve(amount),
        ensures
            *final(self) == old(self).resolved(amount),
            final(self).client_id == old(self).client_id,
            final(self).total == old(self).total,
            final(self).locked == old(self).locked,
            old(self).resolve_is_exact(amount) ==> {
                &&& final(self).available@ == old(self).available@ + amount@
                &&& final(self).held@ == old(self).held@ - amount@
            },
    {
        self.available = self.available.checked_add(amount).unwrap();
        self.held = self.held.checked_sub(amount).unwrap();
    }

    /// Removes `amount` from the held funds and from the total, and locks the account.
    pub fn chargeback(&mut self, amount: Amount)
        requires
            old(self).can_charge_back(amount),
        ensures
            *final(self) == old(self).charged_back(amount),
            final(self).client_id == old(self).client_id,
            final(self).available == old(self).available,
            final(self).locked,
            old(self).chargeback_is_exact(amount) ==> {
                &&& final(self).held@ == old(self).held@ - amount@
                &&& final(self).total@ == old(self).total@ - amount@
            },
    {
        self.held = self.held.checked_sub(amount).unwrap();
        self.total = self.total.checked_sub(amount).unwrap();
        self.locked = true;
    }
}

} // verus!
