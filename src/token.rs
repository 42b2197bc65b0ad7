//! The ledger: a fixed total supply spread over account balances, and the
//! allowances that let one account spend from another's balance.
//!
//! `approve` overwrites an allowance rather than adjusting it, so a spender may
//! use both the old and the new value if it acts between the two calls. This
//! is the known behaviour of this family of token ledgers and is kept as is.
use vstd::prelude::*;
use crate::account::AccountId;
use crate::table::Table;

verus! {

/// Why a command was refused. A refused command changes nothing.
#[derive(Clone, Copy, Debug, PartialEq, Eq, Structural)]
pub enum Error {
    /// The source account holds less than the amount to move.
    InsufficientBalance,
    /// The spender's remaining allowance is less than the amount to move.
    InsufficientAllowance,
}

/// Notification of a completed move of value; `from` is `None` only for the
/// initial issuance.
#[derive(Clone, Copy, Debug, PartialEq, Eq)]
pub struct Transfer {
    pub from: Option<AccountId>,
    pub to: Option<AccountId>,
    pub value: u32,
}

/// Notification that `owner` set the allowance of `spender` to `value`.
#[derive(Clone, Copy, Debug, PartialEq, Eq)]
pub struct Approval {
    pub owner: AccountId,
    pub spender: AccountId,
    pub value: u32,
}

/// A notification emitted by the ledger, in the order of the commands.
#[derive(Clone, Copy, Debug, PartialEq, Eq)]
pub enum Event {
    Transfer(Transfer),
    Approval(Approval),
}

/// The ledger state.
pub struct Token {
    total_supply: u32,
    balances: Table<AccountId>,
    allowances: Table<(AccountId, AccountId)>,
    events: Vec<Event>,
}

impl Token {
    /// The total supply, fixed at construction.
    pub closed spec fn supply(&self) -> u32 {
        self.total_supply
    }

    /// The balance of `a`; zero for an account that never held anything.
    pub closed spec fn balance(&self, a: AccountId) -> u32 {
        self.balances.get_spec(a)
    }

    /// What `spender` may still move out of `owner`'s balance.
    pub closed spec fn allowance_spec(&self, owner: AccountId, spender: AccountId) -> u32 {
        self.allowances.get_spec((owner, spender))
    }

    /// The sum of the balances of all accounts.
    pub closed spec fn balance_sum(&self) -> int {
        self.balances.sum()
    }

    /// The notifications emitted and not yet taken.
    pub closed spec fn emitted(&self) -> Seq<Event> {
        self.events@
    }

    /// Well-formed: the balances add up to the total supply.
    pub closed spec fn wf(&self) -> bool {
        &&& self.balances.wf()
        &&& self.allowances.wf()
        &&& self.balances.sum() == self.total_supply
    }

    /// The balance of `a` once `value` has moved from `from` to `to`.
    pub open spec fn moved(&self, from: AccountId, to: AccountId, value: u32, a: AccountId) -> int {
        if a == from && a == to {
            self.balance(a) as int
        } else if a == from {
            self.balance(a) - value
        } else if a == to {
            self.balance(a) + value
        } else {
            self.balance(a) as int
        }
    }

    /// `next` is `self` after a successful move of `value` from `from` to `to`.
    pub open spec fn transfer_post(&self, next: Token, from: AccountId, to: AccountId, value: u32) -> bool {
        &&& next.supply() == self.supply()
        &&& forall|a: AccountId| #[trigger] next.balance(a) == self.moved(from, to, value, a)
        &&& forall|o: AccountId, s: AccountId|
            #[trigger] next.allowance_spec(o, s) == self.allowance_spec(o, s)
        &&& next.emitted() == self.emitted().push(
            Event::Transfer(Transfer { from: Some(from), to: Some(to), value }),
        )
    }

    /// `next` is `self` after `caller` set the allowance of `spender` to `value`.
    pub open spec fn approve_post(&self, next: Token, caller: AccountId, spender: AccountId, value: u32) -> bool {
        &&& next.supply() == self.supply()
        &&& forall|a: AccountId| #[trigger] next.balance(a) == self.balance(a)
        &&& forall|o: AccountId, s: AccountId| #[trigger]
            next.allowance_spec(o, s) == (if o == caller && s == spender {
                value
            } else {
                self.allowance_spec(o, s)
            })
        &&& next.emitted() == self.emitted().push(
            Event::Approval(Approval { owner: caller, spender, value }),
        )
    }

    /// `self` is the state created with `initial_supply`, all of it held by `caller`.
    pub open spec fn constructed(&self, initial_supply: u32, caller: AccountId) -> bool {
        &&& self.wf()
        &&& self.supply() == initial_supply
        &&& forall|a: AccountId| #[trigger]
            self.balance(a) == (if a == caller { initial_supply } else { 0 })
        &&& forall|o: AccountId, s: AccountId| #[trigger] self.allowance_spec(o, s) == 0
        &&& self.emitted() == seq![
            Event::Transfer(Transfer { from: None, to: Some(caller), value: initial_supply }),
        ]
    }

    /// Creates the ledger with `initial_supply`, all of it held by `caller`.
    pub fn new(initial_supply: u32, caller: AccountId) -> (r: Token)
        ensures
            r.constructed(initial_supply, caller),
            r.balance_sum() == r.supply(),
    {
        let mut t = Token {
            total_supply: 0,
            balances: Table::new(),
            allowances: Table::new(),
            events: Vec::new(),
        };
        t.new_init(initial_supply, caller);
        t
    }

    /// Resets the ledger to the state that `new` creates.
    pub fn new_init(&mut self, initial_supply: u32, caller: AccountId)
        ensures
            final(self).constructed(initial_supply, caller),
            final(self).balance_sum() == final(self).supply(),
    {
        let mut balances = Table::new();
        balances.set(caller, initial_supply);
        self.total_supply = initial_supply;
        self.balances = balances;
        self.allowances = Table::new();
        let mut events: Vec<Event> = Vec::new();
        events.push(Event::Transfer(Transfer { from: None, to: Some(caller), value: initial_supply }));
        self.events = events;
        proof {
            assert(self.events@ =~= seq![
                Event::Transfer(Transfer { from: None, to: Some(caller), value: initial_supply }),
            ]);
        }
    }

    /// The total supply.
    pub fn total_supply(&self) -> (r: u32)
        ensures
            r == self.supply(),
    {
        self.total_supply
    }

    /// The balance of `owner`.
    pub fn balance_of(&self, owner: AccountId) -> (r: u32)
        requires
            self.wf(),
        ensures
            r == self.balance(owner),
    {
        self.balance_of_impl(&owner)
    }

    /// Moves `value` from `caller` to `to`.
    pub fn transfer(&mut self, caller: AccountId, to: AccountId, value: u32) -> (r: Result<(), Error>)
        requires
            old(self).wf(),
        ensures
            final(self).wf(),
            final(self).balance_sum() == final(self).supply(),
            old(self).balance(caller) < value ==> r == Err::<(), Error>(Error::InsufficientBalance)
                && *final(self) == *old(self),
            old(self).balance(caller) >= value ==> r == Ok::<(), Error>(())
                && old(self).transfer_post(*final(self), caller, to, value),
    {
        self.transfer_from_to(&caller, &to, value)
    }

    fn transfer_from_to(&mut self, from: &AccountId, to: &AccountId, value: u32) -> (r: Result<(), Error>)
        requires
            old(self).wf(),
        ensures
            final(self).wf(),
            old(self).balance(*from) < value ==> r == Err::<(), Error>(Error::InsufficientBalance)
                && *final(self) == *old(self),
            old(self).balance(*from) >= value ==> r == Ok::<(), Error>(())
                && old(self).transfer_post(*final(self), *from, *to, value),
    {
        let from_balance = self.balance_of_impl(from);
        if from_balance < value {
            return Err(Error::InsufficientBalance);
        }
        proof {
            if *from != *to {
                self.balances.lemma_two_le_sum(*from, *to);
            }
        }
        self.balances.set(*from, from_balance - value);
        let to_balance = self.balance_of_impl(to);
        self.balances.set(*to, to_balance + value);
        self.events.push(Event::Transfer(Transfer { from: Some(*from), to: Some(*to), value }));
        Ok(())
    }

    fn balance_of_impl(&self, owner: &AccountId) -> (r: u32)
        requires
            self.balances.wf(),
        ensures
            r == self.balance(*owner),
    {
        self.balances.get(owner)
    }

    /// Sets the allowance of `spender` over `caller`'s balance to `value`,
    /// discarding whatever remained of the previous one.
    pub fn approve(&mut self, caller: AccountId, spender: AccountId, value: u32) -> (r: Result<(), Error>)
        requires
            old(self).wf(),
        ensures
            final(self).wf(),
            final(self).balance_sum() == final(self).supply(),
            r == Ok::<(), Error>(()),
            old(self).approve_post(*final(self), caller, spender, value),
    {
        self.allowances.set((caller, spender), value);
        self.events.push(Event::Approval(Approval { owner: caller, spender, value }));
        Ok(())
    }

    /// What `spender` may still move out of `owner`'s balance.
    pub fn allowance(&self, owner: AccountId, spender: AccountId) -> (r: u32)
        requires
            self.wf(),
        ensures
            r == self.allowance_spec(owner, spender),
    {
        self.allowance_impl(&owner, &spender)
    }

    fn allowance_impl(&self, owner: &AccountId, spender: &AccountId) -> (r: u32)
        requires
            self.allowances.wf(),
        ensures
            r == self.allowance_spec(*owner, *spender),
    {
        self.allowances.get(&(*owner, *spender))
    }

    /// Moves `value` from `from` to `to` on behalf of `caller`, spending
    /// `caller`'s allowance over `from` only when the move happens.
    pub fn transfer_from(&mut self, caller: AccountId, from: AccountId, to: AccountId, value: u32) -> (r: Result<(), Error>)
        requires
            old(self).wf(),
        ensures
            final(self).wf(),
            final(self).balance_sum() == final(self).supply(),
            old(self).allowance_spec(from, caller) < value ==> r == Err::<(), Error>(
                Error::InsufficientAllowance,
            ) && *final(self) == *old(self),
            old(self).allowance_spec(from, caller) >= value && old(self).balance(from) < value ==> r
                == Err::<(), Error>(Error::InsufficientBalance) && *final(self) == *old(self),
            old(self).allowance_spec(from, caller) >= value && old(self).balance(from) >= value ==> {
                &&& r == Ok::<(), Error>(())
                &&& final(self).supply() == old(self).supply()
                &&& forall|a: AccountId| #[trigger]
                    final(self).balance(a) == old(self).moved(from, to, value, a)
                &&& forall|o: AccountId, s: AccountId| #[trigger]
                    final(self).allowance_spec(o, s) == (if o == from && s == caller {
                        (old(self).allowance_spec(o, s) - value) as u32
                    } else {
                        old(self).allowance_spec(o, s)
                    })
                &&& final(self).emitted() == old(self).emitted().push(
                    Event::Transfer(Transfer { from: Some(from), to: Some(to), value }),
                )
            },
    {
        let allowance = self.allowance_impl(&from, &caller);
        if allowance < value {
            return Err(Error::InsufficientAllowance);
        }
        match self.transfer_from_to(&from, &to, value) {
            Err(e) => {
                return Err(e);
            },
            Ok(()) => {},
        }
        let ghost mid = *self;
        self.allowances.set((from, caller), allowance - value);
        proof {
            assert forall|o: AccountId, s: AccountId| #[trigger]
                self.allowance_spec(o, s) == (if o == from && s == caller {
                    (old(self).allowance_spec(o, s) - value) as u32
                } else {
                    old(self).allowance_spec(o, s)
                }) by {
                assert(mid.allowance_spec(o, s) == old(self).allowance_spec(o, s));
                assert(self.allowances.get_spec((o, s)) == (if (o, s) == (from, caller) {
                    (allowance - value) as u32
                } else {
                    mid.allowances.get_spec((o, s))
                }));
            }
            assert forall|a: AccountId| #[trigger]
                self.balance(a) == old(self).moved(from, to, value, a) by {
                assert(mid.balance(a) == old(self).moved(from, to, value, a));
            }
        }
        Ok(())
    }

    /// Hands out the notifications emitted so far and clears them.
    pub fn take_events(&mut self) -> (r: Vec<Event>)
        ensures
            r@ == old(self).emitted(),
            final(self).emitted() == Seq::<Event>::empty(),
            final(self).wf() == old(self).wf(),
            final(self).supply() == old(self).supply(),
            forall|a: AccountId| #[trigger] final(self).balance(a) == old(self).balance(a),
            forall|o: AccountId, s: AccountId| #[trigger]
                final(self).allowance_spec(o, s) == old(self).allowance_spec(o, s),
    {
        let mut out: Vec<Event> = Vec::new();
        std::mem::swap(&mut out, &mut self.events);
        proof {
            assert(self.events@ =~= Seq::<Event>::empty());
        }
        out
    }
}

/// Conservation: in every well-formed ledger, and so after any sequence of
/// the commands above (each keeps the ledger well-formed and the supply fixed),
/// the balances of all accounts add up to the total supply.
pub proof fn lemma_conservation(t: Token)
    requires
        t.wf(),
    ensures
        t.balance_sum() == t.supply(),
{
}

/// Approving twice for the same owner and spender leaves the second value as
/// the allowance, not the sum of the two.
pub proof fn lemma_approve_overwrites(
    t0: Token,
    t1: Token,
    t2: Token,
    owner: AccountId,
    spender: AccountId,
    v1: u32,
    v2: u32,
)
    requires
        t0.approve_post(t1, owner, spender, v1),
        t1.approve_post(t2, owner, spender, v2),
    ensures
        t2.allowance_spec(owner, spender) == v2,
{
}

} // verus!
