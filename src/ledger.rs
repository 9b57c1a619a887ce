//! The ledger: who may do what to whose balance.
//!
//! Every operation takes the calling identity (and, for a top-up, the value
//! attached to the call) as plain arguments, and returns either the event it
//! emits or a hard error. A hard error leaves the ledger untouched; a soft
//! condition (a duplicate registration, an amount that cannot be used) is
//! reported as an event with no state change.
use vstd::prelude::*;

use crate::address::Address;
use crate::laws::balances_in_range;
use crate::uint::{modulus, U256};

verus! {

/// Why a call was rejected. A rejected call changes nothing.
#[derive(Clone, Copy, Debug, PartialEq, Eq, Structural)]
pub enum LedgerError {
    /// The caller is not the owner, or not a registered user.
    Unauthorized,
    /// The caller is not a registered meter.
    MeterNotRegistered,
    /// The transfer of the held funds to the owner did not go through.
    WithdrawFailed,
    /// `init` was called on a ledger that already has an owner.
    AlreadyInitialized,
    /// A top-up would take the balance past 2^256 - 1.
    Overflow,
}

/// Credit added to a user's balance.
#[derive(Clone, Copy, Debug, PartialEq, Eq)]
pub struct TopUp {
    pub user: Address,
    pub amount: U256,
}

/// Consumption debited from a user's balance by a meter.
#[derive(Clone, Copy, Debug, PartialEq, Eq)]
pub struct ElectricityUsed {
    pub user: Address,
    pub amount: U256,
}

/// What a successful call reports to the event log.
#[derive(Clone, Copy, Debug, PartialEq, Eq)]
pub enum Event {
    /// A new user was registered.
    UserRegistered(Address),
    /// A new meter was registered.
    MeterRegistered(Address),
    /// The user or meter was registered already; nothing changed.
    AlreadyRegistered(Address),
    /// The caller's balance was credited.
    TopUp(TopUp),
    /// The amount was zero, or more than the balance; nothing changed.
    InvalidAmount(U256),
    /// The user's balance was debited.
    ElectricityUsed(ElectricityUsed),
}

/// The abstract state of a ledger.
pub struct LedgerView {
    /// `None` until the ledger is initialised.
    pub owner: Option<Address>,
    /// The balance of each registered user; the keys are the registered users.
    pub balances: Map<Address, int>,
    /// The registered meters.
    pub meters: Set<Address>,
}

/// A user's balance; an address that is not registered holds nothing.
pub open spec fn balance_in(v: LedgerView, a: Address) -> int {
    if v.balances.contains_key(a) {
        v.balances[a]
    } else {
        0
    }
}

pub open spec fn with_balances(v: LedgerView, balances: Map<Address, int>) -> LedgerView {
    LedgerView { owner: v.owner, balances, meters: v.meters }
}

pub open spec fn init_spec(v: LedgerView, caller: Address) -> (LedgerView, Result<(), LedgerError>) {
    if v.owner is Some {
        (v, Err(LedgerError::AlreadyInitialized))
    } else {
        (LedgerView { owner: Some(caller), balances: v.balances, meters: v.meters }, Ok(()))
    }
}

pub open spec fn register_user_spec(v: LedgerView, caller: Address, user: Address) -> (
    LedgerView,
    Result<Event, LedgerError>,
) {
    if v.owner != Some(caller) {
        (v, Err(LedgerError::Unauthorized))
    } else if v.balances.contains_key(user) {
        (v, Ok(Event::AlreadyRegistered(user)))
    } else {
        (with_balances(v, v.balances.insert(user, 0)), Ok(Event::UserRegistered(user)))
    }
}

pub open spec fn register_meter_spec(v: LedgerView, caller: Address, meter: Address) -> (
    LedgerView,
    Result<Event, LedgerError>,
) {
    if v.owner != Some(caller) {
        (v, Err(LedgerError::Unauthorized))
    } else if v.meters.contains(meter) {
        (v, Ok(Event::AlreadyRegistered(meter)))
    } else {
        (
            LedgerView { owner: v.owner, balances: v.balances, meters: v.meters.insert(meter) },
            Ok(Event::MeterRegistered(meter)),
        )
    }
}

pub open spec fn top_up_spec(v: LedgerView, caller: Address, value: U256) -> (
    LedgerView,
    Result<Event, LedgerError>,
) {
    if !v.balances.contains_key(caller) {
        (v, Err(LedgerError::Unauthorized))
    } else if value.value() == 0 {
        (v, Ok(Event::InvalidAmount(value)))
    } else if v.balances[caller] + value.value() >= modulus() {
        (v, Err(LedgerError::Overflow))
    } else {
        (
            with_balances(v, v.balances.insert(caller, v.balances[caller] + value.value())),
            Ok(Event::TopUp(TopUp { user: caller, amount: value })),
        )
    }
}

pub open spec fn use_electricity_spec(
    v: LedgerView,
    caller: Address,
    user: Address,
    amount: U256,
) -> (LedgerView, Result<Event, LedgerError>) {
    if !v.meters.contains(caller) {
        (v, Err(LedgerError::MeterNotRegistered))
    } else if balance_in(v, user) < amount.value() {
        (v, Ok(Event::InvalidAmount(amount)))
    } else {
        (
            if v.balances.contains_key(user) {
                with_balances(v, v.balances.insert(user, v.balances[user] - amount.value()))
            } else {
                v
            },
            Ok(Event::ElectricityUsed(ElectricityUsed { user, amount })),
        )
    }
}

/// Who the held funds go to, if the caller may withdraw them.
pub open spec fn withdraw_spec(v: LedgerView, caller: Address) -> Result<Address, LedgerError> {
    if v.owner == Some(caller) {
        Ok(caller)
    } else {
        Err(LedgerError::Unauthorized)
    }
}

/// A user's entry in storage.
struct UserEntry {
    address: Address,
    balance: U256,
}

/// The ledger's state: the owner, the registered users with their balances,
/// and the registered meters.
pub struct Ledger {
    owner: Option<Address>,
    users: Vec<UserEntry>,
    meters: Vec<Address>,
    balances: Ghost<Map<Address, int>>,
    meter_set: Ghost<Set<Address>>,
}

impl View for Ledger {
    type V = LedgerView;

    closed spec fn view(&self) -> LedgerView {
        LedgerView { owner: self.owner, balances: self.balances@, meters: self.meter_set@ }
    }
}

impl Ledger {
    /// Each stored user is keyed once, and the entries and meters agree with
    /// the abstract state.
    pub closed spec fn wf(&self) -> bool {
        &&& forall|i: int|
            0 <= i < self.users@.len() ==> {
                &&& #[trigger] self.balances@.contains_key(self.users@[i].address)
                &&& self.balances@[self.users@[i].address] == self.users@[i].balance.value()
            }
        &&& forall|a: Address| #[trigger]
            self.balances@.contains_key(a) ==> exists|i: int|
                0 <= i < self.users@.len() && #[trigger] self.users@[i].address == a
        &&& forall|i: int, j: int|
            0 <= i < j < self.users@.len() ==> #[trigger] self.users@[i].address
                != #[trigger] self.users@[j].address
        &&& forall|i: int|
            0 <= i < self.meters@.len() ==> #[trigger] self.meter_set@.contains(self.meters@[i])
        &&& forall|a: Address| #[trigger]
            self.meter_set@.contains(a) ==> exists|i: int|
                0 <= i < self.meters@.len() && #[trigger] self.meters@[i] == a
    }

    /// The balances of a well-formed ledger are never below zero and always
    /// fit in 256 bits.
    pub proof fn lemma_balances_in_range(&self)
        requires
            self.wf(),
        ensures
            balances_in_range(self@),
    {
        assert forall|a: Address| #[trigger] self@.balances.contains_key(a) implies 0
            <= self@.balances[a] < modulus() by {
            let i = choose|i: int| 0 <= i < self.users@.len() && #[trigger] self.users@[i].address == a;
            self.users@[i].balance.lemma_value_bounded();
        }
    }

    /// An empty ledger with no owner.
    pub fn new() -> (r: Ledger)
        ensures
            r.wf(),
            r@.owner is None,
            r@.balances == Map::<Address, int>::empty(),
            r@.meters == Set::<Address>::empty(),
    {
        Ledger {
            owner: None,
            users: Vec::new(),
            meters: Vec::new(),
            balances: Ghost(Map::empty()),
            meter_set: Ghost(Set::empty()),
        }
    }

    /// Where `a`'s entry is stored, if `a` is a registered user.
    fn find_user(&self, a: &Address) -> (r: Option<usize>)
        requires
            self.wf(),
        ensures
            r matches Some(i) ==> i < self.users@.len() && self.users@[i as int].address == *a,
            r is None <==> !self@.balances.contains_key(*a),
    {
        let mut i: usize = 0;
        while i < self.users.len()
            invariant
                self.wf(),
                0 <= i <= self.users@.len(),
                forall|k: int| 0 <= k < i ==> self.users@[k].address != *a,
            decreases self.users@.len() - i,
        {
            if self.users[i].address.same(a) {
                return Some(i);
            }
            i = i + 1;
        }
        None
    }

    /// Whether `a` is a registered meter.
    pub fn is_registered_meter(&self, a: &Address) -> (r: bool)
        requires
            self.wf(),
        ensures
            r == self@.meters.contains(*a),
    {
        let mut i: usize = 0;
        while i < self.meters.len()
            invariant
                self.wf(),
                0 <= i <= self.meters@.len(),
                forall|k: int| 0 <= k < i ==> self.meters@[k] != *a,
            decreases self.meters@.len() - i,
        {
            if self.meters[i].same(a) {
                return true;
            }
            i = i + 1;
        }
        false
    }

    /// Whether `a` is a registered user.
    pub fn is_registered_user(&self, a: &Address) -> (r: bool)
        requires
            self.wf(),
        ensures
            r == self@.balances.contains_key(*a),
    {
        self.find_user(a).is_some()
    }

    /// The balance of `a`: zero where `a` is not registered.
    pub fn balance_of(&self, a: &Address) -> (r: U256)
        requires
            self.wf(),
        ensures
            r.value() == balance_in(self@, *a),
    {
        match self.find_user(a) {
            Some(i) => self.users[i].balance,
            None => U256::zero(),
        }
    }

    /// The owner, once the ledger is initialised.
    pub fn owner(&self) -> (r: Option<Address>)
        ensures
            r == self@.owner,
    {
        self.owner
    }

    /// The owner gate.
    fn only_owner(&self, caller: &Address) -> (r: Result<(), LedgerError>)
        ensures
            r is Ok <==> self@.owner == Some(*caller),
            r is Err ==> r == Err::<(), LedgerError>(LedgerError::Unauthorized),
    {
        match &self.owner {
            Some(o) => if o.same(caller) {
                Ok(())
            } else {
                Err(LedgerError::Unauthorized)
            },
            None => Err(LedgerError::Unauthorized),
        }
    }

    /// The registered-user gate: where the caller's entry is stored.
    fn only_registered_user(&self, caller: &Address) -> (r: Result<usize, LedgerError>)
        requires
            self.wf(),
        ensures
            r is Ok <==> self@.balances.contains_key(*caller),
            r matches Ok(i) ==> i < self.users@.len() && self.users@[i as int].address == *caller,
            r is Err ==> r == Err::<usize, LedgerError>(LedgerError::Unauthorized),
    {
        match self.find_user(caller) {
            Some(i) => Ok(i),
            None => Err(LedgerError::Unauthorized),
        }
    }

    /// The registered-meter gate.
    fn only_registered_meter(&self, caller: &Address) -> (r: Result<(), LedgerError>)
        requires
            self.wf(),
        ensures
            r is Ok <==> self@.meters.contains(*caller),
            r is Err ==> r == Err::<(), LedgerError>(LedgerError::MeterNotRegistered),
    {
        if self.is_registered_meter(caller) {
            Ok(())
        } else {
            Err(LedgerError::MeterNotRegistered)
        }
    }

    /// Makes `caller` the owner; only the first call succeeds.
    pub fn init(&mut self, caller: Address) -> (r: Result<(), LedgerError>)
        requires
            old(self).wf(),
        ensures
            final(self).wf(),
            (final(self)@, r) == init_spec(old(self)@, caller),
    {
        if self.owner.is_some() {
            return Err(LedgerError::AlreadyInitialized);
        }
        self.owner = Some(caller);
        assert(self.users@ == old(self).users@ && self.meters@ == old(self).meters@);
        assert(self.balances@ == old(self).balances@ && self.meter_set@ == old(self).meter_set@);
        Ok(())
    }

    /// The owner registers `user` with a zero balance.
    pub fn register_user(&mut self, caller: Address, user: Address) -> (r: Result<
        Event,
        LedgerError,
    >)
        requires
            old(self).wf(),
        ensures
            final(self).wf(),
            (final(self)@, r) == register_user_spec(old(self)@, caller, user),
    {
        self.only_owner(&caller)?;
        if self.find_user(&user).is_some() {
            return Ok(Event::AlreadyRegistered(user));
        }
        let ghost old_users = self.users@;
        self.users.push(UserEntry { address: user, balance: U256::zero() });
        self.balances = Ghost(self.balances@.insert(user, 0));
        proof {
            assert(self.meters@ == old(self).meters@ && self.meter_set@ == old(self).meter_set@);
            assert(self.users@[old_users.len() as int].address == user);
            assert forall|j: int| 0 <= j < old_users.len() implies old_users[j].address != user by {
                assert(old(self).balances@.contains_key(old_users[j].address));
            }
            assert forall|j: int| 0 <= j < self.users@.len() implies {
                &&& #[trigger] self.balances@.contains_key(self.users@[j].address)
                &&& self.balances@[self.users@[j].address] == self.users@[j].balance.value()
            } by {
                if j < old_users.len() {
                    assert(self.users@[j] == old_users[j]);
                }
            }
            assert forall|j: int, k: int|
                0 <= j < k < self.users@.len() implies #[trigger] self.users@[j].address
                != #[trigger] self.users@[k].address by {
                assert(self.users@[j] == old_users[j]);
                if k < old_users.len() {
                    assert(self.users@[k] == old_users[k]);
                }
            }
            assert forall|a: Address| #[trigger]
                self.balances@.contains_key(a) implies exists|i: int|
                    0 <= i < self.users@.len() && #[trigger] self.users@[i].address == a by {
                if a != user {
                    let i = choose|i: int| 0 <= i < old_users.len() && #[trigger] old_users[i].address == a;
                    assert(self.users@[i].address == a);
                }
            }
        }
        Ok(Event::UserRegistered(user))
    }

    /// The owner registers `meter`.
    pub fn register_meter(&mut self, caller: Address, meter: Address) -> (r: Result<
        Event,
        LedgerError,
    >)
        requires
            old(self).wf(),
        ensures
            final(self).wf(),
            (final(self)@, r) == register_meter_spec(old(self)@, caller, meter),
    {
        self.only_owner(&caller)?;
        if self.is_registered_meter(&meter) {
            return Ok(Event::AlreadyRegistered(meter));
        }
        let ghost old_meters = self.meters@;
        self.meters.push(meter);
        self.meter_set = Ghost(self.meter_set@.insert(meter));
        proof {
            assert(self.users@ == old(self).users@ && self.balances@ == old(self).balances@);
            assert forall|j: int| 0 <= j < self.meters@.len() implies #[trigger] self.meter_set@.contains(
                self.meters@[j],
            ) by {
                if j < old_meters.len() {
                    assert(self.meters@[j] == old_meters[j]);
                }
            }
            assert(self.meters@[old_meters.len() as int] == meter);
            assert forall|a: Address| #[trigger]
                self.meter_set@.contains(a) implies exists|i: int|
                    0 <= i < self.meters@.len() && #[trigger] self.meters@[i] == a by {
                if a != meter {
                    let i = choose|i: int| 0 <= i < old_meters.len() && #[trigger] old_meters[i] == a;
                    assert(self.meters@[i] == a);
                }
            }
        }
        Ok(Event::MeterRegistered(meter))
    }

    /// Stores `balance` as the balance of the user at `i`.
    fn set_balance(&mut self, i: usize, balance: U256)
        requires
            old(self).wf(),
            i < old(self).users@.len(),
        ensures
            final(self).wf(),
            final(self)@ == with_balances(
                old(self)@,
                old(self)@.balances.insert(
                    old(self).users@[i as int].address,
                    balance.value() as int,
                ),
            ),
            final(self).users@.len() == old(self).users@.len(),
            final(self).users@[i as int].address == old(self).users@[i as int].address,
    {
        let address = self.users[i].address;
        let ghost old_users = self.users@;
        self.users.set(i, UserEntry { address, balance });
        self.balances = Ghost(self.balances@.insert(address, balance.value() as int));
        proof {
            assert(self.meters@ == old(self).meters@ && self.meter_set@ == old(self).meter_set@);
            assert forall|j: int| 0 <= j < self.users@.len() implies {
                &&& #[trigger] self.balances@.contains_key(self.users@[j].address)
                &&& self.balances@[self.users@[j].address] == self.users@[j].balance.value()
            } by {
                if j != i {
                    assert(self.users@[j] == old_users[j]);
                    assert(old_users[j].address != address);
                }
            }
            assert forall|a: Address| #[trigger]
                self.balances@.contains_key(a) implies exists|k: int|
                    0 <= k < self.users@.len() && #[trigger] self.users@[k].address == a by {
                let k = choose|k: int| 0 <= k < old_users.len() && #[trigger] old_users[k].address == a;
                assert(self.users@[k].address == old_users[k].address);
            }
            assert forall|j: int, k: int|
                0 <= j < k < self.users@.len() implies #[trigger] self.users@[j].address
                != #[trigger] self.users@[k].address by {
                assert(self.users@[j].address == old_users[j].address);
                assert(self.users@[k].address == old_users[k].address);
            }
        }
    }

    /// A registered user credits `value`, the value attached to the call, to
    /// their own balance.
    pub fn top_up(&mut self, caller: Address, value: U256) -> (r: Result<Event, LedgerError>)
        requires
            old(self).wf(),
        ensures
            final(self).wf(),
            (final(self)@, r) == top_up_spec(old(self)@, caller, value),
    {
        let i = self.only_registered_user(&caller)?;
        if value.is_zero() {
            return Ok(Event::InvalidAmount(value));
        }
        let current = self.users[i].balance;
        match current.checked_add(value) {
            Some(sum) => {
                self.set_balance(i, sum);
                Ok(Event::TopUp(TopUp { user: caller, amount: value }))
            },
            None => Err(LedgerError::Overflow),
        }
    }

    /// A registered meter debits `amount` from `user`'s balance, or reports
    /// `InvalidAmount` where the balance does not cover it.
    pub fn use_electricity(&mut self, caller: Address, user: Address, amount: U256) -> (r: Result<
        Event,
        LedgerError,
    >)
        requires
            old(self).wf(),
        ensures
            final(self).wf(),
            (final(self)@, r) == use_electricity_spec(old(self)@, caller, user, amount),
    {
        self.only_registered_meter(&caller)?;
        match self.find_user(&user) {
            Some(i) => {
                let current = self.users[i].balance;
                match current.checked_sub(amount) {
                    Some(rest) => {
                        self.set_balance(i, rest);
                        Ok(Event::ElectricityUsed(ElectricityUsed { user, amount }))
                    },
                    None => Ok(Event::InvalidAmount(amount)),
                }
            },
            None => if amount.is_zero() {
                Ok(Event::ElectricityUsed(ElectricityUsed { user, amount }))
            } else {
                Ok(Event::InvalidAmount(amount))
            },
        }
    }

    /// The owner gate of a withdrawal: where the owner may withdraw, the
    /// address that the held funds are to be sent to.
    pub fn withdraw(&self, caller: Address) -> (r: Result<Address, LedgerError>)
        ensures
            r == withdraw_spec(self@, caller),
    {
        self.only_owner(&caller)?;
        Ok(caller)
    }
}

/// The outcome of a withdrawal, once the transfer to the owner was attempted.
pub fn finish_withdraw(transferred: bool) -> (r: Result<(), LedgerError>)
    ensures
        r == if transferred {
            Ok::<(), LedgerError>(())
        } else {
            Err(LedgerError::WithdrawFailed)
        },
{
    if transferred {
        Ok(())
    } else {
        Err(LedgerError::WithdrawFailed)
    }
}

} // verus!
