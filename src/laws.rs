//! What holds of the ledger across operations and sequences of calls.
use vstd::prelude::*;

use crate::address::Address;
use crate::ledger::{
    balance_in, init_spec, register_meter_spec, register_user_spec, top_up_spec,
    use_electricity_spec, withdraw_spec, ElectricityUsed, Event, LedgerError, LedgerView, TopUp,
};
use crate::uint::{modulus, U256};

verus! {

/// One externally callable operation, with its caller first.
pub enum Call {
    Init(Address),
    RegisterUser(Address, Address),
    RegisterMeter(Address, Address),
    TopUp(Address, U256),
    UseElectricity(Address, Address, U256),
    Withdraw(Address),
}

/// The state after one call, whether it succeeded or was rejected.
pub open spec fn apply(v: LedgerView, c: Call) -> LedgerView {
    match c {
        Call::Init(a) => init_spec(v, a).0,
        Call::RegisterUser(a, u) => register_user_spec(v, a, u).0,
        Call::RegisterMeter(a, m) => register_meter_spec(v, a, m).0,
        Call::TopUp(a, x) => top_up_spec(v, a, x).0,
        Call::UseElectricity(a, u, x) => use_electricity_spec(v, a, u, x).0,
        Call::Withdraw(_) => v,
    }
}

/// The state after a sequence of calls, in order.
pub open spec fn run(v: LedgerView, cs: Seq<Call>) -> LedgerView
    decreases cs.len(),
{
    if cs.len() == 0 {
        v
    } else {
        run(apply(v, cs[0]), cs.subrange(1, cs.len() as int))
    }
}

/// Every balance is at least zero and fits in 256 bits.
pub open spec fn balances_in_range(v: LedgerView) -> bool {
    forall|a: Address| #[trigger]
        v.balances.contains_key(a) ==> 0 <= v.balances[a] < modulus()
}

/// Whether `caller` passes the owner gate.
pub open spec fn is_owner(v: LedgerView, caller: Address) -> bool {
    v.owner == Some(caller)
}

/// No call drives a balance below zero or past 2^256 - 1: a debit larger
/// than the balance is refused rather than applied.
pub proof fn lemma_balances_stay_in_range(v: LedgerView, cs: Seq<Call>)
    requires
        balances_in_range(v),
    ensures
        balances_in_range(run(v, cs)),
    decreases cs.len(),
{
    if cs.len() > 0 {
        let w = apply(v, cs[0]);
        assert(balances_in_range(w));
        lemma_balances_stay_in_range(w, cs.subrange(1, cs.len() as int));
    }
}

/// Once there is an owner, no sequence of calls changes it.
pub proof fn lemma_owner_never_changes(v: LedgerView, cs: Seq<Call>)
    requires
        v.owner is Some,
    ensures
        run(v, cs).owner == v.owner,
    decreases cs.len(),
{
    if cs.len() > 0 {
        lemma_owner_never_changes(apply(v, cs[0]), cs.subrange(1, cs.len() as int));
    }
}

/// On a fresh ledger, whoever calls `init` first is, after any further
/// calls, the one and only address that passes the owner gate.
pub proof fn lemma_first_initializer_owns(v: LedgerView, first: Address, cs: Seq<Call>)
    requires
        v.owner is None,
    ensures
        forall|c: Address| is_owner(run(v, seq![Call::Init(first)] + cs), c) <==> c == first,
{
    let s = seq![Call::Init(first)] + cs;
    assert(s[0] == Call::Init(first));
    assert(s.subrange(1, s.len() as int) =~= cs);
    let w = apply(v, Call::Init(first));
    assert(w.owner == Some(first));
    lemma_owner_never_changes(w, cs);
}

/// Registering a user twice leaves the state of registering once; the
/// second call reports `AlreadyRegistered` where the first succeeded.
pub proof fn lemma_register_user_idempotent(v: LedgerView, caller: Address, user: Address)
    ensures
        ({
            let (v1, r1) = register_user_spec(v, caller, user);
            let (v2, r2) = register_user_spec(v1, caller, user);
            &&& v2 == v1
            &&& r1 is Ok ==> r2 == Ok::<Event, LedgerError>(Event::AlreadyRegistered(user))
            &&& r1 is Err ==> r2 == r1
        }),
{
    let (v1, r1) = register_user_spec(v, caller, user);
    if r1 is Ok {
        assert(v1.balances.contains_key(user));
    }
}

/// Registering a meter twice leaves the state of registering once; the
/// second call reports `AlreadyRegistered` where the first succeeded.
pub proof fn lemma_register_meter_idempotent(v: LedgerView, caller: Address, meter: Address)
    ensures
        ({
            let (v1, r1) = register_meter_spec(v, caller, meter);
            let (v2, r2) = register_meter_spec(v1, caller, meter);
            &&& v2 == v1
            &&& r1 is Ok ==> r2 == Ok::<Event, LedgerError>(Event::AlreadyRegistered(meter))
            &&& r1 is Err ==> r2 == r1
        }),
{
    let (v1, r1) = register_meter_spec(v, caller, meter);
    if r1 is Ok {
        assert(v1.meters.contains(meter));
    }
}

/// A registered user's top-up of zero changes nothing and reports
/// `InvalidAmount`; a top-up of `x > 0` that fits raises the balance by
/// exactly `x` and touches no other balance.
pub proof fn lemma_top_up_amount(v: LedgerView, caller: Address, value: U256)
    requires
        v.balances.contains_key(caller),
    ensures
        ({
            let (v1, r) = top_up_spec(v, caller, value);
            &&& value.value() == 0 ==> v1 == v && r == Ok::<Event, LedgerError>(
                Event::InvalidAmount(value),
            )
            &&& value.value() > 0 && balance_in(v, caller) + value.value() < modulus() ==> {
                &&& balance_in(v1, caller) == balance_in(v, caller) + value.value()
                &&& r == Ok::<Event, LedgerError>(
                    Event::TopUp(TopUp { user: caller, amount: value }),
                )
                &&& forall|a: Address| a != caller ==> balance_in(v1, a) == balance_in(v, a)
            }
        }),
{
}

/// A registered meter's debit of more than the balance changes nothing and
/// reports `InvalidAmount`; any other debit lowers the balance by exactly the
/// amount, touches no other balance, and reports `ElectricityUsed`.
pub proof fn lemma_use_electricity_amount(
    v: LedgerView,
    meter: Address,
    user: Address,
    amount: U256,
)
    requires
        v.meters.contains(meter),
    ensures
        ({
            let (v1, r) = use_electricity_spec(v, meter, user, amount);
            &&& amount.value() > balance_in(v, user) ==> v1 == v && r == Ok::<Event, LedgerError>(
                Event::InvalidAmount(amount),
            )
            &&& amount.value() <= balance_in(v, user) ==> {
                &&& balance_in(v1, user) == balance_in(v, user) - amount.value()
                &&& r == Ok::<Event, LedgerError>(
                    Event::ElectricityUsed(ElectricityUsed { user, amount }),
                )
                &&& forall|a: Address| a != user ==> balance_in(v1, a) == balance_in(v, a)
            }
        }),
{
}

/// Anyone but the owner is refused by `register_user`, `register_meter` and
/// `withdraw` with `Unauthorized`, and the state stays as it was.
pub proof fn lemma_non_owner_rejected(v: LedgerView, caller: Address, target: Address)
    requires
        !is_owner(v, caller),
    ensures
        register_user_spec(v, caller, target) == (v, Err::<Event, LedgerError>(
            LedgerError::Unauthorized,
        )),
        register_meter_spec(v, caller, target) == (v, Err::<Event, LedgerError>(
            LedgerError::Unauthorized,
        )),
        withdraw_spec(v, caller) == Err::<Address, LedgerError>(LedgerError::Unauthorized),
        apply(v, Call::Withdraw(caller)) == v,
{
}

} // verus!
