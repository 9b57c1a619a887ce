use pay_as_you_go::address::Address;
use pay_as_you_go::ledger::{finish_withdraw, ElectricityUsed, Event, Ledger, LedgerError, TopUp};
use pay_as_you_go::uint::U256;

fn addr(b: u8) -> Address {
    Address::new([b; 20])
}

fn amt(n: u64) -> U256 {
    U256::from_u64(n)
}

const MAX: U256 = U256 { limbs: [u64::MAX; 4] };

/// A ledger owned by 1, with user 2 and meter 3 registered.
fn set_up() -> Ledger {
    let mut l = Ledger::new();
    assert_eq!(l.init(addr(1)), Ok(()));
    assert_eq!(l.register_user(addr(1), addr(2)), Ok(Event::UserRegistered(addr(2))));
    assert_eq!(l.register_meter(addr(1), addr(3)), Ok(Event::MeterRegistered(addr(3))));
    l
}

#[test]
fn scenario_top_up_then_use() {
    let mut l = set_up();
    let (u, m) = (addr(2), addr(3));
    assert_eq!(l.top_up(u, amt(100)), Ok(Event::TopUp(TopUp { user: u, amount: amt(100) })));
    assert_eq!(
        l.use_electricity(m, u, amt(40)),
        Ok(Event::ElectricityUsed(ElectricityUsed { user: u, amount: amt(40) }))
    );
    assert_eq!(l.balance_of(&u), amt(60));
    assert_eq!(l.use_electricity(m, u, amt(1000)), Ok(Event::InvalidAmount(amt(1000))));
    assert_eq!(l.balance_of(&u), amt(60));
}

#[test]
fn new_ledger_has_no_owner() {
    let l = Ledger::new();
    assert_eq!(l.owner(), None);
    assert!(!l.is_registered_user(&addr(2)));
    assert!(!l.is_registered_meter(&addr(3)));
    assert_eq!(l.balance_of(&addr(2)), amt(0));
}

#[test]
fn second_init_is_refused() {
    let mut l = Ledger::new();
    assert_eq!(l.init(addr(1)), Ok(()));
    assert_eq!(l.init(addr(9)), Err(LedgerError::AlreadyInitialized));
    assert_eq!(l.owner(), Some(addr(1)));
    assert_eq!(l.withdraw(addr(9)), Err(LedgerError::Unauthorized));
    assert_eq!(l.withdraw(addr(1)), Ok(addr(1)));
}

#[test]
fn uninitialised_ledger_has_no_owner_gate_to_pass() {
    let mut l = Ledger::new();
    assert_eq!(l.register_user(addr(0), addr(2)), Err(LedgerError::Unauthorized));
    assert_eq!(l.withdraw(addr(0)), Err(LedgerError::Unauthorized));
}

#[test]
fn non_owner_is_unauthorized() {
    let mut l = set_up();
    assert_eq!(l.register_user(addr(2), addr(4)), Err(LedgerError::Unauthorized));
    assert_eq!(l.register_meter(addr(3), addr(5)), Err(LedgerError::Unauthorized));
    assert_eq!(l.withdraw(addr(2)), Err(LedgerError::Unauthorized));
    assert!(!l.is_registered_user(&addr(4)));
    assert!(!l.is_registered_meter(&addr(5)));
}

#[test]
fn registering_twice_is_a_no_op() {
    let mut l = set_up();
    let u = addr(2);
    assert_eq!(l.top_up(u, amt(7)), Ok(Event::TopUp(TopUp { user: u, amount: amt(7) })));
    assert_eq!(l.register_user(addr(1), u), Ok(Event::AlreadyRegistered(u)));
    assert_eq!(l.balance_of(&u), amt(7));
    assert_eq!(l.register_meter(addr(1), addr(3)), Ok(Event::AlreadyRegistered(addr(3))));
    assert!(l.is_registered_meter(&addr(3)));
}

#[test]
fn zero_top_up_is_invalid_amount() {
    let mut l = set_up();
    assert_eq!(l.top_up(addr(2), amt(0)), Ok(Event::InvalidAmount(amt(0))));
    assert_eq!(l.balance_of(&addr(2)), amt(0));
}

#[test]
fn unregistered_top_up_is_unauthorized() {
    let mut l = set_up();
    assert_eq!(l.top_up(addr(4), amt(5)), Err(LedgerError::Unauthorized));
    assert_eq!(l.balance_of(&addr(4)), amt(0));
}

#[test]
fn top_up_past_the_maximum_overflows() {
    let mut l = set_up();
    let u = addr(2);
    assert_eq!(l.top_up(u, MAX), Ok(Event::TopUp(TopUp { user: u, amount: MAX })));
    assert_eq!(l.top_up(u, amt(1)), Err(LedgerError::Overflow));
    assert_eq!(l.balance_of(&u), MAX);
}

#[test]
fn top_ups_add_up_across_limbs() {
    let mut l = set_up();
    let u = addr(2);
    let big = U256 { limbs: [u64::MAX, 0, 0, 0] };
    assert!(l.top_up(u, big).is_ok());
    assert!(l.top_up(u, amt(1)).is_ok());
    assert_eq!(l.balance_of(&u), U256 { limbs: [0, 1, 0, 0] });
}

#[test]
fn unregistered_meter_is_refused() {
    let mut l = set_up();
    assert!(l.top_up(addr(2), amt(10)).is_ok());
    assert_eq!(l.use_electricity(addr(2), addr(2), amt(1)), Err(LedgerError::MeterNotRegistered));
    assert_eq!(l.balance_of(&addr(2)), amt(10));
}

#[test]
fn using_the_whole_balance_leaves_zero() {
    let mut l = set_up();
    let (u, m) = (addr(2), addr(3));
    assert!(l.top_up(u, amt(25)).is_ok());
    assert_eq!(
        l.use_electricity(m, u, amt(25)),
        Ok(Event::ElectricityUsed(ElectricityUsed { user: u, amount: amt(25) }))
    );
    assert_eq!(l.balance_of(&u), amt(0));
    assert_eq!(l.use_electricity(m, u, amt(1)), Ok(Event::InvalidAmount(amt(1))));
}

#[test]
fn debits_touch_only_their_user() {
    let mut l = set_up();
    assert!(l.register_user(addr(1), addr(4)).is_ok());
    assert!(l.top_up(addr(2), amt(50)).is_ok());
    assert!(l.top_up(addr(4), amt(80)).is_ok());
    assert!(l.use_electricity(addr(3), addr(4), amt(30)).is_ok());
    assert_eq!(l.balance_of(&addr(2)), amt(50));
    assert_eq!(l.balance_of(&addr(4)), amt(50));
}

#[test]
fn use_on_unregistered_user() {
    let mut l = set_up();
    assert_eq!(l.use_electricity(addr(3), addr(9), amt(1)), Ok(Event::InvalidAmount(amt(1))));
    assert_eq!(
        l.use_electricity(addr(3), addr(9), amt(0)),
        Ok(Event::ElectricityUsed(ElectricityUsed { user: addr(9), amount: amt(0) }))
    );
    assert!(!l.is_registered_user(&addr(9)));
}

#[test]
fn withdraw_outcome() {
    assert_eq!(finish_withdraw(true), Ok(()));
    assert_eq!(finish_withdraw(false), Err(LedgerError::WithdrawFailed));
}

#[test]
fn addresses_differing_in_one_byte() {
    let mut b = [7u8; 20];
    let a = Address::new(b);
    b[19] = 8;
    assert!(!a.same(&Address::new(b)));
    assert!(a.same(&Address::new([7u8; 20])));
}
