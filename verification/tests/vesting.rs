use soroban_contract_library::address::{Address, Transfer};
use soroban_contract_library::vesting::{
    VestingContract, VestingError, VestingSchedule, VestingType,
};
use std::collections::HashMap;

fn addr(n: u64) -> Address {
    Address { w0: 0, w1: 0, w2: 0, w3: n }
}

/// Token balances per (token, holder), moved by the payments the contract asks for.
struct Ledger {
    balances: HashMap<(Address, Address), i128>,
}

impl Ledger {
    fn mint(&mut self, token: Address, to: Address, amount: i128) {
        *self.balances.entry((token, to)).or_insert(0) += amount;
    }

    fn balance(&self, token: Address, of: Address) -> i128 {
        *self.balances.get(&(token, of)).unwrap_or(&0)
    }

    fn pay(&mut self, t: &Transfer) {
        *self.balances.entry((t.token, t.from)).or_insert(0) -= t.amount;
        *self.balances.entry((t.token, t.to)).or_insert(0) += t.amount;
    }
}

/// The contract's storage, the ledger sequence and the token balances.
struct World {
    this: Address,
    counter: Option<u64>,
    schedules: HashMap<u64, VestingSchedule>,
    ledger: Ledger,
    sequence: u32,
}

fn ok<T>(r: Result<T, VestingError>) -> T {
    r.unwrap_or_else(|e| panic!("{}", e.message()))
}

impl World {
    fn create_schedule(
        &mut self,
        funder: Address,
        beneficiary: Address,
        token: Address,
        total_amount: i128,
        start_ledger: u32,
        cliff_ledger: u32,
        end_ledger: u32,
        vesting_type: VestingType,
        revocable: bool,
    ) -> u64 {
        let made = ok(VestingContract::create_schedule(
            self.counter,
            self.this,
            funder,
            beneficiary,
            token,
            total_amount,
            start_ledger,
            cliff_ledger,
            end_ledger,
            vesting_type,
            revocable,
        ));
        self.ledger.pay(&made.deposit);
        self.schedules.insert(made.id, made.schedule);
        self.counter = Some(made.next_counter);
        made.id
    }

    fn vested_amount(&self, id: u64) -> i128 {
        ok(VestingContract::vested_amount(&self.get_schedule(id), self.sequence))
    }

    fn claim(&mut self, beneficiary: Address, id: u64) -> i128 {
        let mut s = self.get_schedule(id);
        let paid = ok(VestingContract::claim(&mut s, self.this, beneficiary, self.sequence));
        self.ledger.pay(&paid);
        self.schedules.insert(id, s);
        paid.amount
    }

    fn revoke(&mut self, funder: Address, id: u64) {
        let mut s = self.get_schedule(id);
        let refund = ok(VestingContract::revoke(&mut s, self.this, funder, self.sequence));
        if let (_, Some(t)) = refund {
            self.ledger.pay(&t);
        }
        self.schedules.insert(id, s);
    }

    fn get_schedule(&self, id: u64) -> VestingSchedule {
        *self.schedules.get(&id).unwrap()
    }
}

fn setup() -> (World, Address, Address, Address) {
    let mut world = World {
        this: addr(100),
        counter: None,
        schedules: HashMap::new(),
        ledger: Ledger { balances: HashMap::new() },
        sequence: 0,
    };
    let funder = addr(1);
    let beneficiary = addr(2);
    let token = addr(50);
    world.ledger.mint(token, funder, 1000);
    (world, funder, beneficiary, token)
}

#[test]
fn test_linear_vesting() {
    let (mut w, funder, beneficiary, token) = setup();
    // start=0, cliff=0, end=100
    let sid = w.create_schedule(funder, beneficiary, token, 1000, 0, 0, 100, VestingType::Linear, false);

    w.sequence = 50;
    assert_eq!(w.vested_amount(sid), 500);

    w.claim(beneficiary, sid);
    assert_eq!(w.ledger.balance(token, beneficiary), 500);
}

#[test]
fn test_cliff_vesting() {
    let (mut w, funder, beneficiary, token) = setup();
    let sid = w.create_schedule(funder, beneficiary, token, 1000, 0, 50, 100, VestingType::Cliff, false);

    w.sequence = 49;
    assert_eq!(w.vested_amount(sid), 0);

    w.sequence = 50;
    assert_eq!(w.vested_amount(sid), 1000);
}

#[test]
fn test_revoke() {
    let (mut w, funder, beneficiary, token) = setup();
    let sid = w.create_schedule(funder, beneficiary, token, 1000, 0, 0, 100, VestingType::Linear, true);

    w.sequence = 50;
    w.claim(beneficiary, sid);

    w.revoke(funder, sid);
    assert_eq!(w.ledger.balance(token, funder), 500);
}

#[test]
#[should_panic(expected = "nothing to claim")]
fn test_claim_before_cliff_panics() {
    let (mut w, funder, beneficiary, token) = setup();
    let sid = w.create_schedule(funder, beneficiary, token, 1000, 0, 50, 100, VestingType::Linear, false);
    w.sequence = 10;
    w.claim(beneficiary, sid);
}

// ---- further cases ----

fn schedule(total: i128, start: u32, cliff: u32, end: u32, kind: VestingType, revocable: bool) -> VestingSchedule {
    VestingContract::create_schedule(
        Some(3), addr(100), addr(1), addr(2), addr(50), total, start, cliff, end, kind, revocable,
    )
    .unwrap()
    .schedule
}

#[test]
fn create_schedule_checks_ledgers() {
    let r = VestingContract::create_schedule(
        None, addr(100), addr(1), addr(2), addr(50), 1000, 10, 10, 10, VestingType::Linear, false,
    );
    assert_eq!(r.err(), Some(VestingError::InvalidRange));
    let r = VestingContract::create_schedule(
        None, addr(100), addr(1), addr(2), addr(50), 1000, 10, 5, 20, VestingType::Linear, false,
    );
    assert_eq!(r.err(), Some(VestingError::InvalidCliff));
    let r = VestingContract::create_schedule(
        None, addr(100), addr(1), addr(2), addr(50), 1000, 10, 21, 20, VestingType::Linear, false,
    );
    assert_eq!(r.err(), Some(VestingError::InvalidCliff));
    let r = VestingContract::create_schedule(
        Some(u64::MAX), addr(100), addr(1), addr(2), addr(50), 1000, 0, 0, 20, VestingType::Linear, false,
    );
    assert_eq!(r.err(), Some(VestingError::Overflow));
    let made = VestingContract::create_schedule(
        Some(3), addr(100), addr(1), addr(2), addr(50), 1000, 0, 0, 20, VestingType::Cliff, true,
    )
    .unwrap();
    assert_eq!(made.id, 3);
    assert_eq!(made.next_counter, 4);
    assert_eq!(made.deposit, Transfer { token: addr(50), from: addr(1), to: addr(100), amount: 1000 });
    assert_eq!(made.schedule.claimed, 0);
    assert!(!made.schedule.revoked);
}

#[test]
fn linear_share_rounds_toward_zero() {
    let s = schedule(1000, 0, 0, 3, VestingType::Linear, false);
    assert_eq!(VestingContract::vested_amount(&s, 1), Ok(333));
    assert_eq!(VestingContract::vested_amount(&s, 2), Ok(666));
    let negative = schedule(-1000, 0, 0, 3, VestingType::Linear, false);
    assert_eq!(VestingContract::vested_amount(&negative, 1), Ok(-333));
}

#[test]
fn vesting_at_and_past_end_is_total() {
    let s = schedule(1000, 10, 20, 110, VestingType::Linear, false);
    assert_eq!(VestingContract::vested_amount(&s, 19), Ok(0));
    assert_eq!(VestingContract::vested_amount(&s, 20), Ok(100));
    assert_eq!(VestingContract::vested_amount(&s, 60), Ok(500));
    assert_eq!(VestingContract::vested_amount(&s, 110), Ok(1000));
    assert_eq!(VestingContract::vested_amount(&s, u32::MAX), Ok(1000));
}

#[test]
fn vesting_never_decreases_over_ledgers() {
    let s = schedule(777, 5, 9, 200, VestingType::Linear, false);
    let mut last = 0;
    for now in 0..260u32 {
        let v = VestingContract::vested_amount(&s, now).unwrap();
        assert!(v >= last);
        assert!(0 <= v && v <= 777);
        last = v;
    }
}

#[test]
fn second_claim_at_same_ledger_has_nothing() {
    let mut s = schedule(1000, 0, 0, 100, VestingType::Linear, false);
    let paid = VestingContract::claim(&mut s, addr(100), addr(2), 30).unwrap();
    assert_eq!(paid, Transfer { token: addr(50), from: addr(100), to: addr(2), amount: 300 });
    assert_eq!(s.claimed, 300);
    assert_eq!(VestingContract::claim(&mut s, addr(100), addr(2), 30), Err(VestingError::NothingToClaim));
    let paid = VestingContract::claim(&mut s, addr(100), addr(2), 100).unwrap();
    assert_eq!(paid.amount, 700);
}

#[test]
fn claim_errors() {
    let mut s = schedule(1000, 0, 0, 100, VestingType::Linear, true);
    assert_eq!(VestingContract::claim(&mut s, addr(100), addr(9), 50), Err(VestingError::Unauthorized));
    VestingContract::revoke(&mut s, addr(100), addr(1), 50).unwrap();
    assert_eq!(VestingContract::claim(&mut s, addr(100), addr(2), 50), Err(VestingError::Revoked));
    let huge = schedule(i128::MAX, 0, 0, 100, VestingType::Linear, false);
    let mut h = huge;
    assert_eq!(VestingContract::claim(&mut h, addr(100), addr(2), 50), Err(VestingError::Overflow));
    assert_eq!(VestingContract::vested_amount(&huge, 50), Err(VestingError::Overflow));
}

#[test]
fn revoke_freezes_schedule() {
    let mut s = schedule(1000, 0, 0, 100, VestingType::Linear, true);
    VestingContract::claim(&mut s, addr(100), addr(2), 20).unwrap();
    let refund = VestingContract::revoke(&mut s, addr(100), addr(1), 40).unwrap();
    assert_eq!(refund, (600, Some(Transfer { token: addr(50), from: addr(100), to: addr(1), amount: 600 })));
    assert!(s.revoked);
    // what is vested afterwards is what was claimed
    assert_eq!(VestingContract::vested_amount(&s, 90), Ok(200));
    assert_eq!(VestingContract::revoke(&mut s, addr(100), addr(1), 90), Err(VestingError::AlreadyRevoked));
}

#[test]
fn revoke_errors_and_no_refund_after_full_vesting() {
    let mut fixed = schedule(1000, 0, 0, 100, VestingType::Linear, false);
    assert_eq!(VestingContract::revoke(&mut fixed, addr(100), addr(1), 10), Err(VestingError::NotRevocable));
    let mut s = schedule(1000, 0, 0, 100, VestingType::Linear, true);
    assert_eq!(VestingContract::revoke(&mut s, addr(100), addr(1), 100), Ok((0, None)));
    let mut before_cliff = schedule(1000, 0, 50, 100, VestingType::Cliff, true);
    let refund = VestingContract::revoke(&mut before_cliff, addr(100), addr(1), 10).unwrap();
    assert_eq!(refund.1.unwrap().amount, 1000);
}

#[test]
fn only_the_funder_can_revoke() {
    let mut s = schedule(1000, 0, 0, 100, VestingType::Linear, true);
    assert_eq!(s.funder, addr(1));
    let before = s;
    assert_eq!(VestingContract::revoke(&mut s, addr(100), addr(9), 40), Err(VestingError::Unauthorized));
    assert_eq!(s, before);
    let (unvested, refund) = VestingContract::revoke(&mut s, addr(100), addr(1), 40).unwrap();
    assert_eq!(unvested, 600);
    assert_eq!(refund.unwrap().to, addr(1));
}

#[test]
fn claims_and_refund_stay_within_total() {
    let (mut w, funder, beneficiary, token) = setup();
    let sid = w.create_schedule(funder, beneficiary, token, 1000, 0, 10, 100, VestingType::Linear, true);
    for now in [10u32, 25, 37, 60] {
        w.sequence = now;
        w.claim(beneficiary, sid);
    }
    w.revoke(funder, sid);
    let paid = w.ledger.balance(token, beneficiary) + (w.ledger.balance(token, funder));
    assert_eq!(w.ledger.balance(token, beneficiary), 600);
    assert_eq!(paid, 1000);
    assert!(w.get_schedule(sid).claimed <= 1000);
}

#[test]
fn vesting_error_messages() {
    assert_eq!(VestingError::NothingToClaim.message(), "nothing to claim");
    assert_eq!(VestingError::InvalidCliff.message(), "invalid cliff");
}
