use soroban_contract_library::address::{Address, Transfer};
use soroban_contract_library::escrow::{
    Escrow, EscrowContract, EscrowError, EscrowStatus, Milestone,
};
use std::collections::HashMap;

fn addr(n: u64) -> Address {
    Address { w0: 0, w1: 0, w2: 0, w3: n }
}

/// Token balances per (token, holder), moved by the payments the contract asks for.
struct Ledger {
    balances: HashMap<(Address, Address), i128>,
}

impl Ledger {
    fn mint(&mut self, token: Address, to: Address, amount: i128) {
        *self.balances.entry((token, to)).or_insert(0) += amount;
    }

    fn balance(&self, token: Address, of: Address) -> i128 {
        *self.balances.get(&(token, of)).unwrap_or(&0)
    }

    fn pay(&mut self, t: &Transfer) {
        *self.balances.entry((t.token, t.from)).or_insert(0) -= t.amount;
        *self.balances.entry((t.token, t.to)).or_insert(0) += t.amount;
    }
}

/// The contract's storage, the ledger sequence and the token balances.
struct World {
    this: Address,
    counter: Option<u64>,
    escrows: HashMap<u64, Escrow>,
    ledger: Ledger,
    sequence: u32,
}

fn ok<T>(r: Result<T, EscrowError>) -> T {
    r.unwrap_or_else(|e| panic!("{}", e.message()))
}

impl World {
    fn create(
        &mut self,
        depositor: Address,
        beneficiary: Address,
        arbiter: Address,
        token: Address,
        amounts: Vec<i128>,
        expiry_ledger: u32,
    ) -> u64 {
        let made = ok(EscrowContract::create(
            self.counter,
            self.this,
            depositor,
            beneficiary,
            arbiter,
            token,
            &amounts,
            expiry_ledger,
        ));
        self.ledger.pay(&made.deposit);
        self.escrows.insert(made.id, made.escrow);
        self.counter = Some(made.next_counter);
        made.id
    }

    fn release_milestone(&mut self, caller: Address, id: u64, index: u32, amount: i128) {
        let mut e = self.get_escrow(id);
        let paid = ok(EscrowContract::release_milestone(&mut e, self.this, caller, index, amount));
        self.ledger.pay(&paid);
        self.escrows.insert(id, e);
    }

    fn raise_dispute(&mut self, beneficiary: Address, id: u64) {
        let mut e = self.get_escrow(id);
        ok(EscrowContract::raise_dispute(&mut e, beneficiary));
        self.escrows.insert(id, e);
    }

    fn resolve_dispute(&mut self, arbiter: Address, id: u64, release: bool) {
        let mut e = self.get_escrow(id);
        let paid = ok(EscrowContract::resolve_dispute(&mut e, self.this, arbiter, release));
        self.ledger.pay(&paid);
        self.escrows.insert(id, e);
    }

    fn reclaim_expired(&mut self, depositor: Address, id: u64) {
        let mut e = self.get_escrow(id);
        let paid = ok(EscrowContract::reclaim_expired(&mut e, self.this, depositor, self.sequence));
        self.ledger.pay(&paid);
        self.escrows.insert(id, e);
    }

    fn get_escrow(&self, id: u64) -> Escrow {
        self.escrows.get(&id).unwrap().clone()
    }
}

fn setup() -> (World, Address, Address, Address, Address) {
    let mut world = World {
        this: addr(100),
        counter: None,
        escrows: HashMap::new(),
        ledger: Ledger { balances: HashMap::new() },
        sequence: 0,
    };
    let depositor = addr(1);
    let beneficiary = addr(2);
    let arbiter = addr(3);
    let token = addr(50);
    world.ledger.mint(token, depositor, 1000);
    (world, depositor, beneficiary, arbiter, token)
}

#[test]
fn test_happy_path() {
    let (mut w, depositor, beneficiary, arbiter, token) = setup();
    let id = w.create(depositor, beneficiary, arbiter, token, vec![300, 700], 9999);

    w.release_milestone(arbiter, id, 0, 300);
    let escrow = w.get_escrow(id);
    assert_eq!(escrow.milestones[0].released_amount, 300);
    assert_eq!(escrow.status, EscrowStatus::Active);

    w.release_milestone(arbiter, id, 1, 700);
    let escrow = w.get_escrow(id);
    assert_eq!(escrow.status, EscrowStatus::Completed);

    assert_eq!(w.ledger.balance(token, beneficiary), 1000);
}

#[test]
fn test_dispute_and_resolve() {
    let (mut w, depositor, beneficiary, arbiter, token) = setup();
    let id = w.create(depositor, beneficiary, arbiter, token, vec![500, 500], 9999);

    w.raise_dispute(beneficiary, id);
    assert_eq!(w.get_escrow(id).status, EscrowStatus::Disputed);

    w.resolve_dispute(arbiter, id, true);
    assert_eq!(w.get_escrow(id).status, EscrowStatus::Completed);

    assert_eq!(w.ledger.balance(token, beneficiary), 1000);
}

#[test]
fn test_reclaim_expired() {
    let (mut w, depositor, beneficiary, arbiter, token) = setup();
    let id = w.create(depositor, beneficiary, arbiter, token, vec![1000], 10);

    w.sequence = 11;
    w.reclaim_expired(depositor, id);
    assert_eq!(w.get_escrow(id).status, EscrowStatus::Refunded);

    assert_eq!(w.ledger.balance(token, depositor), 1000);
}

#[test]
fn test_partial_then_full_release_same_milestone() {
    let (mut w, depositor, beneficiary, arbiter, token) = setup();
    let id = w.create(depositor, beneficiary, arbiter, token, vec![1000], 9999);

    w.release_milestone(arbiter, id, 0, 400);
    let escrow = w.get_escrow(id);
    assert_eq!(escrow.milestones[0].released_amount, 400);
    assert_eq!(escrow.status, EscrowStatus::Active);

    w.release_milestone(arbiter, id, 0, 600);
    let escrow = w.get_escrow(id);
    assert_eq!(escrow.milestones[0].released_amount, 1000);
    assert_eq!(escrow.status, EscrowStatus::Completed);

    assert_eq!(w.ledger.balance(token, beneficiary), 1000);
}

#[test]
fn test_reclaim_expired_after_partial_release() {
    let (mut w, depositor, beneficiary, arbiter, token) = setup();
    let id = w.create(depositor, beneficiary, arbiter, token, vec![1000], 10);

    w.release_milestone(arbiter, id, 0, 400);
    w.sequence = 11;
    w.reclaim_expired(depositor, id);

    assert_eq!(w.ledger.balance(token, beneficiary), 400);
    assert_eq!(w.ledger.balance(token, depositor), 600);
}

#[test]
fn test_dispute_resolution_after_partial_release() {
    let (mut w, depositor, beneficiary, arbiter, token) = setup();
    let id = w.create(depositor, beneficiary, arbiter, token, vec![500, 500], 9999);

    w.release_milestone(arbiter, id, 0, 200);
    w.raise_dispute(beneficiary, id);
    w.resolve_dispute(arbiter, id, true);

    let escrow = w.get_escrow(id);
    assert_eq!(escrow.status, EscrowStatus::Completed);
    assert_eq!(escrow.milestones[0].released_amount, 500);
    assert_eq!(escrow.milestones[1].released_amount, 500);

    assert_eq!(w.ledger.balance(token, beneficiary), 1000);
}

#[test]
#[should_panic(expected = "release exceeds remaining")]
fn test_release_more_than_remaining_panics() {
    let (mut w, depositor, beneficiary, arbiter, token) = setup();
    let id = w.create(depositor, beneficiary, arbiter, token, vec![500, 500], 9999);
    w.release_milestone(arbiter, id, 0, 500);
    w.release_milestone(arbiter, id, 0, 1);
}

// ---- further cases ----

fn sample_escrow(amounts: Vec<i128>) -> Escrow {
    let made = EscrowContract::create(
        Some(7),
        addr(100),
        addr(1),
        addr(2),
        addr(3),
        addr(50),
        &amounts,
        10,
    )
    .unwrap();
    made.escrow
}

#[test]
fn create_assigns_counter_and_collects_sum() {
    let made = EscrowContract::create(
        Some(7),
        addr(100),
        addr(1),
        addr(2),
        addr(3),
        addr(50),
        &vec![300, 700],
        10,
    )
    .unwrap();
    assert_eq!(made.id, 7);
    assert_eq!(made.next_counter, 8);
    assert_eq!(
        made.deposit,
        Transfer { token: addr(50), from: addr(1), to: addr(100), amount: 1000 }
    );
    assert_eq!(
        made.escrow.milestones,
        vec![
            Milestone { amount: 300, released_amount: 0 },
            Milestone { amount: 700, released_amount: 0 }
        ]
    );
    assert_eq!(made.escrow.status, EscrowStatus::Active);
    let first = EscrowContract::create(
        None, addr(100), addr(1), addr(2), addr(3), addr(50), &vec![1], 10,
    )
    .unwrap();
    assert_eq!(first.id, 0);
    assert_eq!(first.next_counter, 1);
}

#[test]
fn create_rejects_overflowing_sum_and_exhausted_counter() {
    let r = EscrowContract::create(
        None, addr(100), addr(1), addr(2), addr(3), addr(50), &vec![i128::MAX, 1], 10,
    );
    assert_eq!(r.err(), Some(EscrowError::Overflow));
    let r = EscrowContract::create(
        Some(u64::MAX), addr(100), addr(1), addr(2), addr(3), addr(50), &vec![1], 10,
    );
    assert_eq!(r.err(), Some(EscrowError::Overflow));
    // a sum that leaves the range on the way but comes back is still rejected
    let r = EscrowContract::create(
        None, addr(100), addr(1), addr(2), addr(3), addr(50), &vec![i128::MAX, 1, -5], 10,
    );
    assert_eq!(r.err(), Some(EscrowError::Overflow));
}

#[test]
fn create_needs_a_milestone() {
    let r = EscrowContract::create(None, addr(100), addr(1), addr(2), addr(3), addr(50), &vec![], 10);
    assert_eq!(r.err(), Some(EscrowError::NoMilestones));
}

#[test]
fn release_errors_in_order() {
    let mut e = sample_escrow(vec![500]);
    let this = addr(100);
    assert_eq!(
        EscrowContract::release_milestone(&mut e, this, addr(9), 0, 10),
        Err(EscrowError::Unauthorized)
    );
    assert_eq!(
        EscrowContract::release_milestone(&mut e, this, addr(1), 0, 0),
        Err(EscrowError::InvalidAmount)
    );
    assert_eq!(
        EscrowContract::release_milestone(&mut e, this, addr(1), 1, 10),
        Err(EscrowError::MilestoneNotFound)
    );
    assert_eq!(
        EscrowContract::release_milestone(&mut e, this, addr(1), 0, 501),
        Err(EscrowError::ReleaseExceedsRemaining)
    );
    // the depositor may release too
    let paid = EscrowContract::release_milestone(&mut e, this, addr(1), 0, 500).unwrap();
    assert_eq!(paid, Transfer { token: addr(50), from: this, to: addr(2), amount: 500 });
    assert_eq!(e.status, EscrowStatus::Completed);
    assert_eq!(
        EscrowContract::release_milestone(&mut e, this, addr(3), 0, 1),
        Err(EscrowError::NotActive)
    );
}

#[test]
fn rejected_release_leaves_escrow_unchanged() {
    let mut e = sample_escrow(vec![500, 500]);
    let before = e.clone();
    let _ = EscrowContract::release_milestone(&mut e, addr(100), addr(3), 0, 501);
    assert_eq!(e.milestones, before.milestones);
    assert_eq!(e.status, before.status);
}

#[test]
fn dispute_errors() {
    let mut e = sample_escrow(vec![500]);
    assert_eq!(EscrowContract::raise_dispute(&mut e, addr(1)), Err(EscrowError::Unauthorized));
    assert_eq!(
        EscrowContract::resolve_dispute(&mut e, addr(100), addr(3), true),
        Err(EscrowError::NotDisputed)
    );
    EscrowContract::raise_dispute(&mut e, addr(2)).unwrap();
    assert_eq!(EscrowContract::raise_dispute(&mut e, addr(2)), Err(EscrowError::NotActive));
    assert_eq!(
        EscrowContract::resolve_dispute(&mut e, addr(100), addr(1), true),
        Err(EscrowError::Unauthorized)
    );
    // a disputed escrow cannot be released or reclaimed
    assert_eq!(
        EscrowContract::release_milestone(&mut e, addr(100), addr(3), 0, 1),
        Err(EscrowError::NotActive)
    );
    assert_eq!(
        EscrowContract::reclaim_expired(&mut e, addr(100), addr(1), 11),
        Err(EscrowError::NotActive)
    );
}

#[test]
fn resolve_refund_pays_depositor_what_is_left() {
    let mut e = sample_escrow(vec![500, 500]);
    let this = addr(100);
    EscrowContract::release_milestone(&mut e, this, addr(3), 1, 150).unwrap();
    EscrowContract::raise_dispute(&mut e, addr(2)).unwrap();
    let paid = EscrowContract::resolve_dispute(&mut e, this, addr(3), false).unwrap();
    assert_eq!(paid, Transfer { token: addr(50), from: this, to: addr(1), amount: 850 });
    assert_eq!(e.status, EscrowStatus::Refunded);
    assert_eq!(e.milestones[1].released_amount, 150);
}

#[test]
fn reclaim_errors() {
    let mut e = sample_escrow(vec![500]);
    assert_eq!(
        EscrowContract::reclaim_expired(&mut e, addr(100), addr(2), 11),
        Err(EscrowError::Unauthorized)
    );
    assert_eq!(
        EscrowContract::reclaim_expired(&mut e, addr(100), addr(1), 10),
        Err(EscrowError::NotExpired)
    );
    let paid = EscrowContract::reclaim_expired(&mut e, addr(100), addr(1), 11).unwrap();
    assert_eq!(paid.amount, 500);
    assert_eq!(
        EscrowContract::reclaim_expired(&mut e, addr(100), addr(1), 12),
        Err(EscrowError::NotActive)
    );
}

#[test]
fn held_funds_match_payouts() {
    // deposit 1000 = 300 released + 200 released + 500 refunded
    let (mut w, depositor, beneficiary, arbiter, token) = setup();
    let id = w.create(depositor, beneficiary, arbiter, token, vec![600, 400], 10);
    w.release_milestone(arbiter, id, 0, 300);
    w.release_milestone(depositor, id, 1, 200);
    w.sequence = 11;
    w.reclaim_expired(depositor, id);
    assert_eq!(w.ledger.balance(token, beneficiary), 500);
    assert_eq!(w.ledger.balance(token, depositor), 500);
    assert_eq!(w.ledger.balance(token, w.this), 0);
}

#[test]
fn unreleased_overflow_is_rejected() {
    let mut e = Escrow {
        depositor: addr(1),
        beneficiary: addr(2),
        arbiter: addr(3),
        token: addr(50),
        milestones: vec![
            Milestone { amount: i128::MAX, released_amount: 0 },
            Milestone { amount: i128::MAX, released_amount: 0 },
        ],
        status: EscrowStatus::Disputed,
        expiry_ledger: 10,
    };
    assert_eq!(
        EscrowContract::resolve_dispute(&mut e, addr(100), addr(3), true),
        Err(EscrowError::Overflow)
    );
}

#[test]
fn escrow_error_messages() {
    assert_eq!(EscrowError::NotActive.message(), "not active");
    assert_eq!(EscrowError::ReleaseExceedsRemaining.message(), "release exceeds remaining");
    assert_eq!(EscrowError::NotExpired.message(), "not expired");
}
