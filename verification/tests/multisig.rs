use soroban_contract_library::address::{Address, Transfer};
use soroban_contract_library::multisig::{
    Config, MultisigContract, MultisigError, Proposal, ProposalKind, ProposalStatus,
};
use std::collections::HashMap;

fn addr(n: u64) -> Address {
    Address { w0: 0, w1: 0, w2: 0, w3: n }
}

/// Token balances per (token, holder), moved by the payments the contract asks for.
struct Ledger {
    balances: HashMap<(Address, Address), i128>,
}

impl Ledger {
    fn mint(&mut self, token: Address, to: Address, amount: i128) {
        *self.balances.entry((token, to)).or_insert(0) += amount;
    }

    fn balance(&self, token: Address, of: Address) -> i128 {
        *self.balances.get(&(token, of)).unwrap_or(&0)
    }

    fn pay(&mut self, t: &Transfer) {
        *self.balances.entry((t.token, t.from)).or_insert(0) -= t.amount;
        *self.balances.entry((t.token, t.to)).or_insert(0) += t.amount;
    }
}

/// The contract's storage, the ledger sequence and the token balances.
struct World {
    this: Address,
    config: Option<Config>,
    counter: Option<u64>,
    proposals: HashMap<u64, Proposal>,
    ledger: Ledger,
    sequence: u32,
}

fn ok<T>(r: Result<T, MultisigError>) -> T {
    r.unwrap_or_else(|e| panic!("{}", e.message()))
}

impl World {
    fn new() -> World {
        World {
            this: addr(100),
            config: None,
            counter: None,
            proposals: HashMap::new(),
            ledger: Ledger { balances: HashMap::new() },
            sequence: 0,
        }
    }

    fn initialize(&mut self, owners: Vec<Address>, threshold: u32) {
        let c = ok(MultisigContract::initialize(self.config.is_some(), owners, threshold));
        self.config = Some(c);
    }

    fn store(&mut self, config: Config, made: soroban_contract_library::multisig::NewProposal) -> u64 {
        if let Some(t) = made.payment {
            self.ledger.pay(&t);
        }
        self.config = Some(config);
        self.counter = Some(made.next_counter);
        self.proposals.insert(made.id, made.proposal);
        made.id
    }

    fn propose_transfer(&mut self, proposer: Address, to: Address, token: Address, amount: i128, expiry: u32) -> u64 {
        let mut config = self.get_config();
        let made = ok(MultisigContract::propose_transfer(
            &mut config, self.counter, self.this, proposer, to, token, amount, expiry,
        ));
        self.store(config, made)
    }

    fn add_owner(&mut self, proposer: Address, new_owner: Address, expiry: u32) -> u64 {
        let mut config = self.get_config();
        let made = ok(MultisigContract::add_owner(&mut config, self.counter, self.this, proposer, new_owner, expiry));
        self.store(config, made)
    }

    fn remove_owner(&mut self, proposer: Address, owner: Address, expiry: u32) -> u64 {
        let mut config = self.get_config();
        let made = ok(MultisigContract::remove_owner(&mut config, self.counter, self.this, proposer, owner, expiry));
        self.store(config, made)
    }

    fn approve(&mut self, owner: Address, id: u64) {
        let mut config = self.get_config();
        let mut proposal = self.get_proposal(id);
        let paid = ok(MultisigContract::approve(&mut config, &mut proposal, self.this, owner, self.sequence));
        if let Some(t) = paid {
            self.ledger.pay(&t);
        }
        self.config = Some(config);
        self.proposals.insert(id, proposal);
    }

    fn cancel(&mut self, proposer: Address, id: u64) {
        let mut proposal = self.get_proposal(id);
        ok(MultisigContract::cancel(&mut proposal, proposer));
        self.proposals.insert(id, proposal);
    }

    fn get_proposal(&self, id: u64) -> Proposal {
        self.proposals.get(&id).unwrap().clone()
    }

    fn get_config(&self) -> Config {
        self.config.as_ref().unwrap().clone()
    }
}

fn setup_3of2() -> (World, Address, Address, Address, Address, Address) {
    let mut w = World::new();
    let o1 = addr(1);
    let o2 = addr(2);
    let o3 = addr(3);
    let recipient = addr(4);
    let token = addr(50);
    w.ledger.mint(token, w.this, 1000);
    w.initialize(vec![o1, o2, o3], 2);
    (w, o1, o2, o3, recipient, token)
}

fn setup_2of2() -> (World, Address, Address) {
    let mut w = World::new();
    let o1 = addr(1);
    let o2 = addr(2);
    w.initialize(vec![o1, o2], 2);
    (w, o1, o2)
}

#[test]
fn test_2of3_execution() {
    let (mut w, o1, o2, _o3, recipient, token) = setup_3of2();
    let pid = w.propose_transfer(o1, recipient, token, 500, 9999);
    assert_eq!(w.get_proposal(pid).status, ProposalStatus::Pending);

    w.approve(o2, pid);
    assert_eq!(w.get_proposal(pid).status, ProposalStatus::Executed);
    assert_eq!(w.ledger.balance(token, recipient), 500);
}

#[test]
fn test_cancel() {
    let (mut w, o1, _o2, _o3, recipient, token) = setup_3of2();
    let pid = w.propose_transfer(o1, recipient, token, 500, 9999);
    w.cancel(o1, pid);
    assert_eq!(w.get_proposal(pid).status, ProposalStatus::Cancelled);
}

#[test]
#[should_panic(expected = "expired")]
fn test_expired_proposal() {
    let (mut w, o1, o2, _o3, recipient, token) = setup_3of2();
    let pid = w.propose_transfer(o1, recipient, token, 500, 5);
    w.sequence = 10;
    w.approve(o2, pid);
}

#[test]
#[should_panic(expected = "already approved")]
fn test_double_approve_panics() {
    let (mut w, o1, _o2, _o3, recipient, token) = setup_3of2();
    let pid = w.propose_transfer(o1, recipient, token, 500, 9999);
    w.approve(o1, pid);
}

#[test]
fn test_add_owner_after_threshold() {
    let (mut w, o1, o2, _o3, _recipient, _token) = setup_3of2();
    let new_owner = addr(9);

    let pid = w.add_owner(o1, new_owner, 9999);
    assert!(!w.get_config().owners.contains(&new_owner));

    w.approve(o2, pid);

    let config = w.get_config();
    assert_eq!(w.get_proposal(pid).status, ProposalStatus::Executed);
    assert!(config.owners.contains(&new_owner));
    assert_eq!(config.owners.len(), 4);
}

#[test]
fn test_remove_owner_after_threshold() {
    let (mut w, o1, o2, o3, _recipient, _token) = setup_3of2();

    let pid = w.remove_owner(o1, o3, 9999);
    assert!(w.get_config().owners.contains(&o3));

    w.approve(o2, pid);

    let config = w.get_config();
    assert_eq!(w.get_proposal(pid).status, ProposalStatus::Executed);
    assert!(!config.owners.contains(&o3));
    assert_eq!(config.owners.len(), 2);
}

#[test]
#[should_panic(expected = "threshold unreachable")]
fn test_remove_owner_below_threshold_panics() {
    let (mut w, o1, o2) = setup_2of2();
    w.remove_owner(o1, o2, 9999);
}

#[test]
#[should_panic(expected = "owner already exists")]
fn test_add_duplicate_owner_panics() {
    let (mut w, o1, o2, _o3, _recipient, _token) = setup_3of2();
    w.add_owner(o1, o2, 9999);
}

// ---- further cases ----

fn config(owners: Vec<u64>, threshold: u32) -> Config {
    MultisigContract::initialize(false, owners.into_iter().map(addr).collect(), threshold).unwrap()
}

#[test]
fn multisig_initialize_checks() {
    assert_eq!(
        MultisigContract::initialize(true, vec![addr(1)], 1).err(),
        Some(MultisigError::AlreadyInitialized)
    );
    assert_eq!(
        MultisigContract::initialize(false, vec![addr(1)], 0).err(),
        Some(MultisigError::InvalidThreshold)
    );
    assert_eq!(
        MultisigContract::initialize(false, vec![addr(1)], 2).err(),
        Some(MultisigError::InvalidThreshold)
    );
    let c = config(vec![1, 2], 2);
    assert_eq!(c.owners, vec![addr(1), addr(2)]);
    assert_eq!(c.threshold, 2);
}

#[test]
fn one_of_one_executes_at_once() {
    let mut c = config(vec![1], 1);
    let made = MultisigContract::propose_transfer(&mut c, Some(4), addr(100), addr(1), addr(7), addr(50), 30, 99)
        .unwrap();
    assert_eq!(made.id, 4);
    assert_eq!(made.next_counter, 5);
    assert_eq!(made.proposal.status, ProposalStatus::Executed);
    assert_eq!(made.proposal.approvals, vec![addr(1)]);
    assert_eq!(made.payment, Some(Transfer { token: addr(50), from: addr(100), to: addr(7), amount: 30 }));
    // adding an owner at threshold one changes the owners immediately
    let made = MultisigContract::add_owner(&mut c, Some(5), addr(100), addr(1), addr(2), 99).unwrap();
    assert_eq!(made.payment, None);
    assert_eq!(c.owners, vec![addr(1), addr(2)]);
}

#[test]
fn proposal_waits_for_threshold() {
    let mut c = config(vec![1, 2, 3], 3);
    let made = MultisigContract::propose_transfer(&mut c, None, addr(100), addr(1), addr(7), addr(50), 30, 99)
        .unwrap();
    let mut p = made.proposal;
    assert_eq!(made.payment, None);
    assert_eq!(MultisigContract::approve(&mut c, &mut p, addr(100), addr(2), 5), Ok(None));
    assert_eq!(p.status, ProposalStatus::Pending);
    let paid = MultisigContract::approve(&mut c, &mut p, addr(100), addr(3), 99).unwrap();
    assert_eq!(paid.map(|t| t.amount), Some(30));
    assert_eq!(p.status, ProposalStatus::Executed);
    assert_eq!(p.approvals, vec![addr(1), addr(2), addr(3)]);
    assert_eq!(
        MultisigContract::approve(&mut c, &mut p, addr(100), addr(2), 99),
        Err(MultisigError::NotPending)
    );
}

#[test]
fn proposals_need_owners() {
    let mut c = config(vec![1, 2], 2);
    let r = MultisigContract::propose_transfer(&mut c, None, addr(100), addr(9), addr(7), addr(50), 30, 99);
    assert_eq!(r.err(), Some(MultisigError::NotAnOwner));
    let r = MultisigContract::remove_owner(&mut c, None, addr(100), addr(1), addr(9), 99);
    assert_eq!(r.err(), Some(MultisigError::OwnerNotFound));
    let made = MultisigContract::propose_transfer(&mut c, None, addr(100), addr(1), addr(7), addr(50), 30, 99).unwrap();
    let mut p = made.proposal;
    assert_eq!(
        MultisigContract::approve(&mut c, &mut p, addr(100), addr(9), 1),
        Err(MultisigError::NotAnOwner)
    );
    assert_eq!(MultisigContract::cancel(&mut p, addr(2)), Err(MultisigError::Unauthorized));
    MultisigContract::cancel(&mut p, addr(1)).unwrap();
    assert_eq!(MultisigContract::cancel(&mut p, addr(1)), Err(MultisigError::NotPending));
    let r = MultisigContract::propose_transfer(&mut c, Some(u64::MAX), addr(100), addr(1), addr(7), addr(50), 30, 99);
    assert_eq!(r.err(), Some(MultisigError::Overflow));
}

#[test]
fn failed_execution_rejects_the_approval() {
    // two proposals to add the same owner: the second cannot execute
    let mut c = config(vec![1, 2, 3], 2);
    let mut p1 = MultisigContract::add_owner(&mut c, Some(0), addr(100), addr(1), addr(9), 99).unwrap().proposal;
    let mut p2 = MultisigContract::add_owner(&mut c, Some(1), addr(100), addr(2), addr(9), 99).unwrap().proposal;
    MultisigContract::approve(&mut c, &mut p1, addr(3), addr(2), 1).unwrap();
    assert_eq!(c.owners.len(), 4);
    let before = p2.clone();
    assert_eq!(
        MultisigContract::approve(&mut c, &mut p2, addr(100), addr(3), 1),
        Err(MultisigError::OwnerAlreadyExists)
    );
    assert_eq!(p2.approvals, before.approvals);
    assert_eq!(p2.status, ProposalStatus::Pending);
    assert_eq!(c.owners.len(), 4);
}

#[test]
fn removing_keeps_order_of_the_others() {
    let mut c = config(vec![1, 2, 3, 4], 2);
    let mut p = MultisigContract::remove_owner(&mut c, None, addr(100), addr(1), addr(2), 99).unwrap().proposal;
    assert_eq!(p.kind, ProposalKind::RemoveOwner(addr(2)));
    MultisigContract::approve(&mut c, &mut p, addr(100), addr(4), 1).unwrap();
    assert_eq!(c.owners, vec![addr(1), addr(3), addr(4)]);
}

#[test]
fn removal_checks_the_owners_that_remain() {
    // a listed twice: removing it leaves b alone, below the threshold of two
    let mut c = MultisigContract::initialize(false, vec![addr(1), addr(1), addr(2)], 2).unwrap();
    let r = MultisigContract::remove_owner(&mut c, None, addr(100), addr(2), addr(1), 99);
    assert_eq!(r.err(), Some(MultisigError::ThresholdUnreachable));
    let r = MultisigContract::remove_owner(&mut c, None, addr(100), addr(1), addr(2), 99);
    assert!(r.is_ok());
}

#[test]
fn approvals_of_removed_owners_do_not_count() {
    let (mut w, o1, o2, o3, recipient, token) = setup_3of2();
    let pid = w.propose_transfer(o3, recipient, token, 500, 9999);
    let rid = w.remove_owner(o1, o3, 9999);
    w.approve(o2, rid);
    assert_eq!(w.get_config().owners, vec![o1, o2]);
    // only o1 among the current owners has approved the transfer: below two
    w.approve(o1, pid);
    assert_eq!(w.get_proposal(pid).status, ProposalStatus::Pending);
    assert_eq!(w.ledger.balance(token, recipient), 0);
    w.approve(o2, pid);
    assert_eq!(w.get_proposal(pid).status, ProposalStatus::Executed);
    assert_eq!(w.ledger.balance(token, recipient), 500);
}

#[test]
fn multisig_error_messages() {
    assert_eq!(MultisigError::ThresholdUnreachable.message(), "threshold unreachable");
    assert_eq!(MultisigError::NotAnOwner.message(), "not an owner");
}
