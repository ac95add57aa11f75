//! M-of-N multisig wallet: owners propose token transfers and changes of the
//! owner set; the proposer approves at once, and a proposal executes as soon
//! as it has as many approvals as the threshold asks.
use vstd::prelude::*;
use crate::address::{Address, Transfer, contains};
use crate::counter::{allocate_id, stored_count};

verus! {

/// Where a proposal stands.
#[derive(Clone, Copy, PartialEq, Eq, Debug, Structural)]
pub enum ProposalStatus {
    Pending,
    Executed,
    Cancelled,
}

/// What a proposal does once executed: pay `amount` of `token` to `to`
/// (`Transfer(to, token, amount)`), add an owner, or remove one.
#[derive(Clone, Copy, PartialEq, Eq, Debug, Structural)]
pub enum ProposalKind {
    Transfer(Address, Address, i128),
    AddOwner(Address),
    RemoveOwner(Address),
}

/// A proposal as stored by the contract.
#[derive(Debug)]
pub struct Proposal {
    pub proposer: Address,
    pub kind: ProposalKind,
    pub approvals: Vec<Address>,
    pub status: ProposalStatus,
    pub expiry_ledger: u32,
}

/// The mathematical value of a [`Proposal`].
#[verifier::ext_equal]
pub struct ProposalView {
    pub proposer: Address,
    pub kind: ProposalKind,
    pub approvals: Seq<Address>,
    pub status: ProposalStatus,
    pub expiry_ledger: u32,
}

impl View for Proposal {
    type V = ProposalView;

    open spec fn view(&self) -> ProposalView {
        ProposalView {
            proposer: self.proposer,
            kind: self.kind,
            approvals: self.approvals@,
            status: self.status,
            expiry_ledger: self.expiry_ledger,
        }
    }
}

/// The owners of the wallet and the number of approvals that executes a proposal.
#[derive(Debug)]
pub struct Config {
    pub owners: Vec<Address>,
    pub threshold: u32,
}

/// The mathematical value of a [`Config`].
#[verifier::ext_equal]
pub struct ConfigView {
    pub owners: Seq<Address>,
    pub threshold: u32,
}

impl View for Config {
    type V = ConfigView;

    open spec fn view(&self) -> ConfigView {
        ConfigView { owners: self.owners@, threshold: self.threshold }
    }
}

impl Clone for Proposal {
    fn clone(&self) -> (copy: Self)
        ensures
            copy@ == self@,
    {
        let approvals = self.approvals.clone();
        assert(approvals@ =~= self.approvals@);
        Proposal {
            proposer: self.proposer,
            kind: self.kind,
            approvals,
            status: self.status,
            expiry_ledger: self.expiry_ledger,
        }
    }
}

impl Clone for Config {
    fn clone(&self) -> (copy: Self)
        ensures
            copy@ == self@,
    {
        let owners = self.owners.clone();
        assert(owners@ =~= self.owners@);
        Config { owners, threshold: self.threshold }
    }
}

/// Storage keys: the configuration, one persistent entry per proposal id, and
/// the id counter.
#[derive(Clone, Copy, PartialEq, Eq, Debug, Structural)]
pub enum DataKey {
    Config,
    Proposal(u64),
    Counter,
}

/// Why a call on the multisig contract is rejected.
#[derive(Clone, Copy, PartialEq, Eq, Debug, Structural)]
pub enum MultisigError {
    AlreadyInitialized,
    InvalidThreshold,
    NotAnOwner,
    OwnerAlreadyExists,
    OwnerNotFound,
    ThresholdUnreachable,
    NotPending,
    Expired,
    AlreadyApproved,
    Unauthorized,
    Overflow,
}

/// The text that names each error.
pub open spec fn multisig_error_text(e: MultisigError) -> Seq<char> {
    match e {
        MultisigError::AlreadyInitialized => "already initialized"@,
        MultisigError::InvalidThreshold => "invalid threshold"@,
        MultisigError::NotAnOwner => "not an owner"@,
        MultisigError::OwnerAlreadyExists => "owner already exists"@,
        MultisigError::OwnerNotFound => "owner not found"@,
        MultisigError::ThresholdUnreachable => "threshold unreachable"@,
        MultisigError::NotPending => "not pending"@,
        MultisigError::Expired => "expired"@,
        MultisigError::AlreadyApproved => "already approved"@,
        MultisigError::Unauthorized => "unauthorized"@,
        MultisigError::Overflow => "arithmetic overflow"@,
    }
}

impl MultisigError {
    /// The message with which the contract aborts on this error.
    pub fn message(&self) -> (text: &'static str)
        ensures
            text@ == multisig_error_text(*self),
    {
        match self {
            MultisigError::AlreadyInitialized => "already initialized",
            MultisigError::InvalidThreshold => "invalid threshold",
            MultisigError::NotAnOwner => "not an owner",
            MultisigError::OwnerAlreadyExists => "owner already exists",
            MultisigError::OwnerNotFound => "owner not found",
            MultisigError::ThresholdUnreachable => "threshold unreachable",
            MultisigError::NotPending => "not pending",
            MultisigError::Expired => "expired",
            MultisigError::AlreadyApproved => "already approved",
            MultisigError::Unauthorized => "unauthorized",
            MultisigError::Overflow => "arithmetic overflow",
        }
    }
}

/// The multisig contract.
pub struct MultisigContract;

/// A newly made proposal, its id, the id counter to store, and the payment to
/// make when the proposal executed at once.
pub struct NewProposal {
    pub id: u64,
    pub next_counter: u64,
    pub proposal: Proposal,
    pub payment: Option<Transfer>,
}

/// `s` with every occurrence of `a` taken out, the rest in order.
pub open spec fn without(s: Seq<Address>, a: Address) -> Seq<Address>
    decreases s.len(),
{
    if s.len() == 0 {
        s
    } else if s.last() == a {
        without(s.drop_last(), a)
    } else {
        without(s.drop_last(), a).push(s.last())
    }
}

/// The configuration is sound: the threshold is positive and no larger than
/// the number of owners, and no owner is listed twice.
pub open spec fn config_ok(c: ConfigView) -> bool {
    &&& 0 < c.threshold <= c.owners.len()
    &&& c.owners.no_duplicates()
}

/// Why executing a proposal of this kind fails against configuration `c`.
pub open spec fn execute_error(kind: ProposalKind, c: ConfigView) -> Option<MultisigError> {
    match kind {
        ProposalKind::Transfer(_, _, _) => None,
        ProposalKind::AddOwner(o) => if c.owners.contains(o) {
            Some(MultisigError::OwnerAlreadyExists)
        } else {
            None
        },
        ProposalKind::RemoveOwner(o) => if !c.owners.contains(o) {
            Some(MultisigError::OwnerNotFound)
        } else if c.threshold > without(c.owners, o).len() {
            Some(MultisigError::ThresholdUnreachable)
        } else {
            None
        },
    }
}

/// The configuration after a proposal of this kind executes.
pub open spec fn executed_config(kind: ProposalKind, c: ConfigView) -> ConfigView {
    match kind {
        ProposalKind::Transfer(_, _, _) => c,
        ProposalKind::AddOwner(o) => ConfigView { owners: c.owners.push(o), ..c },
        ProposalKind::RemoveOwner(o) => ConfigView { owners: without(c.owners, o), ..c },
    }
}

/// The payment that executing a proposal of this kind makes from the wallet (`this`).
pub open spec fn executed_payment(kind: ProposalKind, this: Address) -> Option<Transfer> {
    match kind {
        ProposalKind::Transfer(to, token, amount) => Some(
            Transfer { token, from: this, to, amount },
        ),
        _ => None,
    }
}

/// The proposal marked executed.
pub open spec fn executed(p: ProposalView) -> ProposalView {
    ProposalView { status: ProposalStatus::Executed, ..p }
}

/// A fresh proposal, approved by its proposer.
pub open spec fn fresh_proposal(proposer: Address, kind: ProposalKind, expiry_ledger: u32) -> ProposalView {
    ProposalView {
        proposer,
        kind,
        approvals: seq![proposer],
        status: ProposalStatus::Pending,
        expiry_ledger,
    }
}

/// What storing a new proposal comes to: its id, the proposal, the
/// configuration afterwards and the payment made, or the error. A proposal
/// executes at once when the threshold is one.
pub open spec fn creation(
    c: ConfigView,
    counter: Option<u64>,
    this: Address,
    proposer: Address,
    kind: ProposalKind,
    expiry_ledger: u32,
) -> Result<(u64, ProposalView, ConfigView, Option<Transfer>), MultisigError> {
    if stored_count(counter) == u64::MAX {
        Err(MultisigError::Overflow)
    } else if c.threshold == 1 {
        match execute_error(kind, c) {
            Some(e) => Err(e),
            None => Ok(
                (
                    stored_count(counter),
                    executed(fresh_proposal(proposer, kind, expiry_ledger)),
                    executed_config(kind, c),
                    executed_payment(kind, this),
                ),
            ),
        }
    } else {
        Ok((stored_count(counter), fresh_proposal(proposer, kind, expiry_ledger), c, None))
    }
}

/// Why an owner's proposal of this kind is rejected before it is stored:
/// the proposer must be an owner, and a change of owners must be possible.
pub open spec fn propose_error(c: ConfigView, proposer: Address, kind: ProposalKind) -> Option<
    MultisigError,
> {
    if !c.owners.contains(proposer) {
        Some(MultisigError::NotAnOwner)
    } else {
        execute_error(kind, c)
    }
}

/// What an owner's proposal comes to.
pub open spec fn proposal_outcome(
    c: ConfigView,
    counter: Option<u64>,
    this: Address,
    proposer: Address,
    kind: ProposalKind,
    expiry_ledger: u32,
) -> Result<(u64, ProposalView, ConfigView, Option<Transfer>), MultisigError> {
    match propose_error(c, proposer, kind) {
        Some(e) => Err(e),
        None => creation(c, counter, this, proposer, kind, expiry_ledger),
    }
}

/// Whether a call returned `outcome`, with the configuration going from
/// `before` to `after` (unchanged on an error).
pub open spec fn delivers(
    made: Result<NewProposal, MultisigError>,
    before: ConfigView,
    after: ConfigView,
    outcome: Result<(u64, ProposalView, ConfigView, Option<Transfer>), MultisigError>,
) -> bool {
    match outcome {
        Err(e) => made == Err::<NewProposal, MultisigError>(e) && after == before,
        Ok((id, p, c, pay)) => made matches Ok(n) && n.id == id && n.next_counter == id + 1
            && n.proposal@ == p && n.payment == pay && after == c,
    }
}

/// Why `approve` rejects an owner's approval at ledger `now`.
pub open spec fn approve_error(c: ConfigView, p: ProposalView, owner: Address, now: u32) -> Option<
    MultisigError,
> {
    if !c.owners.contains(owner) {
        Some(MultisigError::NotAnOwner)
    } else if p.status != ProposalStatus::Pending {
        Some(MultisigError::NotPending)
    } else if now > p.expiry_ledger {
        Some(MultisigError::Expired)
    } else if p.approvals.contains(owner) {
        Some(MultisigError::AlreadyApproved)
    } else if reaches_threshold(c, p) {
        execute_error(p.kind, c)
    } else {
        None
    }
}

/// How many of the approvals come from current owners; an approval from an
/// owner removed since does not count.
pub open spec fn owner_approvals(approvals: Seq<Address>, owners: Seq<Address>) -> nat
    decreases approvals.len(),
{
    if approvals.len() == 0 {
        0
    } else {
        owner_approvals(approvals.drop_last(), owners) + if owners.contains(approvals.last()) {
            1nat
        } else {
            0nat
        }
    }
}

/// Whether an approval by a current owner brings the proposal to the
/// threshold, counting only approvals from current owners.
pub open spec fn reaches_threshold(c: ConfigView, p: ProposalView) -> bool {
    owner_approvals(p.approvals, c.owners) + 1 >= c.threshold
}

/// The proposal after an owner's approval, executed once it reaches the threshold.
pub open spec fn approved(c: ConfigView, p: ProposalView, owner: Address) -> ProposalView {
    let q = ProposalView { approvals: p.approvals.push(owner), ..p };
    if reaches_threshold(c, p) {
        executed(q)
    } else {
        q
    }
}

/// The configuration after an owner's approval.
pub open spec fn approved_config(c: ConfigView, p: ProposalView) -> ConfigView {
    if reaches_threshold(c, p) {
        executed_config(p.kind, c)
    } else {
        c
    }
}

/// The payment made on an owner's approval.
pub open spec fn approved_payment(c: ConfigView, p: ProposalView, this: Address) -> Option<Transfer> {
    if reaches_threshold(c, p) {
        executed_payment(p.kind, this)
    } else {
        None
    }
}

/// Why `cancel` rejects a call.
pub open spec fn cancel_error(p: ProposalView, proposer: Address) -> Option<MultisigError> {
    if p.status != ProposalStatus::Pending {
        Some(MultisigError::NotPending)
    } else if proposer != p.proposer {
        Some(MultisigError::Unauthorized)
    } else {
        None
    }
}

/// Counts the approvals that come from current owners.
fn count_owner_approvals(approvals: &Vec<Address>, owners: &Vec<Address>) -> (n: usize)
    ensures
        n == owner_approvals(approvals@, owners@),
{
    let mut n: usize = 0;
    let mut i: usize = 0;
    while i < approvals.len()
        invariant
            i <= approvals.len(),
            n <= i,
            n == owner_approvals(approvals@.take(i as int), owners@),
        decreases approvals.len() - i,
    {
        assert(approvals@.take(i + 1).drop_last() =~= approvals@.take(i as int));
        if contains(owners, approvals[i]) {
            n += 1;
        }
        i += 1;
    }
    assert(approvals@.take(approvals.len() as int) =~= approvals@);
    n
}

/// Takes every occurrence of `who` out of `owners`.
fn remove_all(owners: &Vec<Address>, who: Address) -> (rest: Vec<Address>)
    ensures
        rest@ == without(owners@, who),
{
    let mut rest: Vec<Address> = Vec::new();
    let mut i: usize = 0;
    while i < owners.len()
        invariant
            i <= owners.len(),
            rest@ == without(owners@.take(i as int), who),
        decreases owners.len() - i,
    {
        let current = owners[i];
        assert(owners@.take(i + 1).drop_last() =~= owners@.take(i as int));
        if current != who {
            rest.push(current);
        }
        i += 1;
    }
    assert(owners@.take(owners.len() as int) =~= owners@);
    rest
}

impl MultisigContract {
    /// Sets up the wallet with its owners and approval threshold, once.
    pub fn initialize(initialized: bool, owners: Vec<Address>, threshold: u32) -> (config: Result<
        Config,
        MultisigError,
    >)
        ensures
            initialized ==> config == Err::<Config, MultisigError>(
                MultisigError::AlreadyInitialized,
            ),
            !initialized && !(threshold <= owners@.len() && threshold > 0) ==> config == Err::<
                Config,
                MultisigError,
            >(MultisigError::InvalidThreshold),
            !initialized && threshold <= owners@.len() && threshold > 0 ==> (config matches Ok(c)
                && c@ == (ConfigView { owners: owners@, threshold })),
    {
        if initialized {
            return Err(MultisigError::AlreadyInitialized);
        }
        if !(threshold as usize <= owners.len() && threshold > 0) {
            return Err(MultisigError::InvalidThreshold);
        }
        Ok(Config { owners, threshold })
    }

    /// An owner proposes paying `amount` of `token` to `to`; the proposer approves at once.
    pub fn propose_transfer(
        config: &mut Config,
        counter: Option<u64>,
        this: Address,
        proposer: Address,
        to: Address,
        token: Address,
        amount: i128,
        expiry_ledger: u32,
    ) -> (made: Result<NewProposal, MultisigError>)
        ensures
            delivers(
                made,
                old(config)@,
                final(config)@,
                proposal_outcome(
                    old(config)@,
                    counter,
                    this,
                    proposer,
                    ProposalKind::Transfer(to, token, amount),
                    expiry_ledger,
                ),
            ),
    {
        Self::_propose(
            config,
            counter,
            this,
            proposer,
            ProposalKind::Transfer(to, token, amount),
            expiry_ledger,
        )
    }

    /// An owner proposes adding a new owner; the proposer approves at once.
    pub fn add_owner(
        config: &mut Config,
        counter: Option<u64>,
        this: Address,
        proposer: Address,
        new_owner: Address,
        expiry_ledger: u32,
    ) -> (made: Result<NewProposal, MultisigError>)
        ensures
            delivers(
                made,
                old(config)@,
                final(config)@,
                proposal_outcome(
                    old(config)@,
                    counter,
                    this,
                    proposer,
                    ProposalKind::AddOwner(new_owner),
                    expiry_ledger,
                ),
            ),
    {
        if !Self::_is_owner(config, proposer) {
            return Err(MultisigError::NotAnOwner);
        }
        if Self::_is_owner(config, new_owner) {
            return Err(MultisigError::OwnerAlreadyExists);
        }
        Self::_create_proposal(
            config,
            counter,
            this,
            proposer,
            ProposalKind::AddOwner(new_owner),
            expiry_ledger,
        )
    }

    /// An owner proposes removing an owner; the proposer approves at once.
    /// The threshold must stay reachable by the owners that remain.
    pub fn remove_owner(
        config: &mut Config,
        counter: Option<u64>,
        this: Address,
        proposer: Address,
        owner: Address,
        expiry_ledger: u32,
    ) -> (made: Result<NewProposal, MultisigError>)
        ensures
            delivers(
                made,
                old(config)@,
                final(config)@,
                proposal_outcome(
                    old(config)@,
                    counter,
                    this,
                    proposer,
                    ProposalKind::RemoveOwner(owner),
                    expiry_ledger,
                ),
            ),
    {
        if !Self::_is_owner(config, proposer) {
            return Err(MultisigError::NotAnOwner);
        }
        if !Self::_is_owner(config, owner) {
            return Err(MultisigError::OwnerNotFound);
        }
        if config.threshold as usize > remove_all(&config.owners, owner).len() {
            return Err(MultisigError::ThresholdUnreachable);
        }
        Self::_create_proposal(
            config,
            counter,
            this,
            proposer,
            ProposalKind::RemoveOwner(owner),
            expiry_ledger,
        )
    }

    fn _propose(
        config: &mut Config,
        counter: Option<u64>,
        this: Address,
        proposer: Address,
        kind: ProposalKind,
        expiry_ledger: u32,
    ) -> (made: Result<NewProposal, MultisigError>)
        requires
            kind is Transfer,
        ensures
            delivers(
                made,
                old(config)@,
                final(config)@,
                proposal_outcome(old(config)@, counter, this, proposer, kind, expiry_ledger),
            ),
    {
        if !Self::_is_owner(config, proposer) {
            return Err(MultisigError::NotAnOwner);
        }
        Self::_create_proposal(config, counter, this, proposer, kind, expiry_ledger)
    }

    fn _create_proposal(
        config: &mut Config,
        counter: Option<u64>,
        this: Address,
        proposer: Address,
        kind: ProposalKind,
        expiry_ledger: u32,
    ) -> (made: Result<NewProposal, MultisigError>)
        ensures
            delivers(
                made,
                old(config)@,
                final(config)@,
                creation(old(config)@, counter, this, proposer, kind, expiry_ledger),
            ),
    {
        let (id, next_counter) = match allocate_id(counter) {
            Some(ids) => ids,
            None => {
                return Err(MultisigError::Overflow);
            },
        };
        let mut approvals: Vec<Address> = Vec::new();
        approvals.push(proposer);
        let mut proposal = Proposal {
            proposer,
            kind,
            approvals,
            status: ProposalStatus::Pending,
            expiry_ledger,
        };
        assert(proposal@ =~= fresh_proposal(proposer, kind, expiry_ledger));
        let mut payment: Option<Transfer> = None;
        if config.threshold == 1 {
            payment = match Self::_execute(&mut proposal, config, this) {
                Ok(paid) => paid,
                Err(e) => {
                    return Err(e);
                },
            };
        }
        Ok(NewProposal { id, next_counter, proposal, payment })
    }

    /// An owner approves a pending, unexpired proposal at ledger `now`; the
    /// proposal executes once its approvals from current owners reach the
    /// threshold.
    pub fn approve(
        config: &mut Config,
        proposal: &mut Proposal,
        this: Address,
        owner: Address,
        now: u32,
    ) -> (paid: Result<Option<Transfer>, MultisigError>)
        ensures
            match approve_error(old(config)@, old(proposal)@, owner, now) {
                Some(err) => paid == Err::<Option<Transfer>, MultisigError>(err) && final(config)@
                    == old(config)@ && final(proposal)@ == old(proposal)@,
                None => paid == Ok::<Option<Transfer>, MultisigError>(
                    approved_payment(old(config)@, old(proposal)@, this),
                ) && final(config)@ == approved_config(old(config)@, old(proposal)@)
                    && final(proposal)@ == approved(old(config)@, old(proposal)@, owner),
            },
    {
        if !Self::_is_owner(config, owner) {
            return Err(MultisigError::NotAnOwner);
        }
        if proposal.status != ProposalStatus::Pending {
            return Err(MultisigError::NotPending);
        }
        if now > proposal.expiry_ledger {
            return Err(MultisigError::Expired);
        }
        if contains(&proposal.approvals, owner) {
            return Err(MultisigError::AlreadyApproved);
        }
        let ghost p0 = proposal@;
        let current = count_owner_approvals(&proposal.approvals, &config.owners);
        proposal.approvals.push(owner);
        if config.threshold == 0 || current >= (config.threshold - 1) as usize {
            match Self::_execute(proposal, config, this) {
                Ok(paid) => Ok(paid),
                Err(e) => {
                    proposal.approvals.pop();
                    assert(proposal.approvals@ =~= p0.approvals);
                    Err(e)
                },
            }
        } else {
            Ok(None)
        }
    }

    /// The proposer cancels a pending proposal.
    pub fn cancel(proposal: &mut Proposal, proposer: Address) -> (done: Result<(), MultisigError>)
        ensures
            match cancel_error(old(proposal)@, proposer) {
                Some(err) => done == Err::<(), MultisigError>(err) && final(proposal)@ == old(
                    proposal,
                )@,
                None => done is Ok && final(proposal)@ == (ProposalView {
                    status: ProposalStatus::Cancelled,
                    ..old(proposal)@
                }),
            },
    {
        if proposal.status != ProposalStatus::Pending {
            return Err(MultisigError::NotPending);
        }
        if proposer != proposal.proposer {
            return Err(MultisigError::Unauthorized);
        }
        proposal.status = ProposalStatus::Cancelled;
        Ok(())
    }

    fn _execute(proposal: &mut Proposal, config: &mut Config, this: Address) -> (paid: Result<
        Option<Transfer>,
        MultisigError,
    >)
        ensures
            match execute_error(old(proposal).kind, old(config)@) {
                Some(err) => paid == Err::<Option<Transfer>, MultisigError>(err) && final(config)@
                    == old(config)@ && final(proposal)@ == old(proposal)@,
                None => paid == Ok::<Option<Transfer>, MultisigError>(
                    executed_payment(old(proposal).kind, this),
                ) && final(config)@ == executed_config(old(proposal).kind, old(config)@)
                    && final(proposal)@ == executed(old(proposal)@),
            },
    {
        let payment: Option<Transfer> = match proposal.kind {
            ProposalKind::Transfer(to, token, amount) => Some(
                Transfer { token, from: this, to, amount },
            ),
            ProposalKind::AddOwner(owner) => {
                if Self::_is_owner(config, owner) {
                    return Err(MultisigError::OwnerAlreadyExists);
                }
                config.owners.push(owner);
                None
            },
            ProposalKind::RemoveOwner(owner) => {
                if !Self::_is_owner(config, owner) {
                    return Err(MultisigError::OwnerNotFound);
                }
                let rest = remove_all(&config.owners, owner);
                if config.threshold as usize > rest.len() {
                    return Err(MultisigError::ThresholdUnreachable);
                }
                config.owners = rest;
                None
            },
        };
        proposal.status = ProposalStatus::Executed;
        Ok(payment)
    }

    /// Whether `addr` is one of the owners.
    pub fn _is_owner(config: &Config, addr: Address) -> (owner: bool)
        ensures
            owner == config.owners@.contains(addr),
    {
        contains(&config.owners, addr)
    }
}

/// Taking an address out of a list keeps every other entry and no copy of
/// it; from a list without repeats it takes exactly one entry when present.
pub proof fn lemma_without(s: Seq<Address>, a: Address)
    ensures
        forall|x: Address| #[trigger] without(s, a).contains(x) <==> (s.contains(x) && x != a),
        s.no_duplicates() ==> without(s, a).no_duplicates(),
        s.no_duplicates() && s.contains(a) ==> without(s, a).len() == s.len() - 1,
        !s.contains(a) ==> without(s, a) == s,
    decreases s.len(),
{
    if s.len() > 0 {
        let init = s.drop_last();
        lemma_without(init, a);
        assert(s =~= init.push(s.last()));
        assert forall|x: Address| s.contains(x) <==> (init.contains(x) || x == s.last()) by {
            if s.contains(x) {
                let k = choose|k: int| 0 <= k < s.len() && s[k] == x;
                if k < s.len() - 1 {
                    assert(init[k] == x);
                }
            }
            if init.contains(x) {
                let k = choose|k: int| 0 <= k < init.len() && init[k] == x;
                assert(s[k] == x);
            }
            if x == s.last() {
                assert(s[s.len() - 1] == x);
            }
        }
        let w = without(init, a);
        if s.last() != a {
            assert forall|x: Address| #[trigger] w.push(s.last()).contains(x) <==> (w.contains(x)
                || x == s.last()) by {
                if w.push(s.last()).contains(x) {
                    let k = choose|k: int| 0 <= k < w.push(s.last()).len() && w.push(s.last())[k] == x;
                    if k < w.len() {
                        assert(w[k] == x);
                    }
                }
                if w.contains(x) {
                    let k = choose|k: int| 0 <= k < w.len() && w[k] == x;
                    assert(w.push(s.last())[k] == x);
                }
                if x == s.last() {
                    assert(w.push(s.last())[w.len() as int] == x);
                }
            }
        }
        if s.no_duplicates() {
            assert(init.no_duplicates()) by {
                assert forall|i: int, j: int| 0 <= i < init.len() && 0 <= j < init.len() && i != j
                    implies init[i] != init[j] by {
                    assert(s[i] == init[i] && s[j] == init[j]);
                }
            }
            assert(!init.contains(s.last())) by {
                if init.contains(s.last()) {
                    let k = choose|k: int| 0 <= k < init.len() && init[k] == s.last();
                    assert(s[k] == s[s.len() - 1]);
                }
            }
            if s.last() != a {
                let v = w.push(s.last());
                assert(!w.contains(s.last()));
                assert forall|i: int, j: int| 0 <= i < v.len() && 0 <= j < v.len() && i != j
                    implies v[i] != v[j] by {
                    if i < w.len() && j < w.len() {
                        assert(v[i] == w[i] && v[j] == w[j]);
                    } else if i < w.len() {
                        assert(v[i] == w[i]);
                        assert(w.contains(w[i]));
                    } else if j < w.len() {
                        assert(v[j] == w[j]);
                        assert(w.contains(w[j]));
                    }
                }
            }
            if s.contains(a) && s.last() != a {
                assert(init.contains(a));
            }
            if s.last() == a {
                assert(!init.contains(a));
            }
        }
    }
}

/// The configuration keeps a reachable threshold: positive and no larger
/// than the number of owners.
pub open spec fn threshold_reachable(c: ConfigView) -> bool {
    0 < c.threshold <= c.owners.len()
}

/// Owner changes keep the wallet usable: if the threshold is reachable, it
/// still is after any proposal executes, whatever the owner list holds; and
/// an owner list without repeats keeps none.
pub proof fn law_threshold_stays_reachable(kind: ProposalKind, c: ConfigView)
    requires
        threshold_reachable(c),
        execute_error(kind, c) is None,
    ensures
        threshold_reachable(executed_config(kind, c)),
        config_ok(c) ==> config_ok(executed_config(kind, c)),
{
    match kind {
        ProposalKind::Transfer(_, _, _) => {},
        ProposalKind::AddOwner(o) => {
            let v = c.owners.push(o);
            assert forall|i: int, j: int| 0 <= i < v.len() && 0 <= j < v.len() && i != j && c.owners.no_duplicates() implies v[i]
                != v[j] by {
                if i < c.owners.len() && j < c.owners.len() {
                    assert(v[i] == c.owners[i] && v[j] == c.owners[j]);
                } else if i < c.owners.len() {
                    assert(c.owners.contains(c.owners[i]));
                } else if j < c.owners.len() {
                    assert(c.owners.contains(c.owners[j]));
                }
            }
        },
        ProposalKind::RemoveOwner(o) => {
            lemma_without(c.owners, o);
        },
    }
}

/// Counting one more approval from a current owner adds one.
pub proof fn lemma_owner_approvals_push(approvals: Seq<Address>, owners: Seq<Address>, who: Address)
    requires
        owners.contains(who),
    ensures
        owner_approvals(approvals.push(who), owners) == owner_approvals(approvals, owners) + 1,
{
    assert(approvals.push(who).drop_last() =~= approvals);
}

/// The owners and the funds change only through a proposal that executes
/// with at least as many approvals from current owners as the threshold
/// asks: on an approval, and on a new proposal, which executes at once only
/// at threshold one.
pub proof fn law_changes_need_threshold_approvals(
    c: ConfigView,
    p: ProposalView,
    owner: Address,
    now: u32,
    this: Address,
    counter: Option<u64>,
    kind: ProposalKind,
    expiry_ledger: u32,
)
    ensures
        approve_error(c, p, owner, now) is None && (approved_config(c, p) != c || approved_payment(
            c,
            p,
            this,
        ) is Some) ==> approved(c, p, owner).status == ProposalStatus::Executed && owner_approvals(
            approved(c, p, owner).approvals,
            c.owners,
        ) >= c.threshold,
        proposal_outcome(c, counter, this, owner, kind, expiry_ledger) matches Ok((id, q, c2, pay))
            ==> ((c2 != c || pay is Some) ==> q.status == ProposalStatus::Executed
            && owner_approvals(q.approvals, c.owners) >= c.threshold),
{
    if approve_error(c, p, owner, now) is None {
        lemma_owner_approvals_push(p.approvals, c.owners, owner);
    }
    if propose_error(c, owner, kind) is None {
        lemma_owner_approvals_push(Seq::empty(), c.owners, owner);
        assert(Seq::<Address>::empty().push(owner) =~= seq![owner]);
    }
}

/// An owner approves a proposal at most once: approvals start with the
/// proposer alone, and an approval adds an owner not yet among them.
pub proof fn law_each_owner_approves_once(
    c: ConfigView,
    p: ProposalView,
    owner: Address,
    now: u32,
    proposer: Address,
    kind: ProposalKind,
    expiry_ledger: u32,
)
    requires
        p.approvals.no_duplicates(),
    ensures
        fresh_proposal(proposer, kind, expiry_ledger).approvals.no_duplicates(),
        approve_error(c, p, owner, now) is None ==> c.owners.contains(owner) && approved(
            c,
            p,
            owner,
        ).approvals.no_duplicates(),
        approve_error(c, p, owner, now) is None ==> approve_error(
            c,
            approved(c, p, owner),
            owner,
            now,
        ) is Some,
{
    if approve_error(c, p, owner, now) is None {
        let v = p.approvals.push(owner);
        assert forall|i: int, j: int| 0 <= i < v.len() && 0 <= j < v.len() && i != j implies v[i]
            != v[j] by {
            if i < p.approvals.len() && j < p.approvals.len() {
                assert(v[i] == p.approvals[i] && v[j] == p.approvals[j]);
            } else if i < p.approvals.len() {
                assert(p.approvals.contains(p.approvals[i]));
            } else if j < p.approvals.len() {
                assert(p.approvals.contains(p.approvals[j]));
            }
        }
        assert(v[p.approvals.len() as int] == owner);
        assert(v.contains(owner));
    }
}

/// An executed or cancelled proposal is closed for good: approvals and
/// cancellation are rejected.
pub proof fn law_closed_proposal_is_final(
    c: ConfigView,
    p: ProposalView,
    owner: Address,
    now: u32,
    proposer: Address,
)
    requires
        p.status != ProposalStatus::Pending,
    ensures
        approve_error(c, p, owner, now) == Some(MultisigError::NotAnOwner) || approve_error(
            c,
            p,
            owner,
            now,
        ) == Some(MultisigError::NotPending),
        cancel_error(p, proposer) == Some(MultisigError::NotPending),
{
}

/// An owner's proposal is stored with the proposer as its only approval. At
/// threshold one it executes at once, whatever the number of owners: a
/// transfer pays its amount from the wallet, an owner is added at the end or
/// removed, and the proposal is executed. Above threshold one it waits,
/// pending, paying nothing and changing no owner.
pub proof fn law_threshold_one_executes_at_creation(
    c: ConfigView,
    counter: Option<u64>,
    this: Address,
    proposer: Address,
    kind: ProposalKind,
    expiry_ledger: u32,
)
    requires
        c.owners.contains(proposer),
        stored_count(counter) < u64::MAX,
        kind matches ProposalKind::AddOwner(o) ==> !c.owners.contains(o),
        kind matches ProposalKind::RemoveOwner(o) ==> c.owners.contains(o) && c.threshold
            <= without(c.owners, o).len(),
    ensures
        proposal_outcome(c, counter, this, proposer, kind, expiry_ledger) matches Ok(
            (id, q, c2, pay),
        ) && id == stored_count(counter) && q.proposer == proposer && q.kind == kind
            && q.expiry_ledger == expiry_ledger && q.approvals == seq![proposer] && if c.threshold
            == 1 {
            &&& q.status == ProposalStatus::Executed
            &&& match kind {
                ProposalKind::Transfer(to, token, amount) => pay == Some(
                    Transfer { token, from: this, to, amount },
                ) && c2 == c,
                ProposalKind::AddOwner(o) => pay is None && c2.owners == c.owners.push(o)
                    && c2.threshold == c.threshold,
                ProposalKind::RemoveOwner(o) => pay is None && c2.threshold == c.threshold
                    && !c2.owners.contains(o) && forall|x: Address|
                    x != o ==> (#[trigger] c2.owners.contains(x) <==> c.owners.contains(x)),
            }
        } else {
            q.status == ProposalStatus::Pending && pay is None && c2 == c
        },
{
    match kind {
        ProposalKind::RemoveOwner(o) => {
            lemma_without(c.owners, o);
        },
        _ => {},
    }
}

/// When an owner's proposal is rejected before it is stored: the proposer
/// is not an owner, a new owner is one already, a removed owner is none, or
/// removing leaves fewer owners than the threshold.
pub proof fn law_proposal_accepted_exactly_when_allowed(
    c: ConfigView,
    proposer: Address,
    kind: ProposalKind,
)
    ensures
        propose_error(c, proposer, kind) is None <==> (c.owners.contains(proposer) && match kind {
            ProposalKind::Transfer(_, _, _) => true,
            ProposalKind::AddOwner(o) => !c.owners.contains(o),
            ProposalKind::RemoveOwner(o) => c.owners.contains(o) && c.threshold <= without(
                c.owners,
                o,
            ).len(),
        }),
{
}

/// When `approve` accepts an approval: the approver is a current owner, the
/// proposal is pending and not expired at the ledger, the owner has not
/// approved it yet, and, if the approval reaches the threshold, the proposal
/// can execute. The approver is recorded last; the proposal executes exactly
/// when the approvals from current owners, this one included, reach the
/// threshold, and otherwise stays pending with the owners and funds untouched.
pub proof fn law_approve_records_and_executes_at_threshold(
    c: ConfigView,
    p: ProposalView,
    owner: Address,
    now: u32,
    this: Address,
)
    ensures
        !reaches_threshold(c, p) ==> (approve_error(c, p, owner, now) is None <==> (
        c.owners.contains(owner) && p.status == ProposalStatus::Pending && now <= p.expiry_ledger
            && !p.approvals.contains(owner))),
        approve_error(c, p, owner, now) is None ==> ({
            let q = approved(c, p, owner);
            &&& q.approvals == p.approvals.push(owner)
            &&& (q.status == ProposalStatus::Executed <==> owner_approvals(q.approvals, c.owners)
                >= c.threshold)
            &&& (q.status == ProposalStatus::Pending <==> owner_approvals(q.approvals, c.owners)
                < c.threshold)
            &&& q.status == ProposalStatus::Pending ==> approved_config(c, p) == c
                && approved_payment(c, p, this) is None
            &&& q.status == ProposalStatus::Executed ==> approved_config(c, p) == executed_config(
                p.kind,
                c,
            ) && approved_payment(c, p, this) == executed_payment(p.kind, this)
            &&& q.proposer == p.proposer && q.kind == p.kind && q.expiry_ledger == p.expiry_ledger
        }),
        cancel_error(p, owner) is None <==> (p.status == ProposalStatus::Pending && owner
            == p.proposer),
{
    if approve_error(c, p, owner, now) is None {
        lemma_owner_approvals_push(p.approvals, c.owners, owner);
    }
}

/// What executing a proposal does: a transfer pays its amount of its token
/// from the wallet to its recipient and leaves the owners alone; adding an
/// owner appends it; removing an owner takes it out and keeps every other
/// owner in order. The threshold never changes.
pub proof fn law_execution_effects(kind: ProposalKind, c: ConfigView, this: Address)
    ensures
        executed_config(kind, c).threshold == c.threshold,
        kind matches ProposalKind::Transfer(to, token, amount) ==> executed_payment(kind, this)
            == Some(Transfer { token, from: this, to, amount }) && executed_config(kind, c) == c,
        kind matches ProposalKind::AddOwner(o) ==> executed_payment(kind, this) is None
            && executed_config(kind, c).owners == c.owners.push(o),
        kind matches ProposalKind::RemoveOwner(o) ==> executed_payment(kind, this) is None && (
        forall|x: Address|
            #[trigger] executed_config(kind, c).owners.contains(x) <==> (c.owners.contains(x) && x
                != o)),
{
    match kind {
        ProposalKind::RemoveOwner(o) => {
            lemma_without(c.owners, o);
        },
        _ => {},
    }
}

} // verus!
