//! Milestone escrow: a depositor locks funds split across milestones; the
//! arbiter or the depositor releases them to the beneficiary, the beneficiary
//! may raise a dispute that the arbiter settles, and after expiry the
//! depositor may take back what was not released.
use vstd::prelude::*;
use crate::address::{Address, Transfer};
use crate::arith::{fits_i128, seq_sum, sum_fits, lemma_sum_take_step, lemma_take_full, lemma_sum_update, lemma_sum_zeros, lemma_sum_nonneg};
use crate::counter::{allocate_id, stored_count};

verus! {

/// Where an escrow stands.
#[derive(Clone, Copy, PartialEq, Eq, Debug, Structural)]
pub enum EscrowStatus {
    Active,
    Completed,
    Disputed,
    Refunded,
}

/// One tranche of an escrow: its amount and how much of it has been paid out.
#[derive(Clone, Copy, PartialEq, Eq, Debug, Structural)]
pub struct Milestone {
    pub amount: i128,
    pub released_amount: i128,
}

/// An escrow as stored by the contract.
#[derive(Debug)]
pub struct Escrow {
    pub depositor: Address,
    pub beneficiary: Address,
    pub arbiter: Address,
    pub token: Address,
    pub milestones: Vec<Milestone>,
    pub status: EscrowStatus,
    pub expiry_ledger: u32,
}

/// The mathematical value of an [`Escrow`].
#[verifier::ext_equal]
pub struct EscrowView {
    pub depositor: Address,
    pub beneficiary: Address,
    pub arbiter: Address,
    pub token: Address,
    pub milestones: Seq<Milestone>,
    pub status: EscrowStatus,
    pub expiry_ledger: u32,
}

impl View for Escrow {
    type V = EscrowView;

    open spec fn view(&self) -> EscrowView {
        EscrowView {
            depositor: self.depositor,
            beneficiary: self.beneficiary,
            arbiter: self.arbiter,
            token: self.token,
            milestones: self.milestones@,
            status: self.status,
            expiry_ledger: self.expiry_ledger,
        }
    }
}

impl Clone for Escrow {
    fn clone(&self) -> (copy: Self)
        ensures
            copy@ == self@,
    {
        let milestones = self.milestones.clone();
        assert(milestones@ =~= self.milestones@);
        Escrow {
            depositor: self.depositor,
            beneficiary: self.beneficiary,
            arbiter: self.arbiter,
            token: self.token,
            milestones,
            status: self.status,
            expiry_ledger: self.expiry_ledger,
        }
    }
}

/// Storage keys: one persistent entry per escrow id, and the id counter.
#[derive(Clone, Copy, PartialEq, Eq, Debug, Structural)]
pub enum DataKey {
    Escrow(u64),
    Counter,
}

/// Why a call on the escrow contract is rejected.
#[derive(Clone, Copy, PartialEq, Eq, Debug, Structural)]
pub enum EscrowError {
    NoMilestones,
    NotActive,
    Unauthorized,
    InvalidAmount,
    MilestoneNotFound,
    ReleaseExceedsRemaining,
    NotDisputed,
    NotExpired,
    Overflow,
}

/// The text that names each error.
pub open spec fn escrow_error_text(e: EscrowError) -> Seq<char> {
    match e {
        EscrowError::NoMilestones => "no milestones"@,
        EscrowError::NotActive => "not active"@,
        EscrowError::Unauthorized => "unauthorized"@,
        EscrowError::InvalidAmount => "invalid amount"@,
        EscrowError::MilestoneNotFound => "milestone not found"@,
        EscrowError::ReleaseExceedsRemaining => "release exceeds remaining"@,
        EscrowError::NotDisputed => "not disputed"@,
        EscrowError::NotExpired => "not expired"@,
        EscrowError::Overflow => "arithmetic overflow"@,
    }
}

impl EscrowError {
    /// The message with which the contract aborts on this error.
    pub fn message(&self) -> (text: &'static str)
        ensures
            text@ == escrow_error_text(*self),
    {
        match self {
            EscrowError::NoMilestones => "no milestones",
            EscrowError::NotActive => "not active",
            EscrowError::Unauthorized => "unauthorized",
            EscrowError::InvalidAmount => "invalid amount",
            EscrowError::MilestoneNotFound => "milestone not found",
            EscrowError::ReleaseExceedsRemaining => "release exceeds remaining",
            EscrowError::NotDisputed => "not disputed",
            EscrowError::NotExpired => "not expired",
            EscrowError::Overflow => "arithmetic overflow",
        }
    }
}

/// The escrow contract.
pub struct EscrowContract;

/// A newly created escrow, its id, the id counter to store, and the deposit
/// to collect from the depositor.
pub struct NewEscrow {
    pub id: u64,
    pub next_counter: u64,
    pub escrow: Escrow,
    pub deposit: Transfer,
}

/// The amounts as integers.
pub open spec fn amounts_int(amounts: Seq<i128>) -> Seq<int> {
    amounts.map_values(|a: i128| a as int)
}

/// What is still to be paid out of each milestone.
pub open spec fn unreleased(ms: Seq<Milestone>) -> Seq<int> {
    ms.map_values(|m: Milestone| m.amount - m.released_amount)
}

/// Whether adding up what is left of each milestone stays within `i128`.
pub open spec fn unreleased_fits(ms: Seq<Milestone>) -> bool {
    &&& forall|i: int| 0 <= i < ms.len() ==> fits_i128(#[trigger] unreleased(ms)[i])
    &&& sum_fits(unreleased(ms))
}

/// Whether every milestone has been paid out in full.
pub open spec fn all_released(ms: Seq<Milestone>) -> bool {
    forall|i: int| 0 <= i < ms.len() ==> #[trigger] ms[i].released_amount == ms[i].amount
}

/// The funds that the contract still holds for an escrow: what is left of its
/// milestones while it is open, nothing once it is settled.
pub open spec fn held(e: EscrowView) -> int {
    if e.status == EscrowStatus::Active || e.status == EscrowStatus::Disputed {
        seq_sum(unreleased(e.milestones))
    } else {
        0
    }
}

/// Every milestone has paid out no more than its amount, and nothing negative.
pub open spec fn within_bounds(e: EscrowView) -> bool {
    forall|i: int|
        0 <= i < e.milestones.len() ==> 0 <= #[trigger] e.milestones[i].released_amount
            <= e.milestones[i].amount
}

/// A payment of `amount` of the escrow's token from the contract to `to`.
pub open spec fn payout(e: EscrowView, this: Address, to: Address, amount: int) -> Transfer {
    Transfer { token: e.token, from: this, to: to, amount: amount as i128 }
}

/// The escrow that `create` stores: one unreleased milestone per amount.
pub open spec fn new_escrow(
    depositor: Address,
    beneficiary: Address,
    arbiter: Address,
    token: Address,
    amounts: Seq<i128>,
    expiry_ledger: u32,
) -> EscrowView {
    EscrowView {
        depositor,
        beneficiary,
        arbiter,
        token,
        milestones: Seq::new(
            amounts.len(),
            |k: int| Milestone { amount: amounts[k], released_amount: 0 },
        ),
        status: EscrowStatus::Active,
        expiry_ledger,
    }
}

/// Why `release_milestone` rejects a call, checked in this order.
pub open spec fn release_error(e: EscrowView, caller: Address, index: u32, amount: i128) -> Option<
    EscrowError,
> {
    if e.status != EscrowStatus::Active {
        Some(EscrowError::NotActive)
    } else if caller != e.arbiter && caller != e.depositor {
        Some(EscrowError::Unauthorized)
    } else if amount <= 0 {
        Some(EscrowError::InvalidAmount)
    } else if index >= e.milestones.len() {
        Some(EscrowError::MilestoneNotFound)
    } else if !fits_i128(unreleased(e.milestones)[index as int]) {
        Some(EscrowError::Overflow)
    } else if amount > unreleased(e.milestones)[index as int] {
        Some(EscrowError::ReleaseExceedsRemaining)
    } else {
        None
    }
}

/// The escrow after `amount` of milestone `index` is paid out: it is
/// completed once every milestone is paid out in full.
pub open spec fn after_release(e: EscrowView, index: u32, amount: i128) -> EscrowView {
    let m = e.milestones[index as int];
    let ms = e.milestones.update(
        index as int,
        Milestone { amount: m.amount, released_amount: (m.released_amount + amount) as i128 },
    );
    EscrowView {
        milestones: ms,
        status: if all_released(ms) {
            EscrowStatus::Completed
        } else {
            EscrowStatus::Active
        },
        ..e
    }
}

/// Why `raise_dispute` rejects a call.
pub open spec fn raise_error(e: EscrowView, beneficiary: Address) -> Option<EscrowError> {
    if e.status != EscrowStatus::Active {
        Some(EscrowError::NotActive)
    } else if beneficiary != e.beneficiary {
        Some(EscrowError::Unauthorized)
    } else {
        None
    }
}

/// Why `resolve_dispute` rejects a call.
pub open spec fn resolve_error(e: EscrowView, arbiter: Address) -> Option<EscrowError> {
    if e.status != EscrowStatus::Disputed {
        Some(EscrowError::NotDisputed)
    } else if arbiter != e.arbiter {
        Some(EscrowError::Unauthorized)
    } else if !unreleased_fits(e.milestones) {
        Some(EscrowError::Overflow)
    } else {
        None
    }
}

/// Every milestone marked as paid out in full.
pub open spec fn settled(ms: Seq<Milestone>) -> Seq<Milestone> {
    ms.map_values(|m: Milestone| Milestone { amount: m.amount, released_amount: m.amount })
}

/// The escrow after the arbiter settles a dispute.
pub open spec fn after_resolve(e: EscrowView, release_to_beneficiary: bool) -> EscrowView {
    if release_to_beneficiary {
        EscrowView { milestones: settled(e.milestones), status: EscrowStatus::Completed, ..e }
    } else {
        EscrowView { status: EscrowStatus::Refunded, ..e }
    }
}

/// Why `reclaim_expired` rejects a call at ledger `now`.
pub open spec fn reclaim_error(e: EscrowView, depositor: Address, now: u32) -> Option<EscrowError> {
    if e.status != EscrowStatus::Active {
        Some(EscrowError::NotActive)
    } else if depositor != e.depositor {
        Some(EscrowError::Unauthorized)
    } else if now <= e.expiry_ledger {
        Some(EscrowError::NotExpired)
    } else if !unreleased_fits(e.milestones) {
        Some(EscrowError::Overflow)
    } else {
        None
    }
}

/// The escrow after the depositor takes back what is left.
pub open spec fn after_reclaim(e: EscrowView) -> EscrowView {
    EscrowView { status: EscrowStatus::Refunded, ..e }
}

/// What is left of every milestone, added up; `None` where the total leaves `i128`.
fn unreleased_total(ms: &Vec<Milestone>) -> (total: Option<i128>)
    ensures
        total is Some <==> unreleased_fits(ms@),
        total matches Some(t) ==> t == seq_sum(unreleased(ms@)),
{
    let ghost s = unreleased(ms@);
    let mut total: i128 = 0;
    let mut i: usize = 0;
    assert(s.take(0) =~= Seq::<int>::empty());
    while i < ms.len()
        invariant
            i <= ms.len(),
            s == unreleased(ms@),
            s.len() == ms@.len(),
            total == seq_sum(s.take(i as int)),
            forall|k: int| 0 <= k <= i ==> #[trigger] fits_i128(seq_sum(s.take(k))),
            forall|k: int| 0 <= k < i ==> fits_i128(#[trigger] s[k]),
        decreases ms.len() - i,
    {
        let m = ms[i];
        assert(s[i as int] == m.amount - m.released_amount);
        let left = match m.amount.checked_sub(m.released_amount) {
            Some(x) => x,
            None => {
                return None;
            },
        };
        proof {
            lemma_sum_take_step(s, i as int);
        }
        total = match total.checked_add(left) {
            Some(t) => t,
            None => {
                assert(!fits_i128(seq_sum(s.take(i + 1))));
                return None;
            },
        };
        i += 1;
    }
    proof {
        lemma_take_full(s);
    }
    Some(total)
}

/// Whether every milestone is paid out in full.
fn all_milestones_released(ms: &Vec<Milestone>) -> (done: bool)
    ensures
        done == all_released(ms@),
{
    let mut i: usize = 0;
    while i < ms.len()
        invariant
            i <= ms.len(),
            forall|k: int| 0 <= k < i ==> #[trigger] ms@[k].released_amount == ms@[k].amount,
        decreases ms.len() - i,
    {
        if ms[i].released_amount != ms[i].amount {
            return false;
        }
        i += 1;
    }
    true
}

impl EscrowContract {
    /// Creates an escrow with one milestone per amount; there must be at
    /// least one. The new escrow takes the id that the counter holds; the
    /// depositor pays the sum of the amounts into the contract (`this`).
    pub fn create(
        counter: Option<u64>,
        this: Address,
        depositor: Address,
        beneficiary: Address,
        arbiter: Address,
        token: Address,
        amounts: &Vec<i128>,
        expiry_ledger: u32,
    ) -> (created: Result<NewEscrow, EscrowError>)
        ensures
            amounts@.len() == 0 ==> created == Err::<NewEscrow, EscrowError>(
                EscrowError::NoMilestones,
            ),
            amounts@.len() > 0 ==> (created is Err <==> !sum_fits(amounts_int(amounts@))
                || stored_count(counter) == u64::MAX),
            amounts@.len() > 0 ==> (created matches Err(e) ==> e == EscrowError::Overflow),
            created matches Ok(n) ==> {
                &&& n.id == stored_count(counter)
                &&& n.next_counter == n.id + 1
                &&& n.escrow@ == new_escrow(
                    depositor,
                    beneficiary,
                    arbiter,
                    token,
                    amounts@,
                    expiry_ledger,
                )
                &&& n.deposit.token == token
                &&& n.deposit.from == depositor
                &&& n.deposit.to == this
                &&& n.deposit.amount == seq_sum(amounts_int(amounts@))
                &&& n.escrow.milestones@.len() == amounts@.len()
                &&& forall|k: int|
                    0 <= k < amounts@.len() ==> (#[trigger] n.escrow.milestones@[k]).amount
                        == amounts@[k] && n.escrow.milestones@[k].released_amount == 0
            },
    {
        if amounts.len() == 0 {
            return Err(EscrowError::NoMilestones);
        }
        let ghost s = amounts_int(amounts@);
        let mut total: i128 = 0;
        let mut i: usize = 0;
        assert(s.take(0) =~= Seq::<int>::empty());
        while i < amounts.len()
            invariant
                i <= amounts.len(),
                s == amounts_int(amounts@),
                s.len() == amounts@.len(),
                total == seq_sum(s.take(i as int)),
                forall|k: int| 0 <= k <= i ==> #[trigger] fits_i128(seq_sum(s.take(k))),
            decreases amounts.len() - i,
        {
            proof {
                lemma_sum_take_step(s, i as int);
            }
            total = match total.checked_add(amounts[i]) {
                Some(t) => t,
                None => {
                    assert(!fits_i128(seq_sum(s.take(i + 1))));
                    return Err(EscrowError::Overflow);
                },
            };
            i += 1;
        }
        proof {
            lemma_take_full(s);
        }
        let (id, next_counter) = match allocate_id(counter) {
            Some(ids) => ids,
            None => {
                return Err(EscrowError::Overflow);
            },
        };
        let mut milestones: Vec<Milestone> = Vec::new();
        let mut j: usize = 0;
        while j < amounts.len()
            invariant
                j <= amounts.len(),
                milestones@.len() == j,
                forall|k: int|
                    0 <= k < j ==> #[trigger] milestones@[k] == (Milestone {
                        amount: amounts@[k],
                        released_amount: 0,
                    }),
            decreases amounts.len() - j,
        {
            milestones.push(Milestone { amount: amounts[j], released_amount: 0 });
            j += 1;
        }
        let escrow = Escrow {
            depositor,
            beneficiary,
            arbiter,
            token,
            milestones,
            status: EscrowStatus::Active,
            expiry_ledger,
        };
        assert(escrow@.milestones =~= new_escrow(
            depositor,
            beneficiary,
            arbiter,
            token,
            amounts@,
            expiry_ledger,
        ).milestones);
        Ok(
            NewEscrow {
                id,
                next_counter,
                escrow,
                deposit: Transfer { token, from: depositor, to: this, amount: total },
            },
        )
    }

    /// The arbiter or the depositor pays `amount` of milestone
    /// `milestone_index` to the beneficiary. The escrow is completed once
    /// every milestone is paid out in full.
    pub fn release_milestone(
        escrow: &mut Escrow,
        this: Address,
        caller: Address,
        milestone_index: u32,
        amount: i128,
    ) -> (paid: Result<Transfer, EscrowError>)
        ensures
            match release_error(old(escrow)@, caller, milestone_index, amount) {
                Some(err) => paid == Err::<Transfer, EscrowError>(err) && final(escrow)@ == old(
                    escrow,
                )@,
                None => paid == Ok::<Transfer, EscrowError>(
                    payout(old(escrow)@, this, old(escrow)@.beneficiary, amount as int),
                ) && final(escrow)@ == after_release(old(escrow)@, milestone_index, amount),
            },
    {
        if escrow.status != EscrowStatus::Active {
            return Err(EscrowError::NotActive);
        }
        let caller_is_arbiter = caller == escrow.arbiter;
        let caller_is_depositor = caller == escrow.depositor;
        if !(caller_is_arbiter || caller_is_depositor) {
            return Err(EscrowError::Unauthorized);
        }
        if amount <= 0 {
            return Err(EscrowError::InvalidAmount);
        }
        let index = milestone_index as usize;
        if index >= escrow.milestones.len() {
            return Err(EscrowError::MilestoneNotFound);
        }
        let m = escrow.milestones[index];
        assert(unreleased(escrow.milestones@)[index as int] == m.amount - m.released_amount);
        let remaining = match m.amount.checked_sub(m.released_amount) {
            Some(r) => r,
            None => {
                return Err(EscrowError::Overflow);
            },
        };
        if amount > remaining {
            return Err(EscrowError::ReleaseExceedsRemaining);
        }
        let updated = Milestone { amount: m.amount, released_amount: m.released_amount + amount };
        escrow.milestones.set(index, updated);
        if all_milestones_released(&escrow.milestones) {
            escrow.status = EscrowStatus::Completed;
        }
        Ok(Transfer { token: escrow.token, from: this, to: escrow.beneficiary, amount })
    }

    /// The beneficiary disputes an active escrow.
    pub fn raise_dispute(escrow: &mut Escrow, beneficiary: Address) -> (done: Result<
        (),
        EscrowError,
    >)
        ensures
            match raise_error(old(escrow)@, beneficiary) {
                Some(err) => done == Err::<(), EscrowError>(err) && final(escrow)@ == old(escrow)@,
                None => done is Ok && final(escrow)@ == (EscrowView {
                    status: EscrowStatus::Disputed,
                    ..old(escrow)@
                }),
            },
    {
        if escrow.status != EscrowStatus::Active {
            return Err(EscrowError::NotActive);
        }
        if beneficiary != escrow.beneficiary {
            return Err(EscrowError::Unauthorized);
        }
        escrow.status = EscrowStatus::Disputed;
        Ok(())
    }

    /// The arbiter settles a dispute: everything not yet released goes to the
    /// beneficiary (the escrow completes, every milestone paid out in full)
    /// or back to the depositor (the escrow is refunded).
    pub fn resolve_dispute(
        escrow: &mut Escrow,
        this: Address,
        arbiter: Address,
        release_to_beneficiary: bool,
    ) -> (paid: Result<Transfer, EscrowError>)
        ensures
            match resolve_error(old(escrow)@, arbiter) {
                Some(err) => paid == Err::<Transfer, EscrowError>(err) && final(escrow)@ == old(
                    escrow,
                )@,
                None => paid == Ok::<Transfer, EscrowError>(
                    payout(
                        old(escrow)@,
                        this,
                        if release_to_beneficiary {
                            old(escrow)@.beneficiary
                        } else {
                            old(escrow)@.depositor
                        },
                        seq_sum(unreleased(old(escrow)@.milestones)),
                    ),
                ) && final(escrow)@ == after_resolve(old(escrow)@, release_to_beneficiary),
            },
    {
        if escrow.status != EscrowStatus::Disputed {
            return Err(EscrowError::NotDisputed);
        }
        if arbiter != escrow.arbiter {
            return Err(EscrowError::Unauthorized);
        }
        let remaining = match unreleased_total(&escrow.milestones) {
            Some(t) => t,
            None => {
                return Err(EscrowError::Overflow);
            },
        };
        let recipient = if release_to_beneficiary {
            escrow.beneficiary
        } else {
            escrow.depositor
        };
        if release_to_beneficiary {
            let ghost before = escrow.milestones@;
            let ghost e0 = escrow@;
            let mut i: usize = 0;
            while i < escrow.milestones.len()
                invariant
                    i <= escrow.milestones.len(),
                    e0.milestones == before,
                    escrow@ == (EscrowView { milestones: escrow.milestones@, ..e0 }),
                    escrow.milestones@.len() == before.len(),
                    forall|k: int|
                        0 <= k < i ==> #[trigger] escrow.milestones@[k] == settled(before)[k],
                    forall|k: int|
                        i <= k < before.len() ==> #[trigger] escrow.milestones@[k] == before[k],
                decreases escrow.milestones.len() - i,
            {
                let m = escrow.milestones[i];
                escrow.milestones.set(i, Milestone { amount: m.amount, released_amount: m.amount });
                i += 1;
            }
            assert(escrow.milestones@ =~= settled(before));
            escrow.status = EscrowStatus::Completed;
        } else {
            escrow.status = EscrowStatus::Refunded;
        }
        Ok(Transfer { token: escrow.token, from: this, to: recipient, amount: remaining })
    }

    /// After the expiry ledger, the depositor takes back everything not yet
    /// released; the escrow is refunded.
    pub fn reclaim_expired(escrow: &mut Escrow, this: Address, depositor: Address, now: u32) -> (paid:
        Result<Transfer, EscrowError>)
        ensures
            match reclaim_error(old(escrow)@, depositor, now) {
                Some(err) => paid == Err::<Transfer, EscrowError>(err) && final(escrow)@ == old(
                    escrow,
                )@,
                None => paid == Ok::<Transfer, EscrowError>(
                    payout(
                        old(escrow)@,
                        this,
                        old(escrow)@.depositor,
                        seq_sum(unreleased(old(escrow)@.milestones)),
                    ),
                ) && final(escrow)@ == after_reclaim(old(escrow)@),
            },
    {
        if escrow.status != EscrowStatus::Active {
            return Err(EscrowError::NotActive);
        }
        if depositor != escrow.depositor {
            return Err(EscrowError::Unauthorized);
        }
        if now <= escrow.expiry_ledger {
            return Err(EscrowError::NotExpired);
        }
        let remaining = match unreleased_total(&escrow.milestones) {
            Some(t) => t,
            None => {
                return Err(EscrowError::Overflow);
            },
        };
        escrow.status = EscrowStatus::Refunded;
        Ok(Transfer { token: escrow.token, from: this, to: escrow.depositor, amount: remaining })
    }
}

/// A new escrow holds exactly the deposit collected by `create`.
pub proof fn law_new_escrow_holds_deposit(
    depositor: Address,
    beneficiary: Address,
    arbiter: Address,
    token: Address,
    amounts: Seq<i128>,
    expiry_ledger: u32,
)
    ensures
        held(new_escrow(depositor, beneficiary, arbiter, token, amounts, expiry_ledger))
            == seq_sum(amounts_int(amounts)),
        within_bounds(new_escrow(depositor, beneficiary, arbiter, token, amounts, expiry_ledger))
            <==> forall|i: int| 0 <= i < amounts.len() ==> amounts[i] >= 0,
{
    let e = new_escrow(depositor, beneficiary, arbiter, token, amounts, expiry_ledger);
    assert(unreleased(e.milestones) =~= amounts_int(amounts));
    if within_bounds(e) {
        assert forall|i: int| 0 <= i < amounts.len() implies amounts[i] >= 0 by {
            assert(0 <= e.milestones[i].released_amount <= e.milestones[i].amount);
            assert(e.milestones[i].amount == amounts[i]);
        }
    }
}

/// Every successful call pays out of an escrow exactly what leaves the funds
/// it holds: a release lowers them by the amount released, and settling a
/// dispute or reclaiming after expiry pays out all of them, leaving nothing.
/// Raising a dispute moves no funds.
pub proof fn law_payouts_match_held_funds(
    e: EscrowView,
    caller: Address,
    index: u32,
    amount: i128,
    release_to_beneficiary: bool,
    now: u32,
)
    ensures
        release_error(e, caller, index, amount) is None ==> held(after_release(e, index, amount))
            == held(e) - amount,
        raise_error(e, caller) is None ==> held(
            EscrowView { status: EscrowStatus::Disputed, ..e },
        ) == held(e),
        resolve_error(e, caller) is None ==> held(e) == seq_sum(unreleased(e.milestones)) && held(
            after_resolve(e, release_to_beneficiary),
        ) == 0,
        reclaim_error(e, caller, now) is None ==> held(e) == seq_sum(unreleased(e.milestones))
            && held(after_reclaim(e)) == 0,
{
    if release_error(e, caller, index, amount) is None {
        let i = index as int;
        let m = e.milestones[i];
        let m2 = Milestone { amount: m.amount, released_amount: (m.released_amount + amount) as i128 };
        let ms = e.milestones.update(i, m2);
        let s = unreleased(e.milestones);
        assert(unreleased(ms) =~= s.update(i, s[i] - amount));
        lemma_sum_update(s, i, s[i] - amount);
        if all_released(ms) {
            assert forall|k: int| 0 <= k < unreleased(ms).len() implies unreleased(ms)[k] == 0 by {
                assert(ms[k].released_amount == ms[k].amount);
            }
            lemma_sum_zeros(unreleased(ms));
        }
    }
}

/// No call ever pays a milestone out beyond its amount: if every milestone's
/// paid-out part lies between zero and its amount, it still does after any
/// successful call.
pub proof fn law_milestones_stay_within_bounds(
    e: EscrowView,
    caller: Address,
    index: u32,
    amount: i128,
    release_to_beneficiary: bool,
    now: u32,
)
    requires
        within_bounds(e),
    ensures
        release_error(e, caller, index, amount) is None ==> within_bounds(
            after_release(e, index, amount),
        ),
        raise_error(e, caller) is None ==> within_bounds(
            EscrowView { status: EscrowStatus::Disputed, ..e },
        ),
        resolve_error(e, caller) is None ==> within_bounds(
            after_resolve(e, release_to_beneficiary),
        ),
        reclaim_error(e, caller, now) is None ==> within_bounds(after_reclaim(e)),
{
    if resolve_error(e, caller) is None && release_to_beneficiary {
        let after = after_resolve(e, release_to_beneficiary);
        assert forall|i: int| 0 <= i < after.milestones.len() implies 0
            <= #[trigger] after.milestones[i].released_amount <= after.milestones[i].amount by {
            assert(0 <= e.milestones[i].released_amount <= e.milestones[i].amount);
        }
    }
}

/// A completed or refunded escrow is settled for good: every call on it is rejected.
pub proof fn law_settled_escrow_rejects_every_call(
    e: EscrowView,
    caller: Address,
    index: u32,
    amount: i128,
    now: u32,
)
    requires
        e.status == EscrowStatus::Completed || e.status == EscrowStatus::Refunded,
    ensures
        release_error(e, caller, index, amount) == Some(EscrowError::NotActive),
        raise_error(e, caller) == Some(EscrowError::NotActive),
        resolve_error(e, caller) == Some(EscrowError::NotDisputed),
        reclaim_error(e, caller, now) == Some(EscrowError::NotActive),
{
}

/// A call on an escrow, with the caller's arguments, for reasoning about
/// runs of calls.
pub enum EscrowCall {
    Release { caller: Address, index: u32, amount: i128 },
    RaiseDispute { beneficiary: Address },
    ResolveDispute { arbiter: Address, release_to_beneficiary: bool },
    ReclaimExpired { depositor: Address, now: u32 },
}

/// The escrow after a call, and the amount that the call pays out of the
/// contract; a rejected call changes nothing and pays nothing.
pub open spec fn apply_call(e: EscrowView, call: EscrowCall) -> (EscrowView, int) {
    match call {
        EscrowCall::Release { caller, index, amount } => if release_error(
            e,
            caller,
            index,
            amount,
        ) is None {
            (after_release(e, index, amount), amount as int)
        } else {
            (e, 0)
        },
        EscrowCall::RaiseDispute { beneficiary } => if raise_error(e, beneficiary) is None {
            (EscrowView { status: EscrowStatus::Disputed, ..e }, 0)
        } else {
            (e, 0)
        },
        EscrowCall::ResolveDispute { arbiter, release_to_beneficiary } => if resolve_error(
            e,
            arbiter,
        ) is None {
            (after_resolve(e, release_to_beneficiary), seq_sum(unreleased(e.milestones)))
        } else {
            (e, 0)
        },
        EscrowCall::ReclaimExpired { depositor, now } => if reclaim_error(e, depositor, now)
            is None {
            (after_reclaim(e), seq_sum(unreleased(e.milestones)))
        } else {
            (e, 0)
        },
    }
}

/// The escrow after a run of calls, in order, and the total they pay out.
pub open spec fn apply_calls(e: EscrowView, calls: Seq<EscrowCall>) -> (EscrowView, int)
    decreases calls.len(),
{
    if calls.len() == 0 {
        (e, 0)
    } else {
        let (e1, paid1) = apply_call(e, calls[0]);
        let (e2, paid2) = apply_calls(e1, calls.drop_first());
        (e2, paid1 + paid2)
    }
}

/// What holds of an escrow at every point of its life: no milestone is paid
/// beyond its amount, and a completed escrow has every milestone paid in full.
pub open spec fn escrow_invariant(e: EscrowView) -> bool {
    &&& within_bounds(e)
    &&& e.status == EscrowStatus::Completed ==> all_released(e.milestones)
}

/// The funds held by an escrow whose milestones stay within bounds are never negative.
pub proof fn lemma_held_nonneg(e: EscrowView)
    requires
        within_bounds(e),
    ensures
        held(e) >= 0,
{
    let s = unreleased(e.milestones);
    assert forall|i: int| 0 <= i < s.len() implies s[i] >= 0 by {
        assert(0 <= e.milestones[i].released_amount <= e.milestones[i].amount);
    }
    lemma_sum_nonneg(s);
}

/// One call keeps the invariant, and what it pays is what leaves the funds held.
pub proof fn lemma_call_keeps_invariant(e: EscrowView, call: EscrowCall)
    requires
        escrow_invariant(e),
    ensures
        escrow_invariant(apply_call(e, call).0),
        apply_call(e, call).1 + held(apply_call(e, call).0) == held(e),
        apply_call(e, call).1 >= 0,
{
    lemma_held_nonneg(e);
    match call {
        EscrowCall::Release { caller, index, amount } => {
            law_payouts_match_held_funds(e, caller, index, amount, false, 0);
            law_milestones_stay_within_bounds(e, caller, index, amount, false, 0);
        },
        EscrowCall::RaiseDispute { beneficiary } => {
            law_payouts_match_held_funds(e, beneficiary, 0, 0, false, 0);
            law_milestones_stay_within_bounds(e, beneficiary, 0, 0, false, 0);
        },
        EscrowCall::ResolveDispute { arbiter, release_to_beneficiary } => {
            law_payouts_match_held_funds(e, arbiter, 0, 0, release_to_beneficiary, 0);
            law_milestones_stay_within_bounds(e, arbiter, 0, 0, release_to_beneficiary, 0);
            if resolve_error(e, arbiter) is None && release_to_beneficiary {
                let ms = settled(e.milestones);
                assert forall|i: int| 0 <= i < ms.len() implies #[trigger] ms[i].released_amount
                    == ms[i].amount by {}
            }
        },
        EscrowCall::ReclaimExpired { depositor, now } => {
            law_payouts_match_held_funds(e, depositor, 0, 0, false, now);
            law_milestones_stay_within_bounds(e, depositor, 0, 0, false, now);
        },
    }
}

/// Over any run of calls, an escrow whose milestones are within bounds
/// (as a new escrow with non-negative amounts is) keeps them within bounds,
/// is completed only with every milestone paid in full, and pays out exactly
/// what leaves its held funds: the total paid plus what it still holds equals
/// what it held at the start; nothing is ever paid into it.
pub proof fn law_runs_pay_out_what_was_held(e: EscrowView, calls: Seq<EscrowCall>)
    requires
        escrow_invariant(e),
    ensures
        escrow_invariant(apply_calls(e, calls).0),
        apply_calls(e, calls).1 + held(apply_calls(e, calls).0) == held(e),
        apply_calls(e, calls).1 >= 0,
    decreases calls.len(),
{
    if calls.len() > 0 {
        lemma_call_keeps_invariant(e, calls[0]);
        law_runs_pay_out_what_was_held(apply_call(e, calls[0]).0, calls.drop_first());
    }
}

/// Over any run of calls on a new escrow with non-negative amounts, the
/// tokens paid out never exceed the deposit, and equal it once the escrow is
/// completed or refunded; a completed escrow has every milestone paid in full.
pub proof fn law_escrow_pays_out_its_deposit(
    depositor: Address,
    beneficiary: Address,
    arbiter: Address,
    token: Address,
    amounts: Seq<i128>,
    expiry_ledger: u32,
    calls: Seq<EscrowCall>,
)
    requires
        forall|i: int| 0 <= i < amounts.len() ==> amounts[i] >= 0,
    ensures
        ({
            let (e, paid) = apply_calls(
                new_escrow(depositor, beneficiary, arbiter, token, amounts, expiry_ledger),
                calls,
            );
            &&& within_bounds(e)
            &&& 0 <= paid <= seq_sum(amounts_int(amounts))
            &&& (e.status == EscrowStatus::Completed || e.status == EscrowStatus::Refunded)
                ==> paid == seq_sum(amounts_int(amounts))
            &&& e.status == EscrowStatus::Completed ==> all_released(e.milestones)
        }),
{
    let e0 = new_escrow(depositor, beneficiary, arbiter, token, amounts, expiry_ledger);
    law_new_escrow_holds_deposit(depositor, beneficiary, arbiter, token, amounts, expiry_ledger);
    law_runs_pay_out_what_was_held(e0, calls);
    lemma_held_nonneg(apply_calls(e0, calls).0);
}

/// `create` makes one unreleased milestone per amount, in the order given,
/// and nothing else: milestone `k` carries `amounts[k]` with nothing released,
/// and the escrow is active with the parties, token and expiry it was given.
pub proof fn law_create_makes_one_milestone_per_amount(
    depositor: Address,
    beneficiary: Address,
    arbiter: Address,
    token: Address,
    amounts: Seq<i128>,
    expiry_ledger: u32,
)
    ensures
        ({
            let e = new_escrow(depositor, beneficiary, arbiter, token, amounts, expiry_ledger);
            &&& e.milestones.len() == amounts.len()
            &&& forall|k: int|
                0 <= k < amounts.len() ==> (#[trigger] e.milestones[k]).amount == amounts[k]
                    && e.milestones[k].released_amount == 0
            &&& e.status == EscrowStatus::Active
            &&& e.depositor == depositor && e.beneficiary == beneficiary && e.arbiter == arbiter
            &&& e.token == token && e.expiry_ledger == expiry_ledger
        }),
{
}

/// When `release_milestone` accepts a call: the escrow is active, the caller
/// is its arbiter or its depositor, the amount is positive, the milestone
/// exists, and the amount is at most what is left of it.
pub proof fn law_release_accepted_exactly_when_allowed(
    e: EscrowView,
    caller: Address,
    index: u32,
    amount: i128,
)
    requires
        index < e.milestones.len() ==> fits_i128(
            e.milestones[index as int].amount - e.milestones[index as int].released_amount,
        ),
    ensures
        release_error(e, caller, index, amount) is None <==> (e.status == EscrowStatus::Active
            && (caller == e.arbiter || caller == e.depositor) && amount > 0 && index
            < e.milestones.len() && amount <= e.milestones[index as int].amount
            - e.milestones[index as int].released_amount),
{
}

/// A release pays `amount` of milestone `index` and touches nothing else:
/// that milestone's released amount rises by `amount`, every other milestone
/// and every party stays as it was, and the escrow is completed exactly when
/// every milestone is then paid in full, whichever milestone was released;
/// otherwise it stays active.
pub proof fn law_release_completes_exactly_when_all_paid(
    e: EscrowView,
    this: Address,
    caller: Address,
    index: u32,
    amount: i128,
)
    requires
        release_error(e, caller, index, amount) is None,
    ensures
        payout(e, this, e.beneficiary, amount as int) == (Transfer {
            token: e.token,
            from: this,
            to: e.beneficiary,
            amount,
        }),
        ({
            let a = after_release(e, index, amount);
            &&& a.milestones.len() == e.milestones.len()
            &&& a.milestones[index as int].amount == e.milestones[index as int].amount
            &&& a.milestones[index as int].released_amount == e.milestones[index as int].released_amount
                + amount
            &&& forall|k: int|
                0 <= k < e.milestones.len() && k != index ==> #[trigger] a.milestones[k]
                    == e.milestones[k]
            &&& (a.status == EscrowStatus::Completed <==> forall|k: int|
                0 <= k < a.milestones.len() ==> (#[trigger] a.milestones[k]).released_amount
                    == a.milestones[k].amount)
            &&& (a.status == EscrowStatus::Completed || a.status == EscrowStatus::Active)
            &&& a.depositor == e.depositor && a.beneficiary == e.beneficiary && a.arbiter
                == e.arbiter && a.token == e.token && a.expiry_ledger == e.expiry_ledger
        }),
{
}

/// Settling a dispute: accepted exactly when the escrow is disputed, the
/// caller is its arbiter, and what is left adds up within `i128`. Releasing to
/// the beneficiary completes the escrow with every milestone paid in full;
/// refunding leaves the milestones as they were and marks it refunded. It
/// pays everything not yet released, from the contract, to the beneficiary or
/// back to the depositor.
pub proof fn law_resolve_settles_the_escrow(
    e: EscrowView,
    this: Address,
    arbiter: Address,
    release_to_beneficiary: bool,
)
    requires
        unreleased_fits(e.milestones),
    ensures
        ({
            let to = if release_to_beneficiary {
                e.beneficiary
            } else {
                e.depositor
            };
            let t = payout(e, this, to, seq_sum(unreleased(e.milestones)));
            t.token == e.token && t.from == this && t.to == to && t.amount == seq_sum(
                unreleased(e.milestones),
            )
        }),
        resolve_error(e, arbiter) is None <==> (e.status == EscrowStatus::Disputed && arbiter
            == e.arbiter && unreleased_fits(e.milestones)),
        ({
            let a = after_resolve(e, release_to_beneficiary);
            &&& a.milestones.len() == e.milestones.len()
            &&& release_to_beneficiary ==> a.status == EscrowStatus::Completed && forall|k: int|
                0 <= k < e.milestones.len() ==> (#[trigger] a.milestones[k]).amount
                    == e.milestones[k].amount && a.milestones[k].released_amount
                    == e.milestones[k].amount
            &&& !release_to_beneficiary ==> a.status == EscrowStatus::Refunded && a.milestones
                == e.milestones
            &&& a.depositor == e.depositor && a.beneficiary == e.beneficiary && a.arbiter
                == e.arbiter && a.token == e.token
        }),
{
    let u = unreleased(e.milestones);
    lemma_take_full(u);
    assert(fits_i128(seq_sum(u.take(u.len() as int))));
}

/// Reclaiming after expiry: accepted exactly when the escrow is active, the
/// caller is its depositor, the ledger is past the expiry, and what is left
/// adds up within `i128`; the escrow is then refunded, milestones untouched.
/// Raising a dispute: accepted exactly when the escrow is active and the
/// caller is its beneficiary.
pub proof fn law_reclaim_and_dispute_accepted_exactly_when_allowed(
    e: EscrowView,
    caller: Address,
    now: u32,
)
    ensures
        reclaim_error(e, caller, now) is None <==> (e.status == EscrowStatus::Active && caller
            == e.depositor && now > e.expiry_ledger && unreleased_fits(e.milestones)),
        after_reclaim(e).status == EscrowStatus::Refunded && after_reclaim(e).milestones
            == e.milestones,
        raise_error(e, caller) is None <==> (e.status == EscrowStatus::Active && caller
            == e.beneficiary),
{
}

} // verus!
