//! Token vesting: a funder locks tokens that vest for a beneficiary, either
//! linearly between a start and an end ledger or all at once at a cliff; a
//! revocable schedule can be revoked, returning what has not vested.
use vstd::prelude::*;
use crate::address::{Address, Transfer};
use crate::arith::{fits_i128, div_trunc};
use crate::counter::{allocate_id, stored_count};
use vstd::arithmetic::div_mod::{lemma_div_is_ordered, lemma_div_by_multiple, lemma_div_pos_is_pos};
use vstd::arithmetic::mul::{lemma_mul_inequality, lemma_mul_nonnegative};

verus! {

/// Vesting curve used to release tokens over time.
#[derive(Clone, Copy, PartialEq, Eq, Debug, Structural)]
pub enum VestingType {
    /// Tokens vest proportionally between the start and end ledgers.
    Linear,
    /// All tokens vest once the cliff ledger is reached.
    Cliff,
}

/// Token vesting schedule stored by the contract.
#[derive(Clone, Copy, PartialEq, Eq, Debug, Structural)]
pub struct VestingSchedule {
    /// Account that funded the schedule; only it may revoke.
    pub funder: Address,
    /// Account allowed to claim vested tokens.
    pub beneficiary: Address,
    /// Token contract address for the vested asset.
    pub token: Address,
    /// Total number of tokens funded into the schedule.
    pub total_amount: i128,
    /// Amount already claimed by the beneficiary.
    pub claimed: i128,
    /// Ledger sequence at which vesting starts.
    pub start_ledger: u32,
    /// Ledger sequence before which no tokens are claimable.
    pub cliff_ledger: u32,
    /// Ledger sequence at which the schedule is fully vested.
    pub end_ledger: u32,
    /// Vesting curve used by this schedule.
    pub vesting_type: VestingType,
    /// Whether the funder can revoke unvested tokens.
    pub revocable: bool,
    /// Whether this schedule has been revoked.
    pub revoked: bool,
}

/// Storage keys used by the vesting contract.
#[derive(Clone, Copy, PartialEq, Eq, Debug, Structural)]
pub enum DataKey {
    /// Persistent vesting schedule by numeric id.
    Schedule(u64),
    /// Instance counter used to assign the next schedule id.
    Counter,
}

/// Why a call on the vesting contract is rejected.
#[derive(Clone, Copy, PartialEq, Eq, Debug, Structural)]
pub enum VestingError {
    InvalidRange,
    InvalidCliff,
    Revoked,
    Unauthorized,
    NothingToClaim,
    NotRevocable,
    AlreadyRevoked,
    Overflow,
}

/// The text that names each error.
pub open spec fn vesting_error_text(e: VestingError) -> Seq<char> {
    match e {
        VestingError::InvalidRange => "invalid range"@,
        VestingError::InvalidCliff => "invalid cliff"@,
        VestingError::Revoked => "revoked"@,
        VestingError::Unauthorized => "unauthorized"@,
        VestingError::NothingToClaim => "nothing to claim"@,
        VestingError::NotRevocable => "not revocable"@,
        VestingError::AlreadyRevoked => "already revoked"@,
        VestingError::Overflow => "arithmetic overflow"@,
    }
}

impl VestingError {
    /// The message with which the contract aborts on this error.
    pub fn message(&self) -> (text: &'static str)
        ensures
            text@ == vesting_error_text(*self),
    {
        match self {
            VestingError::InvalidRange => "invalid range",
            VestingError::InvalidCliff => "invalid cliff",
            VestingError::Revoked => "revoked",
            VestingError::Unauthorized => "unauthorized",
            VestingError::NothingToClaim => "nothing to claim",
            VestingError::NotRevocable => "not revocable",
            VestingError::AlreadyRevoked => "already revoked",
            VestingError::Overflow => "arithmetic overflow",
        }
    }
}

/// Token vesting contract supporting linear, cliff, and revocable schedules.
pub struct VestingContract;

/// A newly created schedule, its id, the id counter to store, and the deposit
/// to collect from the funder.
pub struct NewSchedule {
    pub id: u64,
    pub next_counter: u64,
    pub schedule: VestingSchedule,
    pub deposit: Transfer,
}

/// The ledgers of a schedule are in order: the start is before the end and
/// the cliff lies between them. `create_schedule` only makes such schedules.
pub open spec fn well_formed(s: VestingSchedule) -> bool {
    &&& s.start_ledger < s.end_ledger
    &&& s.start_ledger <= s.cliff_ledger <= s.end_ledger
}

/// Whether computing the linear share at ledger `now` leaves `i128`.
pub open spec fn vest_overflows(s: VestingSchedule, now: u32) -> bool {
    &&& !s.revoked
    &&& s.cliff_ledger <= now < s.end_ledger
    &&& s.vesting_type == VestingType::Linear
    &&& !fits_i128(s.total_amount * (now - s.start_ledger))
}

/// The amount vested at ledger `now`: what was claimed once revoked; nothing
/// before the cliff; everything from the end on; in between everything for a
/// cliff schedule and the elapsed share, rounded toward zero, for a linear one.
pub open spec fn vested(s: VestingSchedule, now: u32) -> int {
    if s.revoked {
        s.claimed as int
    } else if now < s.cliff_ledger {
        0
    } else if now >= s.end_ledger {
        s.total_amount as int
    } else {
        match s.vesting_type {
            VestingType::Cliff => s.total_amount as int,
            VestingType::Linear => div_trunc(
                s.total_amount * (now - s.start_ledger),
                s.end_ledger - s.start_ledger,
            ),
        }
    }
}

/// The schedule that `create_schedule` stores.
pub open spec fn new_schedule(
    funder: Address,
    beneficiary: Address,
    token: Address,
    total_amount: i128,
    start_ledger: u32,
    cliff_ledger: u32,
    end_ledger: u32,
    vesting_type: VestingType,
    revocable: bool,
) -> VestingSchedule {
    VestingSchedule {
        funder,
        beneficiary,
        token,
        total_amount,
        claimed: 0,
        start_ledger,
        cliff_ledger,
        end_ledger,
        vesting_type,
        revocable,
        revoked: false,
    }
}

/// Why `create_schedule` rejects a call (the id counter aside).
pub open spec fn create_error(start_ledger: u32, cliff_ledger: u32, end_ledger: u32) -> Option<
    VestingError,
> {
    if end_ledger <= start_ledger {
        Some(VestingError::InvalidRange)
    } else if !(cliff_ledger >= start_ledger && cliff_ledger <= end_ledger) {
        Some(VestingError::InvalidCliff)
    } else {
        None
    }
}

/// Why `claim` rejects a call at ledger `now`.
pub open spec fn claim_error(s: VestingSchedule, beneficiary: Address, now: u32) -> Option<
    VestingError,
> {
    if s.revoked {
        Some(VestingError::Revoked)
    } else if beneficiary != s.beneficiary {
        Some(VestingError::Unauthorized)
    } else if vest_overflows(s, now) || !fits_i128(vested(s, now) - s.claimed) {
        Some(VestingError::Overflow)
    } else if vested(s, now) - s.claimed <= 0 {
        Some(VestingError::NothingToClaim)
    } else {
        None
    }
}

/// The schedule after a claim at ledger `now`: everything vested is claimed.
pub open spec fn after_claim(s: VestingSchedule, now: u32) -> VestingSchedule {
    VestingSchedule { claimed: vested(s, now) as i128, ..s }
}

/// Why `revoke` rejects a call at ledger `now`.
pub open spec fn revoke_error(s: VestingSchedule, funder: Address, now: u32) -> Option<VestingError> {
    if !s.revocable {
        Some(VestingError::NotRevocable)
    } else if s.revoked {
        Some(VestingError::AlreadyRevoked)
    } else if funder != s.funder {
        Some(VestingError::Unauthorized)
    } else if vest_overflows(s, now) || !fits_i128(s.total_amount - vested(s, now)) {
        Some(VestingError::Overflow)
    } else {
        None
    }
}

/// The refund to the funder on revocation: what has not vested, when that is positive.
pub open spec fn revoke_refund(s: VestingSchedule, this: Address, now: u32) -> Option<Transfer> {
    if s.total_amount - vested(s, now) > 0 {
        Some(
            Transfer {
                token: s.token,
                from: this,
                to: s.funder,
                amount: (s.total_amount - vested(s, now)) as i128,
            },
        )
    } else {
        None
    }
}

/// The schedule after it is revoked.
pub open spec fn after_revoke(s: VestingSchedule) -> VestingSchedule {
    VestingSchedule { revoked: true, ..s }
}

impl VestingContract {
    /// Creates a schedule; the funder pays `total_amount` into the contract
    /// (`this`). The end must come after the start, and the cliff must lie
    /// between them.
    pub fn create_schedule(
        counter: Option<u64>,
        this: Address,
        funder: Address,
        beneficiary: Address,
        token: Address,
        total_amount: i128,
        start_ledger: u32,
        cliff_ledger: u32,
        end_ledger: u32,
        vesting_type: VestingType,
        revocable: bool,
    ) -> (created: Result<NewSchedule, VestingError>)
        ensures
            match create_error(start_ledger, cliff_ledger, end_ledger) {
                Some(err) => created == Err::<NewSchedule, VestingError>(err),
                None => if stored_count(counter) == u64::MAX {
                    created == Err::<NewSchedule, VestingError>(VestingError::Overflow)
                } else {
                    created matches Ok(n) && n.id == stored_count(counter) && n.next_counter == n.id
                        + 1 && n.schedule == new_schedule(
                        funder,
                        beneficiary,
                        token,
                        total_amount,
                        start_ledger,
                        cliff_ledger,
                        end_ledger,
                        vesting_type,
                        revocable,
                    ) && n.deposit == (Transfer {
                        token,
                        from: funder,
                        to: this,
                        amount: total_amount,
                    }) && well_formed(n.schedule)
                },
            },
    {
        if !(end_ledger > start_ledger) {
            return Err(VestingError::InvalidRange);
        }
        if !(cliff_ledger >= start_ledger && cliff_ledger <= end_ledger) {
            return Err(VestingError::InvalidCliff);
        }
        let (id, next_counter) = match allocate_id(counter) {
            Some(ids) => ids,
            None => {
                return Err(VestingError::Overflow);
            },
        };
        let schedule = VestingSchedule {
            funder,
            beneficiary,
            token,
            total_amount,
            claimed: 0,
            start_ledger,
            cliff_ledger,
            end_ledger,
            vesting_type,
            revocable,
            revoked: false,
        };
        Ok(
            NewSchedule {
                id,
                next_counter,
                schedule,
                deposit: Transfer { token, from: funder, to: this, amount: total_amount },
            },
        )
    }

    /// Whether a schedule's ledgers are in order, as every schedule made by
    /// `create_schedule` has them.
    pub fn is_well_formed(s: &VestingSchedule) -> (ok: bool)
        ensures
            ok == well_formed(*s),
    {
        s.start_ledger < s.end_ledger && s.start_ledger <= s.cliff_ledger && s.cliff_ledger
            <= s.end_ledger
    }

    /// Returns the total vested amount at ledger `now`.
    pub fn vested_amount(s: &VestingSchedule, now: u32) -> (amount: Result<i128, VestingError>)
        requires
            well_formed(*s),
        ensures
            match amount {
                Ok(v) => !vest_overflows(*s, now) && v == vested(*s, now),
                Err(e) => vest_overflows(*s, now) && e == VestingError::Overflow,
            },
            amount matches Ok(v) ==> (!s.revoked && s.total_amount >= 0 ==> 0 <= v
                <= s.total_amount),
            amount matches Ok(v) ==> (!s.revoked && now >= s.end_ledger ==> v == s.total_amount),
    {
        Self::_vested(s, now)
    }

    /// The amount vested at ledger `now`. For a schedule that is not
    /// revoked and has a non-negative total, it lies between nothing and the
    /// total, is the total from the end ledger on, and never decreases from
    /// one ledger to a later one (`law_vesting_never_decreases`, over
    /// `vested`, which this returns).
    pub fn _vested(s: &VestingSchedule, now: u32) -> (amount: Result<i128, VestingError>)
        requires
            well_formed(*s),
        ensures
            match amount {
                Ok(v) => !vest_overflows(*s, now) && v == vested(*s, now),
                Err(e) => vest_overflows(*s, now) && e == VestingError::Overflow,
            },
            amount matches Ok(v) ==> (!s.revoked && s.total_amount >= 0 ==> 0 <= v
                <= s.total_amount),
            amount matches Ok(v) ==> (!s.revoked && now >= s.end_ledger ==> v == s.total_amount),
    {
        proof {
            if !s.revoked && s.total_amount >= 0 {
                law_vested_within_total(*s, now);
            }
        }
        if s.revoked {
            return Ok(s.claimed);
        }
        if now < s.cliff_ledger {
            return Ok(0);
        }
        if now >= s.end_ledger {
            return Ok(s.total_amount);
        }
        match s.vesting_type {
            VestingType::Cliff => Ok(s.total_amount),
            VestingType::Linear => {
                let elapsed = (now - s.start_ledger) as i128;
                let duration = (s.end_ledger - s.start_ledger) as i128;
                match s.total_amount.checked_mul(elapsed) {
                    Some(share) => Ok(share / duration),
                    None => Err(VestingError::Overflow),
                }
            },
        }
    }

    /// The beneficiary claims everything vested and not yet claimed at ledger
    /// `now`; the claimed amount is paid from the contract (`this`).
    pub fn claim(s: &mut VestingSchedule, this: Address, beneficiary: Address, now: u32) -> (paid:
        Result<Transfer, VestingError>)
        requires
            well_formed(*old(s)),
        ensures
            match claim_error(*old(s), beneficiary, now) {
                Some(err) => paid == Err::<Transfer, VestingError>(err) && *final(s) == *old(s),
                None => paid == Ok::<Transfer, VestingError>(
                    Transfer {
                        token: old(s).token,
                        from: this,
                        to: old(s).beneficiary,
                        amount: (vested(*old(s), now) - old(s).claimed) as i128,
                    },
                ) && *final(s) == after_claim(*old(s), now),
            },
            well_formed(*final(s)),
    {
        if s.revoked {
            return Err(VestingError::Revoked);
        }
        if beneficiary != s.beneficiary {
            return Err(VestingError::Unauthorized);
        }
        let vested_now = match Self::_vested(s, now) {
            Ok(v) => v,
            Err(e) => {
                return Err(e);
            },
        };
        let claimable = match vested_now.checked_sub(s.claimed) {
            Some(c) => c,
            None => {
                return Err(VestingError::Overflow);
            },
        };
        if claimable <= 0 {
            return Err(VestingError::NothingToClaim);
        }
        s.claimed = s.claimed + claimable;
        Ok(Transfer { token: s.token, from: this, to: s.beneficiary, amount: claimable })
    }

    /// The schedule's funder revokes it, if revocable, at ledger `now`. Returns the
    /// amount that has not vested, and its refund to the funder when it is
    /// positive.
    pub fn revoke(s: &mut VestingSchedule, this: Address, funder: Address, now: u32) -> (refund:
        Result<(i128, Option<Transfer>), VestingError>)
        requires
            well_formed(*old(s)),
        ensures
            match revoke_error(*old(s), funder, now) {
                Some(err) => refund == Err::<(i128, Option<Transfer>), VestingError>(err)
                    && *final(s) == *old(s),
                None => *final(s) == after_revoke(*old(s)) && refund == Ok::<
                    (i128, Option<Transfer>),
                    VestingError,
                >(
                    (
                        (old(s).total_amount - vested(*old(s), now)) as i128,
                        revoke_refund(*old(s), this, now),
                    ),
                ),
            },
            well_formed(*final(s)),
    {
        if !s.revocable {
            return Err(VestingError::NotRevocable);
        }
        if s.revoked {
            return Err(VestingError::AlreadyRevoked);
        }
        if funder != s.funder {
            return Err(VestingError::Unauthorized);
        }
        let vested_now = match Self::_vested(s, now) {
            Ok(v) => v,
            Err(e) => {
                return Err(e);
            },
        };
        let unvested = match s.total_amount.checked_sub(vested_now) {
            Some(u) => u,
            None => {
                return Err(VestingError::Overflow);
            },
        };
        s.revoked = true;
        if unvested > 0 {
            Ok((unvested, Some(Transfer { token: s.token, from: this, to: s.funder, amount: unvested })))
        } else {
            Ok((unvested, None))
        }
    }
}

/// The elapsed share of a non-negative total is no more than the total.
proof fn lemma_linear_share_bounds(total: int, elapsed: int, duration: int)
    requires
        total >= 0,
        0 <= elapsed <= duration,
        duration > 0,
    ensures
        0 <= (total * elapsed) / duration <= total,
{
    lemma_mul_nonnegative(total, elapsed);
    lemma_mul_inequality(elapsed, duration, total);
    assert(elapsed * total == total * elapsed) by (nonlinear_arith);
    assert(duration * total == total * duration) by (nonlinear_arith);
    lemma_div_is_ordered(total * elapsed, total * duration, duration);
    lemma_div_by_multiple(total, duration);
    lemma_div_pos_is_pos(total * elapsed, duration);
}

/// For a non-negative total, what has vested lies between nothing and the
/// total: nothing before the cliff, the whole total from the end ledger on.
pub proof fn law_vested_within_total(s: VestingSchedule, now: u32)
    requires
        well_formed(s),
        !s.revoked,
        s.total_amount >= 0,
    ensures
        0 <= vested(s, now) <= s.total_amount,
        now < s.cliff_ledger ==> vested(s, now) == 0,
        now >= s.end_ledger ==> vested(s, now) == s.total_amount,
{
    if s.cliff_ledger <= now < s.end_ledger && s.vesting_type == VestingType::Linear {
        lemma_linear_share_bounds(
            s.total_amount as int,
            now - s.start_ledger,
            s.end_ledger - s.start_ledger,
        );
    }
}

/// Vesting never goes backwards: for a non-negative total, what has vested at
/// a later ledger is at least what had vested at an earlier one.
pub proof fn law_vesting_never_decreases(s: VestingSchedule, earlier: u32, later: u32)
    requires
        well_formed(s),
        !s.revoked,
        s.total_amount >= 0,
        earlier <= later,
    ensures
        vested(s, earlier) <= vested(s, later),
{
    law_vested_within_total(s, earlier);
    law_vested_within_total(s, later);
    if s.cliff_ledger <= earlier && later < s.end_ledger && s.vesting_type
        == VestingType::Linear {
        let d = s.end_ledger - s.start_ledger;
        let e1 = earlier - s.start_ledger;
        let e2 = later - s.start_ledger;
        lemma_mul_nonnegative(s.total_amount as int, e1);
        lemma_mul_inequality(e1, e2, s.total_amount as int);
        assert(e1 * s.total_amount == s.total_amount * e1) by (nonlinear_arith);
        assert(e2 * s.total_amount == s.total_amount * e2) by (nonlinear_arith);
        lemma_div_is_ordered(s.total_amount * e1, s.total_amount * e2, d);
    }
}

/// A claim takes everything that has vested: right after a successful claim,
/// another claim at the same ledger has nothing to claim, and the amount
/// claimed equals the amount vested.
pub proof fn law_claim_leaves_nothing_to_claim(
    s: VestingSchedule,
    beneficiary: Address,
    now: u32,
)
    requires
        well_formed(s),
        claim_error(s, beneficiary, now) is None,
    ensures
        after_claim(s, now).claimed == vested(s, now),
        vested(after_claim(s, now), now) == vested(s, now),
        claim_error(after_claim(s, now), beneficiary, now) == Some(VestingError::NothingToClaim),
{
}

/// Only the funder that created a schedule can revoke it, and the refund
/// goes to that funder: any other caller is rejected as unauthorized.
pub proof fn law_only_the_funder_revokes(s: VestingSchedule, caller: Address, this: Address, now: u32)
    requires
        s.revocable,
        !s.revoked,
        caller != s.funder,
    ensures
        revoke_error(s, caller, now) == Some(VestingError::Unauthorized),
        revoke_refund(s, this, now) matches Some(t) ==> t.to == s.funder,
{
}

/// On revocation the funder gets back exactly what has not vested: all of a
/// non-negative total before the cliff, nothing once fully vested, and in
/// between no more than the total.
pub proof fn law_revoke_refunds_what_has_not_vested(
    s: VestingSchedule,
    this: Address,
    now: u32,
)
    requires
        well_formed(s),
        s.total_amount >= 0,
        revoke_error(s, s.funder, now) is None,
    ensures
        revoke_refund(s, this, now) matches Some(t) ==> t.to == s.funder && t.amount
            == s.total_amount - vested(s, now) && 0 < t.amount <= s.total_amount,
        now >= s.end_ledger ==> revoke_refund(s, this, now) is None,
        now < s.cliff_ledger && s.total_amount > 0 ==> revoke_refund(s, this, now) == Some(
            Transfer { token: s.token, from: this, to: s.funder, amount: s.total_amount },
        ),
{
    law_vested_within_total(s, now);
}

/// The amount that a revocation refunds, zero when nothing is refunded.
pub open spec fn refunded(s: VestingSchedule, this: Address, now: u32) -> int {
    match revoke_refund(s, this, now) {
        Some(t) => t.amount as int,
        None => 0,
    }
}

/// What a schedule pays out never exceeds what was deposited. Each claim
/// pays the rise in `claimed`, and a revocation pays its refund, after which
/// nothing more is paid. For a non-negative total and claims made at ledgers
/// no later than `now` (so `claimed` is at most what has vested at `now`):
/// a claim at `now` keeps `claimed` within the total, never lowers it, and
/// keeps it within what has vested at any `later` ledger; and a revocation at
/// `now` pays a refund that, added to what was claimed, stays within the total.
/// A new schedule starts with nothing claimed, which satisfies the premise.
pub proof fn law_payouts_stay_within_total(
    s: VestingSchedule,
    this: Address,
    beneficiary: Address,
    now: u32,
    later: u32,
)
    requires
        well_formed(s),
        s.total_amount >= 0,
        !s.revoked,
        0 <= s.claimed <= vested(s, now),
        now <= later,
    ensures
        claim_error(s, beneficiary, now) is None ==> {
            let t = after_claim(s, now);
            &&& s.claimed <= t.claimed <= s.total_amount
            &&& t.claimed - s.claimed == vested(s, now) - s.claimed
            &&& t.claimed <= vested(t, later)
        },
        revoke_error(s, s.funder, now) is None ==> s.claimed + refunded(s, this, now)
            <= s.total_amount,
        vested(
            new_schedule(
                s.funder,
                s.beneficiary,
                s.token,
                s.total_amount,
                s.start_ledger,
                s.cliff_ledger,
                s.end_ledger,
                s.vesting_type,
                s.revocable,
            ),
            now,
        ) >= 0,
{
    law_vested_within_total(s, now);
    law_vesting_never_decreases(s, now, later);
    let fresh = new_schedule(
        s.funder,
        s.beneficiary,
        s.token,
        s.total_amount,
        s.start_ledger,
        s.cliff_ledger,
        s.end_ledger,
        s.vesting_type,
        s.revocable,
    );
    law_vested_within_total(fresh, now);
    if claim_error(s, beneficiary, now) is None {
        let t = after_claim(s, now);
        assert(vested(t, later) == vested(s, later));
    }
}

/// Revocation freezes a schedule: from then on the vested amount is what had
/// been claimed, every claim is rejected as revoked, and it cannot be revoked
/// again.
pub proof fn law_revoked_schedule_is_frozen(
    s: VestingSchedule,
    beneficiary: Address,
    funder: Address,
    now: u32,
    later: u32,
)
    requires
        well_formed(s),
        revoke_error(s, funder, now) is None,
    ensures
        vested(after_revoke(s), later) == s.claimed,
        claim_error(after_revoke(s), beneficiary, later) == Some(VestingError::Revoked),
        revoke_error(after_revoke(s), funder, later) == Some(VestingError::AlreadyRevoked),
{
}

/// A call on a vesting schedule at a ledger, for reasoning about runs of calls.
pub enum VestingCall {
    Claim { beneficiary: Address, now: u32 },
    Revoke { funder: Address, now: u32 },
}

/// The ledger at which a call is made.
pub open spec fn call_ledger(call: VestingCall) -> u32 {
    match call {
        VestingCall::Claim { now, .. } => now,
        VestingCall::Revoke { now, .. } => now,
    }
}

/// Whether the calls come at ledgers that never go back, from `now` on.
pub open spec fn ledgers_in_order(now: u32, calls: Seq<VestingCall>) -> bool
    decreases calls.len(),
{
    calls.len() == 0 || (now <= call_ledger(calls[0]) && ledgers_in_order(
        call_ledger(calls[0]),
        calls.drop_first(),
    ))
}

/// The schedule after a call, and the amount that the call pays out of the
/// contract; a rejected call changes nothing and pays nothing.
pub open spec fn apply_call(s: VestingSchedule, this: Address, call: VestingCall) -> (
    VestingSchedule,
    int,
) {
    match call {
        VestingCall::Claim { beneficiary, now } => if claim_error(s, beneficiary, now) is None {
            (after_claim(s, now), vested(s, now) - s.claimed)
        } else {
            (s, 0)
        },
        VestingCall::Revoke { funder, now } => if revoke_error(s, funder, now) is None {
            (after_revoke(s), refunded(s, this, now))
        } else {
            (s, 0)
        },
    }
}

/// The schedule after a run of calls, in order, and the total they pay out.
pub open spec fn apply_calls(s: VestingSchedule, this: Address, calls: Seq<VestingCall>) -> (
    VestingSchedule,
    int,
)
    decreases calls.len(),
{
    if calls.len() == 0 {
        (s, 0)
    } else {
        let (s1, paid1) = apply_call(s, this, calls[0]);
        let (s2, paid2) = apply_calls(s1, this, calls.drop_first());
        (s2, paid1 + paid2)
    }
}

/// What holds of a schedule with a non-negative total at ledger `now`, given
/// that `paid` has been paid out of it: nothing claimed is negative, the
/// payouts stay within the total, and while it is not revoked the payouts
/// are exactly what was claimed, no more than what has vested.
pub open spec fn payout_invariant(s: VestingSchedule, paid: int, now: u32) -> bool {
    &&& well_formed(s)
    &&& s.total_amount >= 0
    &&& 0 <= s.claimed <= paid <= s.total_amount
    &&& !s.revoked ==> paid == s.claimed && s.claimed <= vested(s, now)
}

/// One call at a ledger no earlier than `now` keeps the payout invariant and
/// never lowers what was claimed.
pub proof fn lemma_call_keeps_payouts_within_total(
    s: VestingSchedule,
    this: Address,
    paid: int,
    now: u32,
    call: VestingCall,
)
    requires
        payout_invariant(s, paid, now),
        now <= call_ledger(call),
    ensures
        payout_invariant(
            apply_call(s, this, call).0,
            paid + apply_call(s, this, call).1,
            call_ledger(call),
        ),
        apply_call(s, this, call).0.claimed >= s.claimed,
        apply_call(s, this, call).1 >= 0,
{
    let t = call_ledger(call);
    if !s.revoked {
        law_vesting_never_decreases(s, now, t);
        law_payouts_stay_within_total(s, this, s.beneficiary, t, t);
        law_vested_within_total(s, t);
        match call {
            VestingCall::Claim { beneficiary, now: at } => {
                law_payouts_stay_within_total(s, this, beneficiary, t, t);
            },
            VestingCall::Revoke { funder, now: at } => {
                if revoke_error(s, funder, t) is None {
                    law_revoke_refunds_what_has_not_vested(s, this, t);
                }
            },
        }
    }
}

/// Over any run of claims and revocations at ledgers that never go back, a
/// schedule with a non-negative total pays out no more than its total: all
/// claims together plus the revocation refund stay within what the funder
/// deposited, and what was claimed never decreases. A new schedule satisfies
/// the premise with nothing paid.
pub proof fn law_run_pays_within_total(
    s: VestingSchedule,
    this: Address,
    paid: int,
    now: u32,
    calls: Seq<VestingCall>,
)
    requires
        payout_invariant(s, paid, now),
        ledgers_in_order(now, calls),
    ensures
        paid + apply_calls(s, this, calls).1 <= s.total_amount,
        apply_calls(s, this, calls).0.claimed >= s.claimed,
        apply_calls(s, this, calls).1 >= 0,
        apply_calls(s, this, calls).0.total_amount == s.total_amount,
    decreases calls.len(),
{
    if calls.len() > 0 {
        let (s1, p1) = apply_call(s, this, calls[0]);
        lemma_call_keeps_payouts_within_total(s, this, paid, now, calls[0]);
        law_run_pays_within_total(s1, this, paid + p1, call_ledger(calls[0]), calls.drop_first());
    }
}

/// A new schedule with a non-negative total starts out within its payouts
/// at every ledger: nothing paid, nothing claimed.
pub proof fn law_new_schedule_starts_within_total(
    funder: Address,
    beneficiary: Address,
    token: Address,
    total_amount: i128,
    start_ledger: u32,
    cliff_ledger: u32,
    end_ledger: u32,
    vesting_type: VestingType,
    revocable: bool,
    now: u32,
)
    requires
        total_amount >= 0,
        create_error(start_ledger, cliff_ledger, end_ledger) is None,
    ensures
        payout_invariant(
            new_schedule(
                funder,
                beneficiary,
                token,
                total_amount,
                start_ledger,
                cliff_ledger,
                end_ledger,
                vesting_type,
                revocable,
            ),
            0,
            now,
        ),
{
    law_vested_within_total(
        new_schedule(
            funder,
            beneficiary,
            token,
            total_amount,
            start_ledger,
            cliff_ledger,
            end_ledger,
            vesting_type,
            revocable,
        ),
        now,
    );
}

/// What has vested at a ledger, in terms of the schedule: what was claimed
/// once revoked; otherwise nothing before the cliff, the whole total from the
/// end ledger on, the whole total from the cliff for a cliff schedule, and for
/// a linear schedule (non-negative total) the elapsed share of the total
/// rounded down: `vested * duration <= total * elapsed < (vested + 1) * duration`.
pub proof fn law_vested_amount_formula(s: VestingSchedule, now: u32)
    requires
        well_formed(s),
    ensures
        s.revoked ==> vested(s, now) == s.claimed,
        !s.revoked && now < s.cliff_ledger ==> vested(s, now) == 0,
        !s.revoked && now >= s.end_ledger ==> vested(s, now) == s.total_amount,
        !s.revoked && s.cliff_ledger <= now && s.vesting_type == VestingType::Cliff ==> vested(
            s,
            now,
        ) == s.total_amount,
        !s.revoked && s.cliff_ledger <= now < s.end_ledger && s.vesting_type
            == VestingType::Linear && s.total_amount >= 0 ==> vested(s, now) * (s.end_ledger
            - s.start_ledger) <= s.total_amount * (now - s.start_ledger) < (vested(s, now) + 1) * (
        s.end_ledger - s.start_ledger),
{
    if !s.revoked && s.cliff_ledger <= now < s.end_ledger && s.vesting_type == VestingType::Linear
        && s.total_amount >= 0 {
        let d = s.end_ledger - s.start_ledger;
        let n = s.total_amount * (now - s.start_ledger);
        lemma_mul_nonnegative(s.total_amount as int, now - s.start_ledger);
        let v = n / d;
        assert(v * d <= n < (v + 1) * d) by (nonlinear_arith)
            requires
                v == n / d,
                d > 0,
                n >= 0,
        ;
    }
}

/// `create_schedule` accepts exactly the schedules whose end comes after the
/// start and whose cliff lies between them, and stores what it was given,
/// with nothing claimed and not revoked.
pub proof fn law_create_schedule_stores_what_it_was_given(
    funder: Address,
    beneficiary: Address,
    token: Address,
    total_amount: i128,
    start_ledger: u32,
    cliff_ledger: u32,
    end_ledger: u32,
    vesting_type: VestingType,
    revocable: bool,
)
    ensures
        create_error(start_ledger, cliff_ledger, end_ledger) is None <==> (start_ledger
            < end_ledger && start_ledger <= cliff_ledger <= end_ledger),
        ({
            let n = new_schedule(
                funder,
                beneficiary,
                token,
                total_amount,
                start_ledger,
                cliff_ledger,
                end_ledger,
                vesting_type,
                revocable,
            );
            &&& n.funder == funder && n.beneficiary == beneficiary && n.token == token
            &&& n.total_amount == total_amount && n.claimed == 0 && !n.revoked
            &&& n.start_ledger == start_ledger && n.cliff_ledger == cliff_ledger && n.end_ledger
                == end_ledger
            &&& n.vesting_type == vesting_type && n.revocable == revocable
        }),
{
}

/// A claim is accepted exactly when the schedule is not revoked, the caller
/// is its beneficiary, and something vested is unclaimed (within `i128`); it
/// pays that and records everything vested as claimed, nothing else changing.
/// A revocation is accepted exactly when the schedule is revocable, not yet
/// revoked, the caller is its funder, and the amounts stay within `i128`; it
/// only marks the schedule revoked.
pub proof fn law_claim_and_revoke_accepted_exactly_when_allowed(
    s: VestingSchedule,
    caller: Address,
    now: u32,
)
    requires
        well_formed(s),
    ensures
        claim_error(s, caller, now) is None <==> (!s.revoked && caller == s.beneficiary
            && !vest_overflows(s, now) && fits_i128(vested(s, now) - s.claimed) && vested(s, now)
            > s.claimed),
        after_claim(s, now) == (VestingSchedule { claimed: after_claim(s, now).claimed, ..s }),
        claim_error(s, caller, now) is None ==> after_claim(s, now).claimed == vested(s, now),
        revoke_error(s, caller, now) is None <==> (s.revocable && !s.revoked && caller == s.funder
            && !vest_overflows(s, now) && fits_i128(s.total_amount - vested(s, now))),
        after_revoke(s) == (VestingSchedule { revoked: true, ..s }),
{
    if !s.revoked && s.cliff_ledger <= now < s.end_ledger && s.vesting_type
        == VestingType::Linear && !vest_overflows(s, now) {
        let n = s.total_amount * (now - s.start_ledger);
        let d = s.end_ledger - s.start_ledger;
        if n >= 0 {
            assert(0 <= n / d <= n) by (nonlinear_arith)
                requires
                    n >= 0,
                    d >= 1,
            ;
        } else {
            assert(0 <= (-n) / d <= -n) by (nonlinear_arith)
                requires
                    -n > 0,
                    d >= 1,
            ;
        }
    }
}

} // verus!
