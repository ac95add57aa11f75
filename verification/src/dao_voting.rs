//! DAO voting: proposals gather votes weighted by the voting power that each
//! voter declares; after the voting period a proposal passes when turnout
//! meets the quorum and support meets the approval ratio (both in basis
//! points), and a passed proposal may pay out tokens once executed.
use vstd::prelude::*;
use crate::address::{Address, Transfer, contains};
use crate::arith::{fits_i128, div_trunc};
use crate::counter::{allocate_id, stored_count};

verus! {

/// Where a proposal stands.
#[derive(Clone, Copy, PartialEq, Eq, Debug, Structural)]
pub enum ProposalStatus {
    Active,
    Passed,
    Rejected,
    Executed,
    Cancelled,
}

/// A governance proposal as stored by the contract.
#[derive(Debug)]
pub struct Proposal {
    pub proposer: Address,
    pub description: Vec<u8>,
    /// Optional: token transfer on execution
    pub exec_token: Option<Address>,
    pub exec_to: Option<Address>,
    pub exec_amount: i128,
    pub votes_for: i128,
    pub votes_against: i128,
    pub voters: Vec<Address>,
    pub status: ProposalStatus,
    pub end_ledger: u32,
}

/// The mathematical value of a [`Proposal`].
#[verifier::ext_equal]
pub struct ProposalView {
    pub proposer: Address,
    pub description: Seq<u8>,
    pub exec_token: Option<Address>,
    pub exec_to: Option<Address>,
    pub exec_amount: i128,
    pub votes_for: i128,
    pub votes_against: i128,
    pub voters: Seq<Address>,
    pub status: ProposalStatus,
    pub end_ledger: u32,
}

impl View for Proposal {
    type V = ProposalView;

    open spec fn view(&self) -> ProposalView {
        ProposalView {
            proposer: self.proposer,
            description: self.description@,
            exec_token: self.exec_token,
            exec_to: self.exec_to,
            exec_amount: self.exec_amount,
            votes_for: self.votes_for,
            votes_against: self.votes_against,
            voters: self.voters@,
            status: self.status,
            end_ledger: self.end_ledger,
        }
    }
}

impl Clone for Proposal {
    fn clone(&self) -> (copy: Self)
        ensures
            copy@ == self@,
    {
        let description = self.description.clone();
        let voters = self.voters.clone();
        assert(description@ =~= self.description@);
        assert(voters@ =~= self.voters@);
        Proposal {
            proposer: self.proposer,
            description,
            exec_token: self.exec_token,
            exec_to: self.exec_to,
            exec_amount: self.exec_amount,
            votes_for: self.votes_for,
            votes_against: self.votes_against,
            voters,
            status: self.status,
            end_ledger: self.end_ledger,
        }
    }
}

/// The governance settings.
#[derive(Clone, Copy, PartialEq, Eq, Debug, Structural)]
pub struct Config {
    pub admin: Address,
    /// Minimum participation in basis points (e.g. 1000 = 10%)
    pub quorum_bps: u32,
    /// Minimum approval ratio in basis points (e.g. 5100 = 51%)
    pub approval_bps: u32,
    /// Total voting power supply used for quorum calculation
    pub total_supply: i128,
}

/// Storage keys: the configuration, one persistent entry per proposal id, and
/// the id counter.
#[derive(Clone, Copy, PartialEq, Eq, Debug, Structural)]
pub enum DataKey {
    Config,
    Proposal(u64),
    Counter,
}

/// Why a call on the voting contract is rejected.
#[derive(Clone, Copy, PartialEq, Eq, Debug, Structural)]
pub enum DaoError {
    AlreadyInitialized,
    BpsOutOfRange,
    EndLedgerMustBeFuture,
    ZeroVotingPower,
    NotActive,
    VotingEnded,
    AlreadyVoted,
    VotingNotEnded,
    NotPassed,
    Unauthorized,
    Overflow,
}

/// The text that names each error.
pub open spec fn dao_error_text(e: DaoError) -> Seq<char> {
    match e {
        DaoError::AlreadyInitialized => "already initialized"@,
        DaoError::BpsOutOfRange => "bps out of range"@,
        DaoError::EndLedgerMustBeFuture => "end_ledger must be future"@,
        DaoError::ZeroVotingPower => "zero voting power"@,
        DaoError::NotActive => "not active"@,
        DaoError::VotingEnded => "voting ended"@,
        DaoError::AlreadyVoted => "already voted"@,
        DaoError::VotingNotEnded => "voting not ended"@,
        DaoError::NotPassed => "not passed"@,
        DaoError::Unauthorized => "unauthorized"@,
        DaoError::Overflow => "arithmetic overflow"@,
    }
}

impl DaoError {
    /// The message with which the contract aborts on this error.
    pub fn message(&self) -> (text: &'static str)
        ensures
            text@ == dao_error_text(*self),
    {
        match self {
            DaoError::AlreadyInitialized => "already initialized",
            DaoError::BpsOutOfRange => "bps out of range",
            DaoError::EndLedgerMustBeFuture => "end_ledger must be future",
            DaoError::ZeroVotingPower => "zero voting power",
            DaoError::NotActive => "not active",
            DaoError::VotingEnded => "voting ended",
            DaoError::AlreadyVoted => "already voted",
            DaoError::VotingNotEnded => "voting not ended",
            DaoError::NotPassed => "not passed",
            DaoError::Unauthorized => "unauthorized",
            DaoError::Overflow => "arithmetic overflow",
        }
    }
}

/// The voting contract.
pub struct DaoVotingContract;

/// A newly submitted proposal, its id and the id counter to store.
pub struct NewProposal {
    pub id: u64,
    pub next_counter: u64,
    pub proposal: Proposal,
}

/// The proposal that `submit_proposal` stores: no votes yet, open for voting.
pub open spec fn fresh_proposal(
    proposer: Address,
    description: Seq<u8>,
    end_ledger: u32,
    exec_token: Option<Address>,
    exec_to: Option<Address>,
    exec_amount: i128,
) -> ProposalView {
    ProposalView {
        proposer,
        description,
        exec_token,
        exec_to,
        exec_amount,
        votes_for: 0,
        votes_against: 0,
        voters: Seq::empty(),
        status: ProposalStatus::Active,
        end_ledger,
    }
}

/// Why `vote` rejects a vote cast at ledger `now`.
pub open spec fn vote_error(
    p: ProposalView,
    voter: Address,
    support: bool,
    voting_power: i128,
    now: u32,
) -> Option<DaoError> {
    if voting_power <= 0 {
        Some(DaoError::ZeroVotingPower)
    } else if p.status != ProposalStatus::Active {
        Some(DaoError::NotActive)
    } else if now > p.end_ledger {
        Some(DaoError::VotingEnded)
    } else if p.voters.contains(voter) {
        Some(DaoError::AlreadyVoted)
    } else if support && !fits_i128(p.votes_for + voting_power) {
        Some(DaoError::Overflow)
    } else if !support && !fits_i128(p.votes_against + voting_power) {
        Some(DaoError::Overflow)
    } else {
        None
    }
}

/// The proposal after a vote: the power is added to the side supported, and
/// the voter is recorded.
pub open spec fn after_vote(p: ProposalView, voter: Address, support: bool, voting_power: i128) -> ProposalView {
    if support {
        ProposalView {
            votes_for: (p.votes_for + voting_power) as i128,
            voters: p.voters.push(voter),
            ..p
        }
    } else {
        ProposalView {
            votes_against: (p.votes_against + voting_power) as i128,
            voters: p.voters.push(voter),
            ..p
        }
    }
}

/// The votes cast on a proposal.
pub open spec fn total_votes(p: ProposalView) -> int {
    p.votes_for + p.votes_against
}

/// Whether turnout meets the quorum: the votes cast are at least
/// `quorum_bps` basis points of the supply (`votes * 10000 >= supply * quorum_bps`).
pub open spec fn meets_quorum(p: ProposalView, c: Config) -> bool {
    total_votes(p) * 10_000 >= c.total_supply * c.quorum_bps
}

/// Whether support meets the approval ratio: the votes for are at least
/// `approval_bps` basis points of the votes cast
/// (`votes_for * 10000 >= votes * approval_bps`).
pub open spec fn meets_approval(p: ProposalView, c: Config) -> bool {
    p.votes_for * 10_000 >= total_votes(p) * c.approval_bps
}

/// Why `finalize` rejects a call at ledger `now`: the votes cast, the
/// supply's quorum product, or (once the quorum is met) the votes' approval
/// product leaving `i128` is an overflow.
pub open spec fn finalize_error(p: ProposalView, c: Config, now: u32) -> Option<DaoError> {
    if p.status != ProposalStatus::Active {
        Some(DaoError::NotActive)
    } else if now <= p.end_ledger {
        Some(DaoError::VotingNotEnded)
    } else if !fits_i128(total_votes(p)) || !fits_i128(c.total_supply * c.quorum_bps) {
        Some(DaoError::Overflow)
    } else if meets_quorum(p, c) && !fits_i128(total_votes(p) * c.approval_bps) {
        Some(DaoError::Overflow)
    } else {
        None
    }
}

/// Whether a proposal passes: turnout meets the quorum, and the votes for it
/// meet the approval ratio.
pub open spec fn passes(p: ProposalView, c: Config) -> bool {
    meets_quorum(p, c) && meets_approval(p, c)
}

/// The proposal once finalized: passed or rejected.
pub open spec fn after_finalize(p: ProposalView, c: Config) -> ProposalView {
    ProposalView {
        status: if passes(p, c) {
            ProposalStatus::Passed
        } else {
            ProposalStatus::Rejected
        },
        ..p
    }
}

/// The payment that executing a passed proposal makes from the contract
/// (`this`): only when both a token and a recipient are set and the amount is positive.
pub open spec fn execution_payment(p: ProposalView, this: Address) -> Option<Transfer> {
    match (p.exec_token, p.exec_to) {
        (Some(token), Some(to)) => if p.exec_amount > 0 {
            Some(Transfer { token, from: this, to, amount: p.exec_amount })
        } else {
            None
        },
        _ => None,
    }
}

/// Why `cancel` rejects a call.
pub open spec fn cancel_error(c: Config, p: ProposalView, admin: Address) -> Option<DaoError> {
    if admin != c.admin {
        Some(DaoError::Unauthorized)
    } else if p.status != ProposalStatus::Active {
        Some(DaoError::NotActive)
    } else {
        None
    }
}

/// Dividing by 10000, rounding toward zero, leaves a remainder that decides
/// how a whole count times 10000 compares with `x`.
proof fn lemma_share_bound(v: int, x: int, q: int, r: int)
    requires
        q == div_trunc(x, 10_000),
        r == x - q * 10_000,
    ensures
        fits_i128(x) ==> fits_i128(q * 10_000),
        r > 0 ==> (v * 10_000 >= x <==> v > q),
        r <= 0 ==> (v * 10_000 >= x <==> v >= q),
{
    if x >= 0 {
        assert(0 <= r < 10_000 && 0 <= q * 10_000 <= x);
    } else {
        assert((-x) / 10_000 * 10_000 <= -x && -x - (-x) / 10_000 * 10_000 < 10_000);
        assert(-10_000 < r <= 0 && x <= q * 10_000 <= 0);
    }
    if r > 0 {
        assert(v * 10_000 >= x <==> v > q) by (nonlinear_arith)
            requires
                x == q * 10_000 + r,
                0 < r < 10_000,
        ;
    } else {
        assert(v * 10_000 >= x <==> v >= q) by (nonlinear_arith)
            requires
                x == q * 10_000 + r,
                -10_000 < r <= 0,
        ;
    }
}

/// Whether a count reaches a share given in basis points:
/// `count * 10000 >= product`, decided without forming `count * 10000`.
fn reaches_share(count: i128, product: i128) -> (reached: bool)
    ensures
        reached == (count * 10_000 >= product),
{
    let q = product / 10_000;
    proof {
        lemma_share_bound(count as int, product as int, q as int, product - q * 10_000);
    }
    let r = product - q * 10_000;
    if r > 0 {
        count > q
    } else {
        count >= q
    }
}

impl DaoVotingContract {
    /// Sets up governance, once; both ratios are at most 10000 basis points.
    pub fn initialize(
        initialized: bool,
        admin: Address,
        quorum_bps: u32,
        approval_bps: u32,
        total_supply: i128,
    ) -> (config: Result<Config, DaoError>)
        ensures
            config == if initialized {
                Err::<Config, DaoError>(DaoError::AlreadyInitialized)
            } else if !(quorum_bps <= 10_000 && approval_bps <= 10_000) {
                Err::<Config, DaoError>(DaoError::BpsOutOfRange)
            } else {
                Ok::<Config, DaoError>(Config { admin, quorum_bps, approval_bps, total_supply })
            },
    {
        if initialized {
            return Err(DaoError::AlreadyInitialized);
        }
        if !(quorum_bps <= 10_000 && approval_bps <= 10_000) {
            return Err(DaoError::BpsOutOfRange);
        }
        Ok(Config { admin, quorum_bps, approval_bps, total_supply })
    }

    /// Submits a proposal at ledger `now`; voting stays open up to and
    /// including `end_ledger`, which must lie in the future.
    pub fn submit_proposal(
        counter: Option<u64>,
        now: u32,
        proposer: Address,
        description: Vec<u8>,
        end_ledger: u32,
        exec_token: Option<Address>,
        exec_to: Option<Address>,
        exec_amount: i128,
    ) -> (submitted: Result<NewProposal, DaoError>)
        ensures
            end_ledger <= now ==> submitted == Err::<NewProposal, DaoError>(
                DaoError::EndLedgerMustBeFuture,
            ),
            end_ledger > now && stored_count(counter) == u64::MAX ==> submitted == Err::<
                NewProposal,
                DaoError,
            >(DaoError::Overflow),
            end_ledger > now && stored_count(counter) < u64::MAX ==> (submitted matches Ok(n)
                && n.id == stored_count(counter) && n.next_counter == n.id + 1 && n.proposal@
                == fresh_proposal(
                proposer,
                description@,
                end_ledger,
                exec_token,
                exec_to,
                exec_amount,
            )),
    {
        if !(end_ledger > now) {
            return Err(DaoError::EndLedgerMustBeFuture);
        }
        let (id, next_counter) = match allocate_id(counter) {
            Some(ids) => ids,
            None => {
                return Err(DaoError::Overflow);
            },
        };
        let proposal = Proposal {
            proposer,
            description,
            exec_token,
            exec_to,
            exec_amount,
            votes_for: 0,
            votes_against: 0,
            voters: Vec::new(),
            status: ProposalStatus::Active,
            end_ledger,
        };
        assert(proposal@ =~= fresh_proposal(
            proposer,
            proposal.description@,
            end_ledger,
            exec_token,
            exec_to,
            exec_amount,
        ));
        Ok(NewProposal { id, next_counter, proposal })
    }

    /// Casts a vote at ledger `now` with the voting power that the voter
    /// declares; each address votes once.
    pub fn vote(
        proposal: &mut Proposal,
        voter: Address,
        support: bool,
        voting_power: i128,
        now: u32,
    ) -> (done: Result<(), DaoError>)
        ensures
            match vote_error(old(proposal)@, voter, support, voting_power, now) {
                Some(err) => done == Err::<(), DaoError>(err) && final(proposal)@ == old(
                    proposal,
                )@,
                None => done is Ok && final(proposal)@ == after_vote(
                    old(proposal)@,
                    voter,
                    support,
                    voting_power,
                ),
            },
    {
        if voting_power <= 0 {
            return Err(DaoError::ZeroVotingPower);
        }
        if proposal.status != ProposalStatus::Active {
            return Err(DaoError::NotActive);
        }
        if now > proposal.end_ledger {
            return Err(DaoError::VotingEnded);
        }
        if contains(&proposal.voters, voter) {
            return Err(DaoError::AlreadyVoted);
        }
        if support {
            proposal.votes_for = match proposal.votes_for.checked_add(voting_power) {
                Some(v) => v,
                None => {
                    return Err(DaoError::Overflow);
                },
            };
        } else {
            proposal.votes_against = match proposal.votes_against.checked_add(voting_power) {
                Some(v) => v,
                None => {
                    return Err(DaoError::Overflow);
                },
            };
        }
        proposal.voters.push(voter);
        Ok(())
    }

    /// Closes voting at ledger `now`, after the end ledger: the proposal
    /// passes or is rejected.
    pub fn finalize(proposal: &mut Proposal, config: &Config, now: u32) -> (done: Result<
        (),
        DaoError,
    >)
        ensures
            match finalize_error(old(proposal)@, *config, now) {
                Some(err) => done == Err::<(), DaoError>(err) && final(proposal)@ == old(
                    proposal,
                )@,
                None => done is Ok && final(proposal)@ == after_finalize(old(proposal)@, *config),
            },
    {
        if proposal.status != ProposalStatus::Active {
            return Err(DaoError::NotActive);
        }
        if now <= proposal.end_ledger {
            return Err(DaoError::VotingNotEnded);
        }
        let total_votes = match proposal.votes_for.checked_add(proposal.votes_against) {
            Some(t) => t,
            None => {
                return Err(DaoError::Overflow);
            },
        };
        let quorum_required = match config.total_supply.checked_mul(config.quorum_bps as i128) {
            Some(q) => q,
            None => {
                return Err(DaoError::Overflow);
            },
        };
        if !reaches_share(total_votes, quorum_required) {
            proposal.status = ProposalStatus::Rejected;
        } else {
            let approval_required = match total_votes.checked_mul(config.approval_bps as i128) {
                Some(a) => a,
                None => {
                    return Err(DaoError::Overflow);
                },
            };
            proposal.status = if reaches_share(proposal.votes_for, approval_required) {
                ProposalStatus::Passed
            } else {
                ProposalStatus::Rejected
            };
        }
        Ok(())
    }

    /// Executes a passed proposal: its token payment, if any, is made.
    pub fn execute(proposal: &mut Proposal, this: Address) -> (paid: Result<
        Option<Transfer>,
        DaoError,
    >)
        ensures
            old(proposal).status != ProposalStatus::Passed ==> paid == Err::<
                Option<Transfer>,
                DaoError,
            >(DaoError::NotPassed) && final(proposal)@ == old(proposal)@,
            old(proposal).status == ProposalStatus::Passed ==> paid == Ok::<
                Option<Transfer>,
                DaoError,
            >(execution_payment(old(proposal)@, this)) && final(proposal)@ == (ProposalView {
                status: ProposalStatus::Executed,
                ..old(proposal)@
            }),
    {
        if proposal.status != ProposalStatus::Passed {
            return Err(DaoError::NotPassed);
        }
        let mut payment: Option<Transfer> = None;
        if let (Some(token), Some(to)) = (proposal.exec_token, proposal.exec_to) {
            if proposal.exec_amount > 0 {
                payment = Some(
                    Transfer { token, from: this, to, amount: proposal.exec_amount },
                );
            }
        }
        proposal.status = ProposalStatus::Executed;
        Ok(payment)
    }

    /// The admin cancels an active proposal.
    pub fn cancel(config: &Config, proposal: &mut Proposal, admin: Address) -> (done: Result<
        (),
        DaoError,
    >)
        ensures
            match cancel_error(*config, old(proposal)@, admin) {
                Some(err) => done == Err::<(), DaoError>(err) && final(proposal)@ == old(
                    proposal,
                )@,
                None => done is Ok && final(proposal)@ == (ProposalView {
                    status: ProposalStatus::Cancelled,
                    ..old(proposal)@
                }),
            },
    {
        if admin != config.admin {
            return Err(DaoError::Unauthorized);
        }
        if proposal.status != ProposalStatus::Active {
            return Err(DaoError::NotActive);
        }
        proposal.status = ProposalStatus::Cancelled;
        Ok(())
    }
}

/// Each address votes once: after its vote is counted, every further vote
/// from it on the proposal is rejected, as already voted while voting is open.
pub proof fn law_one_vote_per_address(
    p: ProposalView,
    voter: Address,
    support: bool,
    voting_power: i128,
    now: u32,
    support_again: bool,
    power_again: i128,
    later: u32,
)
    requires
        vote_error(p, voter, support, voting_power, now) is None,
    ensures
        vote_error(after_vote(p, voter, support, voting_power), voter, support_again, power_again, later)
            is Some,
        power_again > 0 && later <= p.end_ledger ==> vote_error(
            after_vote(p, voter, support, voting_power),
            voter,
            support_again,
            power_again,
            later,
        ) == Some(DaoError::AlreadyVoted),
{
    let q = after_vote(p, voter, support, voting_power);
    assert(q.voters[q.voters.len() - 1] == voter);
}

/// A vote adds exactly its power to the votes cast, on the side it supports,
/// and leaves the other side as it was.
pub proof fn law_vote_adds_its_power(
    p: ProposalView,
    voter: Address,
    support: bool,
    voting_power: i128,
    now: u32,
)
    requires
        vote_error(p, voter, support, voting_power, now) is None,
    ensures
        total_votes(after_vote(p, voter, support, voting_power)) == total_votes(p) + voting_power,
        support ==> after_vote(p, voter, support, voting_power).votes_against == p.votes_against,
        !support ==> after_vote(p, voter, support, voting_power).votes_for == p.votes_for,
        after_vote(p, voter, support, voting_power).voters.len() == p.voters.len() + 1,
{
}

/// Finalizing passes a proposal exactly when its votes cast reach
/// `quorum_bps` basis points of the supply and its votes for reach
/// `approval_bps` basis points of the votes cast, with no rounding; and
/// more support never hurts: with an approval ratio of at most 100%, a
/// passing proposal still passes with `extra` further votes in favour.
pub proof fn law_passing_meets_quorum_and_approval(p: ProposalView, c: Config, extra: i128)
    requires
        c.approval_bps <= 10_000,
        extra >= 0,
    ensures
        after_finalize(p, c).status == ProposalStatus::Passed <==> (total_votes(p) * 10_000
            >= c.total_supply * c.quorum_bps && p.votes_for * 10_000 >= total_votes(p)
            * c.approval_bps),
        passes(p, c) ==> passes(
            ProposalView { votes_for: (p.votes_for + extra) as i128, ..p },
            c,
        ) || !fits_i128(p.votes_for + extra),
{
    if passes(p, c) && fits_i128(p.votes_for + extra) {
        let q = ProposalView { votes_for: (p.votes_for + extra) as i128, ..p };
        let t = total_votes(p);
        let f = p.votes_for as int;
        let a = c.approval_bps as int;
        let x = extra as int;
        assert(total_votes(q) == t + x);
        assert((t + x) * 10_000 >= t * 10_000) by (nonlinear_arith)
            requires
                x >= 0,
        ;
        assert((f + x) * 10_000 >= (t + x) * a) by (nonlinear_arith)
            requires
                f * 10_000 >= t * a,
                x >= 0,
                0 <= a <= 10_000,
        ;
    }
}

/// A decided proposal (passed, rejected, executed or cancelled) takes no more
/// votes, cannot be finalized or cancelled again, and only a passed one can be
/// executed.
pub proof fn law_decided_proposal_is_closed(
    p: ProposalView,
    c: Config,
    voter: Address,
    support: bool,
    voting_power: i128,
    now: u32,
)
    requires
        p.status != ProposalStatus::Active,
    ensures
        voting_power > 0 ==> vote_error(p, voter, support, voting_power, now) == Some(
            DaoError::NotActive,
        ),
        finalize_error(p, c, now) == Some(DaoError::NotActive),
        c.admin == voter ==> cancel_error(c, p, voter) == Some(DaoError::NotActive),
{
}

/// When `vote` accepts a vote: positive power, an active proposal, a ledger
/// no later than the end ledger, a voter not yet among the voters (whoever it
/// is, the proposer included), and a tally that stays within `i128`. An
/// accepted vote adds its power to the side it supports, leaves the other
/// side and everything else as it was, and records the voter last.
pub proof fn law_vote_accepted_from_every_new_voter(
    p: ProposalView,
    voter: Address,
    support: bool,
    voting_power: i128,
    now: u32,
)
    ensures
        vote_error(p, voter, support, voting_power, now) is None <==> (voting_power > 0
            && p.status == ProposalStatus::Active && now <= p.end_ledger && !p.voters.contains(
            voter,
        ) && (support ==> fits_i128(p.votes_for + voting_power)) && (!support ==> fits_i128(
            p.votes_against + voting_power,
        ))),
        vote_error(p, voter, support, voting_power, now) is None ==> ({
            let q = after_vote(p, voter, support, voting_power);
            &&& q.votes_for == if support {
                p.votes_for + voting_power
            } else {
                p.votes_for as int
            }
            &&& q.votes_against == if support {
                p.votes_against as int
            } else {
                p.votes_against + voting_power
            }
            &&& q.voters.len() == p.voters.len() + 1
            &&& q.voters[p.voters.len() as int] == voter
            &&& forall|k: int| 0 <= k < p.voters.len() ==> #[trigger] q.voters[k] == p.voters[k]
            &&& q.status == p.status && q.proposer == p.proposer && q.end_ledger == p.end_ledger
            &&& q.exec_token == p.exec_token && q.exec_to == p.exec_to && q.exec_amount
                == p.exec_amount && q.description == p.description
        }),
{
}

/// When `finalize` accepts a call: an active proposal after its end ledger,
/// with the vote total, the quorum product and (once the quorum is met) the
/// approval product within `i128`. It then decides once: passed exactly when
/// both ratios are met, otherwise rejected, nothing else changing.
pub proof fn law_finalize_decides_once(p: ProposalView, c: Config, now: u32)
    ensures
        finalize_error(p, c, now) is None <==> (p.status == ProposalStatus::Active && now
            > p.end_ledger && fits_i128(p.votes_for + p.votes_against) && fits_i128(
            c.total_supply * c.quorum_bps,
        ) && ((p.votes_for + p.votes_against) * 10_000 >= c.total_supply * c.quorum_bps
            ==> fits_i128((p.votes_for + p.votes_against) * c.approval_bps))),
        (after_finalize(p, c).status == ProposalStatus::Passed <==> ((p.votes_for
            + p.votes_against) * 10_000 >= c.total_supply * c.quorum_bps && p.votes_for * 10_000
            >= (p.votes_for + p.votes_against) * c.approval_bps)),
        (after_finalize(p, c).status == ProposalStatus::Rejected <==> !((p.votes_for
            + p.votes_against) * 10_000 >= c.total_supply * c.quorum_bps && p.votes_for * 10_000
            >= (p.votes_for + p.votes_against) * c.approval_bps)),
        after_finalize(p, c).votes_for == p.votes_for && after_finalize(p, c).votes_against
            == p.votes_against && after_finalize(p, c).voters == p.voters,
{
}

/// When the admin's cancellation is accepted: the caller is the admin and
/// the proposal is active. A new proposal has no votes and no voters, is
/// active, and keeps what it was given.
pub proof fn law_cancel_and_submit(
    c: Config,
    p: ProposalView,
    admin: Address,
    proposer: Address,
    description: Seq<u8>,
    end_ledger: u32,
    exec_token: Option<Address>,
    exec_to: Option<Address>,
    exec_amount: i128,
)
    ensures
        cancel_error(c, p, admin) is None <==> (admin == c.admin && p.status
            == ProposalStatus::Active),
        ({
            let f = fresh_proposal(proposer, description, end_ledger, exec_token, exec_to, exec_amount);
            &&& f.votes_for == 0 && f.votes_against == 0 && f.voters.len() == 0
            &&& f.status == ProposalStatus::Active && f.proposer == proposer && f.description
                == description && f.end_ledger == end_ledger
            &&& f.exec_token == exec_token && f.exec_to == exec_to && f.exec_amount == exec_amount
        }),
{
}

/// Executing a passed proposal pays `exec_amount` of `exec_token` to
/// `exec_to` exactly when both are set and the amount is positive, from the
/// contract.
pub proof fn law_execute_pays_what_was_proposed(p: ProposalView, this: Address)
    ensures
        (execution_payment(p, this) is Some) <==> (p.exec_token is Some && p.exec_to is Some
            && p.exec_amount > 0),
        execution_payment(p, this) matches Some(t) ==> Some(t.token) == p.exec_token && Some(t.to)
            == p.exec_to && t.from == this && t.amount == p.exec_amount,
{
}

} // verus!
