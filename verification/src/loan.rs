//! Loans, and the rules that decide on them: who may borrow, when a
//! repayment is early or late, when a loan is in default.

use crate::address::Address;
use crate::error::Error;
use crate::tiers::{calculate_max_loan_amount, tier_limit};
use vstd::prelude::*;

verus! {

/// What a repayment within the grace period adds to the score.
pub const REPUTATION_INCREASE_ON_TIME: i32 = 8;

/// What a repayment well before the due date adds to the score.
pub const REPUTATION_INCREASE_EARLY: i32 = 12;

/// What a late repayment takes from the score.
pub const REPUTATION_DECREASE_LATE: i32 = -5;

/// What a default takes from the score.
pub const REPUTATION_DECREASE_DEFAULT: i32 = -25;

/// The time after the due date, in seconds, during which a repayment still
/// counts as on time.
pub const GRACE_PERIOD_SECONDS: u64 = 86_400;

/// How long before the due date, in seconds, a repayment counts as early.
pub const EARLY_PAYMENT_THRESHOLD: u64 = 43_200;

/// The largest share of the pool, in percent, that may be lent out.
pub const MAX_POOL_UTILIZATION: u32 = 80;

/// A loan: the one slot that an agent has.
#[derive(Debug, PartialEq, Eq)]
pub struct Loan {
    /// The agent that took the loan.
    pub agent: Address,
    /// The amount that was lent.
    pub amount: u64,
    /// Whether the loan has been repaid.
    pub repaid: bool,
    /// When the loan is due, in seconds since the epoch.
    pub due_date: u64,
    /// When the loan was made, in seconds since the epoch.
    pub created_at: u64,
}

/// The model of a [`Loan`].
pub struct LoanView {
    pub agent: Seq<char>,
    pub amount: u64,
    pub repaid: bool,
    pub due_date: u64,
    pub created_at: u64,
}

impl View for Loan {
    type V = LoanView;

    open spec fn view(&self) -> LoanView {
        LoanView {
            agent: self.agent@,
            amount: self.amount,
            repaid: self.repaid,
            due_date: self.due_date,
            created_at: self.created_at,
        }
    }
}

impl Clone for Loan {
    fn clone(&self) -> (copy: Self)
        ensures
            copy@ == self@,
    {
        Loan {
            agent: self.agent.clone(),
            amount: self.amount,
            repaid: self.repaid,
            due_date: self.due_date,
            created_at: self.created_at,
        }
    }
}

impl LoanView {
    /// The loan that `agent` takes at `now` for `duration` seconds.
    pub open spec fn opened(agent: Seq<char>, amount: u64, now: u64, duration: u64) -> LoanView
        recommends
            now + duration <= u64::MAX,
    {
        LoanView {
            agent,
            amount,
            repaid: false,
            due_date: (now + duration) as u64,
            created_at: now,
        }
    }

    /// This loan, repaid.
    pub open spec fn settled(self) -> LoanView {
        LoanView { repaid: true, ..self }
    }

    /// Whether this loan is in default at `now`: it is not repaid and its
    /// grace period is over.
    pub open spec fn in_default(self, now: u64) -> bool {
        !self.repaid && past_grace(now as int, self.due_date as int, GRACE_PERIOD_SECONDS as int)
    }
}

impl Loan {
    /// The loan that `agent` takes at `now` for `duration_seconds`.
    pub fn open(agent: Address, amount: u64, now: u64, duration_seconds: u64) -> (loan: Loan)
        requires
            now + duration_seconds <= u64::MAX,
        ensures
            loan@ == LoanView::opened(agent@, amount, now, duration_seconds),
    {
        Loan { agent, amount, repaid: false, due_date: now + duration_seconds, created_at: now }
    }

    /// Whether this loan is in default at `now`.
    pub fn is_in_default(&self, now: u64) -> (overdue: bool)
        ensures
            overdue == self@.in_default(now),
    {
        !self.repaid && is_past_grace(now, self.due_date, GRACE_PERIOD_SECONDS)
    }
}

/// The share of the pool that is lent out, in percent, as estimated from
/// what the pool holds: all of it where the pool is empty, half of it
/// otherwise.
pub open spec fn pool_utilization(total_liquidity: int) -> int {
    if total_liquidity <= 0 {
        100
    } else {
        50
    }
}

/// The share of the pool that is lent out, in percent.
pub fn calculate_pool_utilization(total_liquidity: i128) -> (percent: u32)
    ensures
        percent == pool_utilization(total_liquidity as int),
        percent <= 100,
{
    if total_liquidity <= 0 {
        100
    } else {
        50
    }
}

/// Whether a loan that is due at `due_date` is past its grace period at `now`.
pub open spec fn past_grace(now: int, due_date: int, grace: int) -> bool {
    now > due_date + grace
}

/// Whether a loan that is due at `due_date` is past its grace period at `now`.
pub fn is_past_grace(now: u64, due_date: u64, grace: u64) -> (past: bool)
    ensures
        past == past_grace(now as int, due_date as int, grace as int),
{
    now > due_date && now - due_date > grace
}

/// What a repayment at `now` of a loan due at `due_date` does to the score.
/// The first band that applies decides: past the grace period, a default;
/// at least `early_threshold` before the due date, early; within the grace
/// period, on time; anything else, late.
pub open spec fn delta_for_repayment(
    now: int,
    due_date: int,
    grace: int,
    early_threshold: int,
) -> int {
    if now > due_date + grace {
        REPUTATION_DECREASE_DEFAULT as int
    } else if now <= due_date - early_threshold {
        REPUTATION_INCREASE_EARLY as int
    } else if now <= due_date + grace {
        REPUTATION_INCREASE_ON_TIME as int
    } else {
        REPUTATION_DECREASE_LATE as int
    }
}

/// What a repayment at `now` of a loan due at `due_date` does to the score.
pub fn repayment_delta(now: u64, due_date: u64, grace: u64, early_threshold: u64) -> (delta: i32)
    ensures
        delta == delta_for_repayment(
            now as int,
            due_date as int,
            grace as int,
            early_threshold as int,
        ),
{
    if is_past_grace(now, due_date, grace) {
        REPUTATION_DECREASE_DEFAULT
    } else if due_date >= early_threshold && now <= due_date - early_threshold {
        REPUTATION_INCREASE_EARLY
    } else {
        REPUTATION_INCREASE_ON_TIME
    }
}

/// Whether a loan of `amount` is granted, and if not, why. The checks run
/// in this order and the first that fails decides: the delegation, the limit
/// of the borrower's tier, the utilization of the pool, the borrower's slot,
/// the liquidity of the pool.
pub open spec fn loan_request_outcome(
    authorized: bool,
    score: u32,
    pool_balance: int,
    existing: Option<LoanView>,
    amount: u64,
) -> Result<(), Error> {
    if !authorized {
        Err(Error::Unauthorized)
    } else if amount > tier_limit(score as int) {
        Err(Error::LimitExceeded)
    } else if pool_utilization(pool_balance) > MAX_POOL_UTILIZATION {
        Err(Error::PoolSaturated)
    } else if existing matches Some(loan) && !loan.repaid {
        Err(Error::ActiveLoanExists)
    } else if pool_balance < amount {
        Err(Error::InsufficientLiquidity)
    } else {
        Ok(())
    }
}

/// The view of a slot.
pub open spec fn slot_view(slot: Option<&Loan>) -> Option<LoanView> {
    match slot {
        Some(loan) => Some(loan@),
        None => None,
    }
}

/// Decides on a request for a loan of `amount`, given what the registry
/// said of the borrower (`authorized`), the borrower's `score`, what the
/// pool holds and what is in the borrower's slot.
pub fn check_loan_request(
    authorized: bool,
    score: u32,
    pool_balance: i128,
    existing: Option<&Loan>,
    amount: u64,
) -> (outcome: Result<(), Error>)
    ensures
        outcome == loan_request_outcome(
            authorized,
            score,
            pool_balance as int,
            slot_view(existing),
            amount,
        ),
{
    if !authorized {
        return Err(Error::Unauthorized);
    }
    if amount > calculate_max_loan_amount(score) {
        return Err(Error::LimitExceeded);
    }
    if calculate_pool_utilization(pool_balance) > MAX_POOL_UTILIZATION {
        return Err(Error::PoolSaturated);
    }
    if let Some(loan) = existing {
        if !loan.repaid {
            return Err(Error::ActiveLoanExists);
        }
    }
    if pool_balance < amount as i128 {
        return Err(Error::InsufficientLiquidity);
    }
    Ok(())
}

/// Whether the loan in a slot can be repaid, and if not, why.
pub open spec fn repayable(existing: Option<LoanView>) -> Result<(), Error> {
    match existing {
        None => Err(Error::NoActiveLoan),
        Some(loan) => if loan.repaid {
            Err(Error::AlreadyRepaid)
        } else {
            Ok(())
        },
    }
}

/// Whether a default can be reported at `now` on the loan in a slot, and if
/// not, why. `penalized` says whether the agent was charged for a default
/// before.
pub open spec fn default_report_outcome(
    existing: Option<LoanView>,
    now: u64,
    penalized: bool,
) -> Result<(), Error> {
    match existing {
        None => Err(Error::NoActiveLoan),
        Some(loan) => if loan.repaid {
            Err(Error::AlreadyRepaid)
        } else if !loan.in_default(now) {
            Err(Error::NotOverdue)
        } else if penalized {
            Err(Error::PenaltyAlreadyApplied)
        } else {
            Ok(())
        },
    }
}

/// Decides whether the loan in a slot can be repaid, and gives that loan
/// where it can.
pub fn check_repayable<'a>(existing: Option<&'a Loan>) -> (outcome: Result<&'a Loan, Error>)
    ensures
        match outcome {
            Ok(loan) => repayable(slot_view(existing)) is Ok && existing == Some(loan),
            Err(reason) => repayable(slot_view(existing)) == Err::<(), Error>(reason),
        },
{
    match existing {
        None => Err(Error::NoActiveLoan),
        Some(loan) => if loan.repaid {
            Err(Error::AlreadyRepaid)
        } else {
            Ok(loan)
        },
    }
}

/// Decides whether a default can be reported at `now` on the loan in a slot.
pub fn check_default_report(existing: Option<&Loan>, now: u64, penalized: bool) -> (outcome:
    Result<(), Error>)
    ensures
        outcome == default_report_outcome(slot_view(existing), now, penalized),
{
    match existing {
        None => Err(Error::NoActiveLoan),
        Some(loan) => if loan.repaid {
            Err(Error::AlreadyRepaid)
        } else if !loan.is_in_default(now) {
            Err(Error::NotOverdue)
        } else if penalized {
            Err(Error::PenaltyAlreadyApplied)
        } else {
            Ok(())
        },
    }
}

} // verus!
