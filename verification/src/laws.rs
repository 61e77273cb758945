//! What holds of the three services whatever they are asked, stated over
//! the models that their contracts speak of.

use crate::agent_manager::{authorizes, AgentInfoView};
use crate::error::{Error, ErrorKind};
use crate::lending_demo::{borrow_action, LendingView};
use crate::loan::{
    delta_for_repayment, loan_request_outcome, pool_utilization, MAX_POOL_UTILIZATION,
    REPUTATION_DECREASE_DEFAULT, REPUTATION_DECREASE_LATE, REPUTATION_INCREASE_EARLY,
    REPUTATION_INCREASE_ON_TIME,
};
use crate::reputation_manager::{clamp_score, ReputationView, MAX_SCORE, MIN_SCORE};
use crate::tiers::{
    tier_limit, TIER_1_MAX_LOAN, TIER_2_MAX_LOAN, TIER_3_MAX_LOAN, TIER_4_MAX_LOAN,
};
use vstd::prelude::*;

verus! {

/// A score that is moved by `delta` becomes the old score plus `delta`
/// where that lies between 0 and 100, 0 where it lies below, 100 where it
/// lies above; no other agent's score changes, and a ledger whose scores
/// are in range stays so.
pub proof fn lemma_update_moves_one_score(
    ledger: ReputationView,
    agent: Seq<char>,
    other: Seq<char>,
    delta: int,
)
    ensures
        ledger.moved(agent, delta).score_of(agent) == clamp_score(ledger.score_of(agent) + delta),
        MIN_SCORE <= ledger.moved(agent, delta).score_of(agent) <= MAX_SCORE,
        ledger.score_of(agent) + delta < MIN_SCORE ==> ledger.moved(agent, delta).score_of(agent)
            == MIN_SCORE,
        ledger.score_of(agent) + delta > MAX_SCORE ==> ledger.moved(agent, delta).score_of(agent)
            == MAX_SCORE,
        MIN_SCORE <= ledger.score_of(agent) + delta <= MAX_SCORE ==> ledger.moved(
            agent,
            delta,
        ).score_of(agent) == ledger.score_of(agent) + delta,
        other != agent ==> ledger.moved(agent, delta).score_of(other) == ledger.score_of(other),
        ledger.well_formed() ==> ledger.moved(agent, delta).well_formed(),
{
}

/// Within 0 to 100 a higher score never has a lower limit: the limit steps
/// up at 50, 60, 75 and 90. Above 100 it is 0.
pub proof fn lemma_tier_limit_is_monotonic(lower: int, higher: int)
    requires
        0 <= lower <= higher,
    ensures
        higher <= 100 ==> tier_limit(lower) <= tier_limit(higher),
        higher > 100 ==> tier_limit(higher) == 0,
        tier_limit(49) == 0 && tier_limit(50) == TIER_1_MAX_LOAN,
        tier_limit(59) == TIER_1_MAX_LOAN && tier_limit(60) == TIER_2_MAX_LOAN,
        tier_limit(74) == TIER_2_MAX_LOAN && tier_limit(75) == TIER_3_MAX_LOAN,
        tier_limit(89) == TIER_3_MAX_LOAN && tier_limit(90) == TIER_4_MAX_LOAN,
        tier_limit(100) == TIER_4_MAX_LOAN && tier_limit(101) == 0,
        0 < TIER_1_MAX_LOAN < TIER_2_MAX_LOAN < TIER_3_MAX_LOAN < TIER_4_MAX_LOAN,
{
}

/// After a loan was granted, the borrower's slot holds an unpaid loan and
/// the borrower's next request fails, whatever it asks for and whatever
/// the registry, the ledger and the pool say by then. Where that request
/// passes the checks on delegation, tier and utilization, it fails because
/// of the loan.
pub proof fn lemma_second_request_fails(
    engine: LendingView,
    registry: Map<Seq<char>, AgentInfoView>,
    ledger: ReputationView,
    pool_balance: int,
    now: u64,
    agent: Seq<char>,
    amount: u64,
    duration: u64,
    next_registry: Map<Seq<char>, AgentInfoView>,
    next_ledger: ReputationView,
    next_pool_balance: int,
    next_amount: u64,
)
    requires
        engine.request_outcome(registry, ledger, pool_balance, agent, amount) is Ok,
    ensures
        ({
            let granted = engine.after_request(
                registry,
                ledger,
                pool_balance,
                now,
                agent,
                amount,
                duration,
            );
            let next = granted.request_outcome(
                next_registry,
                next_ledger,
                next_pool_balance,
                agent,
                next_amount,
            );
            &&& granted.has_active_loan(agent)
            &&& next is Err
            &&& (authorizes(next_registry, agent, borrow_action(), next_amount) && next_amount
                <= tier_limit(next_ledger.score_of(agent) as int) && pool_utilization(
                next_pool_balance,
            ) <= MAX_POOL_UTILIZATION) ==> next == Err::<(), Error>(Error::ActiveLoanExists)
        }),
        Error::ActiveLoanExists.kind_of() == ErrorKind::InvalidState,
{
}

/// An agent with an unpaid loan gets no second one: a request fails, and
/// where it passes the checks on delegation, tier and utilization it fails
/// because of the loan.
pub proof fn lemma_one_active_loan(
    engine: LendingView,
    registry: Map<Seq<char>, AgentInfoView>,
    ledger: ReputationView,
    pool_balance: int,
    agent: Seq<char>,
    amount: u64,
)
    requires
        engine.has_active_loan(agent),
    ensures
        engine.request_outcome(registry, ledger, pool_balance, agent, amount) is Err,
        (engine.config is Some && authorizes(registry, agent, borrow_action(), amount) && amount
            <= tier_limit(ledger.score_of(agent) as int) && pool_utilization(pool_balance)
            <= MAX_POOL_UTILIZATION) ==> engine.request_outcome(
            registry,
            ledger,
            pool_balance,
            agent,
            amount,
        ) == Err::<(), Error>(Error::ActiveLoanExists),
{
}

/// An unpaid loan stays in its slot until its agent repays it: no request,
/// no report of a default, no question about a default and no repayment by
/// another agent touches it, and the agent's own repayment, once taken,
/// frees the slot.
pub proof fn lemma_loan_stays_until_repaid(
    engine: LendingView,
    registry: Map<Seq<char>, AgentInfoView>,
    ledger: ReputationView,
    signers: Set<Seq<char>>,
    balance: int,
    now: u64,
    agent: Seq<char>,
    other: Seq<char>,
    amount: u64,
    duration: u64,
)
    requires
        engine.has_active_loan(agent),
    ensures
        engine.after_request(
            registry,
            ledger,
            balance,
            now,
            other,
            amount,
            duration,
        ).slot(agent) == engine.slot(agent),
        engine.after_default_report(ledger, now, other).slot(agent) == engine.slot(agent),
        engine.after_overdue_check(ledger, now, other).slot(agent) == engine.slot(agent),
        other != agent ==> engine.after_repayment(registry, ledger, signers, balance, other).slot(
            agent,
        ) == engine.slot(agent),
        engine.repayment_outcome(registry, ledger, signers, balance, agent) is Err
            ==> engine.after_repayment(registry, ledger, signers, balance, agent).slot(agent)
            == engine.slot(agent),
        engine.repayment_outcome(registry, ledger, signers, balance, agent) is Ok
            ==> !engine.after_repayment(registry, ledger, signers, balance, agent).has_active_loan(
            agent,
        ),
{
}

/// A repaid loan stands in nobody's way: once the repayment of `agent`
/// was taken, a request of the same agent is decided as if the agent had
/// never borrowed.
pub proof fn lemma_repaid_slot_is_free(
    engine: LendingView,
    registry: Map<Seq<char>, AgentInfoView>,
    ledger: ReputationView,
    signers: Set<Seq<char>>,
    agent_balance: int,
    agent: Seq<char>,
    next_registry: Map<Seq<char>, AgentInfoView>,
    next_ledger: ReputationView,
    next_pool_balance: int,
    next_amount: u64,
)
    requires
        engine.repayment_outcome(registry, ledger, signers, agent_balance, agent) is Ok,
    ensures
        engine.after_repayment(registry, ledger, signers, agent_balance, agent).request_outcome(
            next_registry,
            next_ledger,
            next_pool_balance,
            agent,
            next_amount,
        ) == loan_request_outcome(
            authorizes(next_registry, agent, borrow_action(), next_amount),
            next_ledger.score_of(agent),
            next_pool_balance,
            None,
            next_amount,
        ),
{
}

/// Whatever the engine is asked, its slots stay in order: each holds a
/// loan of the agent it belongs to, due no earlier than it was made.
pub proof fn lemma_slots_stay_well_formed(
    engine: LendingView,
    registry: Map<Seq<char>, AgentInfoView>,
    ledger: ReputationView,
    signers: Set<Seq<char>>,
    balance: int,
    now: u64,
    agent: Seq<char>,
    amount: u64,
    duration: u64,
)
    requires
        engine.well_formed(),
        now + duration <= u64::MAX,
    ensures
        engine.after_request(registry, ledger, balance, now, agent, amount, duration).well_formed(),
        engine.after_repayment(registry, ledger, signers, balance, agent).well_formed(),
        engine.after_default_report(ledger, now, agent).well_formed(),
        engine.after_overdue_check(ledger, now, agent).well_formed(),
{
}

/// With a grace period and an early threshold that are not negative, a
/// repayment falls in exactly one of three bands: a default past the grace
/// period, early up to the threshold before the due date, on time between
/// the two. The late penalty is never given.
pub proof fn lemma_repayment_bands(now: int, due_date: int, grace: int, early_threshold: int)
    requires
        grace >= 0,
        early_threshold >= 0,
    ensures
        delta_for_repayment(now, due_date, grace, early_threshold) == (if now > due_date + grace {
            REPUTATION_DECREASE_DEFAULT as int
        } else if now <= due_date - early_threshold {
            REPUTATION_INCREASE_EARLY as int
        } else {
            REPUTATION_INCREASE_ON_TIME as int
        }),
        delta_for_repayment(now, due_date, grace, early_threshold) != REPUTATION_DECREASE_LATE,
{
}

/// The bands at their edges, for a grace period and an early threshold of
/// at least one second: early up to and including the threshold before the
/// due date, on time from the next second to the last second of the grace
/// period, a default from the second after.
pub proof fn lemma_repayment_band_edges(due_date: int, grace: int, early_threshold: int)
    requires
        grace >= 1,
        early_threshold >= 1,
    ensures
        delta_for_repayment(due_date - early_threshold - 1, due_date, grace, early_threshold)
            == REPUTATION_INCREASE_EARLY,
        delta_for_repayment(due_date - early_threshold, due_date, grace, early_threshold)
            == REPUTATION_INCREASE_EARLY,
        delta_for_repayment(due_date - early_threshold + 1, due_date, grace, early_threshold)
            == REPUTATION_INCREASE_ON_TIME,
        delta_for_repayment(due_date, due_date, grace, early_threshold)
            == REPUTATION_INCREASE_ON_TIME,
        delta_for_repayment(due_date + 1, due_date, grace, early_threshold)
            == REPUTATION_INCREASE_ON_TIME,
        delta_for_repayment(due_date + grace, due_date, grace, early_threshold)
            == REPUTATION_INCREASE_ON_TIME,
        delta_for_repayment(due_date + grace + 1, due_date, grace, early_threshold)
            == REPUTATION_DECREASE_DEFAULT,
{
}

/// An agent is charged for a default once. Of two reports, of a report
/// and a question, of a question and a report and of two questions about
/// the same agent, in this order and at any two times, at most one takes
/// the penalty from the agent's score: after both, the ledger is as it was
/// or moved by one penalty.
pub proof fn lemma_default_is_charged_once(
    engine: LendingView,
    ledger: ReputationView,
    agent: Seq<char>,
    first: u64,
    second: u64,
)
    ensures
        ({
            let reported = engine.after_default_report(ledger, first, agent);
            let ledger_reported = engine.ledger_after_default_report(ledger, first, agent);
            let asked = engine.after_overdue_check(ledger, first, agent);
            let ledger_asked = engine.ledger_after_overdue_check(ledger, first, agent);
            let once = ledger.moved(agent, REPUTATION_DECREASE_DEFAULT as int);
            &&& charged_at_most_once(
                ledger,
                once,
                reported.ledger_after_default_report(ledger_reported, second, agent),
            )
            &&& charged_at_most_once(
                ledger,
                once,
                reported.ledger_after_overdue_check(ledger_reported, second, agent),
            )
            &&& charged_at_most_once(
                ledger,
                once,
                asked.ledger_after_default_report(ledger_asked, second, agent),
            )
            &&& charged_at_most_once(
                ledger,
                once,
                asked.ledger_after_overdue_check(ledger_asked, second, agent),
            )
        }),
{
}

/// Whether `after` is `before` or `once`.
pub open spec fn charged_at_most_once(
    before: ReputationView,
    once: ReputationView,
    after: ReputationView,
) -> bool {
    after == before || after == once
}

/// After a report or a question has charged an agent, the agent is marked,
/// and a report at the same or a later time is refused as a repetition.
pub proof fn lemma_second_report_is_refused(
    engine: LendingView,
    ledger: ReputationView,
    next_ledger: ReputationView,
    agent: Seq<char>,
    now: u64,
    later: u64,
)
    requires
        engine.default_outcome(ledger, now, agent) is Ok || (engine.penalty_due(agent, now)
            && engine.overdue_outcome(ledger, now, agent) is Ok),
        now <= later,
    ensures
        engine.after_default_report(ledger, now, agent).penalized.contains(agent)
            || engine.after_overdue_check(ledger, now, agent).penalized.contains(agent),
        engine.default_outcome(ledger, now, agent) is Ok ==> engine.after_default_report(
            ledger,
            now,
            agent,
        ).default_outcome(next_ledger, later, agent) == Err::<(), Error>(
            Error::PenaltyAlreadyApplied,
        ),
        engine.penalty_due(agent, now) && engine.overdue_outcome(ledger, now, agent) is Ok
            ==> engine.after_overdue_check(ledger, now, agent).default_outcome(
            next_ledger,
            later,
            agent,
        ) == Err::<(), Error>(Error::PenaltyAlreadyApplied),
        Error::PenaltyAlreadyApplied.kind_of() == ErrorKind::AlreadyDone,
{
}

/// Once an agent is marked as charged, it stays marked, and no report and
/// no question takes the penalty again, at any time and in any state of
/// its loan.
pub proof fn lemma_charged_agent_is_left_alone(
    engine: LendingView,
    ledger: ReputationView,
    agent: Seq<char>,
    now: u64,
)
    requires
        engine.penalized.contains(agent),
    ensures
        engine.default_outcome(ledger, now, agent) is Err,
        engine.ledger_after_default_report(ledger, now, agent) == ledger,
        engine.overdue_outcome(ledger, now, agent) == Ok::<bool, Error>(
            engine.is_overdue(agent, now),
        ),
        engine.ledger_after_overdue_check(ledger, now, agent) == ledger,
        engine.after_default_report(ledger, now, agent).penalized.contains(agent),
        engine.after_overdue_check(ledger, now, agent).penalized.contains(agent),
{
}

/// The registry says yes only to a registered agent that is not revoked,
/// for an amount within its bound and an action among its scopes: an
/// unknown agent, a revoked one, a higher amount and another action are
/// each refused.
pub proof fn lemma_authorization_needs_all_four(
    agents: Map<Seq<char>, AgentInfoView>,
    agent: Seq<char>,
    action: Seq<char>,
    amount: u64,
)
    ensures
        !agents.contains_key(agent) ==> !authorizes(agents, agent, action, amount),
        agents.contains_key(agent) && agents[agent].revoked ==> !authorizes(
            agents,
            agent,
            action,
            amount,
        ),
        agents.contains_key(agent) && amount > agents[agent].max_amount ==> !authorizes(
            agents,
            agent,
            action,
            amount,
        ),
        agents.contains_key(agent) && !agents[agent].scopes.contains(action) ==> !authorizes(
            agents,
            agent,
            action,
            amount,
        ),
        authorizes(agents, agent, action, amount) <==> (agents.contains_key(agent)
            && !agents[agent].revoked && amount <= agents[agent].max_amount
            && agents[agent].scopes.contains(action)),
{
}

/// A revoked agent is refused every action and every amount, and a later
/// revocation changes nothing about that.
pub proof fn lemma_revocation_is_final(
    agents: Map<Seq<char>, AgentInfoView>,
    agent: Seq<char>,
    action: Seq<char>,
    amount: u64,
)
    requires
        agents.contains_key(agent),
    ensures
        !authorizes(
            agents.insert(agent, AgentInfoView { revoked: true, ..agents[agent] }),
            agent,
            action,
            amount,
        ),
{
}

} // verus!
