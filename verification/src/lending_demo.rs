//! The lending engine: it grants loans within the limit of the borrower's
//! reputation, takes repayments, and moves the reputation by how they come.

use crate::address::{Address, Auth};
use crate::address_map::AddressMap;
use crate::agent_manager::{authorizes, AgentInfoView, AgentManagerContract};
use crate::error::Error;
use crate::loan::{
    calculate_pool_utilization, check_default_report, check_loan_request, check_repayable,
    default_report_outcome, delta_for_repayment, loan_request_outcome, pool_utilization,
    repayable, repayment_delta, Loan, LoanView, EARLY_PAYMENT_THRESHOLD, GRACE_PERIOD_SECONDS,
    REPUTATION_DECREASE_DEFAULT,
};
use crate::reputation_manager::{ReputationManagerContract, ReputationView};
use crate::tiers::{calculate_max_loan_amount, tier_limit};
use vstd::prelude::*;

verus! {

/// The name of the action that taking a loan is.
pub open spec fn borrow_action() -> Seq<char> {
    "borrow"@
}

/// The name of the action that repaying a loan is.
pub open spec fn repay_action() -> Seq<char> {
    "repay_loan"@
}

/// An order to the value-transfer service: move `amount` from one account
/// to another. The engine decides on it; whoever runs the engine carries it
/// out.
#[derive(Debug, PartialEq, Eq)]
pub struct Transfer {
    /// The account that pays.
    pub from: Address,
    /// The account that receives.
    pub to: Address,
    /// The amount to move.
    pub amount: u64,
}

/// The model of a [`Transfer`].
pub struct TransferView {
    pub from: Seq<char>,
    pub to: Seq<char>,
    pub amount: u64,
}

impl View for Transfer {
    type V = TransferView;

    open spec fn view(&self) -> TransferView {
        TransferView { from: self.from@, to: self.to@, amount: self.amount }
    }
}

impl Clone for Transfer {
    fn clone(&self) -> (copy: Self)
        ensures
            copy@ == self@,
    {
        Transfer { from: self.from.clone(), to: self.to.clone(), amount: self.amount }
    }
}

/// The services that the engine was set up with.
#[derive(Debug, PartialEq, Eq)]
pub struct Config {
    /// The administrator of the engine.
    pub admin: Address,
    /// The delegation registry.
    pub agent_manager: Address,
    /// The reputation ledger.
    pub reputation_manager: Address,
    /// The value-transfer service.
    pub xlm_token: Address,
}

/// The model of a [`Config`].
pub struct ConfigView {
    pub admin: Seq<char>,
    pub agent_manager: Seq<char>,
    pub reputation_manager: Seq<char>,
    pub xlm_token: Seq<char>,
}

impl View for Config {
    type V = ConfigView;

    open spec fn view(&self) -> ConfigView {
        ConfigView {
            admin: self.admin@,
            agent_manager: self.agent_manager@,
            reputation_manager: self.reputation_manager@,
            xlm_token: self.xlm_token@,
        }
    }
}

impl Clone for Config {
    fn clone(&self) -> (copy: Self)
        ensures
            copy@ == self@,
    {
        Config {
            admin: self.admin.clone(),
            agent_manager: self.agent_manager.clone(),
            reputation_manager: self.reputation_manager.clone(),
            xlm_token: self.xlm_token.clone(),
        }
    }
}

/// Whether every slot of `loans` holds a loan of the agent it belongs to,
/// due no earlier than it was made.
pub open spec fn slots_match(loans: Map<Seq<char>, LoanView>) -> bool {
    forall|agent: Seq<char>| #[trigger]
        loans.contains_key(agent) ==> loans[agent].agent == agent && loans[agent].created_at
            <= loans[agent].due_date
}

/// The model of the engine.
pub struct LendingView {
    /// The engine's own identity: the account of the pool, and the name in
    /// which the engine moves scores.
    pub address: Seq<char>,
    /// What the engine was set up with, once it is.
    pub config: Option<ConfigView>,
    /// The slot of each agent that ever borrowed.
    pub loans: Map<Seq<char>, LoanView>,
    /// The agents that were charged for a default.
    pub penalized: Set<Seq<char>>,
}

impl LendingView {
    /// The slot of `agent`.
    pub open spec fn slot(self, agent: Seq<char>) -> Option<LoanView> {
        if self.loans.contains_key(agent) {
            Some(self.loans[agent])
        } else {
            None
        }
    }

    /// Every slot holds a loan of the agent it belongs to, due no earlier
    /// than it was made.
    pub open spec fn well_formed(self) -> bool {
        slots_match(self.loans)
    }

    /// Whether `agent` has a loan that is not repaid.
    pub open spec fn has_active_loan(self, agent: Seq<char>) -> bool {
        self.loans.contains_key(agent) && !self.loans[agent].repaid
    }

    /// Whether the loan of `agent` is in default at `now`.
    pub open spec fn is_overdue(self, agent: Seq<char>, now: u64) -> bool {
        self.loans.contains_key(agent) && self.loans[agent].in_default(now)
    }

    /// Whether `agent` is in default at `now` and was not charged for it.
    pub open spec fn penalty_due(self, agent: Seq<char>, now: u64) -> bool {
        self.is_overdue(agent, now) && !self.penalized.contains(agent)
    }

    /// This engine with `loan` in the slot of `agent`.
    pub open spec fn with_loan(self, agent: Seq<char>, loan: LoanView) -> LendingView {
        LendingView { loans: self.loans.insert(agent, loan), ..self }
    }

    /// This engine after `agent` was charged for a default.
    pub open spec fn with_penalty(self, agent: Seq<char>) -> LendingView {
        LendingView { penalized: self.penalized.insert(agent), ..self }
    }

    /// Whether the ledger lets this engine move scores in its own name.
    pub open spec fn may_move_scores(self, ledger: ReputationView) -> bool {
        ledger.approved.contains(self.address)
    }

    /// Whether `agent` gets a loan of `amount`, and if not, why.
    pub open spec fn request_outcome(
        self,
        registry: Map<Seq<char>, AgentInfoView>,
        ledger: ReputationView,
        pool_balance: int,
        agent: Seq<char>,
        amount: u64,
    ) -> Result<(), Error> {
        if self.config is None {
            Err(Error::NotInitialized)
        } else {
            loan_request_outcome(
                authorizes(registry, agent, borrow_action(), amount),
                ledger.score_of(agent),
                pool_balance,
                self.slot(agent),
                amount,
            )
        }
    }

    /// Whether `agent` can repay its loan, and if not, why. `signers` are
    /// those who authorized the call, `agent_balance` what the agent holds.
    pub open spec fn repayment_outcome(
        self,
        registry: Map<Seq<char>, AgentInfoView>,
        ledger: ReputationView,
        signers: Set<Seq<char>>,
        agent_balance: int,
        agent: Seq<char>,
    ) -> Result<(), Error> {
        if self.config is None {
            Err(Error::NotInitialized)
        } else if repayable(self.slot(agent)) is Err {
            repayable(self.slot(agent))
        } else if !authorizes(registry, agent, repay_action(), self.loans[agent].amount) {
            Err(Error::Unauthorized)
        } else if !signers.contains(agent) {
            Err(Error::Unauthorized)
        } else if agent_balance < self.loans[agent].amount {
            Err(Error::InsufficientLiquidity)
        } else if !self.may_move_scores(ledger) {
            Err(Error::Unauthorized)
        } else {
            Ok(())
        }
    }

    /// Whether a default of `agent` can be reported at `now`, and if not,
    /// why.
    pub open spec fn default_outcome(self, ledger: ReputationView, now: u64, agent: Seq<char>)
        -> Result<(), Error> {
        if self.config is None {
            Err(Error::NotInitialized)
        } else if default_report_outcome(self.slot(agent), now, self.penalized.contains(agent))
            is Err {
            default_report_outcome(self.slot(agent), now, self.penalized.contains(agent))
        } else if !self.may_move_scores(ledger) {
            Err(Error::Unauthorized)
        } else {
            Ok(())
        }
    }

    /// What asking at `now` whether `agent` is in default gives. Where a
    /// penalty is due, the question charges it, and fails if it cannot.
    pub open spec fn overdue_outcome(self, ledger: ReputationView, now: u64, agent: Seq<char>)
        -> Result<bool, Error> {
        if !self.penalty_due(agent, now) {
            Ok(self.is_overdue(agent, now))
        } else if self.config is None {
            Err(Error::NotInitialized)
        } else if !self.may_move_scores(ledger) {
            Err(Error::Unauthorized)
        } else {
            Ok(true)
        }
    }

    /// The engine after `agent` asked at `now` for a loan of `amount` over
    /// `duration` seconds: with the loan in the agent's slot where it was
    /// granted, unchanged where it was not.
    pub open spec fn after_request(
        self,
        registry: Map<Seq<char>, AgentInfoView>,
        ledger: ReputationView,
        pool_balance: int,
        now: u64,
        agent: Seq<char>,
        amount: u64,
        duration: u64,
    ) -> LendingView {
        if self.request_outcome(registry, ledger, pool_balance, agent, amount) is Ok {
            self.with_loan(agent, LoanView::opened(agent, amount, now, duration))
        } else {
            self
        }
    }

    /// The engine after `agent` offered to repay: with the loan marked
    /// repaid where the repayment was taken, unchanged where it was not.
    pub open spec fn after_repayment(
        self,
        registry: Map<Seq<char>, AgentInfoView>,
        ledger: ReputationView,
        signers: Set<Seq<char>>,
        agent_balance: int,
        agent: Seq<char>,
    ) -> LendingView {
        if self.repayment_outcome(registry, ledger, signers, agent_balance, agent) is Ok {
            self.with_loan(agent, self.loans[agent].settled())
        } else {
            self
        }
    }

    /// The ledger after `agent` offered at `now` to repay: with the agent's
    /// score moved by what the time of the repayment earns where it was
    /// taken, unchanged where it was not.
    pub open spec fn ledger_after_repayment(
        self,
        registry: Map<Seq<char>, AgentInfoView>,
        ledger: ReputationView,
        signers: Set<Seq<char>>,
        agent_balance: int,
        now: u64,
        agent: Seq<char>,
    ) -> ReputationView {
        if self.repayment_outcome(registry, ledger, signers, agent_balance, agent) is Ok {
            ledger.moved(
                agent,
                delta_for_repayment(
                    now as int,
                    self.loans[agent].due_date as int,
                    GRACE_PERIOD_SECONDS as int,
                    EARLY_PAYMENT_THRESHOLD as int,
                ),
            )
        } else {
            ledger
        }
    }

    /// The engine after a default of `agent` was reported at `now`: with the
    /// agent marked as charged where the report was accepted, unchanged
    /// where it was not.
    pub open spec fn after_default_report(self, ledger: ReputationView, now: u64, agent: Seq<char>)
        -> LendingView {
        if self.default_outcome(ledger, now, agent) is Ok {
            self.with_penalty(agent)
        } else {
            self
        }
    }

    /// The ledger after a default of `agent` was reported at `now`: with
    /// the penalty taken from the agent's score where the report was
    /// accepted, unchanged where it was not.
    pub open spec fn ledger_after_default_report(
        self,
        ledger: ReputationView,
        now: u64,
        agent: Seq<char>,
    ) -> ReputationView {
        if self.default_outcome(ledger, now, agent) is Ok {
            ledger.moved(agent, REPUTATION_DECREASE_DEFAULT as int)
        } else {
            ledger
        }
    }

    /// The engine after it was asked at `now` whether `agent` is in
    /// default: with the agent marked as charged where a penalty was due and
    /// could be charged, unchanged otherwise.
    pub open spec fn after_overdue_check(self, ledger: ReputationView, now: u64, agent: Seq<char>)
        -> LendingView {
        if self.penalty_due(agent, now) && self.overdue_outcome(ledger, now, agent) is Ok {
            self.with_penalty(agent)
        } else {
            self
        }
    }

    /// The ledger after the engine was asked at `now` whether `agent` is in
    /// default: with the penalty taken from the agent's score where one was
    /// due and could be charged, unchanged otherwise.
    pub open spec fn ledger_after_overdue_check(
        self,
        ledger: ReputationView,
        now: u64,
        agent: Seq<char>,
    ) -> ReputationView {
        if self.penalty_due(agent, now) && self.overdue_outcome(ledger, now, agent) is Ok {
            ledger.moved(agent, REPUTATION_DECREASE_DEFAULT as int)
        } else {
            ledger
        }
    }
}

/// The slots of the agents: each holds a loan of its agent, due no earlier
/// than it was made.
struct LoanBook {
    table: AddressMap<Loan>,
}

impl View for LoanBook {
    type V = Map<Seq<char>, LoanView>;

    closed spec fn view(&self) -> Map<Seq<char>, LoanView> {
        self.table@
    }
}

impl LoanBook {
    #[verifier::type_invariant]
    spec fn well_formed(&self) -> bool {
        slots_match(self.table@)
    }

    fn new() -> (book: Self)
        ensures
            book@ == Map::<Seq<char>, LoanView>::empty(),
    {
        LoanBook { table: AddressMap::new() }
    }

    /// Makes known to the caller what holds of every slot.
    fn recall_slots(&self)
        ensures
            slots_match(self@),
    {
        proof {
            use_type_invariant(self);
        }
    }

    fn get(&self, agent: &Address) -> (found: Option<&Loan>)
        ensures
            match found {
                Some(loan) => self@.contains_key(agent@) && self@[agent@] == loan@,
                None => !self@.contains_key(agent@),
            },
            slots_match(self@),
    {
        proof {
            use_type_invariant(self);
        }
        self.table.get(agent)
    }

    /// Puts `loan` in the slot of its agent.
    fn put(&mut self, loan: Loan)
        requires
            loan.created_at <= loan.due_date,
        ensures
            final(self)@ == old(self)@.insert(loan.agent@, loan@),
            slots_match(final(self)@),
    {
        proof {
            use_type_invariant(&*self);
        }
        let mut table: AddressMap<Loan> = AddressMap::new();
        core::mem::swap(&mut self.table, &mut table);
        table.insert(loan.agent.clone(), loan);
        self.table = table;
    }
}

/// The lending engine.
pub struct LendingDemoContract {
    address: Address,
    config: Option<Config>,
    loans: LoanBook,
    penalties: AddressMap<bool>,
}

impl View for LendingDemoContract {
    type V = LendingView;

    closed spec fn view(&self) -> LendingView {
        LendingView {
            address: self.address@,
            config: match self.config {
                Some(config) => Some(config@),
                None => None,
            },
            loans: self.loans@,
            penalized: Set::new(
                |agent: Seq<char>| self.penalties@.contains_key(agent) && self.penalties@[agent],
            ),
        }
    }
}

impl LendingDemoContract {
    /// An engine with the identity `address` that is not set up and has
    /// made no loan.
    pub fn new(address: Address) -> (engine: Self)
        ensures
            engine@.address == address@,
            engine@.config is None,
            engine@.loans == Map::<Seq<char>, LoanView>::empty(),
            engine@.penalized == Set::<Seq<char>>::empty(),
            engine@.well_formed(),
    {
        let engine = LendingDemoContract {
            address,
            config: None,
            loans: LoanBook::new(),
            penalties: AddressMap::new(),
        };
        engine
    }

    /// Sets the engine up with the services it works with. `admin` must
    /// have authorized the call. A second call replaces what the first
    /// stored.
    pub fn initialize(
        &mut self,
        auth: &Auth,
        admin: Address,
        agent_manager_contract: Address,
        reputation_manager_contract: Address,
        xlm_token_contract: Address,
    ) -> (outcome: Result<(), Error>)
        ensures
            outcome == if auth@.contains(admin@) {
                Ok::<(), Error>(())
            } else {
                Err(Error::Unauthorized)
            },
            final(self)@ == if outcome is Ok {
                (LendingView {
                    config: Some(
                        ConfigView {
                            admin: admin@,
                            agent_manager: agent_manager_contract@,
                            reputation_manager: reputation_manager_contract@,
                            xlm_token: xlm_token_contract@,
                        },
                    ),
                    ..old(self)@
                })
            } else {
                old(self)@
            },
            final(self)@.well_formed(),
    {
        self.loans.recall_slots();
        if !auth.has(&admin) {
            return Err(Error::Unauthorized);
        }
        self.config = Some(
            Config {
                admin,
                agent_manager: agent_manager_contract,
                reputation_manager: reputation_manager_contract,
                xlm_token: xlm_token_contract,
            },
        );
        Ok(())
    }

    /// The engine's own identity.
    pub fn address(&self) -> (address: &Address)
        ensures
            address@ == self@.address,
    {
        &self.address
    }

    /// What the engine was set up with, once it is.
    pub fn config(&self) -> (config: Option<Config>)
        ensures
            match config {
                Some(stored) => self@.config == Some(stored@),
                None => self@.config is None,
            },
    {
        match &self.config {
            Some(stored) => Some(stored.clone()),
            None => None,
        }
    }

    /// What the pool holds, given the balance that the value-transfer
    /// service reports for the engine's account.
    pub fn get_liquidity(&self, pool_balance: i128) -> (outcome: Result<i128, Error>)
        ensures
            outcome == if self@.config is None {
                Err::<i128, Error>(Error::NotInitialized)
            } else {
                Ok(pool_balance)
            },
    {
        if self.config.is_none() {
            return Err(Error::NotInitialized);
        }
        Ok(pool_balance)
    }

    /// Grants `agent` a loan of `amount` for `duration_seconds`, or says why
    /// not. `pool_balance` is what the pool holds and `now` the time of the
    /// call. A granted loan fills the agent's slot, and the order that comes
    /// back pays it out of the pool.
    pub fn request_loan(
        &mut self,
        registry: &AgentManagerContract,
        ledger: &ReputationManagerContract,
        pool_balance: i128,
        now: u64,
        agent: &Address,
        amount: u64,
        duration_seconds: u64,
    ) -> (outcome: Result<Transfer, Error>)
        requires
            now + duration_seconds <= u64::MAX,
        ensures
            match outcome {
                Ok(transfer) => {
                    &&& old(self)@.request_outcome(
                        registry@,
                        ledger@,
                        pool_balance as int,
                        agent@,
                        amount,
                    ) is Ok
                    &&& transfer@ == (TransferView {
                        from: old(self)@.address,
                        to: agent@,
                        amount,
                    })
                },
                Err(reason) => old(self)@.request_outcome(
                    registry@,
                    ledger@,
                    pool_balance as int,
                    agent@,
                    amount,
                ) == Err::<(), Error>(reason),
            },
            final(self)@ == old(self)@.after_request(
                registry@,
                ledger@,
                pool_balance as int,
                now,
                agent@,
                amount,
                duration_seconds,
            ),
            final(self)@.well_formed(),
    {
        self.loans.recall_slots();
        if self.config.is_none() {
            return Err(Error::NotInitialized);
        }
        let authorized = registry.is_authorized(agent, "borrow", amount);
        let score = ledger.get_score(agent);
        match check_loan_request(authorized, score, pool_balance, self.loans.get(agent), amount) {
            Err(reason) => {
                return Err(reason);
            },
            Ok(()) => {},
        }
        self.loans.put(Loan::open(agent.clone(), amount, now, duration_seconds));
        Ok(Transfer { from: self.address.clone(), to: agent.clone(), amount })
    }

    /// Takes the repayment of the loan of `agent`, or says why not. The
    /// agent must have authorized the call; `agent_balance` is what it holds.
    /// A repayment marks the loan repaid and moves the agent's score by how
    /// early or late it comes; the order that comes back pays the pool.
    pub fn repay_loan(
        &mut self,
        auth: &Auth,
        registry: &AgentManagerContract,
        ledger: &mut ReputationManagerContract,
        agent_balance: i128,
        now: u64,
        agent: &Address,
    ) -> (outcome: Result<Transfer, Error>)
        ensures
            match outcome {
                Ok(transfer) => {
                    &&& old(self)@.repayment_outcome(
                        registry@,
                        old(ledger)@,
                        auth@,
                        agent_balance as int,
                        agent@,
                    ) is Ok
                    &&& transfer@ == (TransferView {
                        from: agent@,
                        to: old(self)@.address,
                        amount: old(self)@.loans[agent@].amount,
                    })
                },
                Err(reason) => old(self)@.repayment_outcome(
                    registry@,
                    old(ledger)@,
                    auth@,
                    agent_balance as int,
                    agent@,
                ) == Err::<(), Error>(reason),
            },
            final(self)@ == old(self)@.after_repayment(
                registry@,
                old(ledger)@,
                auth@,
                agent_balance as int,
                agent@,
            ),
            final(ledger)@ == old(self)@.ledger_after_repayment(
                registry@,
                old(ledger)@,
                auth@,
                agent_balance as int,
                now,
                agent@,
            ),
            final(self)@.well_formed(),
    {
        if self.config.is_none() {
            self.loans.recall_slots();
            return Err(Error::NotInitialized);
        }
        let mut loan = match check_repayable(self.loans.get(agent)) {
            Err(reason) => {
                return Err(reason);
            },
            Ok(stored) => stored.clone(),
        };
        if !registry.is_authorized(agent, "repay_loan", loan.amount) {
            return Err(Error::Unauthorized);
        }
        if !auth.has(agent) {
            return Err(Error::Unauthorized);
        }
        if agent_balance < loan.amount as i128 {
            return Err(Error::InsufficientLiquidity);
        }
        let delta = repayment_delta(
            now,
            loan.due_date,
            GRACE_PERIOD_SECONDS,
            EARLY_PAYMENT_THRESHOLD,
        );
        let own = Auth::signed_by(&self.address);
        match ledger.update_score(&own, &self.address, agent, delta) {
            Err(reason) => {
                return Err(reason);
            },
            Ok(()) => {},
        }
        let amount = loan.amount;
        loan.repaid = true;
        self.loans.put(loan);
        Ok(Transfer { from: agent.clone(), to: self.address.clone(), amount })
    }

    /// Charges `agent` for a default, or says why not. Anybody may report
    /// one, but only once the loan is past its grace period and unpaid, and
    /// an agent is charged once.
    pub fn report_default(
        &mut self,
        ledger: &mut ReputationManagerContract,
        now: u64,
        agent: &Address,
    ) -> (outcome: Result<(), Error>)
        ensures
            outcome == old(self)@.default_outcome(old(ledger)@, now, agent@),
            final(self)@ == old(self)@.after_default_report(old(ledger)@, now, agent@),
            final(ledger)@ == old(self)@.ledger_after_default_report(old(ledger)@, now, agent@),
            final(self)@.well_formed(),
    {
        self.loans.recall_slots();
        if self.config.is_none() {
            return Err(Error::NotInitialized);
        }
        let penalized = self.is_penalized(agent);
        match check_default_report(self.loans.get(agent), now, penalized) {
            Err(reason) => {
                return Err(reason);
            },
            Ok(()) => {},
        }
        self.charge_default(ledger, agent)
    }

    /// Whether the loan of `agent` is in default at `now`. Where it is and
    /// the agent was not charged for a default yet, asking charges it, and
    /// fails if that cannot be done.
    pub fn is_loan_overdue(
        &mut self,
        ledger: &mut ReputationManagerContract,
        now: u64,
        agent: &Address,
    ) -> (outcome: Result<bool, Error>)
        ensures
            outcome == old(self)@.overdue_outcome(old(ledger)@, now, agent@),
            final(self)@ == old(self)@.after_overdue_check(old(ledger)@, now, agent@),
            final(ledger)@ == old(self)@.ledger_after_overdue_check(old(ledger)@, now, agent@),
            final(self)@.well_formed(),
    {
        let overdue = match self.loans.get(agent) {
            Some(loan) => loan.is_in_default(now),
            None => false,
        };
        if !overdue || self.is_penalized(agent) {
            return Ok(overdue);
        }
        if self.config.is_none() {
            return Err(Error::NotInitialized);
        }
        match self.charge_default(ledger, agent) {
            Err(reason) => Err(reason),
            Ok(()) => Ok(true),
        }
    }

    /// Takes the penalty for a default from the score of `agent` and notes
    /// that it was charged.
    fn charge_default(&mut self, ledger: &mut ReputationManagerContract, agent: &Address) -> (outcome:
        Result<(), Error>)
        ensures
            outcome == if old(self)@.may_move_scores(old(ledger)@) {
                Ok::<(), Error>(())
            } else {
                Err(Error::Unauthorized)
            },
            final(self)@ == if outcome is Ok {
                old(self)@.with_penalty(agent@)
            } else {
                old(self)@
            },
            final(ledger)@ == if outcome is Ok {
                old(ledger)@.moved(agent@, REPUTATION_DECREASE_DEFAULT as int)
            } else {
                old(ledger)@
            },
    {
        let own = Auth::signed_by(&self.address);
        match ledger.update_score(&own, &self.address, agent, REPUTATION_DECREASE_DEFAULT) {
            Err(reason) => {
                return Err(reason);
            },
            Ok(()) => {},
        }
        self.penalties.insert(agent.clone(), true);
        assert(self@.penalized =~= old(self)@.penalized.insert(agent@));
        Ok(())
    }

    /// Whether `agent` was charged for a default.
    pub fn is_penalized(&self, agent: &Address) -> (penalized: bool)
        ensures
            penalized == self@.penalized.contains(agent@),
    {
        match self.penalties.get(agent) {
            Some(flag) => *flag,
            None => false,
        }
    }

    /// The slot of `agent`: its last loan, if it ever took one.
    pub fn get_loan(&self, agent: &Address) -> (found: Option<Loan>)
        ensures
            match found {
                Some(loan) => self@.slot(agent@) == Some(loan@) && loan.agent@ == agent@
                    && loan.created_at <= loan.due_date,
                None => self@.slot(agent@) is None,
            },
            self@.well_formed(),
    {
        match self.loans.get(agent) {
            Some(loan) => Some(loan.clone()),
            None => None,
        }
    }

    /// The largest loan that a borrower with `reputation_score` may take.
    pub fn get_max_loan_for_reputation(reputation_score: u32) -> (limit: u64)
        ensures
            limit == tier_limit(reputation_score as int),
    {
        calculate_max_loan_amount(reputation_score)
    }

    /// The share of the pool that is lent out, in percent, given the
    /// balance that the value-transfer service reports for the pool.
    pub fn get_pool_utilization(&self, pool_balance: i128) -> (outcome: Result<u32, Error>)
        ensures
            outcome == if self@.config is None {
                Err::<u32, Error>(Error::NotInitialized)
            } else {
                Ok(pool_utilization(pool_balance as int) as u32)
            },
    {
        if self.config.is_none() {
            return Err(Error::NotInitialized);
        }
        Ok(calculate_pool_utilization(pool_balance))
    }
}

} // verus!
