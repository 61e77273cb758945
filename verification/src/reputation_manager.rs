//! The reputation ledger: one score per agent, between 0 and 100, that only
//! approved callers may move.

use crate::address::{Address, Auth};
use crate::address_map::AddressMap;
use crate::error::Error;
use vstd::prelude::*;

verus! {

/// The lowest score.
pub const MIN_SCORE: u32 = 0;

/// The highest score.
pub const MAX_SCORE: u32 = 100;

/// The score of an agent that nothing is recorded about.
pub const DEFAULT_SCORE: u32 = 50;

/// `value` brought into the range of scores: the nearest of 0 to 100.
pub open spec fn clamp_score(value: int) -> int {
    if value > MAX_SCORE {
        MAX_SCORE as int
    } else if value < MIN_SCORE {
        MIN_SCORE as int
    } else {
        value
    }
}

/// The score that `current` becomes when it is moved by `delta`.
pub fn apply_delta(current: u32, delta: i32) -> (moved: u32)
    ensures
        moved == clamp_score(current + delta),
        MIN_SCORE <= moved <= MAX_SCORE,
{
    let sum: i64 = current as i64 + delta as i64;
    if sum > MAX_SCORE as i64 {
        MAX_SCORE
    } else if sum < MIN_SCORE as i64 {
        MIN_SCORE
    } else {
        sum as u32
    }
}

/// Whether every score of `scores` lies between 0 and 100.
pub open spec fn scores_in_range(scores: Map<Seq<char>, u32>) -> bool {
    forall|agent: Seq<char>| #[trigger] scores.contains_key(agent) ==> scores[agent] <= MAX_SCORE
}

/// The model of the ledger.
pub struct ReputationView {
    /// The administrator, once the ledger is set up.
    pub admin: Option<Seq<char>>,
    /// The callers that may move scores.
    pub approved: Set<Seq<char>>,
    /// The scores that were recorded.
    pub scores: Map<Seq<char>, u32>,
}

impl ReputationView {
    /// The score of `agent`: the recorded one, or the default.
    pub open spec fn score_of(self, agent: Seq<char>) -> u32 {
        if self.scores.contains_key(agent) {
            self.scores[agent]
        } else {
            DEFAULT_SCORE
        }
    }

    /// This ledger with `score` recorded for `agent`.
    pub open spec fn with_score(self, agent: Seq<char>, score: u32) -> ReputationView {
        ReputationView { scores: self.scores.insert(agent, score), ..self }
    }

    /// This ledger after the score of `agent` was moved by `delta`.
    pub open spec fn moved(self, agent: Seq<char>, delta: int) -> ReputationView {
        self.with_score(agent, clamp_score(self.score_of(agent) + delta) as u32)
    }

    /// Every recorded score lies between 0 and 100.
    pub open spec fn well_formed(self) -> bool {
        scores_in_range(self.scores)
    }

    /// Whether a call that `signers` authorized may move scores in the name
    /// of `caller`: the caller signed and is approved.
    pub open spec fn admits(self, signers: Set<Seq<char>>, caller: Seq<char>) -> bool {
        signers.contains(caller) && self.approved.contains(caller)
    }

    /// Whether `admin` may approve a caller in a call that `signers`
    /// authorized, and if not, why.
    pub open spec fn approval_outcome(self, signers: Set<Seq<char>>, admin: Seq<char>) -> Result<
        (),
        Error,
    > {
        approval_by(self.admin, signers, admin)
    }
}

/// Whether `admin` may approve a caller of a ledger whose administrator is
/// `stored`, in a call that `signers` authorized, and if not, why: the
/// administrator must have signed, the ledger must be set up, and `admin`
/// must be its administrator.
pub open spec fn approval_by(
    stored: Option<Seq<char>>,
    signers: Set<Seq<char>>,
    admin: Seq<char>,
) -> Result<(), Error> {
    if !signers.contains(admin) {
        Err(Error::Unauthorized)
    } else if stored is None {
        Err(Error::NotInitialized)
    } else if stored != Some(admin) {
        Err(Error::Unauthorized)
    } else {
        Ok(())
    }
}

/// The view of the administrator that a ledger stores.
pub open spec fn admin_view(stored: Option<&Address>) -> Option<Seq<char>> {
    match stored {
        Some(admin) => Some(admin@),
        None => None,
    }
}

/// Decides whether `admin` may approve a caller of a ledger whose
/// administrator is `stored`.
pub fn check_approval(stored: Option<&Address>, auth: &Auth, admin: &Address) -> (outcome: Result<
    (),
    Error,
>)
    ensures
        outcome == approval_by(admin_view(stored), auth@, admin@),
{
    if !auth.has(admin) {
        return Err(Error::Unauthorized);
    }
    match stored {
        None => Err(Error::NotInitialized),
        Some(stored) => if stored.same_as(admin) {
            Ok(())
        } else {
            Err(Error::Unauthorized)
        },
    }
}

/// Decides whether a call may move scores in the name of `caller`, who is
/// approved or not as `approved` says: the caller must have signed and be
/// approved.
pub fn check_caller(auth: &Auth, caller: &Address, approved: bool) -> (outcome: Result<(), Error>)
    ensures
        outcome == if auth@.contains(caller@) && approved {
            Ok::<(), Error>(())
        } else {
            Err(Error::Unauthorized)
        },
{
    if auth.has(caller) && approved {
        Ok(())
    } else {
        Err(Error::Unauthorized)
    }
}

/// The recorded scores, each between 0 and 100.
struct ScoreTable {
    table: AddressMap<u32>,
}

impl View for ScoreTable {
    type V = Map<Seq<char>, u32>;

    closed spec fn view(&self) -> Map<Seq<char>, u32> {
        self.table@
    }
}

impl ScoreTable {
    #[verifier::type_invariant]
    spec fn well_formed(&self) -> bool {
        scores_in_range(self.table@)
    }

    fn new() -> (scores: Self)
        ensures
            scores@ == Map::<Seq<char>, u32>::empty(),
    {
        ScoreTable { table: AddressMap::new() }
    }

    /// Makes the range of the recorded scores known to the caller.
    fn recall_range(&self)
        ensures
            scores_in_range(self@),
    {
        proof {
            use_type_invariant(self);
        }
    }

    fn get(&self, agent: &Address) -> (found: Option<u32>)
        ensures
            match found {
                Some(score) => self@.contains_key(agent@) && self@[agent@] == score,
                None => !self@.contains_key(agent@),
            },
            scores_in_range(self@),
    {
        proof {
            use_type_invariant(self);
        }
        match self.table.get(agent) {
            Some(score) => Some(*score),
            None => None,
        }
    }

    fn set(&mut self, agent: Address, score: u32)
        requires
            score <= MAX_SCORE,
        ensures
            final(self)@ == old(self)@.insert(agent@, score),
            scores_in_range(final(self)@),
    {
        proof {
            use_type_invariant(&*self);
        }
        let mut table: AddressMap<u32> = AddressMap::new();
        core::mem::swap(&mut self.table, &mut table);
        table.insert(agent, score);
        self.table = table;
    }
}

/// The ledger of reputation scores.
pub struct ReputationManagerContract {
    admin: Option<Address>,
    approved: AddressMap<bool>,
    scores: ScoreTable,
}

impl View for ReputationManagerContract {
    type V = ReputationView;

    closed spec fn view(&self) -> ReputationView {
        ReputationView {
            admin: match self.admin {
                Some(admin) => Some(admin@),
                None => None,
            },
            approved: Set::new(
                |caller: Seq<char>| self.approved@.contains_key(caller) && self.approved@[caller],
            ),
            scores: self.scores@,
        }
    }
}

impl ReputationManagerContract {
    /// A ledger that is not set up: no administrator, no approved caller, no
    /// recorded score.
    pub fn new() -> (ledger: Self)
        ensures
            ledger@.admin is None,
            ledger@.approved == Set::<Seq<char>>::empty(),
            ledger@.scores == Map::<Seq<char>, u32>::empty(),
            ledger@.well_formed(),
    {
        let ledger = ReputationManagerContract {
            admin: None,
            approved: AddressMap::new(),
            scores: ScoreTable::new(),
        };
        ledger
    }

    /// Makes `admin`, who must have authorized the call, the administrator.
    /// A second call replaces the first administrator.
    pub fn initialize(&mut self, auth: &Auth, admin: Address) -> (outcome: Result<(), Error>)
        ensures
            outcome == if auth@.contains(admin@) {
                Ok::<(), Error>(())
            } else {
                Err(Error::Unauthorized)
            },
            final(self)@ == if outcome is Ok {
                (ReputationView { admin: Some(admin@), ..old(self)@ })
            } else {
                old(self)@
            },
            final(self)@.well_formed(),
    {
        self.scores.recall_range();
        if !auth.has(&admin) {
            return Err(Error::Unauthorized);
        }
        self.admin = Some(admin);
        Ok(())
    }

    /// Lets `caller` move scores from now on. Only the administrator may do
    /// so, and must have authorized the call.
    pub fn approve_caller(&mut self, auth: &Auth, admin: &Address, caller: Address) -> (outcome:
        Result<(), Error>)
        ensures
            outcome == old(self)@.approval_outcome(auth@, admin@),
            final(self)@ == if outcome is Ok {
                (ReputationView { approved: old(self)@.approved.insert(caller@), ..old(self)@ })
            } else {
                old(self)@
            },
            final(self)@.well_formed(),
    {
        self.scores.recall_range();
        match check_approval(self.admin.as_ref(), auth, admin) {
            Err(reason) => {
                return Err(reason);
            },
            Ok(()) => {},
        }
        self.approved.insert(caller, true);
        assert(self@.approved =~= old(self)@.approved.insert(caller@));
        Ok(())
    }

    /// Whether `caller` may move scores.
    pub fn is_approved(&self, caller: &Address) -> (approved: bool)
        ensures
            approved == self@.approved.contains(caller@),
    {
        match self.approved.get(caller) {
            Some(flag) => *flag,
            None => false,
        }
    }

    /// The score of `agent`: the recorded one, or 50 where none is recorded.
    pub fn get_score(&self, agent: &Address) -> (score: u32)
        ensures
            score == self@.score_of(agent@),
            score <= MAX_SCORE,
            self@.well_formed(),
    {
        match self.scores.get(agent) {
            Some(score) => score,
            None => DEFAULT_SCORE,
        }
    }

    /// Moves the score of `agent` by `delta`, stopping at 0 and at 100.
    /// `caller` must be approved and must have authorized the call.
    pub fn update_score(&mut self, auth: &Auth, caller: &Address, agent: &Address, delta: i32) -> (outcome:
        Result<(), Error>)
        ensures
            outcome == if old(self)@.admits(auth@, caller@) {
                Ok::<(), Error>(())
            } else {
                Err(Error::Unauthorized)
            },
            final(self)@ == if outcome is Ok {
                old(self)@.moved(agent@, delta as int)
            } else {
                old(self)@
            },
            final(self)@.well_formed(),
    {
        match check_caller(auth, caller, self.is_approved(caller)) {
            Err(reason) => {
                self.scores.recall_range();
                return Err(reason);
            },
            Ok(()) => {},
        }
        let moved = apply_delta(self.get_score(agent), delta);
        self.scores.set(agent.clone(), moved);
        Ok(())
    }

    /// Sets the score of `agent` to 0, whatever it was. `caller` must be
    /// approved and must have authorized the call.
    pub fn freeze_reputation(&mut self, auth: &Auth, caller: &Address, agent: &Address) -> (outcome:
        Result<(), Error>)
        ensures
            outcome == if old(self)@.admits(auth@, caller@) {
                Ok::<(), Error>(())
            } else {
                Err(Error::Unauthorized)
            },
            final(self)@ == if outcome is Ok {
                old(self)@.with_score(agent@, MIN_SCORE)
            } else {
                old(self)@
            },
            final(self)@.well_formed(),
    {
        match check_caller(auth, caller, self.is_approved(caller)) {
            Err(reason) => {
                self.scores.recall_range();
                return Err(reason);
            },
            Ok(()) => {},
        }
        self.scores.set(agent.clone(), MIN_SCORE);
        Ok(())
    }
}

} // verus!
