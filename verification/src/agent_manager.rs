//! The delegation registry: which agent may do what, and up to which amount.

use crate::address::{Address, Auth};
use crate::address_map::AddressMap;
use crate::error::Error;
use vstd::prelude::*;

verus! {

/// What an owner has delegated to an agent.
#[derive(Debug, PartialEq, Eq)]
pub struct AgentInfo {
    /// The identity that controls the agent.
    pub owner: Address,
    /// The names of the actions that the agent may take.
    pub scopes: Vec<String>,
    /// The largest amount that the agent may move in one action.
    pub max_amount: u64,
    /// Whether the owner has withdrawn the delegation.
    pub revoked: bool,
}

/// The model of an [`AgentInfo`].
pub struct AgentInfoView {
    pub owner: Seq<char>,
    pub scopes: Seq<Seq<char>>,
    pub max_amount: u64,
    pub revoked: bool,
}

/// The names that a list of scopes holds, in its order.
pub open spec fn scope_names(scopes: Seq<String>) -> Seq<Seq<char>> {
    Seq::new(scopes.len(), |i: int| scopes[i]@)
}

impl AgentInfoView {
    /// Whether this delegation covers `action` with `amount`: it is not
    /// revoked, the amount is within its bound, and the action is one of its
    /// scopes, letter for letter.
    pub open spec fn permits(self, action: Seq<char>, amount: u64) -> bool {
        &&& !self.revoked
        &&& amount <= self.max_amount
        &&& self.scopes.contains(action)
    }
}

impl View for AgentInfo {
    type V = AgentInfoView;

    open spec fn view(&self) -> AgentInfoView {
        AgentInfoView {
            owner: self.owner@,
            scopes: scope_names(self.scopes@),
            max_amount: self.max_amount,
            revoked: self.revoked,
        }
    }
}

fn clone_scopes(scopes: &Vec<String>) -> (copy: Vec<String>)
    ensures
        copy@ == scopes@,
{
    let mut copy: Vec<String> = Vec::new();
    let mut i: usize = 0;
    while i < scopes.len()
        invariant
            i <= scopes@.len(),
            copy@ == scopes@.take(i as int),
        decreases scopes@.len() - i,
    {
        copy.push(scopes[i].clone());
        i += 1;
    }
    copy
}

impl Clone for AgentInfo {
    fn clone(&self) -> (copy: Self)
        ensures
            copy@ == self@,
    {
        AgentInfo {
            owner: self.owner.clone(),
            scopes: clone_scopes(&self.scopes),
            max_amount: self.max_amount,
            revoked: self.revoked,
        }
    }
}

impl AgentInfo {
    /// Whether this delegation covers `action` with `amount`.
    pub fn permits(&self, action: &str, amount: u64) -> (allowed: bool)
        ensures
            allowed == self@.permits(action@, amount),
    {
        if self.revoked {
            return false;
        }
        if amount > self.max_amount {
            return false;
        }
        let wanted = action.to_owned();
        let ghost names = scope_names(self.scopes@);
        let mut i: usize = 0;
        while i < self.scopes.len()
            invariant
                i <= self.scopes@.len(),
                !self.revoked,
                amount <= self.max_amount,
                wanted@ == action@,
                names == scope_names(self.scopes@),
                forall|j: int| 0 <= j < i ==> names[j] != action@,
            decreases self.scopes@.len() - i,
        {
            if self.scopes[i] == wanted {
                assert(names[i as int] == action@);
                return true;
            }
            i += 1;
        }
        false
    }
}

/// The view of a slot of the registry.
pub open spec fn record_view(record: Option<&AgentInfo>) -> Option<AgentInfoView> {
    match record {
        Some(info) => Some(info@),
        None => None,
    }
}

/// Whether the record in a slot covers `action` with `amount`. An empty
/// slot covers nothing.
pub open spec fn slot_permits(record: Option<AgentInfoView>, action: Seq<char>, amount: u64) -> bool {
    record matches Some(info) && info.permits(action, amount)
}

/// Whether the record in a slot can be revoked by `owner` in a call that
/// `signers` authorized, and if not, why.
pub open spec fn slot_revocable(
    record: Option<AgentInfoView>,
    signers: Set<Seq<char>>,
    owner: Seq<char>,
) -> Result<(), Error> {
    if !signers.contains(owner) {
        Err(Error::Unauthorized)
    } else if record is None {
        Err(Error::NotFound)
    } else if record.unwrap().owner != owner {
        Err(Error::Unauthorized)
    } else {
        Ok(())
    }
}

/// Decides whether the record in a slot covers `action` with `amount`.
pub fn check_authorized(record: Option<&AgentInfo>, action: &str, amount: u64) -> (allowed: bool)
    ensures
        allowed == slot_permits(record_view(record), action@, amount),
{
    match record {
        None => false,
        Some(info) => info.permits(action, amount),
    }
}

/// The record that a registration by `owner` stores: what the owner
/// delegates, not revoked. The owner must have authorized the call.
pub fn register_record(auth: &Auth, owner: Address, scopes: Vec<String>, max_amount: u64) -> (outcome:
    Result<AgentInfo, Error>)
    ensures
        match outcome {
            Ok(record) => {
                &&& auth@.contains(owner@)
                &&& record@ == (AgentInfoView {
                    owner: owner@,
                    scopes: scope_names(scopes@),
                    max_amount,
                    revoked: false,
                })
            },
            Err(reason) => !auth@.contains(owner@) && reason == Error::Unauthorized,
        },
{
    if !auth.has(&owner) {
        return Err(Error::Unauthorized);
    }
    Ok(AgentInfo { owner, scopes, max_amount, revoked: false })
}

/// Revokes the record in a slot for `owner`: gives the record as it is to
/// be stored, or says why `owner` may not revoke it.
pub fn revoke_record(record: Option<&AgentInfo>, auth: &Auth, owner: &Address) -> (outcome: Result<
    AgentInfo,
    Error,
>)
    ensures
        match outcome {
            Ok(revoked) => {
                &&& slot_revocable(record_view(record), auth@, owner@) is Ok
                &&& revoked@ == (AgentInfoView { revoked: true, ..record_view(record).unwrap() })
            },
            Err(reason) => slot_revocable(record_view(record), auth@, owner@) == Err::<(), Error>(
                reason,
            ),
        },
{
    if !auth.has(owner) {
        return Err(Error::Unauthorized);
    }
    match record {
        None => Err(Error::NotFound),
        Some(info) => if info.owner.same_as(owner) {
            let mut revoked = info.clone();
            revoked.revoked = true;
            Ok(revoked)
        } else {
            Err(Error::Unauthorized)
        },
    }
}

/// The slot of `agent` in the registry `agents`.
pub open spec fn slot_of(agents: Map<Seq<char>, AgentInfoView>, agent: Seq<char>) -> Option<
    AgentInfoView,
> {
    if agents.contains_key(agent) {
        Some(agents[agent])
    } else {
        None
    }
}

/// Whether the registry `agents` lets `agent` take `action` with `amount`:
/// the agent is registered and its delegation covers the request.
pub open spec fn authorizes(
    agents: Map<Seq<char>, AgentInfoView>,
    agent: Seq<char>,
    action: Seq<char>,
    amount: u64,
) -> bool {
    agents.contains_key(agent) && agents[agent].permits(action, amount)
}

/// Whether `owner` may revoke `agent` in a call that `signers` authorized,
/// and if not, why: the owner must have signed, the agent must be
/// registered, and its record must name this owner.
pub open spec fn revocation_outcome(
    agents: Map<Seq<char>, AgentInfoView>,
    signers: Set<Seq<char>>,
    owner: Seq<char>,
    agent: Seq<char>,
) -> Result<(), Error> {
    slot_revocable(slot_of(agents, agent), signers, owner)
}

/// The registry of delegations, one record per agent.
///
/// Its model is the map from each registered agent to its delegation.
pub struct AgentManagerContract {
    agents: AddressMap<AgentInfo>,
}

impl View for AgentManagerContract {
    type V = Map<Seq<char>, AgentInfoView>;

    closed spec fn view(&self) -> Map<Seq<char>, AgentInfoView> {
        self.agents@
    }
}

impl AgentManagerContract {
    /// The registry without any agent.
    pub fn new() -> (registry: Self)
        ensures
            registry@ == Map::<Seq<char>, AgentInfoView>::empty(),
    {
        AgentManagerContract { agents: AddressMap::new() }
    }

    /// Registers `agent` for `owner`, who must have authorized the call.
    ///
    /// The new record replaces whatever was stored for the agent, its owner
    /// and a revocation included.
    pub fn register_agent(
        &mut self,
        auth: &Auth,
        owner: Address,
        agent: Address,
        scopes: Vec<String>,
        max_amount: u64,
    ) -> (outcome: Result<(), Error>)
        ensures
            outcome == if auth@.contains(owner@) {
                Ok::<(), Error>(())
            } else {
                Err(Error::Unauthorized)
            },
            final(self)@ == if outcome is Ok {
                old(self)@.insert(
                    agent@,
                    (AgentInfoView {
                        owner: owner@,
                        scopes: scope_names(scopes@),
                        max_amount,
                        revoked: false,
                    }),
                )
            } else {
                old(self)@
            },
    {
        match register_record(auth, owner, scopes, max_amount) {
            Err(reason) => Err(reason),
            Ok(record) => {
                self.agents.insert(agent, record);
                Ok(())
            },
        }
    }

    /// Withdraws the delegation of `agent` for good. Only the owner that the
    /// record names may do so, and must have authorized the call.
    pub fn revoke_agent(&mut self, auth: &Auth, owner: &Address, agent: &Address) -> (outcome:
        Result<(), Error>)
        ensures
            outcome == revocation_outcome(old(self)@, auth@, owner@, agent@),
            final(self)@ == if outcome is Ok {
                old(self)@.insert(
                    agent@,
                    (AgentInfoView { revoked: true, ..old(self)@[agent@] }),
                )
            } else {
                old(self)@
            },
    {
        match revoke_record(self.agents.get(agent), auth, owner) {
            Err(reason) => Err(reason),
            Ok(revoked) => {
                self.agents.insert(agent.clone(), revoked);
                Ok(())
            },
        }
    }

    /// Whether `agent` may take `action` with `amount`. An unknown or revoked
    /// agent, an amount above its bound and an action outside its scopes all
    /// give `false`.
    pub fn is_authorized(&self, agent: &Address, action: &str, amount: u64) -> (allowed: bool)
        ensures
            allowed == authorizes(self@, agent@, action@, amount),
    {
        check_authorized(self.agents.get(agent), action, amount)
    }

    /// The record of `agent`, if it is registered.
    pub fn get_agent_info(&self, agent: &Address) -> (found: Option<AgentInfo>)
        ensures
            match found {
                Some(info) => self@.contains_key(agent@) && info@ == self@[agent@],
                None => !self@.contains_key(agent@),
            },
    {
        match self.agents.get(agent) {
            Some(info) => Some(info.clone()),
            None => None,
        }
    }
}

} // verus!
