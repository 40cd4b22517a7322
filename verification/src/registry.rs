//! The agent registry: binds (owner, strategy, seal) under a stable id and
//! lets the owner pause, resume, halt, and rotate the seal.

use vstd::prelude::*;
use vstd::bytes::{spec_u64_to_le_bytes, u64_to_le_bytes};
use crate::bytes::{append_bytes, is_default_key, keys_eq, zero_key, Address};
use crate::crypto::{keccak256, keccak_hash};
use crate::error::MagicsError;
use crate::vault::utf8_len;

verus! {

/// Domain tag folded into a derived agent id: `b"magics:agent:v1"`.
pub const AGENT_TAG: [u8; 15] = [109, 97, 103, 105, 99, 115, 58, 97, 103, 101, 110, 116, 58, 118, 49];

/// Cap on agent names, in bytes.
pub const MAX_NAME_LENGTH: usize = 64;

/// Cap on status-change reasons, in bytes.
pub const MAX_STATUS_REASON_LEN: usize = 64;

/// Lifecycle of an agent.
#[derive(Clone, Copy, Debug, PartialEq, Eq, Structural)]
pub enum Status {
    Active,
    Paused,
    Halted,
}

/// An owner, a strategy, and a seal bound under a stable id.
pub struct Agent {
    pub id: [u8; 32],
    pub owner: Address,
    pub strategy: Address,
    pub seal: [u8; 32],
    pub created_at: i64,
    pub updated_at: i64,
    pub status: Status,
    pub name: String,
    pub bump: u8,
}

/// Per-owner monotonic summon counter.
#[derive(Clone, Copy, Debug)]
pub struct OwnerCounter {
    pub owner: Address,
    pub count: u64,
    pub bump: u8,
}

/// Emitted when an agent is summoned.
pub struct AgentSummoned {
    pub owner: Address,
    pub agent_id: [u8; 32],
    pub strategy: Address,
    pub seal: [u8; 32],
    pub name: String,
}

/// Emitted when an agent's status changes.
pub struct AgentStatusChanged {
    pub agent_id: [u8; 32],
    pub from: Status,
    pub to: Status,
    pub reason: String,
}

/// Emitted when an agent's seal is rotated.
#[derive(Clone, Copy, Debug)]
pub struct AgentSealRotated {
    pub agent_id: [u8; 32],
    pub old_seal: [u8; 32],
    pub new_seal: [u8; 32],
}

/// The bytes hashed into an agent id.
pub open spec fn agent_id_preimage(owner: Seq<u8>, strategy: Seq<u8>, seal_id: Seq<u8>, counter: u64) -> Seq<u8> {
    AGENT_TAG@ + owner + strategy + seal_id + spec_u64_to_le_bytes(counter)
}

/// The id of the agent summoned by `owner` over (strategy, seal) as its
/// `counter`-th summon.
pub open spec fn agent_id_spec(owner: Seq<u8>, strategy: Seq<u8>, seal_id: Seq<u8>, counter: u64) -> Seq<u8> {
    keccak256(agent_id_preimage(owner, strategy, seal_id, counter))
}

/// Deterministic agent id: Keccak-256 over the agent tag, the owner, the
/// strategy, the seal id and the counter.
pub fn derive_agent_id(owner: &Address, strategy: &Address, seal_id: &[u8; 32], counter: u64) -> (id: [u8; 32])
    ensures
        id@ == agent_id_spec(owner@, strategy@, seal_id@, counter),
{
    let mut pre: Vec<u8> = Vec::with_capacity(15 + 32 + 32 + 32 + 8);
    append_bytes(&mut pre, AGENT_TAG.as_slice());
    append_bytes(&mut pre, owner.as_slice());
    append_bytes(&mut pre, strategy.as_slice());
    append_bytes(&mut pre, seal_id.as_slice());
    let c = u64_to_le_bytes(counter);
    append_bytes(&mut pre, c.as_slice());
    keccak_hash(pre.as_slice())
}

/// Two summons with different counters hash different bytes, whatever
/// strategies and seals they name: the counter is what keeps two agents of
/// one owner apart.
pub proof fn lemma_agent_preimage_counter_distinct(
    owner: Seq<u8>,
    strategy1: Seq<u8>,
    seal_id1: Seq<u8>,
    c1: u64,
    strategy2: Seq<u8>,
    seal_id2: Seq<u8>,
    c2: u64,
)
    requires
        owner.len() == 32,
        strategy1.len() == 32,
        seal_id1.len() == 32,
        strategy2.len() == 32,
        seal_id2.len() == 32,
        c1 != c2,
    ensures
        agent_id_preimage(owner, strategy1, seal_id1, c1) != agent_id_preimage(owner, strategy2, seal_id2, c2),
{
    vstd::bytes::lemma_auto_spec_u64_to_from_le_bytes();
    let p1 = agent_id_preimage(owner, strategy1, seal_id1, c1);
    let p2 = agent_id_preimage(owner, strategy2, seal_id2, c2);
    let b1 = spec_u64_to_le_bytes(c1);
    let b2 = spec_u64_to_le_bytes(c2);
    assert(AGENT_TAG@.len() == 15);
    assert(p1.subrange(111, 119) =~= b1);
    assert(p2.subrange(111, 119) =~= b2);
    assert(vstd::bytes::spec_u64_from_le_bytes(b1) == c1);
    assert(vstd::bytes::spec_u64_from_le_bytes(b2) == c2);
}

/// One step of an owner's counter: it stays, or a successful summon
/// advances it by one. `summon` is the only function that changes a
/// counter, and its contract allows exactly these two steps.
pub open spec fn counter_step(counts: Seq<u64>, k: int) -> bool {
    counts[k + 1] == counts[k] || counts[k + 1] == counts[k] + 1
}

/// A history of one owner's counter, state by state, in which every step
/// is one `summon` allows.
pub open spec fn counter_history(counts: Seq<u64>) -> bool {
    forall|k: int| 0 <= k < counts.len() - 1 ==> #[trigger] counter_step(counts, k)
}

/// An owner's counter never goes back.
proof fn lemma_counter_never_decreases(counts: Seq<u64>, a: int, b: int)
    requires
        counter_history(counts),
        0 <= a <= b < counts.len(),
    ensures
        counts[a] <= counts[b],
    decreases b - a,
{
    if a < b {
        lemma_counter_never_decreases(counts, a, b - 1);
        assert(counter_step(counts, b - 1));
    }
}

/// Agent ids stay distinct across summons: in any history of an owner's
/// counter, two successful summons at steps `i < j` (the counter advanced
/// at each) fold strictly increasing counters — each folds the counter it
/// advanced to — so whatever strategies and seals they name, they hash
/// different bytes (Keccak collisions aside).
pub proof fn lemma_summons_fold_distinct_counters(
    counts: Seq<u64>,
    i: int,
    j: int,
    owner: Seq<u8>,
    strategy1: Seq<u8>,
    seal_id1: Seq<u8>,
    strategy2: Seq<u8>,
    seal_id2: Seq<u8>,
)
    requires
        counter_history(counts),
        0 <= i < j,
        j + 1 < counts.len(),
        counts[i + 1] == counts[i] + 1,
        counts[j + 1] == counts[j] + 1,
        owner.len() == 32,
        strategy1.len() == 32,
        seal_id1.len() == 32,
        strategy2.len() == 32,
        seal_id2.len() == 32,
    ensures
        counts[i + 1] < counts[j + 1],
        agent_id_preimage(owner, strategy1, seal_id1, counts[i + 1])
            != agent_id_preimage(owner, strategy2, seal_id2, counts[j + 1]),
{
    lemma_counter_never_decreases(counts, i + 1, j);
    lemma_agent_preimage_counter_distinct(owner, strategy1, seal_id1, counts[i + 1], strategy2, seal_id2, counts[j + 1]);
}

/// Which error, if any, summoning refuses with, in this order: the seal
/// must belong to the caller; the name must be non-empty and at most
/// `MAX_NAME_LENGTH` bytes; the strategy must be non-zero; the counter must
/// be able to advance; and the supplied id must be the one derived from the
/// caller, strategy, seal and advanced counter.
pub open spec fn summon_check(
    counter: OwnerCounter,
    seal_owner: Seq<u8>,
    owner: Seq<u8>,
    agent_id: Seq<u8>,
    seal_id: Seq<u8>,
    strategy: Seq<u8>,
    name: Seq<char>,
) -> Option<MagicsError> {
    if seal_owner != owner {
        Some(MagicsError::NotOwner)
    } else if name.len() == 0 {
        Some(MagicsError::AgentNameEmpty)
    } else if utf8_len(name) > MAX_NAME_LENGTH {
        Some(MagicsError::AgentNameTooLong)
    } else if strategy == zero_key() {
        Some(MagicsError::ZeroAddress)
    } else if counter.count == u64::MAX {
        Some(MagicsError::NumericalOverflow)
    } else if agent_id_spec(owner, strategy, seal_id, (counter.count + 1) as u64) != agent_id {
        Some(MagicsError::AgentIdMismatch)
    } else {
        None
    }
}

/// Binds (owner, strategy, seal) into a fresh agent. `seal_owner` is the
/// owner recorded on the seal being bound; `counter` is the caller's summon
/// counter, blank on first use. On success the counter advances by one (and
/// records the caller and bump when blank), and the new agent is `Active`,
/// stamped with `now`; on failure the counter is left as it was.
pub fn summon(
    counter: &mut OwnerCounter,
    seal_owner: &Address,
    owner: &Address,
    agent_id: &[u8; 32],
    seal_id: &[u8; 32],
    strategy: &Address,
    name: String,
    now: i64,
    counter_bump: u8,
    agent_bump: u8,
) -> (r: Result<(Agent, AgentSummoned), MagicsError>)
    ensures
        match summon_check(*old(counter), seal_owner@, owner@, agent_id@, seal_id@, strategy@, name@) {
            Some(e) => r is Err && r->Err_0 == e && *final(counter) == *old(counter),
            None => {
                &&& final(counter).count == old(counter).count + 1
                &&& old(counter).owner@ == zero_key() ==> final(counter).owner == *owner
                    && final(counter).bump == counter_bump
                &&& old(counter).owner@ != zero_key() ==> final(counter).owner == old(counter).owner
                    && final(counter).bump == old(counter).bump
                &&& r matches Ok((agent, ev)) && {
                    &&& agent.id == *agent_id
                    &&& agent.owner == *owner
                    &&& agent.strategy == *strategy
                    &&& agent.seal == *seal_id
                    &&& agent.created_at == now
                    &&& agent.updated_at == now
                    &&& agent.status == Status::Active
                    &&& agent.name@ == name@
                    &&& agent.bump == agent_bump
                    &&& ev.owner == *owner
                    &&& ev.agent_id == *agent_id
                    &&& ev.strategy == *strategy
                    &&& ev.seal == *seal_id
                    &&& ev.name@ == name@
                }
            },
        },
{
    if !keys_eq(seal_owner, owner) {
        return Err(MagicsError::NotOwner);
    }
    if name.as_str().is_empty() {
        return Err(MagicsError::AgentNameEmpty);
    }
    if name.as_str().as_bytes().len() > MAX_NAME_LENGTH {
        return Err(MagicsError::AgentNameTooLong);
    }
    if is_default_key(strategy) {
        return Err(MagicsError::ZeroAddress);
    }
    let count = match counter.count.checked_add(1) {
        Some(c) => c,
        None => {
            return Err(MagicsError::NumericalOverflow);
        },
    };
    let expected = derive_agent_id(owner, strategy, seal_id, count);
    if !keys_eq(&expected, agent_id) {
        return Err(MagicsError::AgentIdMismatch);
    }
    if is_default_key(&counter.owner) {
        counter.owner = *owner;
        counter.bump = counter_bump;
    }
    counter.count = count;
    let event_name = name.clone();
    let agent = Agent {
        id: *agent_id,
        owner: *owner,
        strategy: *strategy,
        seal: *seal_id,
        created_at: now,
        updated_at: now,
        status: Status::Active,
        name,
        bump: agent_bump,
    };
    let ev = AgentSummoned {
        owner: *owner,
        agent_id: *agent_id,
        strategy: *strategy,
        seal: *seal_id,
        name: event_name,
    };
    Ok((agent, ev))
}

/// Which error, if any, pausing refuses with: the caller must own the
/// agent, the reason must fit, and a halted agent cannot be paused.
pub open spec fn pause_check(agent: Agent, signer: Seq<u8>, reason: Seq<char>) -> Option<MagicsError> {
    if agent.owner@ != signer {
        Some(MagicsError::NotOwner)
    } else if utf8_len(reason) > MAX_STATUS_REASON_LEN {
        Some(MagicsError::ReasonTooLong)
    } else if agent.status == Status::Halted {
        Some(MagicsError::AgentNotActive)
    } else {
        None
    }
}

/// Which error, if any, resuming refuses with: the caller must own the
/// agent, and a halted agent stays halted.
pub open spec fn resume_check(agent: Agent, signer: Seq<u8>) -> Option<MagicsError> {
    if agent.owner@ != signer {
        Some(MagicsError::NotOwner)
    } else if agent.status == Status::Halted {
        Some(MagicsError::AgentNotActive)
    } else {
        None
    }
}

/// Which error, if any, halting refuses with: the caller must own the
/// agent and the reason must fit.
pub open spec fn halt_check(agent: Agent, signer: Seq<u8>, reason: Seq<char>) -> Option<MagicsError> {
    if agent.owner@ != signer {
        Some(MagicsError::NotOwner)
    } else if utf8_len(reason) > MAX_STATUS_REASON_LEN {
        Some(MagicsError::ReasonTooLong)
    } else {
        None
    }
}

/// `after` is `before` with only the status and update time changed.
pub open spec fn status_changed(before: Agent, after: Agent, to: Status, now: i64) -> bool {
    &&& after.status == to
    &&& after.updated_at == now
    &&& after.id == before.id
    &&& after.owner == before.owner
    &&& after.strategy == before.strategy
    &&& after.seal == before.seal
    &&& after.created_at == before.created_at
    &&& after.name == before.name
    &&& after.bump == before.bump
}

/// Moves the agent to `to` at `now` and reports the change.
fn transition(agent: &mut Agent, to: Status, reason: String, now: i64) -> (ev: AgentStatusChanged)
    ensures
        status_changed(*old(agent), *final(agent), to, now),
        ev.agent_id == old(agent).id,
        ev.from == old(agent).status,
        ev.to == to,
        ev.reason@ == reason@,
{
    let prev = agent.status;
    agent.status = to;
    agent.updated_at = now;
    AgentStatusChanged { agent_id: agent.id, from: prev, to, reason }
}

/// Pauses an agent. A halted agent is terminal and cannot be paused.
pub fn pause(agent: &mut Agent, signer: &Address, reason: String, now: i64) -> (r: Result<AgentStatusChanged, MagicsError>)
    ensures
        match pause_check(*old(agent), signer@, reason@) {
            Some(e) => r is Err && r->Err_0 == e && *final(agent) == *old(agent),
            None => {
                &&& status_changed(*old(agent), *final(agent), Status::Paused, now)
                &&& r matches Ok(ev) && ev.agent_id == old(agent).id && ev.from == old(agent).status
                && ev.to == Status::Paused && ev.reason@ == reason@
            },
        },
{
    if !keys_eq(&agent.owner, signer) {
        return Err(MagicsError::NotOwner);
    }
    if reason.as_str().as_bytes().len() > MAX_STATUS_REASON_LEN {
        return Err(MagicsError::ReasonTooLong);
    }
    if agent.status == Status::Halted {
        return Err(MagicsError::AgentNotActive);
    }
    Ok(transition(agent, Status::Paused, reason, now))
}

/// Resumes a paused (or active) agent. A halted agent stays halted.
pub fn resume(agent: &mut Agent, signer: &Address, now: i64) -> (r: Result<AgentStatusChanged, MagicsError>)
    ensures
        match resume_check(*old(agent), signer@) {
            Some(e) => r is Err && r->Err_0 == e && *final(agent) == *old(agent),
            None => {
                &&& status_changed(*old(agent), *final(agent), Status::Active, now)
                &&& r matches Ok(ev) && ev.agent_id == old(agent).id && ev.from == old(agent).status
                && ev.to == Status::Active && ev.reason@ == Seq::<char>::empty()
            },
        },
{
    if !keys_eq(&agent.owner, signer) {
        return Err(MagicsError::NotOwner);
    }
    if agent.status == Status::Halted {
        return Err(MagicsError::AgentNotActive);
    }
    Ok(transition(agent, Status::Active, String::new(), now))
}

/// Halts an agent for good. Reachable from any state.
pub fn halt(agent: &mut Agent, signer: &Address, reason: String, now: i64) -> (r: Result<AgentStatusChanged, MagicsError>)
    ensures
        match halt_check(*old(agent), signer@, reason@) {
            Some(e) => r is Err && r->Err_0 == e && *final(agent) == *old(agent),
            None => {
                &&& status_changed(*old(agent), *final(agent), Status::Halted, now)
                &&& r matches Ok(ev) && ev.agent_id == old(agent).id && ev.from == old(agent).status
                && ev.to == Status::Halted && ev.reason@ == reason@
            },
        },
{
    if !keys_eq(&agent.owner, signer) {
        return Err(MagicsError::NotOwner);
    }
    if reason.as_str().as_bytes().len() > MAX_STATUS_REASON_LEN {
        return Err(MagicsError::ReasonTooLong);
    }
    Ok(transition(agent, Status::Halted, reason, now))
}

/// Halting is terminal: once an agent is halted, pause and resume refuse
/// (so it keeps its status), and halting again leaves it halted.
pub proof fn lemma_halted_is_terminal(agent: Agent, signer: Seq<u8>, reason: Seq<char>)
    requires
        agent.status == Status::Halted,
    ensures
        pause_check(agent, signer, reason) is Some,
        resume_check(agent, signer) is Some,
{
}

/// Which error, if any, rotating the seal refuses with: the caller must
/// own both the agent and the replacement seal.
pub open spec fn rotate_seal_check(agent: Agent, signer: Seq<u8>, new_seal_owner: Seq<u8>) -> Option<MagicsError> {
    if agent.owner@ != signer || new_seal_owner != signer {
        Some(MagicsError::NotOwner)
    } else {
        None
    }
}

/// Points an agent at a different seal without re-summoning it.
/// `new_seal_owner` is the owner recorded on the replacement seal. Only the
/// seal and the update time change; the status is untouched.
pub fn rotate_seal(
    agent: &mut Agent,
    signer: &Address,
    new_seal_owner: &Address,
    new_seal_id: &[u8; 32],
    now: i64,
) -> (r: Result<AgentSealRotated, MagicsError>)
    ensures
        match rotate_seal_check(*old(agent), signer@, new_seal_owner@) {
            Some(e) => r is Err && r->Err_0 == e && *final(agent) == *old(agent),
            None => {
                &&& final(agent).seal == *new_seal_id
                &&& final(agent).updated_at == now
                &&& final(agent).id == old(agent).id
                &&& final(agent).owner == old(agent).owner
                &&& final(agent).strategy == old(agent).strategy
                &&& final(agent).created_at == old(agent).created_at
                &&& final(agent).status == old(agent).status
                &&& final(agent).name == old(agent).name
                &&& final(agent).bump == old(agent).bump
                &&& r matches Ok(ev) && ev.agent_id == old(agent).id
                    && ev.old_seal == old(agent).seal && ev.new_seal == *new_seal_id
            },
        },
{
    if !keys_eq(&agent.owner, signer) {
        return Err(MagicsError::NotOwner);
    }
    if !keys_eq(new_seal_owner, signer) {
        return Err(MagicsError::NotOwner);
    }
    let old_seal = agent.seal;
    agent.seal = *new_seal_id;
    agent.updated_at = now;
    Ok(AgentSealRotated { agent_id: agent.id, old_seal, new_seal: *new_seal_id })
}

/// Who may change an agent's status, and from where: the owner, with a
/// reason of at most `MAX_STATUS_REASON_LEN` bytes, may halt the agent from
/// every state (active, paused, or already halted), and may pause or resume
/// it from every state but halted; nobody else may do any of the three.
pub proof fn lemma_owner_controls_status(agent: Agent, signer: Seq<u8>, reason: Seq<char>)
    ensures
        agent.owner@ == signer && utf8_len(reason) <= MAX_STATUS_REASON_LEN ==> {
            &&& halt_check(agent, signer, reason) is None
            &&& (pause_check(agent, signer, reason) is None <==> agent.status != Status::Halted)
            &&& (resume_check(agent, signer) is None <==> agent.status != Status::Halted)
        },
        agent.owner@ == signer && agent.status == Status::Halted ==> {
            &&& resume_check(agent, signer) == Some(MagicsError::AgentNotActive)
            &&& utf8_len(reason) <= MAX_STATUS_REASON_LEN
                ==> pause_check(agent, signer, reason) == Some(MagicsError::AgentNotActive)
        },
        agent.owner@ != signer ==> {
            &&& halt_check(agent, signer, reason) == Some(MagicsError::NotOwner)
            &&& pause_check(agent, signer, reason) == Some(MagicsError::NotOwner)
            &&& resume_check(agent, signer) == Some(MagicsError::NotOwner)
        },
        utf8_len(reason) > MAX_STATUS_REASON_LEN ==> halt_check(agent, signer, reason) is Some,
{
}

/// An owner may always rotate an agent to a seal it owns, whatever the
/// agent's status; anyone else is refused.
pub proof fn lemma_owner_rotates_seal(agent: Agent, signer: Seq<u8>, new_seal_owner: Seq<u8>)
    ensures
        rotate_seal_check(agent, signer, new_seal_owner) is None <==> (agent.owner@ == signer
            && new_seal_owner == signer),
{
}

/// Summoning goes ahead for every owner of the seal with a non-empty name
/// of at most `MAX_NAME_LENGTH` bytes, a non-zero strategy, a counter that
/// can still advance, and the id derived from the owner, strategy, seal and
/// the advanced counter; whatever the id, a different one is refused.
pub proof fn lemma_summon_goes_ahead(
    counter: OwnerCounter,
    owner: Seq<u8>,
    agent_id: Seq<u8>,
    seal_id: Seq<u8>,
    strategy: Seq<u8>,
    name: Seq<char>,
)
    requires
        name.len() > 0,
        utf8_len(name) <= MAX_NAME_LENGTH,
        strategy != zero_key(),
        counter.count < u64::MAX,
    ensures
        agent_id == agent_id_spec(owner, strategy, seal_id, (counter.count + 1) as u64)
            ==> summon_check(counter, owner, owner, agent_id, seal_id, strategy, name) is None,
        agent_id != agent_id_spec(owner, strategy, seal_id, (counter.count + 1) as u64)
            ==> summon_check(counter, owner, owner, agent_id, seal_id, strategy, name)
                == Some(MagicsError::AgentIdMismatch),
{
}

} // verus!
