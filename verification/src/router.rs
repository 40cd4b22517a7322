//! The router: the per-agent token ledger, the strategy budget calls, and
//! the decisions of the cast entry point.

use vstd::prelude::*;
use vstd::bytes::{
    lemma_auto_spec_u64_to_from_le_bytes, spec_u32_to_le_bytes, spec_u64_from_le_bytes, spec_u64_to_le_bytes,
    u32_to_le_bytes, u64_from_le_bytes, u64_to_le_bytes,
};
use crate::bytes::{append_bytes, is_default_key, keys_eq, zero_key, Address};
use crate::crypto::{find_program_address, keccak256, program_address, sha256, sha256_hash};
use crate::domain::{data_hash, SEAL_VAULT_ID};
use crate::error::MagicsError;
use crate::registry::{Agent, Status};
use crate::vault::{
    cast_budget_spec, discriminator, discriminator_spec, record_cast_spend_data, record_spend_check, record_spend_data_spec,
    router_authority_matches, verify_and_consume_data, verify_data_spec, window_spent_at, Config, SealRecord,
};

verus! {

/// Seed of the address a strategy program signs budget calls with:
/// `b"strategy"`.
pub const STRATEGY_AUTH_SEED: [u8; 8] = [115, 116, 114, 97, 116, 101, 103, 121];

/// The bytes whose SHA-256 starts with a strategy's `execute` instruction
/// discriminator: `b"global:execute"`.
pub const EXECUTE_SIGHASH_PREIMAGE: [u8; 14] = [103, 108, 111, 98, 97, 108, 58, 101, 120, 101, 99, 117, 116, 101];

/// One agent's credited balance of one mint.
#[derive(Clone, Copy, Debug)]
pub struct Balance {
    pub agent_id: [u8; 32],
    pub mint: Address,
    pub amount: u64,
    pub bump: u8,
}

/// The transient cast context: which agent is casting, which strategy
/// authority may call the budget API while it lasts, and `spent`, what the
/// strategy has drawn so far (saturating at `u64::MAX`), which is charged to
/// the seal when the cast closes.
#[derive(Clone, Copy, Debug)]
pub struct ActiveCast {
    pub agent_id: [u8; 32],
    pub strategy: Address,
    pub strategy_authority: Address,
    pub spent: u64,
    pub bump: u8,
}

/// The bytes whose SHA-256 starts with the cast context account's
/// discriminator: `b"account:ActiveCast"`.
pub const ACTIVE_CAST_ACCOUNT_PREIMAGE: [u8; 18] = [97, 99, 99, 111, 117, 110, 116, 58, 65, 99, 116, 105, 118, 101, 67, 97, 115, 116];

/// Length of the cast context account's data: the discriminator, the three
/// keys, `spent`, `bump` and seven bytes of padding.
pub const ACTIVE_CAST_SPACE: usize = 120;

/// The cast context account's data: its discriminator, the agent id, the
/// strategy, the strategy authority, `spent` little-endian, `bump`, and
/// seven zero bytes of padding.
pub open spec fn active_cast_bytes(a: ActiveCast) -> Seq<u8> {
    discriminator_spec(ACTIVE_CAST_ACCOUNT_PREIMAGE@) + a.agent_id@ + a.strategy@ + a.strategy_authority@
        + spec_u64_to_le_bytes(a.spent) + seq![a.bump] + Seq::new(7, |i: int| 0u8)
}

/// Whether account data holds a cast context at all: it is long enough and
/// starts with the cast context's discriminator.
pub open spec fn holds_active_cast(data: Seq<u8>) -> bool {
    data.len() >= ACTIVE_CAST_SPACE && data.subrange(0, 8) == discriminator_spec(ACTIVE_CAST_ACCOUNT_PREIMAGE@)
}

/// The cast context read from account data that holds one, field by field
/// at the offsets `active_cast_bytes` writes them.
pub open spec fn reads_as_active_cast(data: Seq<u8>, a: ActiveCast) -> bool {
    &&& a.agent_id@ == data.subrange(8, 40)
    &&& a.strategy@ == data.subrange(40, 72)
    &&& a.strategy_authority@ == data.subrange(72, 104)
    &&& a.spent == spec_u64_from_le_bytes(data.subrange(104, 112))
    &&& a.bump == data[112]
}

/// The 32 bytes of `data` at `at`, as a key.
fn key_at(data: &[u8], at: usize) -> (k: [u8; 32])
    requires
        at + 32 <= data@.len(),
    ensures
        k@ == data@.subrange(at as int, at + 32),
{
    let mut k = [0u8; 32];
    let mut i: usize = 0;
    while i < 32
        invariant
            at + 32 <= data.len(),
            0 <= i <= 32,
            k@.len() == 32,
            forall|j: int| 0 <= j < i ==> k@[j] == data@[at + j],
        decreases 32 - i,
    {
        k[i] = data[at + i];
        i = i + 1;
    }
    assert(k@ =~= data@.subrange(at as int, at + 32));
    k
}

/// Writes the cast context as its account holds it.
pub fn encode_active_cast(a: &ActiveCast) -> (d: Vec<u8>)
    ensures
        d@ == active_cast_bytes(*a),
        d@.len() == ACTIVE_CAST_SPACE,
{
    proof {
        lemma_auto_spec_u64_to_from_le_bytes();
    }
    let disc = discriminator(ACTIVE_CAST_ACCOUNT_PREIMAGE.as_slice());
    let mut d: Vec<u8> = Vec::with_capacity(ACTIVE_CAST_SPACE);
    append_bytes(&mut d, disc.as_slice());
    append_bytes(&mut d, a.agent_id.as_slice());
    append_bytes(&mut d, a.strategy.as_slice());
    append_bytes(&mut d, a.strategy_authority.as_slice());
    let spent = u64_to_le_bytes(a.spent);
    append_bytes(&mut d, spent.as_slice());
    d.push(a.bump);
    let padding: [u8; 7] = [0u8; 7];
    append_bytes(&mut d, padding.as_slice());
    assert(padding@ =~= Seq::new(7, |i: int| 0u8));
    assert(d@ =~= active_cast_bytes(*a));
    d
}

/// Reads a cast context out of account data: `None` when the data does not
/// hold one (too short, or another discriminator).
pub fn decode_active_cast(data: &[u8]) -> (r: Option<ActiveCast>)
    ensures
        r is Some <==> holds_active_cast(data@),
        r matches Some(a) ==> reads_as_active_cast(data@, a),
{
    if data.len() < ACTIVE_CAST_SPACE {
        return None;
    }
    let disc = discriminator(ACTIVE_CAST_ACCOUNT_PREIMAGE.as_slice());
    let head = &data[0..8];
    if !crate::bytes::bytes_eq(head, disc.as_slice()) {
        return None;
    }
    let agent_id = key_at(data, 8);
    let strategy = key_at(data, 40);
    let strategy_authority = key_at(data, 72);
    let spent = u64_from_le_bytes(&data[104..112]);
    let bump = data[112];
    Some(ActiveCast { agent_id, strategy, strategy_authority, spent, bump })
}

/// Writing a cast context into its account and reading it back gives the
/// same context: the data holds a cast context, and the only one it reads
/// as is the one written.
pub proof fn lemma_active_cast_round_trip(a: ActiveCast, b: ActiveCast)
    ensures
        holds_active_cast(active_cast_bytes(a)),
        reads_as_active_cast(active_cast_bytes(a), b) <==> b == a,
{
    lemma_auto_spec_u64_to_from_le_bytes();
    let d = active_cast_bytes(a);
    assert(d.subrange(0, 8) =~= discriminator_spec(ACTIVE_CAST_ACCOUNT_PREIMAGE@));
    assert(d.subrange(8, 40) =~= a.agent_id@);
    assert(d.subrange(40, 72) =~= a.strategy@);
    assert(d.subrange(72, 104) =~= a.strategy_authority@);
    assert(d.subrange(104, 112) =~= spec_u64_to_le_bytes(a.spent));
    if reads_as_active_cast(d, b) {
        assert(b.agent_id =~= a.agent_id);
        assert(b.strategy =~= a.strategy);
        assert(b.strategy_authority =~= a.strategy_authority);
    }
}

/// Emitted when an agent's balance is credited from its owner.
#[derive(Clone, Copy, Debug)]
pub struct Deposited {
    pub agent_id: [u8; 32],
    pub mint: Address,
    pub amount: u64,
}

/// Emitted when tokens leave an agent's balance to a destination.
#[derive(Clone, Copy, Debug)]
pub struct Withdrawn {
    pub agent_id: [u8; 32],
    pub mint: Address,
    pub amount: u64,
}

/// Emitted when a cast completes.
#[derive(Clone, Copy, Debug)]
pub struct Cast {
    pub agent_id: [u8; 32],
    pub seal: [u8; 32],
    pub strategy: Address,
    pub nonce: u64,
    pub data_hash: [u8; 32],
}

/// What a cast hands on once the agent, strategy and deadline are checked:
/// the seal, owner and strategy to cast under, the payload hash, and the
/// data of the `verify_and_consume` call the router makes into the vault.
pub struct CastPlan {
    pub seal_id: [u8; 32],
    pub owner: Address,
    pub strategy: Address,
    pub data_hash: [u8; 32],
    pub verify_data: Vec<u8>,
}

/// What closing a cast yields: the caster's lamports after the context's
/// rent comes back, what the strategy drew from the budget, the data of the
/// `record_cast_spend` call that charges it to the seal, and the event.
pub struct CastClose {
    pub caster_lamports: u64,
    pub spent: u64,
    pub record_spend_data: Vec<u8>,
    pub event: Cast,
}

/// The value a cast hands the vault to verify: nothing is charged up front;
/// what the strategy draws is charged when the cast closes.
pub const CAST_VERIFY_VALUE: u64 = 0;

/// A balance after crediting `amount`, or `None` on overflow.
pub open spec fn credit(before: u64, amount: u64) -> Option<u64> {
    if before + amount > u64::MAX { None } else { Some((before + amount) as u64) }
}

/// A balance after debiting `amount`, or `None` when it is insufficient.
pub open spec fn debit(before: u64, amount: u64) -> Option<u64> {
    if amount > before { None } else { Some((before - amount) as u64) }
}

/// Which error, if any, a deposit refuses with: the caller must own the
/// agent, the amount must be non-zero, and the credit must not overflow.
pub open spec fn deposit_check(agent_owner: Seq<u8>, signer: Seq<u8>, balance: Balance, amount: u64) -> Option<MagicsError> {
    if agent_owner != signer {
        Some(MagicsError::NotOwner)
    } else if amount == 0 {
        Some(MagicsError::AmountZero)
    } else if credit(balance.amount, amount) is None {
        Some(MagicsError::NumericalOverflow)
    } else {
        None
    }
}

/// Credits `amount` of `mint` to the agent's balance; the caller moves the
/// tokens from the owner into the vault. A blank balance (zero mint) is
/// first stamped with the agent, mint and bump. On failure the balance is
/// left as it was.
pub fn deposit(
    agent_owner: &Address,
    signer: &Address,
    balance: &mut Balance,
    agent_id: &[u8; 32],
    mint: &Address,
    amount: u64,
    balance_bump: u8,
) -> (r: Result<Deposited, MagicsError>)
    ensures
        match deposit_check(agent_owner@, signer@, *old(balance), amount) {
            Some(e) => r == Err::<Deposited, MagicsError>(e) && *final(balance) == *old(balance),
            None => {
                &&& Some(final(balance).amount) == credit(old(balance).amount, amount)
                &&& old(balance).mint@ == zero_key() ==> final(balance).agent_id == *agent_id
                    && final(balance).mint == *mint && final(balance).bump == balance_bump
                &&& old(balance).mint@ != zero_key() ==> final(balance).agent_id == old(balance).agent_id
                    && final(balance).mint == old(balance).mint && final(balance).bump == old(balance).bump
                &&& r == Ok::<Deposited, MagicsError>(Deposited { agent_id: *agent_id, mint: *mint, amount })
            },
        },
{
    if !keys_eq(agent_owner, signer) {
        return Err(MagicsError::NotOwner);
    }
    if amount == 0 {
        return Err(MagicsError::AmountZero);
    }
    let total = match balance.amount.checked_add(amount) {
        Some(t) => t,
        None => {
            return Err(MagicsError::NumericalOverflow);
        },
    };
    if is_default_key(&balance.mint) {
        balance.agent_id = *agent_id;
        balance.mint = *mint;
        balance.bump = balance_bump;
    }
    balance.amount = total;
    Ok(Deposited { agent_id: *agent_id, mint: *mint, amount })
}

/// Which error, if any, a withdrawal refuses with: the caller must own the
/// agent, the amount must be non-zero, and the balance must cover it.
pub open spec fn withdraw_check(agent_owner: Seq<u8>, signer: Seq<u8>, balance: Balance, amount: u64) -> Option<MagicsError> {
    if agent_owner != signer {
        Some(MagicsError::NotOwner)
    } else if amount == 0 {
        Some(MagicsError::AmountZero)
    } else if debit(balance.amount, amount) is None {
        Some(MagicsError::InsufficientBalance)
    } else {
        None
    }
}

/// Debits `amount` from the agent's balance; the caller then moves the
/// tokens from the vault to the destination. Only the amount changes.
pub fn withdraw(
    agent_owner: &Address,
    signer: &Address,
    balance: &mut Balance,
    mint: &Address,
    amount: u64,
) -> (r: Result<Withdrawn, MagicsError>)
    ensures
        match withdraw_check(agent_owner@, signer@, *old(balance), amount) {
            Some(e) => r == Err::<Withdrawn, MagicsError>(e) && *final(balance) == *old(balance),
            None => {
                &&& Some(final(balance).amount) == debit(old(balance).amount, amount)
                &&& final(balance).agent_id == old(balance).agent_id
                &&& final(balance).mint == old(balance).mint
                &&& final(balance).bump == old(balance).bump
                &&& r == Ok::<Withdrawn, MagicsError>(Withdrawn { agent_id: old(balance).agent_id, mint: *mint, amount })
            },
        },
{
    if !keys_eq(agent_owner, signer) {
        return Err(MagicsError::NotOwner);
    }
    if amount == 0 {
        return Err(MagicsError::AmountZero);
    }
    if balance.amount < amount {
        return Err(MagicsError::InsufficientBalance);
    }
    balance.amount = balance.amount - amount;
    Ok(Withdrawn { agent_id: balance.agent_id, mint: *mint, amount })
}

/// Which error, if any, the budget gate refuses with: the open cast must
/// be this agent's, and the signer must be the strategy authority it names.
pub open spec fn gate_check(active: ActiveCast, agent_id: Seq<u8>, strategy_authority: Seq<u8>) -> Option<MagicsError> {
    if active.agent_id@ != agent_id {
        Some(MagicsError::CastContextMismatch)
    } else if strategy_authority != active.strategy_authority@ {
        Some(MagicsError::NotStrategy)
    } else {
        None
    }
}

/// Confirms the signer is the strategy named in the open cast for this agent.
pub fn gate(active: &ActiveCast, agent_id: &[u8; 32], strategy_authority: &Address) -> (r: Result<(), MagicsError>)
    ensures
        match gate_check(*active, agent_id@, strategy_authority@) {
            Some(e) => r == Err::<(), MagicsError>(e),
            None => r == Ok::<(), MagicsError>(()),
        },
{
    if !keys_eq(&active.agent_id, agent_id) {
        return Err(MagicsError::CastContextMismatch);
    }
    if !keys_eq(strategy_authority, &active.strategy_authority) {
        return Err(MagicsError::NotStrategy);
    }
    Ok(())
}

/// Which error, if any, drawing from the budget refuses with: a cast must
/// be open, for this agent, with the signer as its strategy authority; the
/// amount must be non-zero and be covered by the balance.
pub open spec fn pull_check(slot: Option<ActiveCast>, strategy_authority: Seq<u8>, balance: Balance, agent_id: Seq<u8>, amount: u64) -> Option<MagicsError> {
    match slot {
        None => Some(MagicsError::NoActiveCast),
        Some(active) => if gate_check(active, agent_id, strategy_authority) is Some {
            gate_check(active, agent_id, strategy_authority)
        } else if amount == 0 {
            Some(MagicsError::AmountZero)
        } else if debit(balance.amount, amount) is None {
            Some(MagicsError::InsufficientBalance)
        } else {
            None
        },
    }
}

/// What the cast context has counted as drawn after a draw of `amount`:
/// the sum, saturating at `u64::MAX`.
pub open spec fn drawn_after(spent: u64, amount: u64) -> u64 {
    if spent + amount > u64::MAX { u64::MAX } else { (spent + amount) as u64 }
}

/// Draws `amount` from the agent's balance for the strategy inside the open
/// cast `slot` and counts it as drawn in the cast; the caller moves the
/// tokens from the vault to the strategy. The seal's caps are not checked
/// here: what the cast drew is charged to the seal when it closes, and an
/// over-budget cast is refused then, as a whole.
pub fn pull(
    slot: &mut Option<ActiveCast>,
    strategy_authority: &Address,
    balance: &mut Balance,
    agent_id: &[u8; 32],
    amount: u64,
) -> (r: Result<(), MagicsError>)
    ensures
        match pull_check(*old(slot), strategy_authority@, *old(balance), agent_id@, amount) {
            Some(e) => r == Err::<(), MagicsError>(e) && *final(balance) == *old(balance)
                && *final(slot) == *old(slot),
            None => {
                &&& r is Ok
                &&& Some(final(balance).amount) == debit(old(balance).amount, amount)
                &&& final(balance).agent_id == old(balance).agent_id
                &&& final(balance).mint == old(balance).mint
                &&& final(balance).bump == old(balance).bump
                &&& *final(slot) == Some(ActiveCast {
                    spent: drawn_after((*old(slot))->Some_0.spent, amount),
                    ..(*old(slot))->Some_0
                })
            },
        },
{
    let mut active = match slot {
        Some(a) => *a,
        None => {
            return Err(MagicsError::NoActiveCast);
        },
    };
    match gate(&active, agent_id, strategy_authority) {
        Err(e) => {
            return Err(e);
        },
        Ok(()) => {},
    }
    if amount == 0 {
        return Err(MagicsError::AmountZero);
    }
    if balance.amount < amount {
        return Err(MagicsError::InsufficientBalance);
    }
    balance.amount = balance.amount - amount;
    active.spent = active.spent.saturating_add(amount);
    *slot = Some(active);
    Ok(())
}

/// Which error, if any, returning to the budget refuses with: a cast must
/// be open, for this agent, with the signer as its strategy authority; the
/// amount must be non-zero, and the credit must not overflow.
pub open spec fn push_check(slot: Option<ActiveCast>, strategy_authority: Seq<u8>, balance: Balance, agent_id: Seq<u8>, amount: u64) -> Option<MagicsError> {
    match slot {
        None => Some(MagicsError::NoActiveCast),
        Some(active) => if gate_check(active, agent_id, strategy_authority) is Some {
            gate_check(active, agent_id, strategy_authority)
        } else if amount == 0 {
            Some(MagicsError::AmountZero)
        } else if credit(balance.amount, amount) is None {
            Some(MagicsError::NumericalOverflow)
        } else {
            None
        },
    }
}

/// Returns `amount` from the strategy to the agent's balance inside the
/// open cast `slot`; the caller moves the tokens from the strategy to the
/// vault.
pub fn push(
    slot: &Option<ActiveCast>,
    strategy_authority: &Address,
    balance: &mut Balance,
    agent_id: &[u8; 32],
    amount: u64,
) -> (r: Result<(), MagicsError>)
    ensures
        match push_check(*slot, strategy_authority@, *old(balance), agent_id@, amount) {
            Some(e) => r == Err::<(), MagicsError>(e) && *final(balance) == *old(balance),
            None => r is Ok && Some(final(balance).amount) == credit(old(balance).amount, amount)
                && final(balance).agent_id == old(balance).agent_id
                && final(balance).mint == old(balance).mint && final(balance).bump == old(balance).bump,
        },
{
    let active = match slot {
        Some(a) => a,
        None => {
            return Err(MagicsError::NoActiveCast);
        },
    };
    match gate(active, agent_id, strategy_authority) {
        Err(e) => {
            return Err(e);
        },
        Ok(()) => {},
    }
    if amount == 0 {
        return Err(MagicsError::AmountZero);
    }
    let total = match balance.amount.checked_add(amount) {
        Some(t) => t,
        None => {
            return Err(MagicsError::NumericalOverflow);
        },
    };
    balance.amount = total;
    Ok(())
}

/// The ledger round-trips: crediting an amount and debiting it again
/// restores the balance, and debiting an amount always leaves room to
/// credit it back.
pub proof fn lemma_ledger_round_trip(before: u64, amount: u64)
    ensures
        credit(before, amount) matches Some(after) ==> debit(after, amount) == Some(before),
        debit(before, amount) matches Some(after) ==> credit(after, amount) == Some(before),
{
}

/// Ledger conservation: every ledger change is matched by the same token
/// movement into or out of the vault's token account (credits by deposits
/// into it and returns from strategies, debits by withdrawals and draws out
/// of it). So if the agents' balances of a mint — this one, `before`, and
/// the rest, `others` — sum to at most what the vault holds, they still do
/// after the change.
pub proof fn lemma_ledger_conservation(others: int, before: u64, vault_amount: int, amount: u64)
    requires
        others >= 0,
        others + before <= vault_amount,
    ensures
        credit(before, amount) matches Some(after) ==> others + after <= vault_amount + amount,
        debit(before, amount) matches Some(after) ==> others + after <= vault_amount - amount,
{
}

/// Which error, if any, a cast refuses with before touching the seal: the
/// agent must be active, the strategy program must be the agent's, and the
/// deadline must not have passed.
pub open spec fn begin_cast_check(agent: Agent, strategy_program: Seq<u8>, deadline: i64, now: i64) -> Option<MagicsError> {
    if agent.status != Status::Active {
        Some(MagicsError::AgentNotActive)
    } else if strategy_program != agent.strategy@ {
        Some(MagicsError::NotStrategy)
    } else if !(deadline >= now) {
        Some(MagicsError::CastDeadlinePassed)
    } else {
        None
    }
}

/// The first step of a cast: checks the agent and deadline and returns the
/// seal, owner and strategy to cast under, the hash of the payload, and the
/// vault call that verifies the cast against the agent's seal — its seal
/// id, this agent id, this deadline, this payload hash and no up-front
/// value.
pub fn begin_cast(agent: &Agent, strategy_program: &Address, agent_id: &[u8; 32], deadline: i64, data: &[u8], now: i64) -> (r: Result<CastPlan, MagicsError>)
    ensures
        match begin_cast_check(*agent, strategy_program@, deadline, now) {
            Some(e) => r is Err && r->Err_0 == e,
            None => r matches Ok(plan) && plan.seal_id == agent.seal && plan.owner == agent.owner
                && plan.strategy == agent.strategy && plan.data_hash@ == keccak256(data@)
                && plan.verify_data@ == verify_data_spec(agent.seal@, agent_id@, deadline, keccak256(data@), CAST_VERIFY_VALUE),
        },
{
    if agent.status != Status::Active {
        return Err(MagicsError::AgentNotActive);
    }
    if !keys_eq(strategy_program, &agent.strategy) {
        return Err(MagicsError::NotStrategy);
    }
    if !(deadline >= now) {
        return Err(MagicsError::CastDeadlinePassed);
    }
    let hash = data_hash(data);
    let verify_data = verify_and_consume_data(&agent.seal, agent_id, deadline, &hash, CAST_VERIFY_VALUE);
    Ok(CastPlan { seal_id: agent.seal, owner: agent.owner, strategy: agent.strategy, data_hash: hash, verify_data })
}

/// The nonce the seal vault hands back in its return data: the first eight
/// bytes, little-endian, when the data comes from the vault and holds at
/// least eight bytes; zero otherwise.
pub open spec fn returned_nonce_spec(return_data: Option<(Address, Seq<u8>)>) -> u64 {
    match return_data {
        Some((program, bytes)) => if program@ == SEAL_VAULT_ID@ && bytes.len() >= 8 {
            spec_u64_from_le_bytes(bytes.subrange(0, 8))
        } else {
            0
        },
        None => 0,
    }
}

/// Reads the consumed nonce out of the vault's return data.
pub fn returned_nonce(return_data: &Option<(Address, Vec<u8>)>) -> (n: u64)
    ensures
        n == returned_nonce_spec(match return_data {
            Some((p, b)) => Some((*p, b@)),
            None => None,
        }),
{
    match return_data {
        Some((program, bytes)) => {
            if keys_eq(program, &SEAL_VAULT_ID) && bytes.len() >= 8 {
                u64_from_le_bytes(&bytes.as_slice()[0..8])
            } else {
                0
            }
        },
        None => 0,
    }
}

/// Which error, if any, opening the cast context refuses with: none may be
/// open already for this agent, and the strategy must have a
/// strategy-authority address.
pub open spec fn open_cast_check(slot: Option<ActiveCast>, strategy: Seq<u8>) -> Option<MagicsError> {
    if slot is Some {
        Some(MagicsError::AlreadyInitialised)
    } else if program_address(STRATEGY_AUTH_SEED@, strategy) is None {
        Some(MagicsError::NotStrategy)
    } else {
        None
    }
}

/// Opens the transient cast context for `agent_id` once the seal has
/// verified the cast: the strategy may call the budget API while it lasts,
/// signing with its strategy-authority address, and nothing is drawn yet.
pub fn open_active_cast(
    slot: &mut Option<ActiveCast>,
    agent_id: &[u8; 32],
    strategy: &Address,
    bump: u8,
) -> (r: Result<(), MagicsError>)
    ensures
        match open_cast_check(*old(slot), strategy@) {
            Some(e) => r == Err::<(), MagicsError>(e) && *final(slot) == *old(slot),
            None => r is Ok && (*final(slot) matches Some(a) && {
                &&& a.agent_id == *agent_id
                &&& a.strategy == *strategy
                &&& program_address(STRATEGY_AUTH_SEED@, strategy@) == Some(a.strategy_authority@)
                &&& a.spent == 0
                &&& a.bump == bump
            }),
        },
{
    if slot.is_some() {
        return Err(MagicsError::AlreadyInitialised);
    }
    let authority = match find_program_address(STRATEGY_AUTH_SEED.as_slice(), strategy) {
        Some(a) => a,
        None => {
            return Err(MagicsError::NotStrategy);
        },
    };
    *slot = Some(ActiveCast { agent_id: *agent_id, strategy: *strategy, strategy_authority: authority, spent: 0, bump });
    Ok(())
}

/// The instruction data of a strategy's `execute`: the first eight bytes of
/// the SHA-256 of `global:execute`, then the agent id, the owner, and the
/// payload with its length as a little-endian `u32`.
pub open spec fn execute_data_spec(agent_id: Seq<u8>, owner: Seq<u8>, data: Seq<u8>) -> Seq<u8> {
    sha256(EXECUTE_SIGHASH_PREIMAGE@).subrange(0, 8) + agent_id + owner
        + spec_u32_to_le_bytes(data.len() as u32) + data
}

/// Builds the instruction data handed to the strategy's `execute`, or
/// `None` when the payload is too long for its `u32` length prefix.
pub fn execute_instruction_data(agent_id: &[u8; 32], owner: &Address, data: &[u8]) -> (r: Option<Vec<u8>>)
    ensures
        data@.len() > u32::MAX ==> r is None,
        data@.len() <= u32::MAX ==> (r matches Some(v) && v@ == execute_data_spec(agent_id@, owner@, data@)),
{
    if data.len() > 0xffff_ffffusize {
        return None;
    }
    let digest = sha256_hash(EXECUTE_SIGHASH_PREIMAGE.as_slice());
    let mut ix: Vec<u8> = Vec::with_capacity(8 + 64 + 4);
    append_bytes(&mut ix, &digest.as_slice()[0..8]);
    append_bytes(&mut ix, agent_id.as_slice());
    append_bytes(&mut ix, owner.as_slice());
    let len = u32_to_le_bytes(data.len() as u32);
    append_bytes(&mut ix, len.as_slice());
    append_bytes(&mut ix, data);
    Some(ix)
}

/// Closes the cast context at the end of a cast: it is emptied, its
/// lamports go back to the caster, and what the strategy drew is handed on
/// to be charged to the seal. On failure nothing changes.
pub fn finish_cast(
    slot: &mut Option<ActiveCast>,
    agent_id: &[u8; 32],
    plan: &CastPlan,
    nonce: u64,
    active_lamports: u64,
    caster_lamports: u64,
) -> (r: Result<CastClose, MagicsError>)
    ensures
        (*old(slot)) is None ==> r is Err && r->Err_0 == MagicsError::NoActiveCast && *final(slot) == *old(slot),
        (*old(slot)) is Some && caster_lamports + active_lamports > u64::MAX ==> r is Err
            && r->Err_0 == MagicsError::NumericalOverflow && *final(slot) == *old(slot),
        (*old(slot)) is Some && caster_lamports + active_lamports <= u64::MAX ==> {
            &&& *final(slot) == None::<ActiveCast>
            &&& r matches Ok(c) && {
                &&& c.caster_lamports == caster_lamports + active_lamports
                &&& c.spent == (*old(slot))->Some_0.spent
                &&& c.record_spend_data@ == record_spend_data_spec(plan.seal_id@, (*old(slot))->Some_0.spent)
                &&& c.event == Cast { agent_id: *agent_id, seal: plan.seal_id, strategy: plan.strategy, nonce, data_hash: plan.data_hash }
            }
        },
{
    let spent = match slot {
        Some(a) => a.spent,
        None => {
            return Err(MagicsError::NoActiveCast);
        },
    };
    let refunded = match caster_lamports.checked_add(active_lamports) {
        Some(t) => t,
        None => {
            return Err(MagicsError::NumericalOverflow);
        },
    };
    *slot = None;
    let record_spend_data = record_cast_spend_data(&plan.seal_id, spent);
    let event = Cast { agent_id: *agent_id, seal: plan.seal_id, strategy: plan.strategy, nonce, data_hash: plan.data_hash };
    Ok(CastClose { caster_lamports: refunded, spent, record_spend_data, event })
}

/// The budget opens only inside a cast: with no cast open, drawing from and
/// returning to a balance are refused; with one open, they succeed only for
/// that cast's agent and its strategy authority.
pub proof fn lemma_budget_needs_open_cast(
    slot: Option<ActiveCast>,
    strategy_authority: Seq<u8>,
    balance: Balance,
    agent_id: Seq<u8>,
    amount: u64,
)
    ensures
        slot is None ==> pull_check(slot, strategy_authority, balance, agent_id, amount) == Some(MagicsError::NoActiveCast)
            && push_check(slot, strategy_authority, balance, agent_id, amount) == Some(MagicsError::NoActiveCast),
        pull_check(slot, strategy_authority, balance, agent_id, amount) is None ==> (slot matches Some(a)
            && a.agent_id@ == agent_id && strategy_authority == a.strategy_authority@),
        push_check(slot, strategy_authority, balance, agent_id, amount) is None ==> (slot matches Some(a)
            && a.agent_id@ == agent_id && strategy_authority == a.strategy_authority@),
{
}

/// A cast context counts every draw: after a draw, what it counts as drawn
/// is at least what it counted before plus the amount drawn, up to
/// `u64::MAX`, and never less than before.
pub proof fn lemma_draws_are_counted(spent: u64, amount: u64)
    ensures
        drawn_after(spent, amount) >= spent,
        spent + amount <= u64::MAX ==> drawn_after(spent, amount) == spent + amount,
        spent + amount > u64::MAX ==> drawn_after(spent, amount) == u64::MAX,
{
}

/// An agent's authority equals its seal's, never more: on a record whose
/// window is within its daily cap (as every verify leaves it), what a cast
/// drew is accepted when it closes exactly when it is within the budget the
/// seal allows at that time — the per-call cap, and what the daily cap
/// leaves in the window; a cast that drew more is refused with
/// `SealCapBreached` (or `NumericalOverflow`, when the window's spend plus
/// the amount overflows).
pub proof fn lemma_cast_spend_within_seal(config: Config, rec: SealRecord, router_authority: Seq<u8>, spent: u64, now: i64)
    requires
        router_authority_matches(config, router_authority),
        window_spent_at(rec, now) <= rec.seal.daily_cap,
    ensures
        record_spend_check(config, rec, router_authority, spent, now) is None <==> spent <= cast_budget_spec(rec, now),
        spent > cast_budget_spec(rec, now) ==> {
            ||| record_spend_check(config, rec, router_authority, spent, now) == Some(MagicsError::SealCapBreached)
            ||| record_spend_check(config, rec, router_authority, spent, now) == Some(MagicsError::NumericalOverflow)
                && window_spent_at(rec, now) + spent > u64::MAX
        },
        record_spend_check(config, rec, router_authority, spent, now) is None ==> {
            &&& spent <= rec.seal.value_cap
            &&& window_spent_at(rec, now) + spent <= rec.seal.daily_cap
        },
{
}

/// The owner's ledger calls go ahead for every amount the ledger can take:
/// a deposit of any positive amount whose credit fits a `u64`, and a
/// withdrawal of any positive amount the balance covers, each moving the
/// balance by exactly that amount; anyone but the owner is refused.
pub proof fn lemma_owner_ledger_calls_go_ahead(owner: Seq<u8>, signer: Seq<u8>, balance: Balance, amount: u64)
    ensures
        owner == signer && amount > 0 && balance.amount + amount <= u64::MAX ==> {
            &&& deposit_check(owner, signer, balance, amount) is None
            &&& credit(balance.amount, amount) == Some((balance.amount + amount) as u64)
        },
        owner == signer && 0 < amount <= balance.amount ==> {
            &&& withdraw_check(owner, signer, balance, amount) is None
            &&& debit(balance.amount, amount) == Some((balance.amount - amount) as u64)
        },
        owner == signer && amount > 0 && balance.amount + amount > u64::MAX
            ==> deposit_check(owner, signer, balance, amount) == Some(MagicsError::NumericalOverflow),
        owner == signer && amount > balance.amount
            ==> withdraw_check(owner, signer, balance, amount) == Some(MagicsError::InsufficientBalance),
        owner != signer ==> deposit_check(owner, signer, balance, amount) == Some(MagicsError::NotOwner)
            && withdraw_check(owner, signer, balance, amount) == Some(MagicsError::NotOwner),
{
}

/// Inside an open cast, its strategy authority may draw any positive amount
/// the balance covers, and return any positive amount whose credit fits a
/// `u64`, for that cast's agent.
pub proof fn lemma_strategy_budget_calls_go_ahead(active: ActiveCast, balance: Balance, amount: u64)
    ensures
        0 < amount <= balance.amount ==> pull_check(Some(active), active.strategy_authority@, balance,
            active.agent_id@, amount) is None,
        amount > 0 && balance.amount + amount <= u64::MAX ==> push_check(Some(active), active.strategy_authority@,
            balance, active.agent_id@, amount) is None,
{
}

/// A cast of an active agent through its own strategy goes ahead past its
/// first step for every deadline not yet passed, however far ahead; a
/// passed deadline is refused.
pub proof fn lemma_cast_begins_before_its_deadline(agent: Agent, deadline: i64, now: i64)
    requires
        agent.status == Status::Active,
    ensures
        deadline >= now ==> begin_cast_check(agent, agent.strategy@, deadline, now) is None,
        deadline < now ==> begin_cast_check(agent, agent.strategy@, deadline, now) == Some(MagicsError::CastDeadlinePassed),
{
}

} // verus!
