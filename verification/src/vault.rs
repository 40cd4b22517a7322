//! The seal vault: the boundary store. Seals are minted, revoked, and
//! consumed one cast at a time.

use vstd::prelude::*;
use vstd::utf8::encode_utf8;
use crate::bytes::{is_default_key, keys_eq, zero_key, Address};
use crate::bytes::append_bytes;
use crate::crypto::{find_program_address, program_address, sha256, sha256_hash};
use crate::domain::i64_le_bytes;
use vstd::bytes::{spec_u64_to_le_bytes, u64_to_le_bytes};
use crate::domain::{cast_message, cast_message_spec, CAST_AUTHORITY_SEED, SEAL_VAULT_ID};
use crate::ed25519::{scan_for_signature, signed_at, verify_cast_signature, LoadedInstruction};
use crate::error::MagicsError;
use crate::seal::{seal_id_spec, wildcard_selector, Seal};

verus! {

/// Free-form revoke reason cap, in bytes.
pub const MAX_REASON_LEN: usize = 64;

/// Rolling daily-cap window, in seconds.
pub const WINDOW: i64 = 86_400;

/// Length in bytes of a string's UTF-8 encoding.
pub open spec fn utf8_len(s: Seq<char>) -> nat {
    encode_utf8(s).len()
}

/// Singleton that binds the vault to a single router program.
pub struct Config {
    pub admin: Address,
    pub router_program: Address,
    pub bump: u8,
}

/// One seal with the usage counters the vault advances on every consumed
/// cast.
pub struct SealRecord {
    pub seal: Seal,
    pub owner: Address,
    pub seal_id: [u8; 32],
    /// Next valid nonce.
    pub nonce: u64,
    /// Start of the current 24h window, unix seconds.
    pub window_start: i64,
    /// Token value spent inside the current window.
    pub window_spent: u64,
    pub revoked: bool,
    pub revoke_reason: String,
    pub bump: u8,
}

/// Boundary parameters a caller supplies to mint a seal; `created_at` is
/// stamped by the vault.
#[derive(Clone, Copy, Debug)]
pub struct SealArgs {
    pub signer: Address,
    pub target: Address,
    pub selector: [u8; 8],
    pub value_cap: u64,
    pub daily_cap: u64,
    pub expiry: i64,
    pub scope_hash: [u8; 32],
}

/// Emitted when a seal is minted or re-issued.
#[derive(Clone, Copy, Debug)]
pub struct SealMinted {
    pub owner: Address,
    pub seal_id: [u8; 32],
    pub signer: Address,
    pub expiry: i64,
}

/// Emitted when a single seal is revoked.
pub struct SealRevoked {
    pub owner: Address,
    pub seal_id: [u8; 32],
    pub reason: String,
}

/// Emitted by the kill switch with the number of seals it revoked.
#[derive(Clone, Copy, Debug)]
pub struct SealAllRevoked {
    pub owner: Address,
    pub count: u64,
}

/// Emitted when a cast consumes a nonce of a seal.
#[derive(Clone, Copy, Debug)]
pub struct SealConsumed {
    pub seal_id: [u8; 32],
    pub value: u64,
    pub nonce: u64,
}

/// The record a freshly created account deserialises to: every field zero
/// or empty.
pub open spec fn is_blank_record(r: SealRecord) -> bool {
    &&& r.owner@ == zero_key()
    &&& r.nonce == 0
    &&& r.window_start == 0
    &&& r.window_spent == 0
    &&& !r.revoked
    &&& r.revoke_reason@ == Seq::<char>::empty()
}

/// The seal minted from `args` at `now`.
pub open spec fn seal_from_args(a: SealArgs, now: i64) -> Seal {
    Seal {
        signer: a.signer,
        target: a.target,
        selector: a.selector,
        value_cap: a.value_cap,
        daily_cap: a.daily_cap,
        expiry: a.expiry,
        created_at: now,
        scope_hash: a.scope_hash,
    }
}

/// Which error, if any, minting refuses with, checked in this order: the
/// expiry must lie in the future, signer and target must be non-zero, the
/// supplied id must be the seal's id under the caller, and an existing
/// record must belong to the caller and already be revoked.
pub open spec fn mint_seal_check(
    old: SealRecord,
    owner: Seq<u8>,
    seal_id: Seq<u8>,
    args: SealArgs,
    now: i64,
) -> Option<MagicsError> {
    if !(args.expiry > now) {
        Some(MagicsError::SealExpired)
    } else if args.signer@ == zero_key() || args.target@ == zero_key() {
        Some(MagicsError::ZeroAddress)
    } else if seal_id_spec(seal_from_args(args, now), owner) != seal_id {
        Some(MagicsError::SealIdMismatch)
    } else if old.owner@ != zero_key() && old.owner@ != owner {
        Some(MagicsError::NotOwner)
    } else if old.owner@ != zero_key() && !old.revoked {
        Some(MagicsError::AlreadyInitialised)
    } else {
        None
    }
}

impl SealRecord {
    /// A blank record, as a newly allocated account reads.
    pub fn blank() -> (r: SealRecord)
        ensures
            is_blank_record(r),
            r.seal_id@ == zero_key(),
            r.bump == 0,
    {
        let z = crate::bytes::default_key();
        SealRecord {
            seal: Seal {
                signer: z,
                target: z,
                selector: [0u8; 8],
                value_cap: 0,
                daily_cap: 0,
                expiry: 0,
                created_at: 0,
                scope_hash: z,
            },
            owner: z,
            seal_id: z,
            nonce: 0,
            window_start: 0,
            window_spent: 0,
            revoked: false,
            revoke_reason: String::new(),
            bump: 0,
        }
    }
}

/// Which error, if any, binding the vault refuses with: the config can be
/// written only once.
pub open spec fn initialize_check(config: Option<Config>) -> Option<MagicsError> {
    if config is Some { Some(MagicsError::AlreadyInitialised) } else { None }
}

/// Binds the vault to one router program. `config` is the vault's config
/// slot, `None` until bound; binding is one-time, so a bound vault keeps its
/// router for good.
pub fn initialize(config: &mut Option<Config>, admin: Address, router_program: Address, bump: u8) -> (r: Result<(), MagicsError>)
    ensures
        match initialize_check(*old(config)) {
            Some(e) => r == Err::<(), MagicsError>(e) && *final(config) == *old(config),
            None => r is Ok && *final(config) == Some(Config { admin, router_program, bump }),
        },
{
    if config.is_some() {
        return Err(MagicsError::AlreadyInitialised);
    }
    *config = Some(Config { admin, router_program, bump });
    Ok(())
}

/// The router binding is one-time: once the vault is bound, every later
/// `initialize` is refused and leaves the binding as it was.
pub proof fn lemma_router_binding_is_one_time(bound: Config)
    ensures
        initialize_check(Some(bound)) == Some(MagicsError::AlreadyInitialised),
{
}

/// Mints (or re-issues) a seal under `owner` into `record`. On success the
/// record holds the seal stamped with `now`, the caller as owner, the
/// supplied id, and fresh counters; on failure it is left as it was.
pub fn mint_seal(
    record: &mut SealRecord,
    owner: &Address,
    seal_id: &[u8; 32],
    args: &SealArgs,
    now: i64,
    bump: u8,
) -> (r: Result<SealMinted, MagicsError>)
    ensures
        match mint_seal_check(*old(record), owner@, seal_id@, *args, now) {
            Some(e) => r == Err::<SealMinted, MagicsError>(e) && *final(record) == *old(record),
            None => {
                &&& r matches Ok(ev) && ev.owner == *owner && ev.seal_id == *seal_id
                    && ev.signer == args.signer && ev.expiry == args.expiry
                &&& final(record).seal == seal_from_args(*args, now)
                &&& final(record).owner == *owner
                &&& final(record).seal_id == *seal_id
                &&& final(record).nonce == 0
                &&& final(record).window_start == now
                &&& final(record).window_spent == 0
                &&& !final(record).revoked
                &&& final(record).revoke_reason@ == Seq::<char>::empty()
                &&& final(record).bump == bump
            },
        },
{
    if !(args.expiry > now) {
        return Err(MagicsError::SealExpired);
    }
    if is_default_key(&args.signer) || is_default_key(&args.target) {
        return Err(MagicsError::ZeroAddress);
    }
    let seal = Seal {
        signer: args.signer,
        target: args.target,
        selector: args.selector,
        value_cap: args.value_cap,
        daily_cap: args.daily_cap,
        expiry: args.expiry,
        created_at: now,
        scope_hash: args.scope_hash,
    };
    let id = seal.id(owner);
    if !keys_eq(&id, seal_id) {
        return Err(MagicsError::SealIdMismatch);
    }
    if !is_default_key(&record.owner) {
        if !keys_eq(&record.owner, owner) {
            return Err(MagicsError::NotOwner);
        }
        if !record.revoked {
            return Err(MagicsError::AlreadyInitialised);
        }
    }
    record.seal = seal;
    record.owner = *owner;
    record.seal_id = *seal_id;
    record.nonce = 0;
    record.window_start = now;
    record.window_spent = 0;
    record.revoked = false;
    record.revoke_reason = String::new();
    record.bump = bump;
    Ok(SealMinted { owner: *owner, seal_id: *seal_id, signer: seal.signer, expiry: seal.expiry })
}

/// Which error, if any, revoking refuses with: the caller must own the
/// record, the reason must fit in `MAX_REASON_LEN` bytes, and the seal must
/// not already be revoked.
pub open spec fn revoke_check(rec: SealRecord, owner: Seq<u8>, reason: Seq<char>) -> Option<MagicsError> {
    if rec.owner@ != owner {
        Some(MagicsError::NotOwner)
    } else if utf8_len(reason) > MAX_REASON_LEN {
        Some(MagicsError::ReasonTooLong)
    } else if rec.revoked {
        Some(MagicsError::SealRevoked)
    } else {
        None
    }
}

/// Revokes a single seal with a free-form reason. Only the owner may call;
/// double revocation is refused. On success only `revoked` and
/// `revoke_reason` change.
pub fn revoke(record: &mut SealRecord, owner: &Address, reason: String) -> (r: Result<SealRevoked, MagicsError>)
    ensures
        match revoke_check(*old(record), owner@, reason@) {
            Some(e) => r is Err && r->Err_0 == e && *final(record) == *old(record),
            None => {
                &&& r matches Ok(ev) && ev.owner == old(record).owner
                    && ev.seal_id == old(record).seal_id && ev.reason@ == reason@
                &&& final(record).revoked
                &&& final(record).revoke_reason@ == reason@
                &&& final(record).seal == old(record).seal
                &&& final(record).owner == old(record).owner
                &&& final(record).seal_id == old(record).seal_id
                &&& final(record).nonce == old(record).nonce
                &&& final(record).window_start == old(record).window_start
                &&& final(record).window_spent == old(record).window_spent
                &&& final(record).bump == old(record).bump
            },
        },
{
    if !keys_eq(&record.owner, owner) {
        return Err(MagicsError::NotOwner);
    }
    if reason.as_str().as_bytes().len() > MAX_REASON_LEN {
        return Err(MagicsError::ReasonTooLong);
    }
    if record.revoked {
        return Err(MagicsError::SealRevoked);
    }
    let event_reason = reason.clone();
    record.revoked = true;
    record.revoke_reason = reason;
    Ok(SealRevoked { owner: record.owner, seal_id: record.seal_id, reason: event_reason })
}

/// A record the kill switch revokes: live and owned by the caller.
pub open spec fn revocable_by(entry: Option<SealRecord>, owner: Seq<u8>) -> bool {
    entry matches Some(rec) && rec.owner@ == owner && !rec.revoked
}

/// How the kill switch leaves one entry: a revocable record becomes revoked
/// with reason `"revoke-all"` and is otherwise unchanged; every other entry
/// is left alone.
pub open spec fn revoke_all_entry(before: Option<SealRecord>, after: Option<SealRecord>, owner: Seq<u8>) -> bool {
    if revocable_by(before, owner) {
        after matches Some(a) && {
            let b = before->Some_0;
            &&& a.revoked
            &&& a.revoke_reason@ == "revoke-all"@
            &&& a.seal == b.seal
            &&& a.owner == b.owner
            &&& a.seal_id == b.seal_id
            &&& a.nonce == b.nonce
            &&& a.window_start == b.window_start
            &&& a.window_spent == b.window_spent
            &&& a.bump == b.bump
        }
    } else {
        after == before
    }
}

/// Number of entries in `s` that the kill switch revokes.
pub open spec fn revocable_count(s: Seq<Option<SealRecord>>, owner: Seq<u8>) -> nat
    decreases s.len(),
{
    if s.len() == 0 {
        0
    } else {
        revocable_count(s.drop_last(), owner) + if revocable_by(s.last(), owner) { 1nat } else { 0nat }
    }
}

/// The kill switch. `records` holds, for each account passed in, the seal
/// record it decodes to, or `None` when it is not a writable seal record of
/// this vault. Every live record the caller owns is revoked; all else is
/// skipped. The event counts the revoked records.
pub fn revoke_all(owner: &Address, records: &mut Vec<Option<SealRecord>>) -> (ev: SealAllRevoked)
    ensures
        final(records)@.len() == old(records)@.len(),
        forall|i: int| 0 <= i < old(records)@.len() ==>
            revoke_all_entry(#[trigger] old(records)@[i], final(records)@[i], owner@),
        ev.owner == *owner,
        ev.count == revocable_count(old(records)@, owner@),
{
    let mut count: u64 = 0;
    let mut i: usize = 0;
    let n = records.len();
    while i < n
        invariant
            n == records@.len(),
            records@.len() == old(records)@.len(),
            0 <= i <= n,
            count == revocable_count(old(records)@.take(i as int), owner@),
            count <= i,
            forall|j: int| 0 <= j < i ==> revoke_all_entry(#[trigger] old(records)@[j], records@[j], owner@),
            forall|j: int| i <= j < n ==> #[trigger] records@[j] == old(records)@[j],
        decreases n - i,
    {
        assert(old(records)@.take(i + 1).drop_last() =~= old(records)@.take(i as int));
        let mut entry: Option<SealRecord> = None;
        records.set_and_swap(i, &mut entry);
        let revocable = match &entry {
            Some(rec) => keys_eq(&rec.owner, owner) && !rec.revoked,
            None => false,
        };
        if revocable {
            let mut rec = entry.unwrap();
            rec.revoked = true;
            rec.revoke_reason = "revoke-all".to_owned();
            records.set(i, Some(rec));
            count = count + 1;
        } else {
            records.set(i, entry);
        }
        i = i + 1;
    }
    assert(old(records)@.take(n as int) =~= old(records)@);
    SealAllRevoked { owner: *owner, count }
}

/// The bytes whose SHA-256 starts with the router's `cast` instruction
/// discriminator: `b"global:cast"`. A seal's selector names this
/// instruction on its target.
pub const CAST_SIGHASH_PREIMAGE: [u8; 11] = [103, 108, 111, 98, 97, 108, 58, 99, 97, 115, 116];

/// The bytes whose SHA-256 starts with the vault's `verify_and_consume`
/// instruction discriminator: `b"global:verify_and_consume"`.
pub const VERIFY_SIGHASH_PREIMAGE: [u8; 25] = [
    103, 108, 111, 98, 97, 108, 58, 118, 101, 114, 105, 102, 121, 95, 97, 110, 100, 95, 99, 111,
    110, 115, 117, 109, 101,
];

/// The bytes whose SHA-256 starts with the vault's `record_cast_spend`
/// instruction discriminator: `b"global:record_cast_spend"`.
pub const RECORD_SPEND_SIGHASH_PREIMAGE: [u8; 24] = [
    103, 108, 111, 98, 97, 108, 58, 114, 101, 99, 111, 114, 100, 95, 99, 97, 115, 116, 95, 115,
    112, 101, 110, 100,
];

/// An instruction discriminator: the first eight bytes of the SHA-256 of
/// `namespace:name`.
pub open spec fn discriminator_spec(preimage: Seq<u8>) -> Seq<u8> {
    Seq::new(8, |i: int| sha256(preimage)[i])
}

/// Computes an instruction discriminator.
pub fn discriminator(preimage: &[u8]) -> (d: [u8; 8])
    ensures
        d@ == discriminator_spec(preimage@),
{
    let h = sha256_hash(preimage);
    let d: [u8; 8] = [h[0], h[1], h[2], h[3], h[4], h[5], h[6], h[7]];
    assert(d@ =~= discriminator_spec(preimage@));
    d
}

/// The selector of the router's `cast` instruction.
pub open spec fn cast_selector() -> Seq<u8> {
    discriminator_spec(CAST_SIGHASH_PREIMAGE@)
}

/// `ra` is the cast-authority address of the router bound in `config`,
/// whose signature proves a call comes from that router.
pub open spec fn router_authority_matches(config: Config, ra: Seq<u8>) -> bool {
    program_address(CAST_AUTHORITY_SEED@, config.router_program@) == Some(ra)
}

/// Confirms `router_authority` is the bound router's cast authority.
fn check_router_authority(config: &Config, router_authority: &Address) -> (ok: bool)
    ensures
        ok == router_authority_matches(*config, router_authority@),
{
    match find_program_address(CAST_AUTHORITY_SEED.as_slice(), &config.router_program) {
        Some(expected) => keys_eq(router_authority, &expected),
        None => false,
    }
}

/// Whether the daily window has elapsed at `now` and must restart.
pub open spec fn window_rolls(rec: SealRecord, now: i64) -> bool {
    now >= rec.window_start + WINDOW
}

/// Start of the window a spend at `now` counts against.
pub open spec fn window_start_at(rec: SealRecord, now: i64) -> i64 {
    if window_rolls(rec, now) { now } else { rec.window_start }
}

/// Value already spent in the window a spend at `now` counts against.
pub open spec fn window_spent_at(rec: SealRecord, now: i64) -> u64 {
    if window_rolls(rec, now) { 0 } else { rec.window_spent }
}

/// The window a spend at `now` counts against: its start and what it has
/// spent. The window's end is computed without overflow.
fn current_window(rec: &SealRecord, now: i64) -> (w: (i64, u64))
    ensures
        w.0 == window_start_at(*rec, now),
        w.1 == window_spent_at(*rec, now),
{
    let rolls = match rec.window_start.checked_add(WINDOW) {
        Some(end) => now >= end,
        None => false,
    };
    if rolls {
        (now, 0)
    } else {
        (rec.window_start, rec.window_spent)
    }
}

/// The seal lets its key reach the cast: its target is the bound router
/// and its selector permits the router's `cast` instruction.
pub open spec fn seal_permits_router_cast(config: Config, rec: SealRecord) -> bool {
    &&& rec.seal.target@ == config.router_program@
    &&& (rec.seal.selector@ == wildcard_selector() || rec.seal.selector@ == cast_selector())
}

/// Which error, if any, verifying a cast refuses with, checked in this
/// order: the caller must be the bound router's cast authority; the seal
/// must be unrevoked and unexpired; the cast deadline must not have passed;
/// the value must fit the per-call cap and, added to what the current window
/// has spent, the daily cap; the transaction must carry the session key's
/// Ed25519 signature over this cast's message at the record's current
/// nonce; the nonce must be able to advance; and, last, the seal's target
/// must be the bound router and its selector must permit the router's
/// `cast` instruction.
pub open spec fn consume_check(
    config: Config,
    rec: SealRecord,
    router_authority: Seq<u8>,
    ixs: Seq<LoadedInstruction>,
    agent_id: Seq<u8>,
    deadline: i64,
    data_hash: Seq<u8>,
    call_value: u64,
    now: i64,
) -> Option<MagicsError> {
    let spent = window_spent_at(rec, now);
    if !router_authority_matches(config, router_authority) {
        Some(MagicsError::NotRouter)
    } else if rec.revoked {
        Some(MagicsError::SealRevoked)
    } else if !(now < rec.seal.expiry) {
        Some(MagicsError::SealExpired)
    } else if !(deadline >= now) {
        Some(MagicsError::CastDeadlinePassed)
    } else if call_value > rec.seal.value_cap {
        Some(MagicsError::SealCapBreached)
    } else if spent + call_value > u64::MAX {
        Some(MagicsError::NumericalOverflow)
    } else if spent + call_value > rec.seal.daily_cap {
        Some(MagicsError::SealCapBreached)
    } else {
        match scan_for_signature(
            ixs,
            rec.seal.signer@,
            cast_message_spec(SEAL_VAULT_ID@, agent_id, rec.nonce, deadline, data_hash),
            0,
        ) {
            Err(e) => Some(e),
            Ok(()) => if rec.nonce == u64::MAX {
                Some(MagicsError::NumericalOverflow)
            } else if !seal_permits_router_cast(config, rec) {
                Some(MagicsError::SealTargetMismatch)
            } else {
                None
            },
        }
    }
}

/// Verifies a cast against the seal in `record` and consumes one nonce.
/// `instructions` are the instructions preceding the running one in its
/// transaction. On success the nonce advances by one, the window restarts if
/// a full window has elapsed, the call's value is added to the window's
/// spend, and the consumed nonce is returned in the event; on failure the
/// record is left as it was.
pub fn verify_and_consume(
    config: &Config,
    record: &mut SealRecord,
    router_authority: &Address,
    instructions: &Vec<LoadedInstruction>,
    agent_id: &[u8; 32],
    deadline: i64,
    data_hash: &[u8; 32],
    call_value: u64,
    now: i64,
) -> (r: Result<SealConsumed, MagicsError>)
    requires
        instructions@.len() <= u16::MAX,
    ensures
        match consume_check(*config, *old(record), router_authority@, instructions@, agent_id@,
            deadline, data_hash@, call_value, now) {
            Some(e) => r is Err && r->Err_0 == e && *final(record) == *old(record),
            None => {
                &&& r matches Ok(ev) && ev.seal_id == old(record).seal_id && ev.value == call_value
                    && ev.nonce == old(record).nonce
                &&& final(record).nonce == old(record).nonce + 1
                &&& final(record).window_start == window_start_at(*old(record), now)
                &&& final(record).window_spent == window_spent_at(*old(record), now) + call_value
                &&& final(record).seal == old(record).seal
                &&& final(record).owner == old(record).owner
                &&& final(record).seal_id == old(record).seal_id
                &&& final(record).revoked == old(record).revoked
                &&& final(record).revoke_reason == old(record).revoke_reason
                &&& final(record).bump == old(record).bump
            },
        },
{
    if !check_router_authority(config, router_authority) {
        return Err(MagicsError::NotRouter);
    }
    if record.revoked {
        return Err(MagicsError::SealRevoked);
    }
    let seal = record.seal;
    if !(now < seal.expiry) {
        return Err(MagicsError::SealExpired);
    }
    if !(deadline >= now) {
        return Err(MagicsError::CastDeadlinePassed);
    }
    if call_value > seal.value_cap {
        return Err(MagicsError::SealCapBreached);
    }
    let (window_start, window_spent) = current_window(record, now);
    let projected = match window_spent.checked_add(call_value) {
        Some(p) => p,
        None => {
            return Err(MagicsError::NumericalOverflow);
        },
    };
    if !(projected <= seal.daily_cap) {
        return Err(MagicsError::SealCapBreached);
    }
    let message = cast_message(&SEAL_VAULT_ID, agent_id, record.nonce, deadline, data_hash);
    match verify_cast_signature(instructions, &seal.signer, message.as_slice()) {
        Err(e) => {
            return Err(e);
        },
        Ok(()) => {},
    }
    let nonce = record.nonce;
    let next = match nonce.checked_add(1) {
        Some(n) => n,
        None => {
            return Err(MagicsError::NumericalOverflow);
        },
    };
    if !keys_eq(&seal.target, &config.router_program) {
        return Err(MagicsError::SealTargetMismatch);
    }
    let cast_ix = discriminator(CAST_SIGHASH_PREIMAGE.as_slice());
    if !seal.permits_selector(&cast_ix) {
        return Err(MagicsError::SealTargetMismatch);
    }
    record.nonce = next;
    record.window_start = window_start;
    record.window_spent = projected;
    Ok(SealConsumed { seal_id: record.seal_id, value: call_value, nonce })
}

/// What a strategy may still move in a cast at `now`: the per-call cap, or
/// what the daily cap leaves in the current window if that is less.
pub open spec fn cast_budget_spec(rec: SealRecord, now: i64) -> u64 {
    let spent = window_spent_at(rec, now);
    let room: u64 = if spent >= rec.seal.daily_cap { 0 } else { (rec.seal.daily_cap - spent) as u64 };
    if rec.seal.value_cap < room { rec.seal.value_cap } else { room }
}

/// Computes the budget a cast at `now` may move under the seal in `record`.
pub fn cast_budget(record: &SealRecord, now: i64) -> (b: u64)
    ensures
        b == cast_budget_spec(*record, now),
{
    let (_start, spent) = current_window(record, now);
    let room = if spent >= record.seal.daily_cap { 0 } else { record.seal.daily_cap - spent };
    if record.seal.value_cap < room { record.seal.value_cap } else { room }
}

/// Which error, if any, charging a cast's spend to its seal refuses with:
/// the caller must be the bound router's cast authority, and the amount
/// must fit the per-call cap and, with the window's spend, the daily cap.
pub open spec fn record_spend_check(config: Config, rec: SealRecord, router_authority: Seq<u8>, amount: u64, now: i64) -> Option<MagicsError> {
    let spent = window_spent_at(rec, now);
    if !router_authority_matches(config, router_authority) {
        Some(MagicsError::NotRouter)
    } else if amount > rec.seal.value_cap {
        Some(MagicsError::SealCapBreached)
    } else if spent + amount > u64::MAX {
        Some(MagicsError::NumericalOverflow)
    } else if spent + amount > rec.seal.daily_cap {
        Some(MagicsError::SealCapBreached)
    } else {
        None
    }
}

/// Charges `amount` — what a strategy moved out of the agent's balances
/// during a cast — to the seal's current window. Only the window changes.
pub fn record_cast_spend(
    config: &Config,
    record: &mut SealRecord,
    router_authority: &Address,
    amount: u64,
    now: i64,
) -> (r: Result<(), MagicsError>)
    ensures
        match record_spend_check(*config, *old(record), router_authority@, amount, now) {
            Some(e) => r == Err::<(), MagicsError>(e) && *final(record) == *old(record),
            None => {
                &&& r is Ok
                &&& final(record).window_start == window_start_at(*old(record), now)
                &&& final(record).window_spent == window_spent_at(*old(record), now) + amount
                &&& final(record).nonce == old(record).nonce
                &&& final(record).seal == old(record).seal
                &&& final(record).owner == old(record).owner
                &&& final(record).seal_id == old(record).seal_id
                &&& final(record).revoked == old(record).revoked
                &&& final(record).revoke_reason == old(record).revoke_reason
                &&& final(record).bump == old(record).bump
            },
        },
{
    if !check_router_authority(config, router_authority) {
        return Err(MagicsError::NotRouter);
    }
    if amount > record.seal.value_cap {
        return Err(MagicsError::SealCapBreached);
    }
    let (window_start, window_spent) = current_window(record, now);
    let projected = match window_spent.checked_add(amount) {
        Some(p) => p,
        None => {
            return Err(MagicsError::NumericalOverflow);
        },
    };
    if !(projected <= record.seal.daily_cap) {
        return Err(MagicsError::SealCapBreached);
    }
    record.window_start = window_start;
    record.window_spent = projected;
    Ok(())
}

/// The instruction data of the vault's `verify_and_consume`: its
/// discriminator, then the seal id, the agent id, the deadline, the payload
/// hash and the call value, integers little-endian.
pub open spec fn verify_data_spec(seal_id: Seq<u8>, agent_id: Seq<u8>, deadline: i64, data_hash: Seq<u8>, call_value: u64) -> Seq<u8> {
    discriminator_spec(VERIFY_SIGHASH_PREIMAGE@) + seal_id + agent_id + i64_le_bytes(deadline) + data_hash
        + spec_u64_to_le_bytes(call_value)
}

/// Builds the instruction data of a `verify_and_consume` call.
pub fn verify_and_consume_data(
    seal_id: &[u8; 32],
    agent_id: &[u8; 32],
    deadline: i64,
    data_hash: &[u8; 32],
    call_value: u64,
) -> (d: Vec<u8>)
    ensures
        d@ == verify_data_spec(seal_id@, agent_id@, deadline, data_hash@, call_value),
{
    let disc = discriminator(VERIFY_SIGHASH_PREIMAGE.as_slice());
    let mut d: Vec<u8> = Vec::with_capacity(8 + 32 + 32 + 8 + 32 + 8);
    append_bytes(&mut d, disc.as_slice());
    append_bytes(&mut d, seal_id.as_slice());
    append_bytes(&mut d, agent_id.as_slice());
    let dl = u64_to_le_bytes(deadline as u64);
    append_bytes(&mut d, dl.as_slice());
    append_bytes(&mut d, data_hash.as_slice());
    let v = u64_to_le_bytes(call_value);
    append_bytes(&mut d, v.as_slice());
    d
}

/// The instruction data of the vault's `record_cast_spend`: its
/// discriminator, the seal id, and the amount little-endian.
pub open spec fn record_spend_data_spec(seal_id: Seq<u8>, amount: u64) -> Seq<u8> {
    discriminator_spec(RECORD_SPEND_SIGHASH_PREIMAGE@) + seal_id + spec_u64_to_le_bytes(amount)
}

/// Builds the instruction data of a `record_cast_spend` call.
pub fn record_cast_spend_data(seal_id: &[u8; 32], amount: u64) -> (d: Vec<u8>)
    ensures
        d@ == record_spend_data_spec(seal_id@, amount),
{
    let disc = discriminator(RECORD_SPEND_SIGHASH_PREIMAGE.as_slice());
    let mut d: Vec<u8> = Vec::with_capacity(8 + 32 + 8);
    append_bytes(&mut d, disc.as_slice());
    append_bytes(&mut d, seal_id.as_slice());
    let v = u64_to_le_bytes(amount);
    append_bytes(&mut d, v.as_slice());
    d
}

/// A successful consume came from the bound router's cast authority, on an
/// unrevoked, unexpired seal that targets the bound router's `cast`
/// instruction, before the cast's deadline, and respects both caps: the
/// call's value is within the per-call cap, and the window's spend after the
/// call is within the daily cap — whatever the window had spent before.
pub proof fn lemma_consume_respects_caps(
    config: Config,
    rec: SealRecord,
    router_authority: Seq<u8>,
    ixs: Seq<LoadedInstruction>,
    agent_id: Seq<u8>,
    deadline: i64,
    data_hash: Seq<u8>,
    call_value: u64,
    now: i64,
)
    requires
        consume_check(config, rec, router_authority, ixs, agent_id, deadline, data_hash, call_value, now) is None,
    ensures
        router_authority_matches(config, router_authority),
        !rec.revoked,
        seal_permits_router_cast(config, rec),
        call_value <= rec.seal.value_cap,
        window_spent_at(rec, now) + call_value <= rec.seal.daily_cap,
        now < rec.seal.expiry,
        deadline >= now,
{
}

/// A seal naming another program than the bound router never verifies a
/// cast, and neither does one whose selector excludes the router's `cast`.
/// The other refusals come first; when every other check passes, such a
/// seal is refused with `SealTargetMismatch`.
pub proof fn lemma_foreign_target_refused(
    config: Config,
    rec: SealRecord,
    router_authority: Seq<u8>,
    ixs: Seq<LoadedInstruction>,
    agent_id: Seq<u8>,
    deadline: i64,
    data_hash: Seq<u8>,
    call_value: u64,
    now: i64,
)
    requires
        !seal_permits_router_cast(config, rec),
    ensures
        consume_check(config, rec, router_authority, ixs, agent_id, deadline, data_hash, call_value, now) is Some,
        ({
            let spent = window_spent_at(rec, now);
            &&& router_authority_matches(config, router_authority)
            &&& !rec.revoked
            &&& now < rec.seal.expiry
            &&& deadline >= now
            &&& call_value <= rec.seal.value_cap
            &&& spent + call_value <= rec.seal.daily_cap
            &&& scan_for_signature(ixs, rec.seal.signer@,
                    cast_message_spec(SEAL_VAULT_ID@, agent_id, rec.nonce, deadline, data_hash), 0) is Ok
            &&& rec.nonce < u64::MAX
        }) ==> consume_check(config, rec, router_authority, ixs, agent_id, deadline, data_hash, call_value, now)
            == Some(MagicsError::SealTargetMismatch),
{
}

/// A consume leaves the record's window within the daily cap at the same
/// time: a cast opened right after the verify sees a window it may still
/// spend from.
pub proof fn lemma_consume_leaves_window_within_cap(old: SealRecord, new: SealRecord, call_value: u64, now: i64)
    requires
        new.seal == old.seal,
        new.window_start == window_start_at(old, now),
        new.window_spent == window_spent_at(old, now) + call_value,
        window_spent_at(old, now) + call_value <= old.seal.daily_cap,
    ensures
        window_spent_at(new, now) == new.window_spent,
        window_spent_at(new, now) <= new.seal.daily_cap,
{
}

/// A revoked seal never verifies a cast, and an expired one never does.
pub proof fn lemma_dead_seal_never_consumed(
    config: Config,
    rec: SealRecord,
    router_authority: Seq<u8>,
    ixs: Seq<LoadedInstruction>,
    agent_id: Seq<u8>,
    deadline: i64,
    data_hash: Seq<u8>,
    call_value: u64,
    now: i64,
)
    requires
        rec.revoked || now >= rec.seal.expiry,
    ensures
        consume_check(config, rec, router_authority, ixs, agent_id, deadline, data_hash, call_value, now) is Some,
{
}

/// A seal's authority is its session key's: a cast is consumed only when
/// the transaction carries an Ed25519 instruction whose key is the seal's
/// signer and whose message is exactly this cast — bound to this vault, this
/// agent, the record's current nonce, this deadline and this payload hash.
pub proof fn lemma_consume_requires_session_signature(
    config: Config,
    rec: SealRecord,
    router_authority: Seq<u8>,
    ixs: Seq<LoadedInstruction>,
    agent_id: Seq<u8>,
    deadline: i64,
    data_hash: Seq<u8>,
    call_value: u64,
    now: i64,
)
    requires
        consume_check(config, rec, router_authority, ixs, agent_id, deadline, data_hash, call_value, now) is None,
    ensures
        exists|i: int| #[trigger] signed_at(
            ixs,
            i,
            rec.seal.signer@,
            cast_message_spec(SEAL_VAULT_ID@, agent_id, rec.nonce, deadline, data_hash),
        ),
{
    crate::ed25519::lemma_scan_ok_has_witness(
        ixs,
        rec.seal.signer@,
        cast_message_spec(SEAL_VAULT_ID@, agent_id, rec.nonce, deadline, data_hash),
        0,
    );
}

/// Every message that an Ed25519 instruction of `ixs` proves `signer`
/// signed is a cast message for this vault at a nonce no greater than `n`.
pub open spec fn signatures_cover_nonces_upto(ixs: Seq<LoadedInstruction>, signer: Seq<u8>, n: u64) -> bool {
    forall|i: int, m: Seq<u8>| #[trigger] signed_at(ixs, i, signer, m) ==> exists|a: Seq<u8>, k: u64, d: i64, h: Seq<u8>|
        a.len() == 32 && h.len() == 32 && k <= n && m == #[trigger] cast_message_spec(SEAL_VAULT_ID@, a, k, d, h)
}

/// Each signed cast is consumed at most once. After a consume at nonce `n`
/// the record's nonce is past `n`; from then on, a transaction whose
/// signatures by the session key cover only casts at nonces up to `n` — such
/// as the very transaction that was consumed — is refused, whatever the
/// other arguments.
pub proof fn lemma_signed_cast_consumed_once(
    config: Config,
    rec: SealRecord,
    router_authority: Seq<u8>,
    ixs: Seq<LoadedInstruction>,
    agent_id: Seq<u8>,
    deadline: i64,
    data_hash: Seq<u8>,
    call_value: u64,
    now: i64,
    n: u64,
)
    requires
        signatures_cover_nonces_upto(ixs, rec.seal.signer@, n),
        rec.nonce > n,
        agent_id.len() == 32,
        data_hash.len() == 32,
    ensures
        consume_check(config, rec, router_authority, ixs, agent_id, deadline, data_hash, call_value, now) is Some,
{
    if consume_check(config, rec, router_authority, ixs, agent_id, deadline, data_hash, call_value, now) is None {
        let m = cast_message_spec(SEAL_VAULT_ID@, agent_id, rec.nonce, deadline, data_hash);
        lemma_consume_requires_session_signature(
            config, rec, router_authority, ixs, agent_id, deadline, data_hash, call_value, now,
        );
        let i = choose|i: int| #[trigger] signed_at(ixs, i, rec.seal.signer@, m);
        assert(signed_at(ixs, i, rec.seal.signer@, m));
        let (a, k, d, h) = choose|a: Seq<u8>, k: u64, d: i64, h: Seq<u8>|
            a.len() == 32 && h.len() == 32 && k <= n && m == #[trigger] cast_message_spec(SEAL_VAULT_ID@, a, k, d, h);
        crate::domain::lemma_cast_message_injective(
            SEAL_VAULT_ID@, agent_id, rec.nonce, deadline, data_hash,
            SEAL_VAULT_ID@, a, k, d, h,
        );
    }
}

/// A live seal can never be silently overwritten: minting over a record
/// that has an owner and is not revoked is refused, whoever mints.
pub proof fn lemma_live_record_not_overwritten(old: SealRecord, owner: Seq<u8>, seal_id: Seq<u8>, args: SealArgs, now: i64)
    requires
        old.owner@ != zero_key(),
        !old.revoked,
    ensures
        mint_seal_check(old, owner, seal_id, args, now) is Some,
{
}

/// The kill switch stops every cast of the caller's seals it was handed:
/// after it, each of those records is revoked, and a revoked record fails
/// verification.
pub proof fn lemma_kill_switch_stops_casts(
    before: Option<SealRecord>,
    after: Option<SealRecord>,
    owner: Seq<u8>,
    config: Config,
    router_authority: Seq<u8>,
    ixs: Seq<LoadedInstruction>,
    agent_id: Seq<u8>,
    deadline: i64,
    data_hash: Seq<u8>,
    call_value: u64,
    now: i64,
)
    requires
        revoke_all_entry(before, after, owner),
        before matches Some(b) && b.owner@ == owner,
    ensures
        after matches Some(a) && a.revoked
            && consume_check(config, a, router_authority, ixs, agent_id, deadline, data_hash, call_value, now) is Some,
{
}

/// A list with nothing revocable counts nothing.
proof fn lemma_nothing_revocable_counts_zero(s: Seq<Option<SealRecord>>, owner: Seq<u8>)
    requires
        forall|i: int| 0 <= i < s.len() ==> !revocable_by(#[trigger] s[i], owner),
    ensures
        revocable_count(s, owner) == 0,
    decreases s.len(),
{
    if s.len() > 0 {
        assert(!revocable_by(s[s.len() - 1], owner));
        lemma_nothing_revocable_counts_zero(s.drop_last(), owner);
    }
}

/// The kill switch is idempotent: after one run nothing the caller owns is
/// left live, so running it again over the same records revokes nothing and
/// changes nothing.
pub proof fn lemma_kill_switch_idempotent(before: Seq<Option<SealRecord>>, after: Seq<Option<SealRecord>>, owner: Seq<u8>)
    requires
        before.len() == after.len(),
        forall|i: int| 0 <= i < before.len() ==> revoke_all_entry(#[trigger] before[i], after[i], owner),
    ensures
        forall|i: int| 0 <= i < after.len() ==> !revocable_by(#[trigger] after[i], owner),
        forall|i: int, again: Option<SealRecord>| 0 <= i < after.len() && #[trigger] revoke_all_entry(after[i], again, owner)
            ==> again == after[i],
        revocable_count(after, owner) == 0,
{
    assert forall|i: int| 0 <= i < after.len() implies !revocable_by(#[trigger] after[i], owner) by {
        assert(revoke_all_entry(before[i], after[i], owner));
    }
    lemma_nothing_revocable_counts_zero(after, owner);
}

/// Minting goes ahead for every seal whose expiry is still ahead, however
/// soon, with a non-zero signer and target and the id the seal has under
/// the caller: into a blank record, and over the caller's own revoked seal.
/// A seal whose expiry is not ahead is refused as expired.
pub proof fn lemma_mint_goes_ahead(rec: SealRecord, owner: Seq<u8>, args: SealArgs, now: i64)
    requires
        args.signer@ != zero_key(),
        args.target@ != zero_key(),
    ensures
        args.expiry > now && (rec.owner@ == zero_key() || (rec.owner@ == owner && rec.revoked))
            ==> mint_seal_check(rec, owner, seal_id_spec(seal_from_args(args, now), owner), args, now) is None,
        args.expiry <= now ==> mint_seal_check(rec, owner, seal_id_spec(seal_from_args(args, now), owner), args, now)
            == Some(MagicsError::SealExpired),
{
}

/// The owner may revoke a live seal with any reason of at most
/// `MAX_REASON_LEN` bytes; a revoked seal is refused as revoked.
pub proof fn lemma_owner_revokes(rec: SealRecord, owner: Seq<u8>, reason: Seq<char>)
    requires
        rec.owner@ == owner,
        utf8_len(reason) <= MAX_REASON_LEN,
    ensures
        !rec.revoked ==> revoke_check(rec, owner, reason) is None,
        rec.revoked ==> revoke_check(rec, owner, reason) == Some(MagicsError::SealRevoked),
{
}

/// Verifying a cast goes ahead whenever every condition the seal sets is
/// met, whatever the deadline's distance ahead and whatever else: the
/// caller is the bound router's cast authority, the seal is unrevoked and
/// unexpired, the deadline has not passed, the value fits the per-call cap
/// and, with the window's spend, the daily cap, the transaction carries the
/// session key's signature over this cast at the current nonce, the nonce
/// can advance, and the seal permits the router's cast.
pub proof fn lemma_consume_goes_ahead(
    config: Config,
    rec: SealRecord,
    router_authority: Seq<u8>,
    ixs: Seq<LoadedInstruction>,
    agent_id: Seq<u8>,
    deadline: i64,
    data_hash: Seq<u8>,
    call_value: u64,
    now: i64,
)
    requires
        router_authority_matches(config, router_authority),
        !rec.revoked,
        now < rec.seal.expiry,
        deadline >= now,
        call_value <= rec.seal.value_cap,
        window_spent_at(rec, now) + call_value <= rec.seal.daily_cap,
        scan_for_signature(ixs, rec.seal.signer@,
            cast_message_spec(SEAL_VAULT_ID@, agent_id, rec.nonce, deadline, data_hash), 0) is Ok,
        rec.nonce < u64::MAX,
        seal_permits_router_cast(config, rec),
    ensures
        consume_check(config, rec, router_authority, ixs, agent_id, deadline, data_hash, call_value, now) is None,
{
}

/// Charging a cast's spend goes ahead for every amount within the per-call
/// cap whose addition keeps the window's spend within the daily cap, when
/// the bound router's cast authority asks.
pub proof fn lemma_record_spend_goes_ahead(config: Config, rec: SealRecord, router_authority: Seq<u8>, amount: u64, now: i64)
    requires
        router_authority_matches(config, router_authority),
        amount <= rec.seal.value_cap,
        window_spent_at(rec, now) + amount <= rec.seal.daily_cap,
    ensures
        record_spend_check(config, rec, router_authority, amount, now) is None,
{
}

/// An unbound vault can always be bound.
pub proof fn lemma_unbound_vault_binds()
    ensures
        initialize_check(None) is None,
{
}

/// The daily cap counts over a rolling window of one day (86 400 seconds):
/// once a full day has passed since the window started, a spend counts
/// against a fresh window starting now, with nothing spent, and the whole
/// of both caps is available again; before that it counts against the
/// current window and what it has spent.
pub proof fn lemma_daily_window_restarts(rec: SealRecord, now: i64)
    ensures
        now >= rec.window_start + 86_400 ==> {
            &&& window_start_at(rec, now) == now
            &&& window_spent_at(rec, now) == 0
            &&& cast_budget_spec(rec, now) == (if rec.seal.value_cap < rec.seal.daily_cap {
                rec.seal.value_cap
            } else {
                rec.seal.daily_cap
            })
        },
        now < rec.window_start + 86_400 ==> {
            &&& window_start_at(rec, now) == rec.window_start
            &&& window_spent_at(rec, now) == rec.window_spent
        },
{
}

} // verus!
