use anchor_lang::prelude::Pubkey;
use magics::domain::{cast_message, CAST_AUTHORITY_SEED, SEAL_VAULT_ID};
use magics::ed25519::{LoadedInstruction, ED25519_PROGRAM_ID};
use magics::error::MagicsError;
use magics::registry::{Agent, Status};
use magics::router::{begin_cast, finish_cast, open_active_cast, pull, Balance};
use magics::seal::Seal;
use magics::vault::{
    cast_budget, discriminator, initialize, mint_seal, record_cast_spend, record_cast_spend_data, revoke, revoke_all,
    verify_and_consume, verify_and_consume_data, Config, SealArgs, SealRecord, CAST_SIGHASH_PREIMAGE,
};

const OWNER: [u8; 32] = [11u8; 32];
const SIGNER: [u8; 32] = [12u8; 32];
const NOW: i64 = 1_700_000_000;
const ROUTER: [u8; 32] = [13u8; 32];

fn args() -> SealArgs {
    SealArgs {
        signer: SIGNER,
        target: ROUTER,
        selector: [0u8; 8],
        value_cap: 100,
        daily_cap: 250,
        expiry: NOW + 10 * 86_400,
        scope_hash: [15u8; 32],
    }
}

fn id_of(a: &SealArgs, owner: &[u8; 32]) -> [u8; 32] {
    let s = Seal {
        signer: a.signer,
        target: a.target,
        selector: a.selector,
        value_cap: a.value_cap,
        daily_cap: a.daily_cap,
        expiry: a.expiry,
        created_at: 0,
        scope_hash: a.scope_hash,
    };
    s.id(owner)
}

fn minted() -> SealRecord {
    let mut r = SealRecord::blank();
    let a = args();
    mint_seal(&mut r, &OWNER, &id_of(&a, &OWNER), &a, NOW, 254).unwrap();
    r
}

fn config() -> Config {
    let mut slot = None;
    initialize(&mut slot, [1u8; 32], ROUTER, 255).unwrap();
    slot.unwrap()
}

fn router_authority() -> [u8; 32] {
    Pubkey::find_program_address(&[&CAST_AUTHORITY_SEED], &Pubkey::new_from_array(ROUTER)).0.to_bytes()
}

fn verify_ix(signer: &[u8; 32], message: &[u8]) -> LoadedInstruction {
    let mut d = vec![1u8, 0];
    for v in [48u16, u16::MAX, 16, u16::MAX, 112, message.len() as u16, u16::MAX] {
        d.extend_from_slice(&v.to_le_bytes());
    }
    d.extend_from_slice(signer);
    d.extend_from_slice(&[0u8; 64]);
    d.extend_from_slice(message);
    LoadedInstruction { program_id: ED25519_PROGRAM_ID, data: d }
}

fn signed(nonce: u64, deadline: i64) -> Vec<LoadedInstruction> {
    let m = cast_message(&SEAL_VAULT_ID, &[20u8; 32], nonce, deadline, &[21u8; 32]);
    vec![verify_ix(&SIGNER, &m)]
}

fn consume(r: &mut SealRecord, ixs: &Vec<LoadedInstruction>, value: u64, deadline: i64, now: i64) -> Result<u64, MagicsError> {
    verify_and_consume(&config(), r, &router_authority(), ixs, &[20u8; 32], deadline, &[21u8; 32], value, now).map(|e| e.nonce)
}

#[test]
fn initialize_binds_the_router_once() {
    let mut slot = None;
    assert_eq!(initialize(&mut slot, [1u8; 32], ROUTER, 255), Ok(()));
    let c = slot.as_ref().unwrap();
    assert_eq!(c.router_program, ROUTER);
    assert_eq!(c.admin, [1u8; 32]);
    assert_eq!(c.bump, 255);
    assert_eq!(initialize(&mut slot, [2u8; 32], [3u8; 32], 1), Err(MagicsError::AlreadyInitialised));
    assert_eq!(slot.unwrap().router_program, ROUTER);
}

#[test]
fn mint_fills_a_blank_record() {
    let r = minted();
    assert_eq!(r.owner, OWNER);
    assert_eq!(r.seal.created_at, NOW);
    assert_eq!(r.seal.value_cap, 100);
    assert_eq!(r.nonce, 0);
    assert_eq!(r.window_start, NOW);
    assert!(!r.revoked);
    assert_eq!(r.bump, 254);
}

#[test]
fn mint_rejects_past_expiry() {
    let mut r = SealRecord::blank();
    let mut a = args();
    a.expiry = NOW;
    assert_eq!(mint_seal(&mut r, &OWNER, &id_of(&a, &OWNER), &a, NOW, 1).err(), Some(MagicsError::SealExpired));
}

#[test]
fn mint_rejects_zero_signer_or_target() {
    let mut r = SealRecord::blank();
    let mut a = args();
    a.signer = [0u8; 32];
    assert_eq!(mint_seal(&mut r, &OWNER, &id_of(&a, &OWNER), &a, NOW, 1).err(), Some(MagicsError::ZeroAddress));
    let mut a = args();
    a.target = [0u8; 32];
    assert_eq!(mint_seal(&mut r, &OWNER, &id_of(&a, &OWNER), &a, NOW, 1).err(), Some(MagicsError::ZeroAddress));
}

#[test]
fn mint_rejects_a_wrong_seal_id() {
    let mut r = SealRecord::blank();
    let a = args();
    assert_eq!(mint_seal(&mut r, &OWNER, &[0u8; 32], &a, NOW, 1).err(), Some(MagicsError::SealIdMismatch));
    assert_eq!(mint_seal(&mut r, &OWNER, &id_of(&a, &[3u8; 32]), &a, NOW, 1).err(), Some(MagicsError::SealIdMismatch));
}

#[test]
fn mint_refuses_to_overwrite_a_live_seal() {
    let mut r = minted();
    let a = args();
    assert_eq!(mint_seal(&mut r, &OWNER, &id_of(&a, &OWNER), &a, NOW + 5, 1).err(), Some(MagicsError::AlreadyInitialised));
    let other = [30u8; 32];
    assert_eq!(mint_seal(&mut r, &other, &id_of(&a, &other), &a, NOW + 5, 1).err(), Some(MagicsError::NotOwner));
    assert_eq!(r.window_start, NOW);
}

#[test]
fn revoked_seal_can_be_reissued_by_its_owner() {
    let mut r = minted();
    r.nonce = 7;
    revoke(&mut r, &OWNER, String::from("rotate")).unwrap();
    let a = args();
    let ev = mint_seal(&mut r, &OWNER, &id_of(&a, &OWNER), &a, NOW + 60, 9).unwrap();
    assert_eq!(ev.owner, OWNER);
    assert_eq!(ev.signer, SIGNER);
    assert!(!r.revoked);
    assert_eq!(r.nonce, 0);
    assert_eq!(r.revoke_reason, "");
    assert_eq!(r.seal.created_at, NOW + 60);
}

#[test]
fn revoke_marks_the_seal_and_keeps_the_reason() {
    let mut r = minted();
    let ev = revoke(&mut r, &OWNER, String::from("lost key")).unwrap();
    assert!(r.revoked);
    assert_eq!(r.revoke_reason, "lost key");
    assert_eq!(ev.reason, "lost key");
    assert_eq!(ev.owner, OWNER);
}

#[test]
fn revoke_errors() {
    let mut r = minted();
    assert_eq!(revoke(&mut r, &[1u8; 32], String::new()).err(), Some(MagicsError::NotOwner));
    assert_eq!(revoke(&mut r, &OWNER, "x".repeat(65)).err(), Some(MagicsError::ReasonTooLong));
    // 22 three-byte characters: 66 bytes, although only 22 characters.
    assert_eq!(revoke(&mut r, &OWNER, "\u{20ac}".repeat(22)).err(), Some(MagicsError::ReasonTooLong));
    assert!(revoke(&mut r, &OWNER, "x".repeat(64)).is_ok());
    assert_eq!(revoke(&mut r, &OWNER, String::new()).err(), Some(MagicsError::SealRevoked));
}

#[test]
fn revoke_all_revokes_only_live_owned_records() {
    let mut revoked = minted();
    revoke(&mut revoked, &OWNER, String::from("old")).unwrap();
    let mut foreign = minted();
    foreign.owner = [40u8; 32];
    let mut records = vec![Some(minted()), None, Some(revoked), Some(foreign), Some(minted())];
    let ev = revoke_all(&OWNER, &mut records);
    assert_eq!(ev.count, 2);
    assert_eq!(ev.owner, OWNER);
    let r0 = records[0].as_ref().unwrap();
    assert!(r0.revoked);
    assert_eq!(r0.revoke_reason, "revoke-all");
    assert!(records[1].is_none());
    assert_eq!(records[2].as_ref().unwrap().revoke_reason, "old");
    assert!(!records[3].as_ref().unwrap().revoked);
    assert!(records[4].as_ref().unwrap().revoked);
}

#[test]
fn consume_advances_nonce_and_window() {
    let mut r = minted();
    let deadline = NOW + 100;
    assert_eq!(consume(&mut r, &signed(0, deadline), 60, deadline, NOW + 1), Ok(0));
    assert_eq!(r.nonce, 1);
    assert_eq!(r.window_spent, 60);
    assert_eq!(consume(&mut r, &signed(1, deadline), 90, deadline, NOW + 2), Ok(1));
    assert_eq!(r.nonce, 2);
    assert_eq!(r.window_spent, 150);
}

#[test]
fn consumed_signature_cannot_be_replayed() {
    let mut r = minted();
    let deadline = NOW + 100;
    let ixs = signed(0, deadline);
    assert_eq!(consume(&mut r, &ixs, 1, deadline, NOW), Ok(0));
    assert_eq!(consume(&mut r, &ixs, 1, deadline, NOW), Err(MagicsError::MissingEd25519Instruction));
    assert_eq!(r.nonce, 1);
}

#[test]
fn consume_requires_the_bound_router() {
    let mut r = minted();
    let deadline = NOW + 100;
    let res = verify_and_consume(&config(), &mut r, &ROUTER, &signed(0, deadline), &[20u8; 32], deadline, &[21u8; 32], 1, NOW);
    assert_eq!(res.err(), Some(MagicsError::NotRouter));
}

#[test]
fn consume_rejects_revoked_expired_and_late_casts() {
    let deadline = NOW + 100;
    let mut r = minted();
    revoke(&mut r, &OWNER, String::new()).unwrap();
    assert_eq!(consume(&mut r, &signed(0, deadline), 1, deadline, NOW), Err(MagicsError::SealRevoked));
    let mut r = minted();
    let expiry = r.seal.expiry;
    assert_eq!(consume(&mut r, &signed(0, expiry + 5), 1, expiry + 5, expiry), Err(MagicsError::SealExpired));
    assert_eq!(consume(&mut r, &signed(0, NOW - 1), 1, NOW - 1, NOW), Err(MagicsError::CastDeadlinePassed));
    assert_eq!(r.nonce, 0);
}

#[test]
fn consume_enforces_value_and_daily_caps() {
    let deadline = NOW + 100;
    let mut r = minted();
    assert_eq!(consume(&mut r, &signed(0, deadline), 101, deadline, NOW), Err(MagicsError::SealCapBreached));
    assert_eq!(consume(&mut r, &signed(0, deadline), 100, deadline, NOW), Ok(0));
    assert_eq!(consume(&mut r, &signed(1, deadline), 100, deadline, NOW), Ok(1));
    assert_eq!(consume(&mut r, &signed(2, deadline), 51, deadline, NOW), Err(MagicsError::SealCapBreached));
    assert_eq!(consume(&mut r, &signed(2, deadline), 50, deadline, NOW), Ok(2));
    assert_eq!(r.window_spent, 250);
}

#[test]
fn daily_window_rolls_after_a_day() {
    let mut r = minted();
    let late = NOW + 86_400;
    let deadline = late + 10;
    assert_eq!(consume(&mut r, &signed(0, NOW + 10), 100, NOW + 10, NOW), Ok(0));
    assert_eq!(consume(&mut r, &signed(1, NOW + 10), 100, NOW + 10, NOW + 1), Ok(1));
    assert_eq!(consume(&mut r, &signed(2, deadline), 100, deadline, late - 1), Err(MagicsError::SealCapBreached));
    assert_eq!(consume(&mut r, &signed(2, deadline), 100, deadline, late), Ok(2));
    assert_eq!(r.window_start, late);
    assert_eq!(r.window_spent, 100);
}

#[test]
fn consume_reports_overflow() {
    let deadline = NOW + 100;
    let mut r = minted();
    r.seal.daily_cap = u64::MAX;
    r.seal.value_cap = u64::MAX;
    r.window_spent = u64::MAX;
    assert_eq!(consume(&mut r, &signed(0, deadline), 1, deadline, NOW), Err(MagicsError::NumericalOverflow));
    let mut r = minted();
    r.nonce = u64::MAX;
    assert_eq!(consume(&mut r, &signed(u64::MAX, deadline), 1, deadline, NOW), Err(MagicsError::NumericalOverflow));
}

#[test]
fn consume_without_signature_is_missing() {
    let mut r = minted();
    let deadline = NOW + 100;
    let wrong_key = {
        let m = cast_message(&SEAL_VAULT_ID, &[20u8; 32], 0, deadline, &[21u8; 32]);
        vec![verify_ix(&[99u8; 32], &m)]
    };
    assert_eq!(consume(&mut r, &wrong_key, 1, deadline, NOW), Err(MagicsError::MissingEd25519Instruction));
    assert_eq!(consume(&mut r, &Vec::new(), 1, deadline, NOW), Err(MagicsError::MissingEd25519Instruction));
}

#[test]
fn kill_switch_stops_further_casts() {
    let deadline = NOW + 100;
    let mut records = vec![Some(minted())];
    let ev = revoke_all(&OWNER, &mut records);
    assert_eq!(ev.count, 1);
    let mut r = records.pop().unwrap().unwrap();
    assert_eq!(consume(&mut r, &signed(0, deadline), 1, deadline, NOW), Err(MagicsError::SealRevoked));
}

fn cast_selector() -> [u8; 8] {
    let d = anchor_lang::solana_program::hash::hash(b"global:cast").to_bytes();
    let mut out = [0u8; 8];
    out.copy_from_slice(&d[..8]);
    out
}

#[test]
fn cast_discriminator_is_the_sighash_prefix() {
    assert_eq!(&CAST_SIGHASH_PREIMAGE, b"global:cast");
    assert_eq!(discriminator(b"global:cast"), cast_selector());
}

#[test]
fn seal_targeting_another_program_is_refused() {
    let deadline = NOW + 100;
    let mut r = minted();
    r.seal.target = [14u8; 32];
    assert_eq!(consume(&mut r, &signed(0, deadline), 1, deadline, NOW), Err(MagicsError::SealTargetMismatch));
    assert_eq!(r.nonce, 0);
}

#[test]
fn foreign_target_with_passed_deadline_reports_the_deadline() {
    let deadline = NOW - 1;
    let mut r = minted();
    r.seal.target = [14u8; 32];
    assert_eq!(consume(&mut r, &signed(0, deadline), 1, deadline, NOW), Err(MagicsError::CastDeadlinePassed));
    assert_eq!(consume(&mut r, &signed(0, NOW + 100), 101, NOW + 100, NOW), Err(MagicsError::SealCapBreached));
    assert_eq!(consume(&mut r, &vec![], 1, NOW + 100, NOW), Err(MagicsError::MissingEd25519Instruction));
    assert_eq!(r.nonce, 0);
}

#[test]
fn seal_selector_must_permit_cast() {
    let deadline = NOW + 100;
    let mut r = minted();
    r.seal.selector = [1u8; 8];
    assert_eq!(consume(&mut r, &signed(0, deadline), 1, deadline, NOW), Err(MagicsError::SealTargetMismatch));
    r.seal.selector = cast_selector();
    assert_eq!(consume(&mut r, &signed(0, deadline), 1, deadline, NOW), Ok(0));
}

#[test]
fn cast_budget_is_the_smaller_of_the_caps() {
    let mut r = minted();
    assert_eq!(cast_budget(&r, NOW), 100);
    r.window_spent = 200;
    assert_eq!(cast_budget(&r, NOW), 50);
    r.window_spent = 260;
    assert_eq!(cast_budget(&r, NOW), 0);
    assert_eq!(cast_budget(&r, NOW + 86_400), 100);
}

#[test]
fn record_cast_spend_charges_the_window() {
    let mut r = minted();
    assert_eq!(record_cast_spend(&config(), &mut r, &router_authority(), 80, NOW + 1), Ok(()));
    assert_eq!(r.window_spent, 80);
    assert_eq!(r.nonce, 0);
    assert_eq!(record_cast_spend(&config(), &mut r, &router_authority(), 101, NOW + 1), Err(MagicsError::SealCapBreached));
    assert_eq!(record_cast_spend(&config(), &mut r, &router_authority(), 100, NOW + 1), Ok(()));
    assert_eq!(record_cast_spend(&config(), &mut r, &router_authority(), 71, NOW + 1), Err(MagicsError::SealCapBreached));
    assert_eq!(record_cast_spend(&config(), &mut r, &ROUTER, 1, NOW + 1), Err(MagicsError::NotRouter));
    assert_eq!(r.window_spent, 180);
    assert_eq!(record_cast_spend(&config(), &mut r, &router_authority(), 100, NOW + 86_400), Ok(()));
    assert_eq!(r.window_spent, 100);
    assert_eq!(r.window_start, NOW + 86_400);
}

#[test]
fn vault_call_data_layouts() {
    let d = verify_and_consume_data(&[1u8; 32], &[2u8; 32], -1, &[3u8; 32], 9);
    let disc = anchor_lang::solana_program::hash::hash(b"global:verify_and_consume").to_bytes();
    assert_eq!(&d[..8], &disc[..8]);
    assert_eq!(&d[8..40], &[1u8; 32]);
    assert_eq!(&d[40..72], &[2u8; 32]);
    assert_eq!(&d[72..80], &[0xffu8; 8]);
    assert_eq!(&d[80..112], &[3u8; 32]);
    assert_eq!(&d[112..], &9u64.to_le_bytes());
    let s = record_cast_spend_data(&[1u8; 32], 7);
    let disc = anchor_lang::solana_program::hash::hash(b"global:record_cast_spend").to_bytes();
    assert_eq!(&s[..8], &disc[..8]);
    assert_eq!(&s[8..40], &[1u8; 32]);
    assert_eq!(&s[40..], &7u64.to_le_bytes());
}

#[test]
fn window_end_near_the_largest_time_does_not_overflow() {
    let deadline = i64::MAX;
    let mut r = minted();
    r.seal.expiry = i64::MAX;
    r.window_start = i64::MAX - 10;
    let now = i64::MAX - 5;
    assert_eq!(consume(&mut r, &signed(0, deadline), 10, deadline, now), Ok(0));
    assert_eq!(r.window_start, i64::MAX - 10);
    assert_eq!(r.window_spent, 10);
}

#[test]
fn kill_switch_twice_revokes_nothing_more() {
    let mut records = vec![Some(minted()), Some(minted())];
    assert_eq!(revoke_all(&OWNER, &mut records).count, 2);
    assert_eq!(revoke_all(&OWNER, &mut records).count, 0);
    assert!(records.iter().all(|r| r.as_ref().unwrap().revoked));
}

#[test]
fn a_cast_moves_at_most_what_its_seal_allows() {
    let deadline = NOW + 100;
    let mut r = minted();
    r.window_spent = 200;
    let agent = Agent {
        id: [20u8; 32],
        owner: OWNER,
        strategy: [50u8; 32],
        seal: r.seal_id,
        created_at: 0,
        updated_at: 0,
        status: Status::Active,
        name: String::from("a"),
        bump: 0,
    };
    let plan = begin_cast(&agent, &[50u8; 32], &[20u8; 32], deadline, b"p", NOW).unwrap();
    assert_eq!(consume(&mut r, &signed(0, deadline), 0, deadline, NOW), Ok(0));
    let mut slot = None;
    open_active_cast(&mut slot, &[20u8; 32], &[50u8; 32], 1).unwrap();
    let authority = slot.unwrap().strategy_authority;
    assert_eq!(cast_budget(&r, NOW), 50);
    let mut b = Balance { agent_id: [20u8; 32], mint: [60u8; 32], amount: 1_000, bump: 0 };
    assert_eq!(pull(&mut slot, &authority, &mut b, &[20u8; 32], 1_000), Ok(()));
    let close = finish_cast(&mut slot, &[20u8; 32], &plan, 0, 10, 10).unwrap();
    assert_eq!(close.spent, 1_000);
    let spent_before = r.window_spent;
    let nonce_before = r.nonce;
    assert_eq!(record_cast_spend(&config(), &mut r, &router_authority(), close.spent, NOW), Err(MagicsError::SealCapBreached));
    assert_eq!(r.window_spent, spent_before);
    assert_eq!(r.nonce, nonce_before);
    // The refused charge reverts the whole cast, the draw included.
    let mut b = Balance { agent_id: [20u8; 32], mint: [60u8; 32], amount: 1_000, bump: 0 };
    let mut slot = None;
    open_active_cast(&mut slot, &[20u8; 32], &[50u8; 32], 1).unwrap();
    assert_eq!(pull(&mut slot, &authority, &mut b, &[20u8; 32], 50), Ok(()));
    let close = finish_cast(&mut slot, &[20u8; 32], &plan, 0, 10, 10).unwrap();
    assert_eq!(close.spent, 50);
    assert_eq!(record_cast_spend(&config(), &mut r, &router_authority(), close.spent, NOW), Ok(()));
    assert_eq!(r.window_spent, 250);
    assert_eq!(r.window_spent, r.seal.daily_cap);
}
