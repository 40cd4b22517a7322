use anchor_lang::prelude::Pubkey;
use magics::domain::{data_hash, SEAL_VAULT_ID};
use magics::error::MagicsError;
use magics::registry::{Agent, Status};
use magics::router::{
    begin_cast, decode_active_cast, deposit, encode_active_cast, execute_instruction_data, finish_cast, gate,
    open_active_cast, pull, push, returned_nonce, withdraw, ActiveCast, Balance, ACTIVE_CAST_SPACE,
    STRATEGY_AUTH_SEED,
};
use magics::vault::{discriminator, verify_and_consume_data};

const OWNER: [u8; 32] = [1u8; 32];
const AGENT: [u8; 32] = [2u8; 32];
const MINT: [u8; 32] = [3u8; 32];
const STRATEGY: [u8; 32] = [4u8; 32];

fn blank_balance() -> Balance {
    Balance { agent_id: [0u8; 32], mint: [0u8; 32], amount: 0, bump: 0 }
}

fn active() -> ActiveCast {
    ActiveCast { agent_id: AGENT, strategy: STRATEGY, strategy_authority: [5u8; 32], spent: 0, bump: 1 }
}

fn agent(status: Status) -> Agent {
    Agent {
        id: AGENT,
        owner: OWNER,
        strategy: STRATEGY,
        seal: [6u8; 32],
        created_at: 0,
        updated_at: 0,
        status,
        name: String::from("a"),
        bump: 0,
    }
}

#[test]
fn strategy_seed_spells_its_seed() {
    assert_eq!(&STRATEGY_AUTH_SEED, b"strategy");
}

#[test]
fn deposit_initialises_and_credits() {
    let mut b = blank_balance();
    let ev = deposit(&OWNER, &OWNER, &mut b, &AGENT, &MINT, 40, 9).unwrap();
    assert_eq!(b.amount, 40);
    assert_eq!(b.agent_id, AGENT);
    assert_eq!(b.mint, MINT);
    assert_eq!(b.bump, 9);
    assert_eq!(ev.amount, 40);
    deposit(&OWNER, &OWNER, &mut b, &AGENT, &MINT, 2, 1).unwrap();
    assert_eq!(b.amount, 42);
    assert_eq!(b.bump, 9);
}

#[test]
fn deposit_errors() {
    let mut b = blank_balance();
    assert_eq!(deposit(&OWNER, &[9u8; 32], &mut b, &AGENT, &MINT, 1, 0).err(), Some(MagicsError::NotOwner));
    assert_eq!(deposit(&OWNER, &OWNER, &mut b, &AGENT, &MINT, 0, 0).err(), Some(MagicsError::AmountZero));
    b.amount = u64::MAX;
    assert_eq!(deposit(&OWNER, &OWNER, &mut b, &AGENT, &MINT, 1, 0).err(), Some(MagicsError::NumericalOverflow));
    assert_eq!(b.amount, u64::MAX);
}

#[test]
fn deposit_then_withdraw_restores_the_balance() {
    let mut b = blank_balance();
    deposit(&OWNER, &OWNER, &mut b, &AGENT, &MINT, 15, 0).unwrap();
    deposit(&OWNER, &OWNER, &mut b, &AGENT, &MINT, 25, 0).unwrap();
    let ev = withdraw(&OWNER, &OWNER, &mut b, &MINT, 25).unwrap();
    assert_eq!(b.amount, 15);
    assert_eq!(ev.agent_id, AGENT);
    assert_eq!(ev.amount, 25);
}

#[test]
fn withdraw_errors() {
    let mut b = blank_balance();
    deposit(&OWNER, &OWNER, &mut b, &AGENT, &MINT, 10, 0).unwrap();
    assert_eq!(withdraw(&OWNER, &[9u8; 32], &mut b, &MINT, 1).err(), Some(MagicsError::NotOwner));
    assert_eq!(withdraw(&OWNER, &OWNER, &mut b, &MINT, 0).err(), Some(MagicsError::AmountZero));
    assert_eq!(withdraw(&OWNER, &OWNER, &mut b, &MINT, 11).err(), Some(MagicsError::InsufficientBalance));
    assert!(withdraw(&OWNER, &OWNER, &mut b, &MINT, 10).is_ok());
    assert_eq!(b.amount, 0);
}

#[test]
fn gate_checks_agent_then_strategy() {
    assert_eq!(gate(&active(), &AGENT, &[5u8; 32]), Ok(()));
    assert_eq!(gate(&active(), &[9u8; 32], &[5u8; 32]), Err(MagicsError::CastContextMismatch));
    assert_eq!(gate(&active(), &AGENT, &[9u8; 32]), Err(MagicsError::NotStrategy));
    assert_eq!(gate(&active(), &[9u8; 32], &[9u8; 32]), Err(MagicsError::CastContextMismatch));
}

#[test]
fn pull_then_push_restores_the_balance() {
    let mut slot = Some(active());
    let mut b = Balance { agent_id: AGENT, mint: MINT, amount: 100, bump: 3 };
    pull(&mut slot, &[5u8; 32], &mut b, &AGENT, 30).unwrap();
    assert_eq!(b.amount, 70);
    assert_eq!(slot.unwrap().spent, 30);
    push(&slot, &[5u8; 32], &mut b, &AGENT, 30).unwrap();
    assert_eq!(b.amount, 100);
    assert_eq!(slot.unwrap().spent, 30);
}

#[test]
fn budget_calls_errors() {
    let mut slot = Some(active());
    let mut b = Balance { agent_id: AGENT, mint: MINT, amount: 10, bump: 3 };
    assert_eq!(pull(&mut slot, &[9u8; 32], &mut b, &AGENT, 1), Err(MagicsError::NotStrategy));
    assert_eq!(pull(&mut slot, &[5u8; 32], &mut b, &[8u8; 32], 1), Err(MagicsError::CastContextMismatch));
    assert_eq!(pull(&mut slot, &[5u8; 32], &mut b, &AGENT, 0), Err(MagicsError::AmountZero));
    assert_eq!(pull(&mut slot, &[5u8; 32], &mut b, &AGENT, 11), Err(MagicsError::InsufficientBalance));
    assert_eq!(push(&slot, &[9u8; 32], &mut b, &AGENT, 1), Err(MagicsError::NotStrategy));
    assert_eq!(push(&slot, &[5u8; 32], &mut b, &AGENT, 0), Err(MagicsError::AmountZero));
    b.amount = u64::MAX;
    assert_eq!(push(&slot, &[5u8; 32], &mut b, &AGENT, 1), Err(MagicsError::NumericalOverflow));
    assert_eq!(b.amount, u64::MAX);
    assert_eq!(slot.unwrap().spent, 0);
}

#[test]
fn budget_is_shut_without_an_open_cast() {
    let mut slot: Option<ActiveCast> = None;
    let mut b = Balance { agent_id: AGENT, mint: MINT, amount: 10, bump: 3 };
    assert_eq!(pull(&mut slot, &[5u8; 32], &mut b, &AGENT, 1), Err(MagicsError::NoActiveCast));
    assert_eq!(push(&slot, &[5u8; 32], &mut b, &AGENT, 1), Err(MagicsError::NoActiveCast));
    assert_eq!(b.amount, 10);
}

#[test]
fn pulls_count_what_the_strategy_draws() {
    let mut slot = None;
    open_active_cast(&mut slot, &AGENT, &STRATEGY, 4).unwrap();
    let authority = slot.unwrap().strategy_authority;
    let mut b = Balance { agent_id: AGENT, mint: MINT, amount: 1_000, bump: 3 };
    assert_eq!(pull(&mut slot, &authority, &mut b, &AGENT, 1_001), Err(MagicsError::InsufficientBalance));
    assert_eq!(pull(&mut slot, &authority, &mut b, &AGENT, 0), Err(MagicsError::AmountZero));
    assert_eq!(pull(&mut slot, &authority, &mut b, &AGENT, 30), Ok(()));
    assert_eq!(pull(&mut slot, &authority, &mut b, &AGENT, 970), Ok(()));
    assert_eq!(b.amount, 0);
    assert_eq!(slot.unwrap().spent, 1_000);
    assert_eq!(push(&slot, &authority, &mut b, &AGENT, 100), Ok(()));
    assert_eq!(slot.unwrap().spent, 1_000);
}

#[test]
fn pull_order_is_gate_then_amount_then_balance() {
    let mut slot = Some(active());
    let mut b = Balance { agent_id: AGENT, mint: MINT, amount: 10, bump: 3 };
    assert_eq!(pull(&mut slot, &[5u8; 32], &mut b, &[9u8; 32], 0), Err(MagicsError::CastContextMismatch));
    assert_eq!(pull(&mut slot, &[9u8; 32], &mut b, &AGENT, 0), Err(MagicsError::NotStrategy));
    assert_eq!(pull(&mut slot, &[5u8; 32], &mut b, &AGENT, 0), Err(MagicsError::AmountZero));
    assert_eq!(pull(&mut slot, &[5u8; 32], &mut b, &AGENT, 11), Err(MagicsError::InsufficientBalance));
    assert_eq!(b.amount, 10);
    assert_eq!(slot.unwrap().spent, 0);
}

#[test]
fn drawn_total_saturates() {
    let mut slot = Some(ActiveCast { spent: u64::MAX - 1, ..active() });
    let mut b = Balance { agent_id: AGENT, mint: MINT, amount: 10, bump: 3 };
    assert_eq!(pull(&mut slot, &[5u8; 32], &mut b, &AGENT, 5), Ok(()));
    assert_eq!(slot.unwrap().spent, u64::MAX);
    assert_eq!(b.amount, 5);
}

#[test]
fn a_second_context_cannot_open() {
    let mut slot = None;
    open_active_cast(&mut slot, &AGENT, &STRATEGY, 4).unwrap();
    assert_eq!(open_active_cast(&mut slot, &AGENT, &[9u8; 32], 5), Err(MagicsError::AlreadyInitialised));
    assert_eq!(slot.unwrap().strategy, STRATEGY);
}

#[test]
fn active_cast_account_round_trips() {
    let a = ActiveCast { spent: 0x0102_0304_0506_0708, ..active() };
    let d = encode_active_cast(&a);
    assert_eq!(d.len(), ACTIVE_CAST_SPACE);
    assert_eq!(&d[..8], &discriminator(b"account:ActiveCast"));
    assert_eq!(&d[8..40], &AGENT);
    assert_eq!(&d[104..112], &0x0102_0304_0506_0708u64.to_le_bytes());
    assert_eq!(d[112], 1);
    assert_eq!(&d[113..], &[0u8; 7]);
    let b = decode_active_cast(&d).unwrap();
    assert_eq!(b.agent_id, a.agent_id);
    assert_eq!(b.strategy, a.strategy);
    assert_eq!(b.strategy_authority, a.strategy_authority);
    assert_eq!(b.spent, a.spent);
    assert_eq!(b.bump, a.bump);
    assert!(decode_active_cast(&d[..119]).is_none());
    let mut other = d.clone();
    other[0] ^= 1;
    assert!(decode_active_cast(&other).is_none());
    assert!(decode_active_cast(&[0u8; 120]).is_none());
}

#[test]
fn begin_cast_checks_agent_strategy_and_deadline() {
    let plan = begin_cast(&agent(Status::Active), &STRATEGY, &AGENT, 10, b"payload", 10).unwrap();
    assert_eq!(plan.seal_id, [6u8; 32]);
    assert_eq!(plan.owner, OWNER);
    assert_eq!(plan.strategy, STRATEGY);
    assert_eq!(plan.data_hash, data_hash(b"payload"));
    assert_eq!(plan.verify_data, verify_and_consume_data(&[6u8; 32], &AGENT, 10, &data_hash(b"payload"), 0));
    assert_eq!(begin_cast(&agent(Status::Paused), &STRATEGY, &AGENT, 10, b"", 0).err(), Some(MagicsError::AgentNotActive));
    assert_eq!(begin_cast(&agent(Status::Halted), &STRATEGY, &AGENT, 10, b"", 0).err(), Some(MagicsError::AgentNotActive));
    assert_eq!(begin_cast(&agent(Status::Active), &[9u8; 32], &AGENT, 10, b"", 0).err(), Some(MagicsError::NotStrategy));
    assert_eq!(begin_cast(&agent(Status::Active), &STRATEGY, &AGENT, 9, b"", 10).err(), Some(MagicsError::CastDeadlinePassed));
}

#[test]
fn returned_nonce_reads_vault_return_data() {
    let mut bytes = 77u64.to_le_bytes().to_vec();
    bytes.push(1);
    assert_eq!(returned_nonce(&Some((SEAL_VAULT_ID, bytes.clone()))), 77);
    assert_eq!(returned_nonce(&Some(([1u8; 32], bytes))), 0);
    assert_eq!(returned_nonce(&Some((SEAL_VAULT_ID, vec![1, 2, 3]))), 0);
    assert_eq!(returned_nonce(&None), 0);
}

#[test]
fn active_cast_names_the_strategy_authority() {
    let mut slot = None;
    open_active_cast(&mut slot, &AGENT, &STRATEGY, 4).unwrap();
    let a = slot.unwrap();
    let expected = Pubkey::find_program_address(&[b"strategy"], &Pubkey::new_from_array(STRATEGY)).0.to_bytes();
    assert_eq!(a.strategy_authority, expected);
    assert_ne!(a.strategy_authority, STRATEGY);
    assert_eq!(a.agent_id, AGENT);
    assert_eq!(a.bump, 4);
    assert_eq!(a.spent, 0);
}

#[test]
fn execute_data_is_discriminator_then_borsh_args() {
    let d = execute_instruction_data(&AGENT, &OWNER, &[0x01, 0x02]).unwrap();
    assert_eq!(&d[..8], &[0x82, 0xdd, 0xf2, 0x9a, 0x0d, 0xc1, 0xbd, 0x1d]);
    assert_eq!(&d[8..40], &AGENT);
    assert_eq!(&d[40..72], &OWNER);
    assert_eq!(&d[72..76], &[2, 0, 0, 0]);
    assert_eq!(&d[76..], &[0x01, 0x02]);
    assert_eq!(d.len(), 78);
}

#[test]
fn finish_cast_closes_the_context_and_refunds_the_caster() {
    let plan = begin_cast(&agent(Status::Active), &STRATEGY, &AGENT, 10, b"x", 0).unwrap();
    let mut slot = Some(ActiveCast { spent: 12, ..active() });
    let c = finish_cast(&mut slot, &AGENT, &plan, 5, 1_000, 2_000).unwrap();
    assert!(slot.is_none());
    assert_eq!(c.caster_lamports, 3_000);
    assert_eq!(c.spent, 12);
    assert_eq!(c.record_spend_data, magics::vault::record_cast_spend_data(&[6u8; 32], 12));
    assert_eq!(c.event.nonce, 5);
    assert_eq!(c.event.seal, [6u8; 32]);
    assert_eq!(c.event.data_hash, data_hash(b"x"));
    let mut b = Balance { agent_id: AGENT, mint: MINT, amount: 10, bump: 3 };
    assert_eq!(pull(&mut slot, &[5u8; 32], &mut b, &AGENT, 1), Err(MagicsError::NoActiveCast));
    assert_eq!(finish_cast(&mut slot, &AGENT, &plan, 5, 1, 1).err(), Some(MagicsError::NoActiveCast));
    let mut slot = Some(active());
    assert_eq!(finish_cast(&mut slot, &AGENT, &plan, 5, 1, u64::MAX).err(), Some(MagicsError::NumericalOverflow));
    assert!(slot.is_some());
}
