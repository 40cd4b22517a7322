//! The reference strategy's decisions: compound idle balance into the yield
//! vault, or harvest shares back into the agent's router balance.

use vstd::prelude::*;
use vstd::bytes::{lemma_auto_spec_u64_to_from_le_bytes, spec_u64_from_le_bytes, spec_u64_to_le_bytes, u64_from_le_bytes};
use crate::bytes::{is_default_key, zero_key};
use crate::mock_yield::{redeem, redeem_assets_spec, Vault};

verus! {

/// Op byte: pull idle asset from the router and deposit it for shares.
pub const OP_COMPOUND: u8 = 0x01;

/// Op byte: redeem shares and push the proceeds back to the router.
pub const OP_HARVEST: u8 = 0x02;

/// Errors the strategy reverts with.
#[derive(Debug, Clone, Copy, PartialEq, Eq, Structural)]
pub enum StrategyError {
    /// unknown strategy op
    UnknownOp,
    /// nothing to compound
    NothingToCompound,
    /// nothing to harvest
    NothingToHarvest,
    /// numerical overflow
    Overflow,
}

impl StrategyError {
    /// The numeric error code on the wire: 6000 plus the variant's position.
    pub fn code(&self) -> (c: u32)
        ensures
            c == match *self {
                StrategyError::UnknownOp => 6000u32,
                StrategyError::NothingToCompound => 6001u32,
                StrategyError::NothingToHarvest => 6002u32,
                StrategyError::Overflow => 6003u32,
            },
    {
        match self {
            StrategyError::UnknownOp => 6000,
            StrategyError::NothingToCompound => 6001,
            StrategyError::NothingToHarvest => 6002,
            StrategyError::Overflow => 6003,
        }
    }
}

/// The shares one agent holds in the yield vault through this strategy.
#[derive(Clone, Copy, Debug)]
pub struct Position {
    pub agent_id: [u8; 32],
    pub shares: u64,
    pub bump: u8,
}

/// What one `execute` call does once decided.
#[derive(Clone, Copy, Debug, PartialEq, Eq, Structural)]
pub enum StrategyAction {
    /// Pull `spent` from the router balance and deposit it for shares.
    Compound { spent: u64 },
    /// Redeem `burn` shares and push the `proceeds` they redeem for back to
    /// the router.
    Harvest { burn: u64, proceeds: u64 },
}

/// The amount a payload requests: the little-endian `u64` after the op
/// byte when at least nine bytes are present, otherwise zero ("all").
pub open spec fn requested_amount(data: Seq<u8>) -> u64 {
    if data.len() >= 9 { spec_u64_from_le_bytes(data.subrange(1, 9)) } else { 0 }
}

/// How much a compound spends: everything available when the request is
/// zero, otherwise the request; it must be positive and covered.
pub open spec fn compound_spec(requested: u64, available: u64) -> Result<u64, StrategyError> {
    let spent = if requested == 0 { available } else { requested };
    if spent > 0 && spent <= available { Ok(spent) } else { Err(StrategyError::NothingToCompound) }
}

/// How many shares a harvest burns: all held when the request is zero,
/// otherwise the request; it must be positive and held.
pub open spec fn harvest_spec(requested: u64, have: u64) -> Result<u64, StrategyError> {
    let burn = if requested == 0 { have } else { requested };
    if burn > 0 && burn <= have { Ok(burn) } else { Err(StrategyError::NothingToHarvest) }
}

/// What `execute` decides for a payload, given the agent's router balance,
/// the position's shares, and the yield vault's configured yield. A harvest
/// whose redemption would not fit in a `u64` is refused as an overflow.
pub open spec fn plan_spec(data: Seq<u8>, available: u64, shares: u64, yield_bps: u16) -> Result<StrategyAction, StrategyError> {
    if data.len() == 0 {
        Err(StrategyError::UnknownOp)
    } else if data[0] == OP_COMPOUND {
        match compound_spec(requested_amount(data), available) {
            Ok(spent) => Ok(StrategyAction::Compound { spent }),
            Err(e) => Err(e),
        }
    } else if data[0] == OP_HARVEST {
        match harvest_spec(requested_amount(data), shares) {
            Ok(burn) => if redeem_assets_spec(burn, yield_bps) > u64::MAX {
                Err(StrategyError::Overflow)
            } else {
                Ok(StrategyAction::Harvest { burn, proceeds: redeem_assets_spec(burn, yield_bps) as u64 })
            },
            Err(e) => Err(e),
        }
    } else {
        Err(StrategyError::UnknownOp)
    }
}

/// Decides the spend of a compound (see [`compound_spec`]).
pub fn compound_amount(requested: u64, available: u64) -> (r: Result<u64, StrategyError>)
    ensures
        r == compound_spec(requested, available),
{
    let spent = if requested == 0 { available } else { requested };
    if spent > 0 && spent <= available {
        Ok(spent)
    } else {
        Err(StrategyError::NothingToCompound)
    }
}

/// Decides the burn of a harvest (see [`harvest_spec`]).
pub fn harvest_amount(requested: u64, have: u64) -> (r: Result<u64, StrategyError>)
    ensures
        r == harvest_spec(requested, have),
{
    let burn = if requested == 0 { have } else { requested };
    if burn > 0 && burn <= have {
        Ok(burn)
    } else {
        Err(StrategyError::NothingToHarvest)
    }
}

/// Decides one `execute` call. `data` is the op byte optionally followed by
/// a little-endian `u64` amount (missing or zero meaning "all available");
/// `available` is the agent's router balance and `yield_vault` the vault
/// the strategy compounds into. A blank position (zero agent
/// id) is seeded with the agent and bump when the call goes ahead; nothing
/// else about the position changes here.
pub fn execute(
    position: &mut Position,
    agent_id: &[u8; 32],
    position_bump: u8,
    data: &[u8],
    available: u64,
    yield_vault: &Vault,
) -> (r: Result<StrategyAction, StrategyError>)
    ensures
        r == plan_spec(data@, available, old(position).shares, yield_vault.yield_bps),
        r is Err ==> *final(position) == *old(position),
        r is Ok ==> final(position).shares == old(position).shares,
        r is Ok && old(position).agent_id@ == zero_key() ==> final(position).agent_id == *agent_id
            && final(position).bump == position_bump,
        r is Ok && old(position).agent_id@ != zero_key() ==> *final(position) == *old(position),
{
    if data.len() == 0 {
        return Err(StrategyError::UnknownOp);
    }
    let op = data[0];
    let requested = if data.len() >= 9 { u64_from_le_bytes(&data[1..9]) } else { 0 };
    let action = if op == OP_COMPOUND {
        match compound_amount(requested, available) {
            Ok(spent) => StrategyAction::Compound { spent },
            Err(e) => {
                return Err(e);
            },
        }
    } else if op == OP_HARVEST {
        match harvest_amount(requested, position.shares) {
            Ok(burn) => match redeem(yield_vault, burn) {
                Some(proceeds) => StrategyAction::Harvest { burn, proceeds },
                None => {
                    return Err(StrategyError::Overflow);
                },
            },
            Err(e) => {
                return Err(e);
            },
        }
    } else {
        return Err(StrategyError::UnknownOp);
    };
    if is_default_key(&position.agent_id) {
        position.agent_id = *agent_id;
        position.bump = position_bump;
    }
    Ok(action)
}

/// Banks the shares minted by a compound of `spent` (minted one-for-one).
pub fn settle_compound(position: &mut Position, spent: u64) -> (r: Result<(), StrategyError>)
    ensures
        old(position).shares + spent > u64::MAX ==> r == Err::<(), StrategyError>(StrategyError::Overflow)
            && *final(position) == *old(position),
        old(position).shares + spent <= u64::MAX ==> r is Ok
            && final(position).shares == old(position).shares + spent
            && final(position).agent_id == old(position).agent_id && final(position).bump == old(position).bump,
{
    match position.shares.checked_add(spent) {
        Some(s) => {
            position.shares = s;
            Ok(())
        },
        None => Err(StrategyError::Overflow),
    }
}

/// Removes the shares burned by a harvest.
pub fn settle_harvest(position: &mut Position, burn: u64)
    requires
        burn <= old(position).shares,
    ensures
        final(position).shares == old(position).shares - burn,
        final(position).agent_id == old(position).agent_id,
        final(position).bump == old(position).bump,
{
    position.shares = position.shares - burn;
}

/// A compound never spends more than the agent's balance, and a harvest
/// never burns more shares than the position holds and pushes back exactly
/// what those shares redeem for.
pub proof fn lemma_plan_within_means(data: Seq<u8>, available: u64, shares: u64, yield_bps: u16)
    ensures
        plan_spec(data, available, shares, yield_bps) matches Ok(StrategyAction::Compound { spent }) ==> 0 < spent <= available,
        plan_spec(data, available, shares, yield_bps) matches Ok(StrategyAction::Harvest { burn, proceeds })
            ==> 0 < burn <= shares && proceeds == redeem_assets_spec(burn, yield_bps),
{
}

/// A harvest burns exactly what it is asked to: a positive request up to
/// the shares held burns that many, a zero request burns every share held,
/// and it is refused only when that burn would be zero or exceed the shares
/// held.
pub proof fn lemma_harvest_burns_the_request(requested: u64, have: u64)
    ensures
        0 < requested <= have ==> harvest_spec(requested, have) == Ok::<u64, StrategyError>(requested),
        requested == 0 && have > 0 ==> harvest_spec(requested, have) == Ok::<u64, StrategyError>(have),
        requested > have ==> harvest_spec(requested, have) == Err::<u64, StrategyError>(StrategyError::NothingToHarvest),
        requested == 0 && have == 0 ==> harvest_spec(requested, have) == Err::<u64, StrategyError>(StrategyError::NothingToHarvest),
{
}

/// A compound spends exactly what it is asked to: a positive request up to
/// the balance spends that much, a zero request spends the whole balance,
/// and it is refused only when that spend would be zero or exceed the
/// balance.
pub proof fn lemma_compound_spends_the_request(requested: u64, available: u64)
    ensures
        0 < requested <= available ==> compound_spec(requested, available) == Ok::<u64, StrategyError>(requested),
        requested == 0 && available > 0 ==> compound_spec(requested, available) == Ok::<u64, StrategyError>(available),
        requested > available ==> compound_spec(requested, available) == Err::<u64, StrategyError>(StrategyError::NothingToCompound),
        requested == 0 && available == 0 ==> compound_spec(requested, available) == Err::<u64, StrategyError>(StrategyError::NothingToCompound),
{
}

/// `execute` does what its payload says. A payload of the op byte and a
/// little-endian amount compounds that amount when the balance covers it,
/// and harvests that many shares when the position holds them (and what
/// they redeem for fits a `u64`), pushing back exactly their redemption; a
/// payload of the op byte alone does the same with everything available.
pub proof fn lemma_execute_follows_the_payload(op: u8, amount: u64, available: u64, shares: u64, yield_bps: u16)
    ensures
        op == OP_COMPOUND && 0 < amount <= available ==> plan_spec(seq![op] + spec_u64_to_le_bytes(amount), available, shares, yield_bps)
            == Ok::<StrategyAction, StrategyError>(StrategyAction::Compound { spent: amount }),
        op == OP_HARVEST && 0 < amount <= shares && redeem_assets_spec(amount, yield_bps) <= u64::MAX
            ==> plan_spec(seq![op] + spec_u64_to_le_bytes(amount), available, shares, yield_bps)
                == Ok::<StrategyAction, StrategyError>(StrategyAction::Harvest {
                    burn: amount,
                    proceeds: redeem_assets_spec(amount, yield_bps) as u64,
                }),
        op == OP_COMPOUND && available > 0 ==> plan_spec(seq![op], available, shares, yield_bps)
            == Ok::<StrategyAction, StrategyError>(StrategyAction::Compound { spent: available }),
        op == OP_HARVEST && shares > 0 && redeem_assets_spec(shares, yield_bps) <= u64::MAX
            ==> plan_spec(seq![op], available, shares, yield_bps)
                == Ok::<StrategyAction, StrategyError>(StrategyAction::Harvest {
                    burn: shares,
                    proceeds: redeem_assets_spec(shares, yield_bps) as u64,
                }),
        op != OP_COMPOUND && op != OP_HARVEST ==> plan_spec(seq![op] + spec_u64_to_le_bytes(amount), available, shares, yield_bps)
            == Err::<StrategyAction, StrategyError>(StrategyError::UnknownOp),
{
    lemma_auto_spec_u64_to_from_le_bytes();
    let d = seq![op] + spec_u64_to_le_bytes(amount);
    assert(d.subrange(1, 9) =~= spec_u64_to_le_bytes(amount));
    assert(d[0] == op);
    assert(requested_amount(d) == amount);
    assert(requested_amount(seq![op]) == 0);
}

} // verus!
