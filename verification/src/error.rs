//! The error catalogue every magics program reverts with.

use vstd::prelude::*;

verus! {

/// Centralised error catalogue. Codes are numbered from 6000 upward in
/// declaration order (see [`MagicsError::code`]); the catalogue is append
/// only, so that a decoder sees one stable surface.
#[derive(Debug, Clone, Copy, PartialEq, Eq, Structural)]
pub enum MagicsError {
    /// caller is not the owner
    NotOwner,
    /// caller is not the seal vault
    NotSealVault,
    /// caller is not the router
    NotRouter,
    /// caller is not the active strategy
    NotStrategy,
    /// seal does not exist
    SealUnknown,
    /// supplied seal id does not match its parameters
    SealIdMismatch,
    /// seal has expired
    SealExpired,
    /// seal is revoked
    SealRevoked,
    /// revoke reason exceeds the maximum length
    ReasonTooLong,
    /// seal value or daily cap breached
    SealCapBreached,
    /// seal does not permit this target
    SealTargetMismatch,
    /// cast nonce replays a consumed nonce
    SealNonceReplay,
    /// cast signature does not verify against the seal signer
    SealSignatureInvalid,
    /// agent does not exist
    AgentUnknown,
    /// agent is not active
    AgentNotActive,
    /// agent name is empty
    AgentNameEmpty,
    /// agent name exceeds the maximum length
    AgentNameTooLong,
    /// cast deadline has passed
    CastDeadlinePassed,
    /// no cast is active
    NoActiveCast,
    /// active-cast context does not match this agent or strategy
    CastContextMismatch,
    /// strategy execution failed
    StrategyCallFailed,
    /// token mint does not match
    MintMismatch,
    /// amount must be non-zero
    AmountZero,
    /// insufficient agent balance
    InsufficientBalance,
    /// expected an Ed25519 verification instruction was not found
    MissingEd25519Instruction,
    /// Ed25519 instruction is malformed
    MalformedEd25519Instruction,
    /// unexpected zero address
    ZeroAddress,
    /// account already initialised
    AlreadyInitialised,
    /// numerical overflow
    NumericalOverflow,
    /// supplied agent id does not match the derived id
    AgentIdMismatch,
}

/// Position of a variant in the catalogue, counting from zero.
pub open spec fn error_index(e: MagicsError) -> nat {
    match e {
        MagicsError::NotOwner => 0,
        MagicsError::NotSealVault => 1,
        MagicsError::NotRouter => 2,
        MagicsError::NotStrategy => 3,
        MagicsError::SealUnknown => 4,
        MagicsError::SealIdMismatch => 5,
        MagicsError::SealExpired => 6,
        MagicsError::SealRevoked => 7,
        MagicsError::ReasonTooLong => 8,
        MagicsError::SealCapBreached => 9,
        MagicsError::SealTargetMismatch => 10,
        MagicsError::SealNonceReplay => 11,
        MagicsError::SealSignatureInvalid => 12,
        MagicsError::AgentUnknown => 13,
        MagicsError::AgentNotActive => 14,
        MagicsError::AgentNameEmpty => 15,
        MagicsError::AgentNameTooLong => 16,
        MagicsError::CastDeadlinePassed => 17,
        MagicsError::NoActiveCast => 18,
        MagicsError::CastContextMismatch => 19,
        MagicsError::StrategyCallFailed => 20,
        MagicsError::MintMismatch => 21,
        MagicsError::AmountZero => 22,
        MagicsError::InsufficientBalance => 23,
        MagicsError::MissingEd25519Instruction => 24,
        MagicsError::MalformedEd25519Instruction => 25,
        MagicsError::ZeroAddress => 26,
        MagicsError::AlreadyInitialised => 27,
        MagicsError::NumericalOverflow => 28,
        MagicsError::AgentIdMismatch => 29,
    }
}

impl MagicsError {
    /// The numeric error code on the wire: 6000 plus the variant's position.
    pub fn code(&self) -> (c: u32)
        ensures
            c == 6000 + error_index(*self),
    {
        match self {
            MagicsError::NotOwner => 6000,
            MagicsError::NotSealVault => 6001,
            MagicsError::NotRouter => 6002,
            MagicsError::NotStrategy => 6003,
            MagicsError::SealUnknown => 6004,
            MagicsError::SealIdMismatch => 6005,
            MagicsError::SealExpired => 6006,
            MagicsError::SealRevoked => 6007,
            MagicsError::ReasonTooLong => 6008,
            MagicsError::SealCapBreached => 6009,
            MagicsError::SealTargetMismatch => 6010,
            MagicsError::SealNonceReplay => 6011,
            MagicsError::SealSignatureInvalid => 6012,
            MagicsError::AgentUnknown => 6013,
            MagicsError::AgentNotActive => 6014,
            MagicsError::AgentNameEmpty => 6015,
            MagicsError::AgentNameTooLong => 6016,
            MagicsError::CastDeadlinePassed => 6017,
            MagicsError::NoActiveCast => 6018,
            MagicsError::CastContextMismatch => 6019,
            MagicsError::StrategyCallFailed => 6020,
            MagicsError::MintMismatch => 6021,
            MagicsError::AmountZero => 6022,
            MagicsError::InsufficientBalance => 6023,
            MagicsError::MissingEd25519Instruction => 6024,
            MagicsError::MalformedEd25519Instruction => 6025,
            MagicsError::ZeroAddress => 6026,
            MagicsError::AlreadyInitialised => 6027,
            MagicsError::NumericalOverflow => 6028,
            MagicsError::AgentIdMismatch => 6029,
        }
    }
}

/// Distinct variants carry distinct codes: no two errors decode alike.
pub proof fn lemma_error_codes_distinct(a: MagicsError, b: MagicsError)
    requires
        a != b,
    ensures
        error_index(a) != error_index(b),
{
}

} // verus!
