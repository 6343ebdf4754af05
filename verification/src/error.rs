//! The reasons for which a command is rejected, and their numeric codes.

use vstd::prelude::*;

verus! {

/// Why a command was rejected. A rejected command changes nothing.
#[derive(Clone, Copy, Debug, PartialEq, Eq, Structural)]
pub enum TradeError {
    /// The command bytes are empty, carry an unknown discriminant, or hold a
    /// payload that does not decode.
    InvalidInstruction,
    /// The user record is not the caller's.
    InvalidUserAccount,
    /// The address supplied for the contract is not the one derived from the
    /// caller and the slug.
    InvalidContractAddress,
    /// A field of the command holds a code that names nothing.
    InvalidTradeData,
    /// The size code is not in the size table.
    InvalidContractSize,
    /// The duration code is not in the duration table.
    InvalidDuration,
    /// The contract has already been matched.
    AlreadyMatched,
    /// The contract is not matched, so it cannot be claimed.
    NotMatched,
    /// The deadline of the contract has not been reached.
    ClaimTooEarly,
    /// The account to debit holds less than the amount.
    InsufficientFunds,
    /// The oracle's asset label is not the contract's symbol.
    OracleAssetMismatch,
    /// The oracle reported a price of zero.
    OracleDataUnavailable,
    /// The contract is not open, so it cannot be matched.
    InvalidStateForMatch,
    /// The contract has already been settled.
    AlreadySettled,
    /// The maker or taker named by the caller is not the one on record.
    PartyMismatch,
    /// No nonce gives a usable address for this caller and slug.
    AddressDerivationExhausted,
    /// The caller did not sign the command.
    MissingSignature,
    /// A record already exists at the contract address.
    AlreadyInitialized,
    /// The record would not fit in the storage of a contract.
    StorageExhausted,
}

impl TradeError {
    /// The code of each kind. Codes are assigned one by one and never
    /// reused: 12 belonged to a kind that no longer exists.
    pub open spec fn spec_code(self) -> u32 {
        match self {
            TradeError::InvalidInstruction => 0,
            TradeError::InvalidUserAccount => 1,
            TradeError::InvalidContractAddress => 2,
            TradeError::InvalidTradeData => 3,
            TradeError::InvalidContractSize => 4,
            TradeError::InvalidDuration => 5,
            TradeError::AlreadyMatched => 6,
            TradeError::NotMatched => 7,
            TradeError::ClaimTooEarly => 8,
            TradeError::InsufficientFunds => 9,
            TradeError::OracleAssetMismatch => 10,
            TradeError::OracleDataUnavailable => 11,
            TradeError::InvalidStateForMatch => 13,
            TradeError::AlreadySettled => 14,
            TradeError::PartyMismatch => 15,
            TradeError::AddressDerivationExhausted => 16,
            TradeError::MissingSignature => 17,
            TradeError::AlreadyInitialized => 18,
            TradeError::StorageExhausted => 19,
        }
    }

    /// The stable numeric code under which this kind is reported.
    #[verifier::when_used_as_spec(spec_code)]
    pub fn code(self) -> (c: u32)
        ensures
            c == self.spec_code(),
    {
        match self {
            TradeError::InvalidInstruction => 0,
            TradeError::InvalidUserAccount => 1,
            TradeError::InvalidContractAddress => 2,
            TradeError::InvalidTradeData => 3,
            TradeError::InvalidContractSize => 4,
            TradeError::InvalidDuration => 5,
            TradeError::AlreadyMatched => 6,
            TradeError::NotMatched => 7,
            TradeError::ClaimTooEarly => 8,
            TradeError::InsufficientFunds => 9,
            TradeError::OracleAssetMismatch => 10,
            TradeError::OracleDataUnavailable => 11,
            TradeError::InvalidStateForMatch => 13,
            TradeError::AlreadySettled => 14,
            TradeError::PartyMismatch => 15,
            TradeError::AddressDerivationExhausted => 16,
            TradeError::MissingSignature => 17,
            TradeError::AlreadyInitialized => 18,
            TradeError::StorageExhausted => 19,
        }
    }

    /// The kind that a code stands for, if any.
    pub fn from_code(code: u32) -> (r: Option<TradeError>)
        ensures
            match r {
                Some(e) => e.spec_code() == code,
                None => forall|e: TradeError| e.spec_code() != code,
            },
    {
        match code {
            0 => Some(TradeError::InvalidInstruction),
            1 => Some(TradeError::InvalidUserAccount),
            2 => Some(TradeError::InvalidContractAddress),
            3 => Some(TradeError::InvalidTradeData),
            4 => Some(TradeError::InvalidContractSize),
            5 => Some(TradeError::InvalidDuration),
            6 => Some(TradeError::AlreadyMatched),
            7 => Some(TradeError::NotMatched),
            8 => Some(TradeError::ClaimTooEarly),
            9 => Some(TradeError::InsufficientFunds),
            10 => Some(TradeError::OracleAssetMismatch),
            11 => Some(TradeError::OracleDataUnavailable),
            13 => Some(TradeError::InvalidStateForMatch),
            14 => Some(TradeError::AlreadySettled),
            15 => Some(TradeError::PartyMismatch),
            16 => Some(TradeError::AddressDerivationExhausted),
            17 => Some(TradeError::MissingSignature),
            18 => Some(TradeError::AlreadyInitialized),
            19 => Some(TradeError::StorageExhausted),
            _ => None,
        }
    }
}

/// No two kinds share a code.
pub proof fn law_codes_distinct(a: TradeError, b: TradeError)
    requires
        a.spec_code() == b.spec_code(),
    ensures
        a == b,
{
}

} // verus!
