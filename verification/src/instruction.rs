//! The commands of the engine, and how they are read from bytes.

use vstd::prelude::*;
use vstd::slice::slice_subrange;
use vstd::utf8::{decode_utf8, valid_utf8};
use crate::error::TradeError;

verus! {

/// Opens a contract.
#[derive(Clone, Debug)]
pub struct Make {
    /// The asset whose price decides the contract.
    pub symbol: String,
    /// The maker's name for the contract: with the maker, it gives the
    /// contract its address.
    pub slug: String,
    /// The size code: 0 for a tenth of a unit, 1 for one unit, 2 for five.
    pub contract_size: u8,
    /// The maker's side: 0 for long, 1 for short.
    pub direction: u8,
    /// The duration code: 0 for five minutes, 1 for an hour, 2 for a day.
    pub duration: u8,
}

/// Matches an open contract.
#[derive(Clone, Debug)]
pub struct Take {
    /// Carried by the command and not read: the taker has the side that the
    /// maker left.
    pub direction: u8,
}

/// A command.
#[derive(Clone, Debug)]
pub enum TradeInstruction {
    MakeTrade(Make),
    TakeTrade(Take),
    Claim,
}

/// A `Make` as a mathematical value.
pub struct MakeView {
    pub symbol: Seq<char>,
    pub slug: Seq<char>,
    pub contract_size: u8,
    pub direction: u8,
    pub duration: u8,
}

/// A command as a mathematical value.
pub enum InstructionView {
    MakeTrade(MakeView),
    TakeTrade(u8),
    Claim,
}

impl View for Make {
    type V = MakeView;

    open spec fn view(&self) -> MakeView {
        MakeView {
            symbol: self.symbol@,
            slug: self.slug@,
            contract_size: self.contract_size,
            direction: self.direction,
            duration: self.duration,
        }
    }
}

impl View for TradeInstruction {
    type V = InstructionView;

    open spec fn view(&self) -> InstructionView {
        match self {
            TradeInstruction::MakeTrade(make) => InstructionView::MakeTrade(make@),
            TradeInstruction::TakeTrade(take) => InstructionView::TakeTrade(take.direction),
            TradeInstruction::Claim => InstructionView::Claim,
        }
    }
}

/// The number that the first four bytes hold, lowest byte first.
pub open spec fn spec_length_prefix(bytes: Seq<u8>) -> int {
    bytes[0] + bytes[1] * 0x100 + bytes[2] * 0x1_0000 + bytes[3] * 0x100_0000
}

/// A string at the head of `bytes`, and the bytes behind it: a length in
/// four bytes, then that many bytes of UTF-8.
pub open spec fn spec_read_string(bytes: Seq<u8>) -> Option<(Seq<char>, Seq<u8>)> {
    if bytes.len() < 4 {
        None
    } else {
        let end = 4 + spec_length_prefix(bytes);
        if bytes.len() < end || !valid_utf8(bytes.subrange(4, end)) {
            None
        } else {
            Some((decode_utf8(bytes.subrange(4, end)), bytes.subrange(end, bytes.len() as int)))
        }
    }
}

/// What `read_string` found, as a mathematical value.
pub open spec fn read_view(found: Option<(String, &[u8])>) -> Option<(Seq<char>, Seq<u8>)> {
    match found {
        Some((text, rest)) => Some((text@, rest@)),
        None => None,
    }
}

/// Calls `borsh`'s `deserialize` for `String` on the head of `bytes`.
/// Trusted: it reads a length in four bytes, lowest first, and that many
/// bytes, which must be UTF-8; it gives the string and the bytes that
/// follow, and nothing where the bytes run out or are not UTF-8.
#[verifier::external_body]
fn read_string<'a>(bytes: &'a [u8]) -> (found: Option<(String, &'a [u8])>)
    ensures
        read_view(found) == spec_read_string(bytes@),
{
    let mut rest = bytes;
    match <String as borsh::BorshDeserialize>::deserialize(&mut rest) {
        Ok(text) => Some((text, rest)),
        Err(_) => None,
    }
}

/// The payload of a `Make`: the symbol, the slug, and one byte each for
/// size, direction and duration, with nothing behind them.
pub open spec fn spec_read_make(payload: Seq<u8>) -> Option<MakeView> {
    match spec_read_string(payload) {
        None => None,
        Some((symbol, rest)) => match spec_read_string(rest) {
            None => None,
            Some((slug, tail)) => if tail.len() == 3 {
                Some(
                    MakeView {
                        symbol,
                        slug,
                        contract_size: tail[0],
                        direction: tail[1],
                        duration: tail[2],
                    },
                )
            } else {
                None
            },
        },
    }
}

/// The command that `input` holds. The first byte says which: 0 a `Make`,
/// 1 a `Take`, 2 a claim. A `Take` has one more byte; what follows the
/// first byte of a claim is not read.
pub open spec fn spec_unpack(input: Seq<u8>) -> Result<InstructionView, TradeError> {
    if input.len() == 0 {
        Err(TradeError::InvalidInstruction)
    } else if input[0] == 0 {
        match spec_read_make(input.subrange(1, input.len() as int)) {
            Some(make) => Ok(InstructionView::MakeTrade(make)),
            None => Err(TradeError::InvalidInstruction),
        }
    } else if input[0] == 1 {
        if input.len() == 2 {
            Ok(InstructionView::TakeTrade(input[1]))
        } else {
            Err(TradeError::InvalidInstruction)
        }
    } else if input[0] == 2 {
        Ok(InstructionView::Claim)
    } else {
        Err(TradeError::InvalidInstruction)
    }
}

/// Reads the payload of a `Make`.
fn read_make(payload: &[u8]) -> (r: Option<Make>)
    ensures
        match spec_read_make(payload@) {
            Some(make) => r matches Some(m) && m@ == make,
            None => r is None,
        },
{
    let (symbol, rest) = match read_string(payload) {
        Some(found) => found,
        None => {
            return None;
        },
    };
    let (slug, tail) = match read_string(rest) {
        Some(found) => found,
        None => {
            return None;
        },
    };
    if tail.len() != 3 {
        return None;
    }
    Some(Make { symbol, slug, contract_size: tail[0], direction: tail[1], duration: tail[2] })
}

impl TradeInstruction {
    /// Reads a command. Fails with `InvalidInstruction` where `input` is
    /// empty, starts with a byte other than 0, 1 and 2, or holds a payload
    /// that is cut short, is not UTF-8 where a string is due, or is
    /// followed by more bytes.
    pub fn unpack(input: &[u8]) -> (r: Result<TradeInstruction, TradeError>)
        ensures
            match spec_unpack(input@) {
                Ok(instruction) => r matches Ok(i) && i@ == instruction,
                Err(e) => r matches Err(f) && f == e,
            },
    {
        if input.len() == 0 {
            return Err(TradeError::InvalidInstruction);
        }
        let tag = input[0];
        if tag == 0 {
            match read_make(slice_subrange(input, 1, input.len())) {
                Some(make) => Ok(TradeInstruction::MakeTrade(make)),
                None => Err(TradeError::InvalidInstruction),
            }
        } else if tag == 1 {
            if input.len() == 2 {
                Ok(TradeInstruction::TakeTrade(Take { direction: input[1] }))
            } else {
                Err(TradeError::InvalidInstruction)
            }
        } else if tag == 2 {
            Ok(TradeInstruction::Claim)
        } else {
            Err(TradeError::InvalidInstruction)
        }
    }
}

} // verus!
