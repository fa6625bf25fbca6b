//! The three instructions of the program and their wire format.
//!
//! The first byte of the instruction data selects the instruction. Only the
//! first instruction carries arguments; they follow the selector without
//! padding. Data of any other length than the selected instruction takes is
//! rejected.

use vstd::prelude::*;
use crate::codec::{lemma_u64_le_read_write, read_array, read_u64, spec_u64_from_le};
use crate::error::AirdropError;

verus! {

/// Length of the data of an `InitializeAirdrop` instruction.
pub const INITIALIZE_AIRDROP_LEN: usize = 57;

/// Arguments of `InitializeAirdrop`.
#[derive(Clone, Copy, Debug, PartialEq, Eq)]
pub struct InitializeAirdropArgs {
    pub airdrop_amount: u64,
    pub metadata_prefix: [u8; 32],
    pub symbol: [u8; 8],
    pub price: u64,
}

/// [`InitializeAirdropArgs`] as plain values.
pub struct InitializeAirdropArgsView {
    pub airdrop_amount: u64,
    pub metadata_prefix: Seq<u8>,
    pub symbol: Seq<u8>,
    pub price: u64,
}

impl View for InitializeAirdropArgs {
    type V = InitializeAirdropArgsView;

    open spec fn view(&self) -> InitializeAirdropArgsView {
        InitializeAirdropArgsView {
            airdrop_amount: self.airdrop_amount,
            metadata_prefix: self.metadata_prefix@,
            symbol: self.symbol@,
            price: self.price,
        }
    }
}

/// An instruction of the program.
#[derive(Clone, Copy, Debug, PartialEq, Eq)]
pub enum AirdropInstruction {
    /// Populate the config account of a new campaign.
    InitializeAirdrop(InitializeAirdropArgs),
    /// Create the record of one user in a campaign.
    InitializeAirdropUser,
    /// Mint one token to a user of a campaign.
    MintOne,
}

/// [`AirdropInstruction`] as plain values.
pub enum AirdropInstructionView {
    InitializeAirdrop(InitializeAirdropArgsView),
    InitializeAirdropUser,
    MintOne,
}

impl View for AirdropInstruction {
    type V = AirdropInstructionView;

    open spec fn view(&self) -> AirdropInstructionView {
        match *self {
            AirdropInstruction::InitializeAirdrop(args) => AirdropInstructionView::InitializeAirdrop(
                args@,
            ),
            AirdropInstruction::InitializeAirdropUser => AirdropInstructionView::InitializeAirdropUser,
            AirdropInstruction::MintOne => AirdropInstructionView::MintOne,
        }
    }
}

/// The instruction that `data` encodes, if it encodes one.
///
/// | selector | instruction             | bytes after the selector                         |
/// |----------|-------------------------|--------------------------------------------------|
/// | `0`      | `InitializeAirdrop`     | amount (8, LE), prefix (32), symbol (8), price (8, LE) |
/// | `1`      | `InitializeAirdropUser` | none                                             |
/// | `2`      | `MintOne`               | none                                             |
pub open spec fn spec_deserialize(data: Seq<u8>) -> Option<AirdropInstructionView> {
    if data.len() == INITIALIZE_AIRDROP_LEN && data[0] == 0 {
        Some(
            AirdropInstructionView::InitializeAirdrop(
                InitializeAirdropArgsView {
                    airdrop_amount: spec_u64_from_le(data.subrange(1, 9)) as u64,
                    metadata_prefix: data.subrange(9, 41),
                    symbol: data.subrange(41, 49),
                    price: spec_u64_from_le(data.subrange(49, 57)) as u64,
                },
            ),
        )
    } else if data.len() == 1 && data[0] == 1 {
        Some(AirdropInstructionView::InitializeAirdropUser)
    } else if data.len() == 1 && data[0] == 2 {
        Some(AirdropInstructionView::MintOne)
    } else {
        None
    }
}

/// Decodes instruction data. Fails with `DeserializationFailed` on data that
/// encodes no instruction.
pub fn deserialize_instruction_data(data: &[u8]) -> (decoded: Result<
    AirdropInstruction,
    AirdropError,
>)
    ensures
        match decoded {
            Ok(instruction) => spec_deserialize(data@) == Some(instruction@),
            Err(error) => error == AirdropError::DeserializationFailed && spec_deserialize(data@)
                is None,
        },
{
    if data.len() == INITIALIZE_AIRDROP_LEN && data[0] == 0 {
        proof {
            lemma_u64_le_read_write(data@.subrange(1, 9));
            lemma_u64_le_read_write(data@.subrange(49, 57));
        }
        Ok(
            AirdropInstruction::InitializeAirdrop(
                InitializeAirdropArgs {
                    airdrop_amount: read_u64(data, 1),
                    metadata_prefix: read_array::<32>(data, 9),
                    symbol: read_array::<8>(data, 41),
                    price: read_u64(data, 49),
                },
            ),
        )
    } else if data.len() == 1 && data[0] == 1 {
        Ok(AirdropInstruction::InitializeAirdropUser)
    } else if data.len() == 1 && data[0] == 2 {
        Ok(AirdropInstruction::MintOne)
    } else {
        Err(AirdropError::DeserializationFailed)
    }
}

} // verus!
