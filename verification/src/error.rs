//! The ways in which an instruction is rejected.

use vstd::prelude::*;

verus! {

/// Why an instruction was rejected. The first failing check decides.
#[derive(Clone, Copy, Debug, PartialEq, Eq, Structural)]
pub enum AirdropError {
    /// An account that has to sign the transaction did not.
    SignerRequired,
    /// An account that is about to change was not passed as writable.
    WriteableRequired,
    /// An account is not owned by the program that is expected to own it.
    IllegalOwner,
    /// An account's address is not the one derived for its role.
    PdaCheckFailed,
    /// A record that must be initialised is not.
    Uninitialized,
    /// An account that must be fresh already exists or is already populated.
    AlreadyInitialized,
    /// The user record has been used for a mint before.
    AlreadyClaimed,
    /// Instruction data or stored bytes do not have the expected layout.
    DeserializationFailed,
    /// Fewer accounts were passed than the instruction takes.
    ResourceExhausted,
}

} // verus!
