//! Decoding of RISC-V instruction words, with the compressed ("C") encoding
//! decoded by three verified quadrant dispatchers.

use vstd::prelude::*;

pub mod compressed;
pub mod instruction;
pub mod types;

use crate::instruction::Instruction;

verus! {

/// Why a raw word did not decode to an instruction.
#[derive(Clone, Copy, Debug, PartialEq, Eq, Hash, Structural)]
pub enum DecodingError {
    /// The all-zero pattern, defined to be an illegal instruction.
    Illegal,
    /// A pattern that the architecture reserves for future standard extensions.
    Reserved,
    /// A valid encoding that this decoder does not resolve to an instruction.
    Unimplemented,
}

/// The outcome of decoding one raw word.
pub type DecodingResult = Result<Instruction, DecodingError>;

} // verus!
