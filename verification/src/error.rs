//! Failure codes that a handler can report.

use vstd::prelude::*;

verus! {

/// Failures that belong to this program alone. The host sees each of them as
/// a custom code.
#[derive(Debug, Clone, Copy, PartialEq, Eq)]
pub enum AIInfraError {
    /// The payload is not the encoding of any instruction.
    InvalidInstruction,
    /// A new slot is funded below the host's minimum for its size.
    NotRentExempt,
    /// The agent's balance does not cover the payment of a task.
    InsufficientCredits,
}

impl AIInfraError {
    /// The number under which the host reports this failure.
    pub open spec fn spec_code(self) -> u32 {
        match self {
            AIInfraError::InvalidInstruction => 0,
            AIInfraError::NotRentExempt => 1,
            AIInfraError::InsufficientCredits => 2,
        }
    }

    /// The number under which the host reports this failure.
    pub fn code(&self) -> (n: u32)
        ensures
            n == self.spec_code(),
    {
        match self {
            AIInfraError::InvalidInstruction => 0,
            AIInfraError::NotRentExempt => 1,
            AIInfraError::InsufficientCredits => 2,
        }
    }

    /// The text shown for this failure.
    pub fn message(&self) -> (text: &'static str)
        ensures
            text@ == match *self {
                AIInfraError::InvalidInstruction => "Invalid Instruction"@,
                AIInfraError::NotRentExempt => "Not Rent Exempt"@,
                AIInfraError::InsufficientCredits => "Insufficient Credits"@,
            },
    {
        match self {
            AIInfraError::InvalidInstruction => "Invalid Instruction",
            AIInfraError::NotRentExempt => "Not Rent Exempt",
            AIInfraError::InsufficientCredits => "Insufficient Credits",
        }
    }
}

/// The single terminal result of a failed call.
#[derive(Debug, Clone, Copy, PartialEq, Eq)]
pub enum ProgramFault {
    /// Fewer account slots were supplied than the instruction needs.
    NotEnoughAccountKeys,
    /// A required authorising identity did not sign.
    MissingRequiredSignature,
    /// A supplied slot is not controlled by this program.
    IncorrectProgramId,
    /// A record's owner does not match the caller, or the task is not in the
    /// status that the handler needs.
    InvalidAccountData,
    /// A deposit would take the balance past its largest value.
    InvalidInstructionData,
    /// A withdrawal asks for more than the balance holds.
    InsufficientFunds,
    /// A counter would pass its largest value.
    ArithmeticOverflow,
    /// A record does not fit into, or cannot be read from, its slot.
    BorshIoError,
    /// A failure of this program, by its number.
    Custom(u32),
}

impl core::convert::From<AIInfraError> for ProgramFault {
    fn from(e: AIInfraError) -> (fault: ProgramFault) {
        ProgramFault::Custom(e.code())
    }
}

impl vstd::std_specs::convert::FromSpecImpl<AIInfraError> for ProgramFault {
    open spec fn obeys_from_spec() -> bool {
        true
    }

    open spec fn from_spec(e: AIInfraError) -> ProgramFault {
        ProgramFault::Custom(e.spec_code())
    }
}

} // verus!
