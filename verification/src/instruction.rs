//! The closed set of operations that a caller may request, and the payload
//! that carries one.
//!
//! A payload is one tag byte, the position of the operation in the set, and
//! then the operation's fields in the layout of the records.

use vstd::prelude::*;
use vstd::bytes::*;
use vstd::slice::*;
use crate::error::AIInfraError;
use crate::scalar::{decode_u64, encode_u64};
use crate::state::{
    append, flag_byte, requirements_bytes, requirements_in, take_32, ComputeRequirements, Identity,
};

verus! {

/// One requested operation with its arguments.
#[derive(Debug, Clone, Copy, PartialEq, Eq)]
pub enum AIInfraInstruction {
    RegisterAgent,
    UpdateAgentStatus { is_active: bool },
    CreateTask { requirements: ComputeRequirements, payment_amount: u64 },
    StartTask { task_id: Identity },
    CompleteTask { task_id: Identity, result_hash: [u8; 32] },
    DepositCredits { amount: u64 },
    WithdrawCredits { amount: u64 },
}

/// An instruction as a mathematical value.
pub enum InstructionModel {
    RegisterAgent,
    UpdateAgentStatus { is_active: bool },
    CreateTask { requirements: ComputeRequirements, payment_amount: u64 },
    StartTask { task_id: Seq<u8> },
    CompleteTask { task_id: Seq<u8>, result_hash: Seq<u8> },
    DepositCredits { amount: u64 },
    WithdrawCredits { amount: u64 },
}

impl View for AIInfraInstruction {
    type V = InstructionModel;

    open spec fn view(&self) -> InstructionModel {
        match *self {
            AIInfraInstruction::RegisterAgent => InstructionModel::RegisterAgent,
            AIInfraInstruction::UpdateAgentStatus { is_active } => {
                InstructionModel::UpdateAgentStatus { is_active }
            },
            AIInfraInstruction::CreateTask { requirements, payment_amount } => {
                InstructionModel::CreateTask { requirements, payment_amount }
            },
            AIInfraInstruction::StartTask { task_id } => {
                InstructionModel::StartTask { task_id: task_id@ }
            },
            AIInfraInstruction::CompleteTask { task_id, result_hash } => {
                InstructionModel::CompleteTask { task_id: task_id@, result_hash: result_hash@ }
            },
            AIInfraInstruction::DepositCredits { amount } => {
                InstructionModel::DepositCredits { amount }
            },
            AIInfraInstruction::WithdrawCredits { amount } => {
                InstructionModel::WithdrawCredits { amount }
            },
        }
    }
}

/// Whether the identities and the hash of an instruction have 32 bytes each.
pub open spec fn instruction_well_formed(instruction: InstructionModel) -> bool {
    match instruction {
        InstructionModel::StartTask { task_id } => task_id.len() == 32,
        InstructionModel::CompleteTask { task_id, result_hash } => {
            task_id.len() == 32 && result_hash.len() == 32
        },
        _ => true,
    }
}

/// The payload that carries an instruction.
pub open spec fn instruction_bytes(instruction: InstructionModel) -> Seq<u8> {
    match instruction {
        InstructionModel::RegisterAgent => seq![0u8],
        InstructionModel::UpdateAgentStatus { is_active } => seq![1u8, flag_byte(is_active)],
        InstructionModel::CreateTask { requirements, payment_amount } => {
            seq![2u8] + requirements_bytes(requirements) + spec_u64_to_le_bytes(payment_amount)
        },
        InstructionModel::StartTask { task_id } => seq![3u8] + task_id,
        InstructionModel::CompleteTask { task_id, result_hash } => {
            seq![4u8] + task_id + result_hash
        },
        InstructionModel::DepositCredits { amount } => seq![5u8] + spec_u64_to_le_bytes(amount),
        InstructionModel::WithdrawCredits { amount } => seq![6u8] + spec_u64_to_le_bytes(amount),
    }
}

/// The instruction that a payload carries, if it carries one: a known tag,
/// followed by exactly the bytes of that operation's fields.
pub open spec fn instruction_in(bytes: Seq<u8>) -> Option<InstructionModel> {
    if bytes.len() == 0 {
        None
    } else if bytes[0] == 0 && bytes.len() == 1 {
        Some(InstructionModel::RegisterAgent)
    } else if bytes[0] == 1 && bytes.len() == 2 && bytes[1] <= 1 {
        Some(InstructionModel::UpdateAgentStatus { is_active: bytes[1] == 1 })
    } else if bytes[0] == 2 && bytes.len() == 25 {
        Some(
            InstructionModel::CreateTask {
                requirements: requirements_in(bytes.subrange(1, 17)),
                payment_amount: spec_u64_from_le_bytes(bytes.subrange(17, 25)),
            },
        )
    } else if bytes[0] == 3 && bytes.len() == 33 {
        Some(InstructionModel::StartTask { task_id: bytes.subrange(1, 33) })
    } else if bytes[0] == 4 && bytes.len() == 65 {
        Some(
            InstructionModel::CompleteTask {
                task_id: bytes.subrange(1, 33),
                result_hash: bytes.subrange(33, 65),
            },
        )
    } else if bytes[0] == 5 && bytes.len() == 9 {
        Some(
            InstructionModel::DepositCredits {
                amount: spec_u64_from_le_bytes(bytes.subrange(1, 9)),
            },
        )
    } else if bytes[0] == 6 && bytes.len() == 9 {
        Some(
            InstructionModel::WithdrawCredits {
                amount: spec_u64_from_le_bytes(bytes.subrange(1, 9)),
            },
        )
    } else {
        None
    }
}

impl AIInfraInstruction {
    /// The payload that carries this instruction.
    pub fn to_bytes(&self) -> (out: Vec<u8>)
        ensures
            out@ == instruction_bytes(self@),
    {
        let mut out: Vec<u8> = Vec::new();
        match self {
            AIInfraInstruction::RegisterAgent => {
                out.push(0u8);
            },
            AIInfraInstruction::UpdateAgentStatus { is_active } => {
                out.push(1u8);
                out.push(if *is_active { 1u8 } else { 0u8 });
            },
            AIInfraInstruction::CreateTask { requirements, payment_amount } => {
                out.push(2u8);
                requirements.write_to(&mut out);
                let payment = encode_u64(*payment_amount);
                append(&mut out, payment.as_slice());
            },
            AIInfraInstruction::StartTask { task_id } => {
                out.push(3u8);
                append(&mut out, task_id.bytes.as_slice());
            },
            AIInfraInstruction::CompleteTask { task_id, result_hash } => {
                out.push(4u8);
                append(&mut out, task_id.bytes.as_slice());
                append(&mut out, result_hash.as_slice());
            },
            AIInfraInstruction::DepositCredits { amount } => {
                out.push(5u8);
                let value = encode_u64(*amount);
                append(&mut out, value.as_slice());
            },
            AIInfraInstruction::WithdrawCredits { amount } => {
                out.push(6u8);
                let value = encode_u64(*amount);
                append(&mut out, value.as_slice());
            },
        }
        proof {
            assert(out@ =~= instruction_bytes(self@));
        }
        out
    }

    /// Reads the instruction that a payload carries. A payload that carries
    /// none is refused as `InvalidInstruction`.
    pub fn from_bytes(bytes: &[u8]) -> (read: Result<AIInfraInstruction, AIInfraError>)
        ensures
            match read {
                Ok(instruction) => instruction_in(bytes@) == Some(instruction@),
                Err(e) => e == AIInfraError::InvalidInstruction && instruction_in(bytes@) is None,
            },
    {
        let n: usize = bytes.len();
        if n == 0 {
            return Err(AIInfraError::InvalidInstruction);
        }
        let tag: u8 = bytes[0];
        if tag == 0 && n == 1 {
            Ok(AIInfraInstruction::RegisterAgent)
        } else if tag == 1 && n == 2 && bytes[1] <= 1 {
            Ok(AIInfraInstruction::UpdateAgentStatus { is_active: bytes[1] == 1 })
        } else if tag == 2 && n == 25 {
            Ok(
                AIInfraInstruction::CreateTask {
                    requirements: ComputeRequirements::read_at(bytes, 1),
                    payment_amount: decode_u64(slice_subrange(bytes, 17, 25)),
                },
            )
        } else if tag == 3 && n == 33 {
            Ok(AIInfraInstruction::StartTask { task_id: Identity { bytes: take_32(bytes, 1) } })
        } else if tag == 4 && n == 65 {
            Ok(
                AIInfraInstruction::CompleteTask {
                    task_id: Identity { bytes: take_32(bytes, 1) },
                    result_hash: take_32(bytes, 33),
                },
            )
        } else if tag == 5 && n == 9 {
            Ok(
                AIInfraInstruction::DepositCredits {
                    amount: decode_u64(slice_subrange(bytes, 1, 9)),
                },
            )
        } else if tag == 6 && n == 9 {
            Ok(
                AIInfraInstruction::WithdrawCredits {
                    amount: decode_u64(slice_subrange(bytes, 1, 9)),
                },
            )
        } else {
            Err(AIInfraError::InvalidInstruction)
        }
    }
}

/// Reading the payload of an instruction gives that instruction back.
pub proof fn lemma_instruction_round_trip(instruction: InstructionModel)
    requires
        instruction_well_formed(instruction),
    ensures
        instruction_in(instruction_bytes(instruction)) == Some(instruction),
{
    lemma_auto_spec_u64_to_from_le_bytes();
    lemma_auto_spec_u32_to_from_le_bytes();
    let b = instruction_bytes(instruction);
    match instruction {
        InstructionModel::CreateTask { requirements, payment_amount } => {
            let rb = b.subrange(1, 17);
            assert(rb =~= requirements_bytes(requirements));
            assert(rb.subrange(0, 4) =~= spec_u32_to_le_bytes(requirements.cpu_units));
            assert(rb.subrange(4, 8) =~= spec_u32_to_le_bytes(requirements.memory_mb));
            assert(rb.subrange(8, 12) =~= spec_u32_to_le_bytes(requirements.storage_mb));
            assert(rb.subrange(12, 16) =~= spec_u32_to_le_bytes(requirements.max_time_seconds));
            assert(b.subrange(17, 25) =~= spec_u64_to_le_bytes(payment_amount));
        },
        InstructionModel::StartTask { task_id } => {
            assert(b.subrange(1, 33) =~= task_id);
        },
        InstructionModel::CompleteTask { task_id, result_hash } => {
            assert(b.subrange(1, 33) =~= task_id);
            assert(b.subrange(33, 65) =~= result_hash);
        },
        InstructionModel::DepositCredits { amount } => {
            assert(b.subrange(1, 9) =~= spec_u64_to_le_bytes(amount));
        },
        InstructionModel::WithdrawCredits { amount } => {
            assert(b.subrange(1, 9) =~= spec_u64_to_le_bytes(amount));
        },
        _ => {},
    }
}

} // verus!
