//! Credit ledger and task lifecycle of a compute marketplace, as a state
//! machine over host-supplied account slots.
//!
//! Agents hold a credit balance; tasks are billed against an agent and move
//! through `Pending`, `InProgress` and `Completed`. Every handler checks all
//! of its guards before it writes, so a failed call leaves every slot as it
//! was.

use vstd::prelude::*;

pub mod error;
pub mod scalar;
pub mod state;
pub mod instruction;
pub mod account;
pub mod processor;
pub mod laws;

pub use crate::account::{Account, AccountModel};
pub use crate::error::{AIInfraError, ProgramFault};
pub use crate::instruction::{AIInfraInstruction, InstructionModel};
pub use crate::processor::{
    load_owned_agent, plan_agent_allocation, plan_allocation, process_complete_task,
    process_create_task, process_deposit_credits, process_fail_task, process_instruction,
    process_register_agent, process_start_task, process_update_status,
    process_withdraw_credits, AllocationRequest, Processor,
};
pub use crate::state::{
    AIAgent, AgentModel, ComputeRequirements, ComputeTask, Identity, TaskModel, TaskStatus,
    AGENT_LEN, TASK_LEN,
};

verus! {

/// The sum of two sizes.
pub fn add(left: usize, right: usize) -> (sum: usize)
    requires
        left + right <= usize::MAX,
    ensures
        sum == left + right,
{
    left + right
}

} // verus!
