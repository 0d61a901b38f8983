//! One handler for each instruction, and the dispatch that picks it.
//!
//! A handler finds its slots by position, runs every guard in a fixed order,
//! and writes only when all of them have passed. What each handler does is
//! stated as a function from the slots before the call to the slots after it,
//! or to the failure that the call reports.

use vstd::prelude::*;
use crate::account::{models, put, store, Account, AccountModel};
use crate::error::{AIInfraError, ProgramFault};
use crate::instruction::{instruction_in, AIInfraInstruction, InstructionModel};
use crate::state::{
    agent_bytes, agent_in, fresh_agent, fresh_task, task_bytes, task_in, AIAgent, AgentModel,
    ComputeRequirements, ComputeTask, Identity, TaskModel, TaskStatus, AGENT_LEN, TASK_LEN,
};

verus! {

/// Whether a call that started on `pre`, ended on `post` and returned
/// `result` did what `expected` asks: on success the slots are the expected
/// ones, on failure the expected failure is reported and no slot has changed.
pub open spec fn settles(
    pre: Seq<AccountModel>,
    post: Seq<AccountModel>,
    result: Result<(), ProgramFault>,
    expected: Result<Seq<AccountModel>, ProgramFault>,
) -> bool {
    match expected {
        Ok(next) => result is Ok && post == next,
        Err(fault) => result == Err::<(), ProgramFault>(fault) && post == pre,
    }
}

/// The agent with another balance.
pub open spec fn with_credits(agent: AgentModel, compute_credits: u64) -> AgentModel {
    AgentModel {
        owner: agent.owner,
        compute_credits,
        reputation_score: agent.reputation_score,
        tasks_completed: agent.tasks_completed,
        is_active: agent.is_active,
    }
}

/// The agent switched on or off.
pub open spec fn with_activity(agent: AgentModel, is_active: bool) -> AgentModel {
    AgentModel {
        owner: agent.owner,
        compute_credits: agent.compute_credits,
        reputation_score: agent.reputation_score,
        tasks_completed: agent.tasks_completed,
        is_active,
    }
}

/// The agent with one more completed task.
pub open spec fn with_completion(agent: AgentModel) -> AgentModel {
    AgentModel {
        owner: agent.owner,
        compute_credits: agent.compute_credits,
        reputation_score: agent.reputation_score,
        tasks_completed: (agent.tasks_completed + 1) as u32,
        is_active: agent.is_active,
    }
}

/// The task in another status, with another result.
pub open spec fn with_outcome(
    task: TaskModel,
    status: TaskStatus,
    result_hash: Seq<u8>,
) -> TaskModel {
    TaskModel {
        agent: task.agent,
        requirements: task.requirements,
        status,
        result_hash,
        payment_amount: task.payment_amount,
    }
}

/// Registration. Slots: the new agent's slot, then the signer. The signer
/// must have signed; the slot must hold at least `minimum_balance` and have
/// room for an agent. The slot then holds a fresh agent owned by the signer.
pub open spec fn register_step(pre: Seq<AccountModel>, minimum_balance: u64) -> Result<
    Seq<AccountModel>,
    ProgramFault,
> {
    if pre.len() < 4 {
        Err(ProgramFault::NotEnoughAccountKeys)
    } else if !pre[1].is_signer {
        Err(ProgramFault::MissingRequiredSignature)
    } else if pre[0].lamports < minimum_balance {
        Err(ProgramFault::Custom(AIInfraError::NotRentExempt.spec_code()))
    } else if pre[0].data.len() < AGENT_LEN {
        Err(ProgramFault::BorshIoError)
    } else {
        Ok(put(pre, 0, agent_bytes(fresh_agent(pre[1].key))))
    }
}

/// Task creation. Slots: the new task's slot, the agent's slot, the signer.
/// The payment leaves the agent's balance and the task slot holds a pending
/// task, both or neither.
pub open spec fn create_step(
    pre: Seq<AccountModel>,
    requirements: ComputeRequirements,
    payment_amount: u64,
) -> Result<Seq<AccountModel>, ProgramFault> {
    if pre.len() < 3 {
        Err(ProgramFault::NotEnoughAccountKeys)
    } else if !pre[2].is_signer {
        Err(ProgramFault::MissingRequiredSignature)
    } else {
        match agent_in(pre[1].data) {
            None => Err(ProgramFault::BorshIoError),
            Some(agent) => {
                if agent.compute_credits < payment_amount {
                    Err(ProgramFault::Custom(AIInfraError::InsufficientCredits.spec_code()))
                } else if pre[0].data.len() < TASK_LEN {
                    Err(ProgramFault::BorshIoError)
                } else {
                    Ok(
                        put(
                            put(
                                pre,
                                0,
                                task_bytes(fresh_task(pre[1].key, requirements, payment_amount)),
                            ),
                            1,
                            agent_bytes(
                                with_credits(
                                    agent,
                                    (agent.compute_credits - payment_amount) as u64,
                                ),
                            ),
                        ),
                    )
                }
            },
        }
    }
}

/// Start of a task. Slots: the task's slot, the agent's slot. The task slot
/// must be controlled by `program` and hold a pending task, which is then in
/// progress.
pub open spec fn start_step(program: Seq<u8>, pre: Seq<AccountModel>) -> Result<
    Seq<AccountModel>,
    ProgramFault,
> {
    if pre.len() < 2 {
        Err(ProgramFault::NotEnoughAccountKeys)
    } else if pre[0].owner != program {
        Err(ProgramFault::IncorrectProgramId)
    } else {
        match task_in(pre[0].data) {
            None => Err(ProgramFault::BorshIoError),
            Some(task) => {
                if task.status != TaskStatus::Pending {
                    Err(ProgramFault::InvalidAccountData)
                } else {
                    Ok(
                        put(
                            pre,
                            0,
                            task_bytes(
                                with_outcome(task, TaskStatus::InProgress, task.result_hash),
                            ),
                        ),
                    )
                }
            },
        }
    }
}

/// Completion of a task. Slots: the task's slot, the agent's slot. The task
/// slot must be controlled by `program` and hold a task in progress. The task
/// is then completed with the given result, and the agent has one more
/// completed task, both or neither.
pub open spec fn complete_step(
    program: Seq<u8>,
    pre: Seq<AccountModel>,
    result_hash: Seq<u8>,
) -> Result<Seq<AccountModel>, ProgramFault> {
    if pre.len() < 2 {
        Err(ProgramFault::NotEnoughAccountKeys)
    } else if pre[0].owner != program {
        Err(ProgramFault::IncorrectProgramId)
    } else {
        match task_in(pre[0].data) {
            None => Err(ProgramFault::BorshIoError),
            Some(task) => {
                if task.status != TaskStatus::InProgress {
                    Err(ProgramFault::InvalidAccountData)
                } else {
                    match agent_in(pre[1].data) {
                        None => Err(ProgramFault::BorshIoError),
                        Some(agent) => {
                            if agent.tasks_completed == u32::MAX {
                                Err(ProgramFault::ArithmeticOverflow)
                            } else {
                                Ok(
                                    put(
                                        put(
                                            pre,
                                            0,
                                            task_bytes(
                                                with_outcome(
                                                    task,
                                                    TaskStatus::Completed,
                                                    result_hash,
                                                ),
                                            ),
                                        ),
                                        1,
                                        agent_bytes(with_completion(agent)),
                                    ),
                                )
                            }
                        },
                    }
                }
            },
        }
    }
}

/// Failure of a task. Slots: the task's slot, the agent's slot. The task
/// slot must be controlled by `program` and hold a task that is pending or in
/// progress, which has then failed. Nothing is refunded and no counter moves.
pub open spec fn fail_step(program: Seq<u8>, pre: Seq<AccountModel>) -> Result<
    Seq<AccountModel>,
    ProgramFault,
> {
    if pre.len() < 2 {
        Err(ProgramFault::NotEnoughAccountKeys)
    } else if pre[0].owner != program {
        Err(ProgramFault::IncorrectProgramId)
    } else {
        match task_in(pre[0].data) {
            None => Err(ProgramFault::BorshIoError),
            Some(task) => {
                if task.status.spec_is_terminal() {
                    Err(ProgramFault::InvalidAccountData)
                } else {
                    Ok(
                        put(
                            pre,
                            0,
                            task_bytes(with_outcome(task, TaskStatus::Failed, task.result_hash)),
                        ),
                    )
                }
            },
        }
    }
}

/// The guards that deposit, withdrawal and status update share. Slots: the
/// agent's slot, then the signer, who must have signed and must be the
/// agent's owner. Gives the agent that the slot holds.
pub open spec fn owned_agent(pre: Seq<AccountModel>) -> Result<AgentModel, ProgramFault> {
    if pre.len() < 2 {
        Err(ProgramFault::NotEnoughAccountKeys)
    } else if !pre[1].is_signer {
        Err(ProgramFault::MissingRequiredSignature)
    } else {
        match agent_in(pre[0].data) {
            None => Err(ProgramFault::BorshIoError),
            Some(agent) => {
                if agent.owner != pre[1].key {
                    Err(ProgramFault::InvalidAccountData)
                } else {
                    Ok(agent)
                }
            },
        }
    }
}

/// Deposit: the balance grows by `amount`, unless it would pass the largest
/// value of a balance.
pub open spec fn deposit_step(pre: Seq<AccountModel>, amount: u64) -> Result<
    Seq<AccountModel>,
    ProgramFault,
> {
    match owned_agent(pre) {
        Err(fault) => Err(fault),
        Ok(agent) => {
            if agent.compute_credits + amount > u64::MAX {
                Err(ProgramFault::InvalidInstructionData)
            } else {
                Ok(
                    put(
                        pre,
                        0,
                        agent_bytes(with_credits(agent, (agent.compute_credits + amount) as u64)),
                    ),
                )
            }
        },
    }
}

/// Withdrawal: the balance shrinks by `amount`, which it must cover.
pub open spec fn withdraw_step(pre: Seq<AccountModel>, amount: u64) -> Result<
    Seq<AccountModel>,
    ProgramFault,
> {
    match owned_agent(pre) {
        Err(fault) => Err(fault),
        Ok(agent) => {
            if agent.compute_credits < amount {
                Err(ProgramFault::InsufficientFunds)
            } else {
                Ok(
                    put(
                        pre,
                        0,
                        agent_bytes(with_credits(agent, (agent.compute_credits - amount) as u64)),
                    ),
                )
            }
        },
    }
}

/// Status update: the agent is switched on or off.
pub open spec fn status_step(pre: Seq<AccountModel>, is_active: bool) -> Result<
    Seq<AccountModel>,
    ProgramFault,
> {
    match owned_agent(pre) {
        Err(fault) => Err(fault),
        Ok(agent) => Ok(put(pre, 0, agent_bytes(with_activity(agent, is_active)))),
    }
}

/// A whole call: the payload is read, and the handler of the instruction
/// that it carries runs. A payload that carries none fails the call.
pub open spec fn instruction_step(
    program: Seq<u8>,
    pre: Seq<AccountModel>,
    payload: Seq<u8>,
    minimum_balance: u64,
) -> Result<Seq<AccountModel>, ProgramFault> {
    match instruction_in(payload) {
        None => Err(ProgramFault::Custom(AIInfraError::InvalidInstruction.spec_code())),
        Some(InstructionModel::RegisterAgent) => register_step(pre, minimum_balance),
        Some(InstructionModel::UpdateAgentStatus { is_active }) => status_step(pre, is_active),
        Some(InstructionModel::CreateTask { requirements, payment_amount }) => create_step(
            pre,
            requirements,
            payment_amount,
        ),
        Some(InstructionModel::StartTask { task_id }) => start_step(program, pre),
        Some(InstructionModel::CompleteTask { task_id, result_hash }) => complete_step(
            program,
            pre,
            result_hash,
        ),
        Some(InstructionModel::DepositCredits { amount }) => deposit_step(pre, amount),
        Some(InstructionModel::WithdrawCredits { amount }) => withdraw_step(pre, amount),
    }
}

/// What the host is asked to allocate before an agent is registered. The
/// host funds the slot with its own minimum for `space` bytes.
#[derive(Debug, Clone, Copy, PartialEq, Eq)]
pub struct AllocationRequest {
    /// Who pays for the slot.
    pub payer: Identity,
    /// The key of the new slot.
    pub slot: Identity,
    /// The number of bytes that the slot holds.
    pub space: u64,
    /// The program that controls the slot.
    pub owner: Identity,
}

/// An allocation request as a mathematical value.
pub struct AllocationModel {
    pub payer: Seq<u8>,
    pub slot: Seq<u8>,
    pub space: u64,
    pub owner: Seq<u8>,
}

impl View for AllocationRequest {
    type V = AllocationModel;

    open spec fn view(&self) -> AllocationModel {
        AllocationModel {
            payer: self.payer@,
            slot: self.slot@,
            space: self.space,
            owner: self.owner@,
        }
    }
}

/// What a registration asks of the host: a slot of the size of an agent
/// under the key of the first account, paid by the signer and controlled by
/// `program`. A call with fewer than four accounts, or whose signer did not
/// sign, asks nothing and fails.
pub open spec fn agent_allocation(program: Seq<u8>, pre: Seq<AccountModel>) -> Result<
    AllocationModel,
    ProgramFault,
> {
    if pre.len() < 4 {
        Err(ProgramFault::NotEnoughAccountKeys)
    } else if !pre[1].is_signer {
        Err(ProgramFault::MissingRequiredSignature)
    } else {
        Ok(AllocationModel { payer: pre[1].key, slot: pre[0].key, space: 49, owner: program })
    }
}

/// What a call asks of the host before its handler runs: an allocation for a
/// registration, nothing for any other instruction. A payload that carries no
/// instruction fails the call.
pub open spec fn allocation_step(
    program: Seq<u8>,
    pre: Seq<AccountModel>,
    payload: Seq<u8>,
) -> Result<Option<AllocationModel>, ProgramFault> {
    match instruction_in(payload) {
        None => Err(ProgramFault::Custom(AIInfraError::InvalidInstruction.spec_code())),
        Some(InstructionModel::RegisterAgent) => match agent_allocation(program, pre) {
            Ok(request) => Ok(Some(request)),
            Err(fault) => Err(fault),
        },
        Some(_) => Ok(None),
    }
}

/// Decides what the host must allocate for a registration.
pub fn plan_agent_allocation(
    program_id: &Identity,
    accounts: &Vec<Account>,
) -> (plan: Result<AllocationRequest, ProgramFault>)
    ensures
        match plan {
            Ok(request) => agent_allocation(program_id@, models(accounts@)) == Ok::<
                AllocationModel,
                ProgramFault,
            >(request@),
            Err(fault) => agent_allocation(program_id@, models(accounts@)) == Err::<
                AllocationModel,
                ProgramFault,
            >(fault),
        },
{
    if accounts.len() < 4 {
        return Err(ProgramFault::NotEnoughAccountKeys);
    }
    if !accounts[1].is_signer {
        return Err(ProgramFault::MissingRequiredSignature);
    }
    Ok(
        AllocationRequest {
            payer: accounts[1].key,
            slot: accounts[0].key,
            space: 49,
            owner: *program_id,
        },
    )
}

/// Decides what the host must do before the handler of a call runs.
pub fn plan_allocation(
    program_id: &Identity,
    accounts: &Vec<Account>,
    instruction_data: &[u8],
) -> (plan: Result<Option<AllocationRequest>, ProgramFault>)
    ensures
        match plan {
            Ok(Some(request)) => allocation_step(program_id@, models(accounts@), instruction_data@)
                == Ok::<Option<AllocationModel>, ProgramFault>(Some(request@)),
            Ok(None) => allocation_step(program_id@, models(accounts@), instruction_data@) == Ok::<
                Option<AllocationModel>,
                ProgramFault,
            >(None),
            Err(fault) => allocation_step(program_id@, models(accounts@), instruction_data@)
                == Err::<Option<AllocationModel>, ProgramFault>(fault),
        },
{
    match AIInfraInstruction::from_bytes(instruction_data) {
        Err(e) => Err(ProgramFault::Custom(e.code())),
        Ok(AIInfraInstruction::RegisterAgent) => {
            match plan_agent_allocation(program_id, accounts) {
                Ok(request) => Ok(Some(request)),
                Err(fault) => Err(fault),
            }
        },
        Ok(_) => Ok(None),
    }
}

/// Registers an agent in the slot that the host has allocated.
pub fn process_register_agent(
    program_id: &Identity,
    accounts: &mut Vec<Account>,
    minimum_balance: u64,
) -> (result: Result<(), ProgramFault>)
    ensures
        final(accounts)@.len() == old(accounts)@.len(),
        settles(
            models(old(accounts)@),
            models(final(accounts)@),
            result,
            register_step(models(old(accounts)@), minimum_balance),
        ),
{
    if accounts.len() < 4 {
        return Err(ProgramFault::NotEnoughAccountKeys);
    }
    if !accounts[1].is_signer {
        return Err(ProgramFault::MissingRequiredSignature);
    }
    if accounts[0].lamports < minimum_balance {
        return Err(ProgramFault::Custom(AIInfraError::NotRentExempt.code()));
    }
    if accounts[0].data.len() < AGENT_LEN {
        return Err(ProgramFault::BorshIoError);
    }
    let agent = AIAgent::fresh(accounts[1].key);
    store(accounts, 0, agent.to_bytes());
    Ok(())
}

/// Creates a task against an agent's balance.
pub fn process_create_task(
    program_id: &Identity,
    accounts: &mut Vec<Account>,
    requirements: ComputeRequirements,
    payment_amount: u64,
) -> (result: Result<(), ProgramFault>)
    ensures
        final(accounts)@.len() == old(accounts)@.len(),
        settles(
            models(old(accounts)@),
            models(final(accounts)@),
            result,
            create_step(models(old(accounts)@), requirements, payment_amount),
        ),
{
    if accounts.len() < 3 {
        return Err(ProgramFault::NotEnoughAccountKeys);
    }
    if !accounts[2].is_signer {
        return Err(ProgramFault::MissingRequiredSignature);
    }
    let mut agent = match AIAgent::from_bytes(accounts[1].data.as_slice()) {
        None => {
            return Err(ProgramFault::BorshIoError);
        },
        Some(agent) => agent,
    };
    if agent.compute_credits < payment_amount {
        return Err(ProgramFault::Custom(AIInfraError::InsufficientCredits.code()));
    }
    if accounts[0].data.len() < TASK_LEN {
        return Err(ProgramFault::BorshIoError);
    }
    let task = ComputeTask::fresh(accounts[1].key, requirements, payment_amount);
    agent.compute_credits = agent.compute_credits - payment_amount;
    store(accounts, 0, task.to_bytes());
    store(accounts, 1, agent.to_bytes());
    Ok(())
}

/// Moves a pending task into progress. The task is found by position;
/// `task_id` travels with the instruction and is not compared with the key
/// of the slot.
pub fn process_start_task(
    program_id: &Identity,
    accounts: &mut Vec<Account>,
    task_id: Identity,
) -> (result: Result<(), ProgramFault>)
    ensures
        final(accounts)@.len() == old(accounts)@.len(),
        settles(
            models(old(accounts)@),
            models(final(accounts)@),
            result,
            start_step(program_id@, models(old(accounts)@)),
        ),
{
    if accounts.len() < 2 {
        return Err(ProgramFault::NotEnoughAccountKeys);
    }
    if !accounts[0].owner.same(program_id) {
        return Err(ProgramFault::IncorrectProgramId);
    }
    let mut task = match ComputeTask::from_bytes(accounts[0].data.as_slice()) {
        None => {
            return Err(ProgramFault::BorshIoError);
        },
        Some(task) => task,
    };
    match task.status {
        TaskStatus::Pending => {},
        _ => {
            return Err(ProgramFault::InvalidAccountData);
        },
    }
    task.status = TaskStatus::InProgress;
    store(accounts, 0, task.to_bytes());
    Ok(())
}

/// Completes a task in progress and counts it for the agent, whose
/// reputation stays as it is. The task is found by position; `task_id`
/// travels with the instruction and is not compared with the key of the slot.
pub fn process_complete_task(
    program_id: &Identity,
    accounts: &mut Vec<Account>,
    task_id: Identity,
    result_hash: [u8; 32],
) -> (result: Result<(), ProgramFault>)
    ensures
        final(accounts)@.len() == old(accounts)@.len(),
        settles(
            models(old(accounts)@),
            models(final(accounts)@),
            result,
            complete_step(program_id@, models(old(accounts)@), result_hash@),
        ),
{
    if accounts.len() < 2 {
        return Err(ProgramFault::NotEnoughAccountKeys);
    }
    if !accounts[0].owner.same(program_id) {
        return Err(ProgramFault::IncorrectProgramId);
    }
    let mut task = match ComputeTask::from_bytes(accounts[0].data.as_slice()) {
        None => {
            return Err(ProgramFault::BorshIoError);
        },
        Some(task) => task,
    };
    match task.status {
        TaskStatus::InProgress => {},
        _ => {
            return Err(ProgramFault::InvalidAccountData);
        },
    }
    let mut agent = match AIAgent::from_bytes(accounts[1].data.as_slice()) {
        None => {
            return Err(ProgramFault::BorshIoError);
        },
        Some(agent) => agent,
    };
    if agent.tasks_completed == u32::MAX {
        return Err(ProgramFault::ArithmeticOverflow);
    }
    task.status = TaskStatus::Completed;
    task.result_hash = result_hash;
    agent.tasks_completed = agent.tasks_completed + 1;
    store(accounts, 0, task.to_bytes());
    store(accounts, 1, agent.to_bytes());
    Ok(())
}

/// Marks a task that is pending or in progress as failed. No instruction
/// carries this transition; a host that gives up a task calls it directly.
pub fn process_fail_task(
    program_id: &Identity,
    accounts: &mut Vec<Account>,
) -> (result: Result<(), ProgramFault>)
    ensures
        final(accounts)@.len() == old(accounts)@.len(),
        settles(
            models(old(accounts)@),
            models(final(accounts)@),
            result,
            fail_step(program_id@, models(old(accounts)@)),
        ),
{
    if accounts.len() < 2 {
        return Err(ProgramFault::NotEnoughAccountKeys);
    }
    if !accounts[0].owner.same(program_id) {
        return Err(ProgramFault::IncorrectProgramId);
    }
    let mut task = match ComputeTask::from_bytes(accounts[0].data.as_slice()) {
        None => {
            return Err(ProgramFault::BorshIoError);
        },
        Some(task) => task,
    };
    if task.status.is_terminal() {
        return Err(ProgramFault::InvalidAccountData);
    }
    task.status = TaskStatus::Failed;
    store(accounts, 0, task.to_bytes());
    Ok(())
}

/// Runs the guards that deposit, withdrawal and status update share, and
/// reads the agent.
pub fn load_owned_agent(accounts: &Vec<Account>) -> (loaded: Result<AIAgent, ProgramFault>)
    ensures
        match loaded {
            Ok(agent) => owned_agent(models(accounts@)) == Ok::<AgentModel, ProgramFault>(agent@),
            Err(fault) => owned_agent(models(accounts@)) == Err::<AgentModel, ProgramFault>(fault),
        },
{
    if accounts.len() < 2 {
        return Err(ProgramFault::NotEnoughAccountKeys);
    }
    if !accounts[1].is_signer {
        return Err(ProgramFault::MissingRequiredSignature);
    }
    let agent = match AIAgent::from_bytes(accounts[0].data.as_slice()) {
        None => {
            return Err(ProgramFault::BorshIoError);
        },
        Some(agent) => agent,
    };
    if !agent.owner.same(&accounts[1].key) {
        return Err(ProgramFault::InvalidAccountData);
    }
    Ok(agent)
}

/// Adds credits to the signer's agent.
pub fn process_deposit_credits(
    program_id: &Identity,
    accounts: &mut Vec<Account>,
    amount: u64,
) -> (result: Result<(), ProgramFault>)
    ensures
        final(accounts)@.len() == old(accounts)@.len(),
        settles(
            models(old(accounts)@),
            models(final(accounts)@),
            result,
            deposit_step(models(old(accounts)@), amount),
        ),
{
    let mut agent = match load_owned_agent(accounts) {
        Err(fault) => {
            return Err(fault);
        },
        Ok(agent) => agent,
    };
    match agent.compute_credits.checked_add(amount) {
        None => Err(ProgramFault::InvalidInstructionData),
        Some(sum) => {
            agent.compute_credits = sum;
            store(accounts, 0, agent.to_bytes());
            Ok(())
        },
    }
}

/// Takes credits from the signer's agent.
pub fn process_withdraw_credits(
    program_id: &Identity,
    accounts: &mut Vec<Account>,
    amount: u64,
) -> (result: Result<(), ProgramFault>)
    ensures
        final(accounts)@.len() == old(accounts)@.len(),
        settles(
            models(old(accounts)@),
            models(final(accounts)@),
            result,
            withdraw_step(models(old(accounts)@), amount),
        ),
{
    let mut agent = match load_owned_agent(accounts) {
        Err(fault) => {
            return Err(fault);
        },
        Ok(agent) => agent,
    };
    if agent.compute_credits < amount {
        return Err(ProgramFault::InsufficientFunds);
    }
    agent.compute_credits = agent.compute_credits - amount;
    store(accounts, 0, agent.to_bytes());
    Ok(())
}

/// Switches the signer's agent on or off.
pub fn process_update_status(
    program_id: &Identity,
    accounts: &mut Vec<Account>,
    is_active: bool,
) -> (result: Result<(), ProgramFault>)
    ensures
        final(accounts)@.len() == old(accounts)@.len(),
        settles(
            models(old(accounts)@),
            models(final(accounts)@),
            result,
            status_step(models(old(accounts)@), is_active),
        ),
{
    let mut agent = match load_owned_agent(accounts) {
        Err(fault) => {
            return Err(fault);
        },
        Ok(agent) => agent,
    };
    agent.is_active = is_active;
    store(accounts, 0, agent.to_bytes());
    Ok(())
}

/// Reads the payload and runs the handler of the instruction that it
/// carries. `minimum_balance` is the funding that the host asks of a slot
/// that holds an agent.
pub fn process_instruction(
    program_id: &Identity,
    accounts: &mut Vec<Account>,
    instruction_data: &[u8],
    minimum_balance: u64,
) -> (result: Result<(), ProgramFault>)
    ensures
        final(accounts)@.len() == old(accounts)@.len(),
        settles(
            models(old(accounts)@),
            models(final(accounts)@),
            result,
            instruction_step(
                program_id@,
                models(old(accounts)@),
                instruction_data@,
                minimum_balance,
            ),
        ),
{
    let instruction = match AIInfraInstruction::from_bytes(instruction_data) {
        Err(e) => {
            return Err(ProgramFault::Custom(e.code()));
        },
        Ok(instruction) => instruction,
    };
    match instruction {
        AIInfraInstruction::RegisterAgent => process_register_agent(
            program_id,
            accounts,
            minimum_balance,
        ),
        AIInfraInstruction::CreateTask { requirements, payment_amount } => process_create_task(
            program_id,
            accounts,
            requirements,
            payment_amount,
        ),
        AIInfraInstruction::StartTask { task_id } => process_start_task(
            program_id,
            accounts,
            task_id,
        ),
        AIInfraInstruction::CompleteTask { task_id, result_hash } => process_complete_task(
            program_id,
            accounts,
            task_id,
            result_hash,
        ),
        AIInfraInstruction::DepositCredits { amount } => process_deposit_credits(
            program_id,
            accounts,
            amount,
        ),
        AIInfraInstruction::WithdrawCredits { amount } => process_withdraw_credits(
            program_id,
            accounts,
            amount,
        ),
        AIInfraInstruction::UpdateAgentStatus { is_active } => process_update_status(
            program_id,
            accounts,
            is_active,
        ),
    }
}

/// The dispatch as an associated function.
pub struct Processor;

impl Processor {
    /// Reads the payload and runs the handler of the instruction that it
    /// carries, as `process_instruction` does.
    pub fn process(
        program_id: &Identity,
        accounts: &mut Vec<Account>,
        instruction_data: &[u8],
        minimum_balance: u64,
    ) -> (result: Result<(), ProgramFault>)
        ensures
            final(accounts)@.len() == old(accounts)@.len(),
            settles(
                models(old(accounts)@),
                models(final(accounts)@),
                result,
                instruction_step(
                    program_id@,
                    models(old(accounts)@),
                    instruction_data@,
                    minimum_balance,
                ),
            ),
    {
        process_instruction(program_id, accounts, instruction_data, minimum_balance)
    }
}

} // verus!
