//! What holds of the handlers together: the lifecycle of a task, the safety
//! of balances, and who may touch an agent.

use vstd::prelude::*;
use crate::account::{lemma_written, models, slots_valid, Account, AccountModel};
use crate::error::ProgramFault;
use crate::instruction::{
    instruction_bytes, instruction_well_formed, lemma_instruction_round_trip, InstructionModel,
};
use crate::processor::{
    complete_step, create_step, deposit_step, fail_step, instruction_step, register_step, settles,
    start_step, status_step, with_activity, with_completion, with_credits, with_outcome,
    withdraw_step,
};
use crate::state::{
    agent_bytes, agent_in, fresh_agent, fresh_task, lemma_agent_layout_unique,
    lemma_agent_round_trip, lemma_task_layout_unique, lemma_task_round_trip, task_bytes, task_in,
    ComputeRequirements, TaskStatus,
};

verus! {

/// Every key among the slots of a call has its 32 bytes.
pub proof fn law_slots_of_a_call_are_valid(accounts: Seq<Account>)
    ensures
        slots_valid(models(accounts)),
{
}

/// A failed call changes no slot.
pub proof fn law_failure_changes_nothing(
    pre: Seq<AccountModel>,
    post: Seq<AccountModel>,
    result: Result<(), ProgramFault>,
    expected: Result<Seq<AccountModel>, ProgramFault>,
)
    requires
        settles(pre, post, result, expected),
    ensures
        result is Err <==> expected is Err,
        result is Err ==> post == pre,
{
}

/// After a registration the beginning of the slot is the layout of an agent
/// with no credits, a reputation of 100, no completed task, switched on and
/// owned by the signer. In a slot of exactly the size of an agent, that agent
/// is what the slot holds.
pub proof fn law_registration_writes_fresh_agent(pre: Seq<AccountModel>, minimum_balance: u64)
    requires
        slots_valid(pre),
        register_step(pre, minimum_balance) is Ok,
    ensures
        ({
            let post = register_step(pre, minimum_balance)->Ok_0;
            let agent = fresh_agent(pre[1].key);
            &&& agent.compute_credits == 0
            &&& agent.reputation_score == 100
            &&& agent.tasks_completed == 0
            &&& agent.is_active
            &&& agent.owner == pre[1].key
            &&& post[0].data.len() == pre[0].data.len()
            &&& agent_in(post[0].data.subrange(0, 49)) == Some(agent)
            &&& pre[0].data.len() == 49 ==> agent_in(post[0].data) == Some(agent)
        }),
{
    let agent = fresh_agent(pre[1].key);
    lemma_agent_round_trip(agent);
    lemma_written(pre[0].data, agent_bytes(agent));
}

/// A task is created exactly when the agent's balance covers the payment and
/// the task fits its slot. The balance then shrinks by the payment, and the
/// task slot begins with a pending task of that payment, billed to the agent's
/// slot. A payment above the balance is refused as insufficient credits.
pub proof fn law_create_task_debits(
    pre: Seq<AccountModel>,
    requirements: ComputeRequirements,
    payment_amount: u64,
)
    requires
        slots_valid(pre),
        pre.len() >= 3,
        pre[2].is_signer,
        agent_in(pre[1].data) is Some,
    ensures
        ({
            let agent = agent_in(pre[1].data)->Some_0;
            let step = create_step(pre, requirements, payment_amount);
            &&& agent.compute_credits < payment_amount ==> step == Err::<
                Seq<AccountModel>,
                ProgramFault,
            >(ProgramFault::Custom(2))
            &&& step is Ok <==> agent.compute_credits >= payment_amount && pre[0].data.len() >= 89
            &&& step is Ok ==> {
                let post = step->Ok_0;
                &&& agent_in(post[1].data) == Some(
                    with_credits(agent, (agent.compute_credits - payment_amount) as u64),
                )
                &&& task_in(post[0].data.subrange(0, 89)) == Some(
                    fresh_task(pre[1].key, requirements, payment_amount),
                )
                &&& pre[0].data.len() == 89 ==> task_in(post[0].data) == Some(
                    fresh_task(pre[1].key, requirements, payment_amount),
                )
            }
        }),
{
    let agent = agent_in(pre[1].data)->Some_0;
    if agent.compute_credits >= payment_amount && pre[0].data.len() >= 89 {
        let task = fresh_task(pre[1].key, requirements, payment_amount);
        let next = with_credits(agent, (agent.compute_credits - payment_amount) as u64);
        lemma_agent_layout_unique(pre[1].data);
        lemma_agent_round_trip(next);
        lemma_task_round_trip(task);
        lemma_written(pre[0].data, task_bytes(task));
        lemma_written(pre[1].data, agent_bytes(next));
    }
}

/// A task starts once: after a start that succeeded the task is in progress,
/// and a second start is refused as invalid account data.
pub proof fn law_start_task_once(program: Seq<u8>, pre: Seq<AccountModel>)
    requires
        start_step(program, pre) is Ok,
    ensures
        ({
            let task = task_in(pre[0].data)->Some_0;
            let mid = start_step(program, pre)->Ok_0;
            &&& task.status == TaskStatus::Pending
            &&& task_in(mid[0].data) == Some(
                with_outcome(task, TaskStatus::InProgress, task.result_hash),
            )
            &&& start_step(program, mid) == Err::<Seq<AccountModel>, ProgramFault>(
                ProgramFault::InvalidAccountData,
            )
        }),
{
    let task = task_in(pre[0].data)->Some_0;
    let next = with_outcome(task, TaskStatus::InProgress, task.result_hash);
    lemma_task_layout_unique(pre[0].data);
    lemma_task_round_trip(next);
    lemma_written(pre[0].data, task_bytes(next));
}

/// A task completes once: after a completion that succeeded the task is
/// completed with the supplied result and the agent has one more completed
/// task, and a second completion, with whatever result, is refused as invalid
/// account data.
pub proof fn law_complete_task_once(
    program: Seq<u8>,
    pre: Seq<AccountModel>,
    result_hash: Seq<u8>,
    later_hash: Seq<u8>,
)
    requires
        result_hash.len() == 32,
        complete_step(program, pre, result_hash) is Ok,
    ensures
        ({
            let task = task_in(pre[0].data)->Some_0;
            let agent = agent_in(pre[1].data)->Some_0;
            let mid = complete_step(program, pre, result_hash)->Ok_0;
            &&& task.status == TaskStatus::InProgress
            &&& task_in(mid[0].data) == Some(
                with_outcome(task, TaskStatus::Completed, result_hash),
            )
            &&& agent_in(mid[1].data) == Some(with_completion(agent))
            &&& with_completion(agent).tasks_completed == agent.tasks_completed + 1
            &&& complete_step(program, mid, later_hash) == Err::<Seq<AccountModel>, ProgramFault>(
                ProgramFault::InvalidAccountData,
            )
        }),
{
    let task = task_in(pre[0].data)->Some_0;
    let agent = agent_in(pre[1].data)->Some_0;
    let done = with_outcome(task, TaskStatus::Completed, result_hash);
    lemma_task_layout_unique(pre[0].data);
    lemma_agent_layout_unique(pre[1].data);
    lemma_task_round_trip(done);
    lemma_agent_round_trip(with_completion(agent));
    lemma_written(pre[0].data, task_bytes(done));
    lemma_written(pre[1].data, agent_bytes(with_completion(agent)));
}

/// No handler moves a task out of a final status: on a task that is
/// completed or failed, start, completion and failure are each refused.
pub proof fn law_final_status_stays(program: Seq<u8>, pre: Seq<AccountModel>, result_hash: Seq<u8>)
    requires
        task_in(pre[0].data) is Some,
        (task_in(pre[0].data)->Some_0).status.spec_is_terminal(),
    ensures
        start_step(program, pre) is Err,
        complete_step(program, pre, result_hash) is Err,
        fail_step(program, pre) is Err,
{
}

/// A task that has failed stays failed: after a failure that succeeded the
/// slot holds the task as failed, with everything else as it was.
pub proof fn law_fail_task_is_final(program: Seq<u8>, pre: Seq<AccountModel>)
    requires
        fail_step(program, pre) is Ok,
    ensures
        ({
            let task = task_in(pre[0].data)->Some_0;
            let post = fail_step(program, pre)->Ok_0;
            &&& task.status == TaskStatus::Pending || task.status == TaskStatus::InProgress
            &&& task_in(post[0].data) == Some(
                with_outcome(task, TaskStatus::Failed, task.result_hash),
            )
            &&& post[1] == pre[1]
            &&& fail_step(program, post) is Err
        }),
{
    let task = task_in(pre[0].data)->Some_0;
    let next = with_outcome(task, TaskStatus::Failed, task.result_hash);
    lemma_task_layout_unique(pre[0].data);
    lemma_task_round_trip(next);
    lemma_written(pre[0].data, task_bytes(next));
}

/// A deposit that succeeded, followed by a withdrawal of the same amount,
/// gives back the slots as they were before the deposit.
pub proof fn law_deposit_then_withdraw(pre: Seq<AccountModel>, amount: u64)
    requires
        deposit_step(pre, amount) is Ok,
    ensures
        withdraw_step(deposit_step(pre, amount)->Ok_0, amount) == Ok::<
            Seq<AccountModel>,
            ProgramFault,
        >(pre),
{
    let agent = agent_in(pre[0].data)->Some_0;
    let more = with_credits(agent, (agent.compute_credits + amount) as u64);
    let mid = deposit_step(pre, amount)->Ok_0;
    lemma_agent_layout_unique(pre[0].data);
    lemma_agent_round_trip(more);
    lemma_written(pre[0].data, agent_bytes(more));
    assert(agent_in(mid[0].data) == Some(more));
    let back = with_credits(more, (more.compute_credits - amount) as u64);
    assert(back == agent);
    lemma_written(mid[0].data, agent_bytes(back));
    let post = withdraw_step(mid, amount)->Ok_0;
    assert(post =~= pre);
}

/// Only its owner touches an agent: where the signer's key is not the
/// agent's owner, deposit, withdrawal and status update are each refused as
/// invalid account data, and a call that is refused changes no byte.
pub proof fn law_stranger_is_refused(
    pre: Seq<AccountModel>,
    post: Seq<AccountModel>,
    result: Result<(), ProgramFault>,
    amount: u64,
    is_active: bool,
)
    requires
        pre.len() >= 2,
        pre[1].is_signer,
        agent_in(pre[0].data) is Some,
        (agent_in(pre[0].data)->Some_0).owner != pre[1].key,
    ensures
        deposit_step(pre, amount) == Err::<Seq<AccountModel>, ProgramFault>(
            ProgramFault::InvalidAccountData,
        ),
        withdraw_step(pre, amount) == Err::<Seq<AccountModel>, ProgramFault>(
            ProgramFault::InvalidAccountData,
        ),
        status_step(pre, is_active) == Err::<Seq<AccountModel>, ProgramFault>(
            ProgramFault::InvalidAccountData,
        ),
        settles(pre, post, result, deposit_step(pre, amount)) || settles(
            pre,
            post,
            result,
            withdraw_step(pre, amount),
        ) || settles(pre, post, result, status_step(pre, is_active)) ==> post == pre && result
            == Err::<(), ProgramFault>(ProgramFault::InvalidAccountData),
{
}

/// A deposit that succeeded adds exactly the amount to the balance, a
/// withdrawal that succeeded takes exactly the amount from it, and a status
/// update sets the flag; each leaves the owner and every other field of the
/// agent as it was.
pub proof fn law_balance_moves_by_the_amount(pre: Seq<AccountModel>, amount: u64, is_active: bool)
    requires
        agent_in(pre[0].data) is Some,
    ensures
        ({
            let agent = agent_in(pre[0].data)->Some_0;
            &&& deposit_step(pre, amount) is Ok ==> agent.compute_credits + amount <= u64::MAX
                && agent_in((deposit_step(pre, amount)->Ok_0)[0].data) == Some(
                with_credits(agent, (agent.compute_credits + amount) as u64),
            )
            &&& withdraw_step(pre, amount) is Ok ==> agent.compute_credits >= amount && agent_in(
                (withdraw_step(pre, amount)->Ok_0)[0].data,
            ) == Some(with_credits(agent, (agent.compute_credits - amount) as u64))
            &&& status_step(pre, is_active) is Ok ==> agent_in(
                (status_step(pre, is_active)->Ok_0)[0].data,
            ) == Some(with_activity(agent, is_active))
        }),
{
    let agent = agent_in(pre[0].data)->Some_0;
    lemma_agent_layout_unique(pre[0].data);
    if deposit_step(pre, amount) is Ok {
        let next = with_credits(agent, (agent.compute_credits + amount) as u64);
        lemma_agent_round_trip(next);
        lemma_written(pre[0].data, agent_bytes(next));
    }
    if withdraw_step(pre, amount) is Ok {
        let next = with_credits(agent, (agent.compute_credits - amount) as u64);
        lemma_agent_round_trip(next);
        lemma_written(pre[0].data, agent_bytes(next));
    }
    if status_step(pre, is_active) is Ok {
        let next = with_activity(agent, is_active);
        lemma_agent_round_trip(next);
        lemma_written(pre[0].data, agent_bytes(next));
    }
}

/// A call whose payload was built from an instruction runs the handler of
/// that instruction, with the arguments that the instruction carries.
pub proof fn law_dispatch_follows_the_instruction(
    program: Seq<u8>,
    pre: Seq<AccountModel>,
    instruction: InstructionModel,
    minimum_balance: u64,
)
    requires
        instruction_well_formed(instruction),
    ensures
        instruction_step(program, pre, instruction_bytes(instruction), minimum_balance)
            == match instruction {
            InstructionModel::RegisterAgent => register_step(pre, minimum_balance),
            InstructionModel::UpdateAgentStatus { is_active } => status_step(pre, is_active),
            InstructionModel::CreateTask { requirements, payment_amount } => create_step(
                pre,
                requirements,
                payment_amount,
            ),
            InstructionModel::StartTask { task_id } => start_step(program, pre),
            InstructionModel::CompleteTask { task_id, result_hash } => complete_step(
                program,
                pre,
                result_hash,
            ),
            InstructionModel::DepositCredits { amount } => deposit_step(pre, amount),
            InstructionModel::WithdrawCredits { amount } => withdraw_step(pre, amount),
        },
{
    lemma_instruction_round_trip(instruction);
}

/// When each handler succeeds: exactly when enough slots were supplied and
/// every one of its guards holds.
pub proof fn law_success_is_owed(
    program: Seq<u8>,
    pre: Seq<AccountModel>,
    requirements: ComputeRequirements,
    amount: u64,
    is_active: bool,
    result_hash: Seq<u8>,
    minimum_balance: u64,
)
    ensures
        register_step(pre, minimum_balance) is Ok <==> pre.len() >= 4 && pre[1].is_signer
            && pre[0].lamports >= minimum_balance && pre[0].data.len() >= 49,
        create_step(pre, requirements, amount) is Ok <==> pre.len() >= 3 && pre[2].is_signer
            && agent_in(pre[1].data) is Some && (agent_in(pre[1].data)->Some_0).compute_credits
            >= amount && pre[0].data.len() >= 89,
        start_step(program, pre) is Ok <==> pre.len() >= 2 && pre[0].owner == program && task_in(
            pre[0].data,
        ) is Some && (task_in(pre[0].data)->Some_0).status == TaskStatus::Pending,
        complete_step(program, pre, result_hash) is Ok <==> pre.len() >= 2 && pre[0].owner
            == program && task_in(pre[0].data) is Some && (task_in(pre[0].data)->Some_0).status
            == TaskStatus::InProgress && agent_in(pre[1].data) is Some && (agent_in(
            pre[1].data,
        )->Some_0).tasks_completed < u32::MAX,
        fail_step(program, pre) is Ok <==> pre.len() >= 2 && pre[0].owner == program && task_in(
            pre[0].data,
        ) is Some && !(task_in(pre[0].data)->Some_0).status.spec_is_terminal(),
        deposit_step(pre, amount) is Ok <==> pre.len() >= 2 && pre[1].is_signer && agent_in(
            pre[0].data,
        ) is Some && (agent_in(pre[0].data)->Some_0).owner == pre[1].key && (agent_in(
            pre[0].data,
        )->Some_0).compute_credits + amount <= u64::MAX,
        withdraw_step(pre, amount) is Ok <==> pre.len() >= 2 && pre[1].is_signer && agent_in(
            pre[0].data,
        ) is Some && (agent_in(pre[0].data)->Some_0).owner == pre[1].key && (agent_in(
            pre[0].data,
        )->Some_0).compute_credits >= amount,
        status_step(pre, is_active) is Ok <==> pre.len() >= 2 && pre[1].is_signer && agent_in(
            pre[0].data,
        ) is Some && (agent_in(pre[0].data)->Some_0).owner == pre[1].key,
{
}

} // verus!
