use sonic_ai_infra::{
    add, load_owned_agent, plan_agent_allocation, plan_allocation, process_complete_task,
    process_create_task, process_deposit_credits, process_fail_task, process_instruction,
    process_register_agent, process_start_task, process_update_status,
    process_withdraw_credits, AIAgent, AIInfraError, AIInfraInstruction, Account,
    AllocationRequest, ComputeRequirements, ComputeTask, Identity, Processor, ProgramFault,
    TaskStatus, AGENT_LEN, TASK_LEN,
};

fn key(n: u8) -> Identity {
    Identity::new([n; 32])
}

fn program() -> Identity {
    key(9)
}

fn slot(k: Identity, is_signer: bool, data: Vec<u8>) -> Account {
    Account { key: k, owner: program(), is_signer, lamports: 1_000_000, data }
}

fn signer(k: Identity) -> Account {
    Account { key: k, owner: key(0), is_signer: true, lamports: 5, data: Vec::new() }
}

fn agent_with(owner: Identity, credits: u64) -> AIAgent {
    AIAgent {
        owner,
        compute_credits: credits,
        reputation_score: 100,
        tasks_completed: 0,
        is_active: true,
    }
}

fn requirements() -> ComputeRequirements {
    ComputeRequirements { cpu_units: 100, memory_mb: 512, storage_mb: 1024, max_time_seconds: 3600 }
}

fn agent_of(account: &Account) -> AIAgent {
    AIAgent::from_bytes(&account.data).unwrap()
}

fn task_of(account: &Account) -> ComputeTask {
    ComputeTask::from_bytes(&account.data).unwrap()
}

/// Task slot, agent slot with `credits`, signing owner.
fn market(credits: u64) -> Vec<Account> {
    vec![
        slot(key(2), false, vec![0u8; TASK_LEN]),
        slot(key(1), false, agent_with(key(3), credits).to_bytes()),
        signer(key(3)),
    ]
}

/// Agent slot with `credits`, signing owner.
fn wallet(credits: u64) -> Vec<Account> {
    vec![slot(key(1), false, agent_with(key(3), credits).to_bytes()), signer(key(3))]
}

#[test]
fn it_works() {
    let result = add(2, 2);
    assert_eq!(result, 4);
}

#[test]
fn test_agent_registration() {
    let program_id = program();
    let space = 32 + 8 + 4 + 4 + 1;
    assert_eq!(space, AGENT_LEN);
    let mut accounts = vec![
        slot(key(1), false, vec![0u8; space]),
        signer(key(3)),
        signer(key(0)),
        signer(key(7)),
    ];
    let payload = AIInfraInstruction::RegisterAgent.to_bytes();
    process_instruction(&program_id, &mut accounts, &payload, 1_000_000).unwrap();
    assert_eq!(accounts[0].owner, program_id);
    let agent = agent_of(&accounts[0]);
    assert_eq!(agent.owner, key(3));
    assert_eq!(agent.compute_credits, 0);
    assert_eq!(agent.reputation_score, 100);
    assert_eq!(agent.tasks_completed, 0);
    assert!(agent.is_active);
}

#[test]
fn test_task_creation_and_execution() {
    let program_id = program();
    let initial_credits = 1000;
    let mut accounts = market(initial_credits);
    let payment_amount = 500;
    let instruction_data =
        AIInfraInstruction::CreateTask { requirements: requirements(), payment_amount }.to_bytes();
    process_instruction(&program_id, &mut accounts, &instruction_data, 0).unwrap();

    let task = task_of(&accounts[0]);
    assert_eq!(task.agent, key(1));
    assert_eq!(task.payment_amount, payment_amount);
    assert_eq!(task.status, TaskStatus::Pending);
    assert_eq!(task.requirements, requirements());
    assert_eq!(task.result_hash, [0u8; 32]);

    let updated_agent = agent_of(&accounts[1]);
    assert_eq!(updated_agent.compute_credits, initial_credits - payment_amount);
    assert_eq!(updated_agent.compute_credits, 500);
}

#[test]
fn test_credit_management() {
    let program_id = program();
    let mut accounts = vec![
        slot(key(1), false, vec![0u8; AGENT_LEN]),
        signer(key(3)),
        signer(key(0)),
        signer(key(7)),
    ];
    process_instruction(
        &program_id,
        &mut accounts,
        &AIInfraInstruction::RegisterAgent.to_bytes(),
        0,
    )
    .unwrap();
    accounts.truncate(2);

    let deposit_amount = 1000;
    let instruction_data = AIInfraInstruction::DepositCredits { amount: deposit_amount }.to_bytes();
    process_instruction(&program_id, &mut accounts, &instruction_data, 0).unwrap();

    let agent = agent_of(&accounts[0]);
    assert_eq!(agent.compute_credits, deposit_amount);
}

#[test]
fn register_refuses_missing_signature() {
    let mut accounts = vec![
        slot(key(1), false, vec![0u8; AGENT_LEN]),
        slot(key(3), false, Vec::new()),
        signer(key(0)),
        signer(key(7)),
    ];
    let before = accounts.clone();
    let r = process_register_agent(&program(), &mut accounts, 0);
    assert_eq!(r, Err(ProgramFault::MissingRequiredSignature));
    assert_eq!(accounts, before);
}

#[test]
fn register_refuses_underfunded_slot() {
    let mut accounts = vec![
        slot(key(1), false, vec![0u8; AGENT_LEN]),
        signer(key(3)),
        signer(key(0)),
        signer(key(7)),
    ];
    let before = accounts.clone();
    let r = process_register_agent(&program(), &mut accounts, 1_000_001);
    assert_eq!(r, Err(ProgramFault::Custom(1)));
    assert_eq!(r, Err(ProgramFault::from(AIInfraError::NotRentExempt)));
    assert_eq!(accounts, before);
    assert_eq!(process_register_agent(&program(), &mut accounts, 1_000_000), Ok(()));
}

#[test]
fn register_refuses_too_few_accounts_and_small_slot() {
    let mut three = vec![slot(key(1), false, vec![0u8; AGENT_LEN]), signer(key(3)), signer(key(0))];
    assert_eq!(
        process_register_agent(&program(), &mut three, 0),
        Err(ProgramFault::NotEnoughAccountKeys)
    );
    let mut small = vec![
        slot(key(1), false, vec![0u8; AGENT_LEN - 1]),
        signer(key(3)),
        signer(key(0)),
        signer(key(7)),
    ];
    let before = small.clone();
    assert_eq!(process_register_agent(&program(), &mut small, 0), Err(ProgramFault::BorshIoError));
    assert_eq!(small, before);
}

#[test]
fn register_keeps_the_tail_of_a_larger_slot() {
    let mut accounts = vec![
        slot(key(1), false, vec![0xAAu8; AGENT_LEN + 7]),
        signer(key(3)),
        signer(key(0)),
        signer(key(7)),
    ];
    assert_eq!(process_register_agent(&program(), &mut accounts, 0), Ok(()));
    assert_eq!(accounts[0].data.len(), AGENT_LEN + 7);
    assert_eq!(&accounts[0].data[..AGENT_LEN], &AIAgent::fresh(key(3)).to_bytes()[..]);
    assert_eq!(&accounts[0].data[AGENT_LEN..], &[0xAAu8; 7][..]);
}

#[test]
fn plan_asks_for_a_slot_of_agent_size() {
    let accounts = vec![
        slot(key(1), false, Vec::new()),
        signer(key(3)),
        signer(key(0)),
        signer(key(7)),
    ];
    let request = AllocationRequest { payer: key(3), slot: key(1), space: 49, owner: program() };
    assert_eq!(plan_agent_allocation(&program(), &accounts), Ok(request));
    assert_eq!(
        plan_allocation(&program(), &accounts, &AIInfraInstruction::RegisterAgent.to_bytes()),
        Ok(Some(request))
    );
    assert_eq!(
        plan_allocation(
            &program(),
            &accounts,
            &AIInfraInstruction::DepositCredits { amount: 1 }.to_bytes()
        ),
        Ok(None)
    );
    assert_eq!(plan_allocation(&program(), &accounts, &[9u8]), Err(ProgramFault::Custom(0)));
    let mut unsigned = accounts.clone();
    unsigned[1].is_signer = false;
    assert_eq!(
        plan_agent_allocation(&program(), &unsigned),
        Err(ProgramFault::MissingRequiredSignature)
    );
    assert_eq!(
        plan_allocation(&program(), &unsigned, &AIInfraInstruction::RegisterAgent.to_bytes()),
        Err(ProgramFault::MissingRequiredSignature)
    );
    unsigned.truncate(3);
    assert_eq!(
        plan_agent_allocation(&program(), &unsigned),
        Err(ProgramFault::NotEnoughAccountKeys)
    );
}

#[test]
fn create_task_scenario() {
    let mut accounts = market(1000);
    let r = process_create_task(&program(), &mut accounts, requirements(), 500);
    assert_eq!(r, Ok(()));
    let task = task_of(&accounts[0]);
    assert_eq!(task.status, TaskStatus::Pending);
    assert_eq!(task.payment_amount, 500);
    assert_eq!(agent_of(&accounts[1]).compute_credits, 500);
}

#[test]
fn create_task_takes_the_whole_balance() {
    let mut accounts = market(500);
    assert_eq!(process_create_task(&program(), &mut accounts, requirements(), 500), Ok(()));
    assert_eq!(agent_of(&accounts[1]).compute_credits, 0);
}

#[test]
fn create_task_refuses_payment_above_balance() {
    let mut accounts = market(499);
    let before = accounts.clone();
    let r = process_create_task(&program(), &mut accounts, requirements(), 500);
    assert_eq!(r, Err(ProgramFault::Custom(2)));
    assert_eq!(r, Err(ProgramFault::from(AIInfraError::InsufficientCredits)));
    assert_eq!(accounts, before);
}

#[test]
fn create_task_guards_in_order() {
    let mut two = market(1000);
    two.truncate(2);
    assert_eq!(
        process_create_task(&program(), &mut two, requirements(), 1),
        Err(ProgramFault::NotEnoughAccountKeys)
    );
    let mut unsigned = market(1000);
    unsigned[2].is_signer = false;
    unsigned[1].data = vec![1, 2, 3];
    assert_eq!(
        process_create_task(&program(), &mut unsigned, requirements(), 1),
        Err(ProgramFault::MissingRequiredSignature)
    );
    let mut garbled = market(1000);
    garbled[1].data = vec![1, 2, 3];
    assert_eq!(
        process_create_task(&program(), &mut garbled, requirements(), 1),
        Err(ProgramFault::BorshIoError)
    );
    let mut cramped = market(1000);
    cramped[0].data = vec![0u8; TASK_LEN - 1];
    let before = cramped.clone();
    assert_eq!(
        process_create_task(&program(), &mut cramped, requirements(), 1),
        Err(ProgramFault::BorshIoError)
    );
    assert_eq!(cramped, before);
}

#[test]
fn start_task_succeeds_once() {
    let mut accounts = market(1000);
    process_create_task(&program(), &mut accounts, requirements(), 500).unwrap();
    assert_eq!(process_start_task(&program(), &mut accounts, key(2)), Ok(()));
    assert_eq!(task_of(&accounts[0]).status, TaskStatus::InProgress);
    let after_first = accounts.clone();
    assert_eq!(
        process_start_task(&program(), &mut accounts, key(2)),
        Err(ProgramFault::InvalidAccountData)
    );
    assert_eq!(accounts, after_first);
}

#[test]
fn start_task_refuses_foreign_slot() {
    let mut accounts = market(1000);
    process_create_task(&program(), &mut accounts, requirements(), 500).unwrap();
    accounts[0].owner = key(8);
    let before = accounts.clone();
    assert_eq!(
        process_start_task(&program(), &mut accounts, key(2)),
        Err(ProgramFault::IncorrectProgramId)
    );
    assert_eq!(accounts, before);
    let mut one = vec![accounts[0].clone()];
    assert_eq!(
        process_start_task(&program(), &mut one, key(2)),
        Err(ProgramFault::NotEnoughAccountKeys)
    );
}

#[test]
fn start_task_refuses_unreadable_task() {
    let mut accounts = market(1000);
    accounts[0].data[48] = 4;
    assert_eq!(
        process_start_task(&program(), &mut accounts, key(2)),
        Err(ProgramFault::BorshIoError)
    );
}

#[test]
fn complete_task_succeeds_once() {
    let mut accounts = market(1000);
    process_create_task(&program(), &mut accounts, requirements(), 500).unwrap();
    process_start_task(&program(), &mut accounts, key(2)).unwrap();
    let hash = [7u8; 32];
    assert_eq!(process_complete_task(&program(), &mut accounts, key(2), hash), Ok(()));
    let task = task_of(&accounts[0]);
    assert_eq!(task.status, TaskStatus::Completed);
    assert_eq!(task.result_hash, hash);
    assert_eq!(task.payment_amount, 500);
    assert_eq!(task.requirements, requirements());
    let agent = agent_of(&accounts[1]);
    assert_eq!(agent.tasks_completed, 1);
    assert_eq!(agent.reputation_score, 100);
    assert_eq!(agent.compute_credits, 500);

    let after_first = accounts.clone();
    assert_eq!(
        process_complete_task(&program(), &mut accounts, key(2), [8u8; 32]),
        Err(ProgramFault::InvalidAccountData)
    );
    assert_eq!(accounts, after_first);
    assert_eq!(
        process_start_task(&program(), &mut accounts, key(2)),
        Err(ProgramFault::InvalidAccountData)
    );
    assert_eq!(accounts, after_first);
}

#[test]
fn complete_task_needs_a_started_task() {
    let mut accounts = market(1000);
    process_create_task(&program(), &mut accounts, requirements(), 500).unwrap();
    let before = accounts.clone();
    assert_eq!(
        process_complete_task(&program(), &mut accounts, key(2), [7u8; 32]),
        Err(ProgramFault::InvalidAccountData)
    );
    assert_eq!(accounts, before);
}

#[test]
fn complete_task_changes_nothing_when_the_agent_is_unreadable() {
    let mut accounts = market(1000);
    process_create_task(&program(), &mut accounts, requirements(), 500).unwrap();
    process_start_task(&program(), &mut accounts, key(2)).unwrap();
    accounts[1].data = vec![0u8; 3];
    let before = accounts.clone();
    assert_eq!(
        process_complete_task(&program(), &mut accounts, key(2), [7u8; 32]),
        Err(ProgramFault::BorshIoError)
    );
    assert_eq!(accounts, before);
}

#[test]
fn complete_task_refuses_a_full_counter() {
    let mut accounts = market(1000);
    process_create_task(&program(), &mut accounts, requirements(), 500).unwrap();
    process_start_task(&program(), &mut accounts, key(2)).unwrap();
    let mut agent = agent_of(&accounts[1]);
    agent.tasks_completed = u32::MAX;
    accounts[1].data = agent.to_bytes();
    let before = accounts.clone();
    assert_eq!(
        process_complete_task(&program(), &mut accounts, key(2), [7u8; 32]),
        Err(ProgramFault::ArithmeticOverflow)
    );
    assert_eq!(accounts, before);
}

#[test]
fn failed_task_cannot_be_started_or_completed() {
    let mut accounts = market(1000);
    process_create_task(&program(), &mut accounts, requirements(), 500).unwrap();
    let mut task = task_of(&accounts[0]);
    task.status = TaskStatus::Failed;
    accounts[0].data = task.to_bytes();
    assert_eq!(
        process_start_task(&program(), &mut accounts, key(2)),
        Err(ProgramFault::InvalidAccountData)
    );
    assert_eq!(
        process_complete_task(&program(), &mut accounts, key(2), [1u8; 32]),
        Err(ProgramFault::InvalidAccountData)
    );
    assert!(TaskStatus::Failed.is_terminal());
    assert!(TaskStatus::Completed.is_terminal());
    assert!(!TaskStatus::Pending.is_terminal());
    assert!(!TaskStatus::InProgress.is_terminal());
}

#[test]
fn deposit_on_fresh_agent() {
    let mut accounts = vec![slot(key(1), false, AIAgent::fresh(key(3)).to_bytes()), signer(key(3))];
    assert_eq!(process_deposit_credits(&program(), &mut accounts, 1000), Ok(()));
    assert_eq!(agent_of(&accounts[0]).compute_credits, 1000);
}

#[test]
fn deposit_fails_closed_on_overflow() {
    let mut accounts = wallet(u64::MAX - 5);
    let before = accounts.clone();
    assert_eq!(
        process_deposit_credits(&program(), &mut accounts, 6),
        Err(ProgramFault::InvalidInstructionData)
    );
    assert_eq!(accounts, before);
    assert_eq!(process_deposit_credits(&program(), &mut accounts, 5), Ok(()));
    assert_eq!(agent_of(&accounts[0]).compute_credits, u64::MAX);
}

#[test]
fn withdraw_needs_cover() {
    let mut accounts = wallet(100);
    let before = accounts.clone();
    assert_eq!(
        process_withdraw_credits(&program(), &mut accounts, 101),
        Err(ProgramFault::InsufficientFunds)
    );
    assert_eq!(accounts, before);
    assert_eq!(process_withdraw_credits(&program(), &mut accounts, 100), Ok(()));
    assert_eq!(agent_of(&accounts[0]).compute_credits, 0);
}

#[test]
fn deposit_then_withdraw_round_trip() {
    let mut accounts = wallet(77);
    let before = accounts.clone();
    assert_eq!(process_deposit_credits(&program(), &mut accounts, 123_456), Ok(()));
    assert_eq!(agent_of(&accounts[0]).compute_credits, 123_533);
    assert_eq!(process_withdraw_credits(&program(), &mut accounts, 123_456), Ok(()));
    assert_eq!(accounts, before);
}

#[test]
fn stranger_cannot_touch_an_agent() {
    let mut accounts = wallet(100);
    accounts[1] = signer(key(4));
    let before = accounts.clone();
    assert_eq!(
        process_deposit_credits(&program(), &mut accounts, 1),
        Err(ProgramFault::InvalidAccountData)
    );
    assert_eq!(accounts, before);
    assert_eq!(
        process_withdraw_credits(&program(), &mut accounts, 1),
        Err(ProgramFault::InvalidAccountData)
    );
    assert_eq!(accounts, before);
    assert_eq!(
        process_update_status(&program(), &mut accounts, false),
        Err(ProgramFault::InvalidAccountData)
    );
    assert_eq!(accounts, before);
    assert_eq!(load_owned_agent(&accounts), Err(ProgramFault::InvalidAccountData));
}

#[test]
fn owner_must_sign() {
    let mut accounts = wallet(100);
    accounts[1].is_signer = false;
    let before = accounts.clone();
    assert_eq!(
        process_deposit_credits(&program(), &mut accounts, 1),
        Err(ProgramFault::MissingRequiredSignature)
    );
    assert_eq!(
        process_withdraw_credits(&program(), &mut accounts, 1),
        Err(ProgramFault::MissingRequiredSignature)
    );
    assert_eq!(
        process_update_status(&program(), &mut accounts, false),
        Err(ProgramFault::MissingRequiredSignature)
    );
    assert_eq!(accounts, before);
    accounts.truncate(1);
    assert_eq!(
        process_deposit_credits(&program(), &mut accounts, 1),
        Err(ProgramFault::NotEnoughAccountKeys)
    );
}

#[test]
fn update_status_switches_only_the_flag() {
    let mut accounts = wallet(100);
    assert_eq!(process_update_status(&program(), &mut accounts, false), Ok(()));
    let agent = agent_of(&accounts[0]);
    assert!(!agent.is_active);
    assert_eq!(agent.compute_credits, 100);
    assert_eq!(agent.owner, key(3));
    assert_eq!(load_owned_agent(&accounts), Ok(agent));
    assert_eq!(process_update_status(&program(), &mut accounts, true), Ok(()));
    assert_eq!(accounts, wallet(100));
}

#[test]
fn unknown_or_truncated_payload_is_invalid_instruction() {
    let mut accounts = wallet(100);
    let before = accounts.clone();
    let payloads: Vec<Vec<u8>> = vec![
        vec![],
        vec![7],
        vec![255],
        vec![0, 0],
        vec![1],
        vec![1, 2],
        vec![5, 1, 2, 3],
        vec![5, 0, 0, 0, 0, 0, 0, 0, 0, 0],
        vec![3; 32],
    ];
    for payload in payloads.iter() {
        assert_eq!(
            AIInfraInstruction::from_bytes(payload),
            Err(AIInfraError::InvalidInstruction)
        );
        assert_eq!(
            process_instruction(&program(), &mut accounts, payload, 0),
            Err(ProgramFault::Custom(0))
        );
        assert_eq!(accounts, before);
    }
}

#[test]
fn dispatch_runs_every_handler() {
    let program_id = program();
    let mut accounts = market(1000);
    let create =
        AIInfraInstruction::CreateTask { requirements: requirements(), payment_amount: 400 };
    assert_eq!(Processor::process(&program_id, &mut accounts, &create.to_bytes(), 0), Ok(()));
    let start = AIInfraInstruction::StartTask { task_id: key(2) };
    assert_eq!(process_instruction(&program_id, &mut accounts, &start.to_bytes(), 0), Ok(()));
    let complete = AIInfraInstruction::CompleteTask { task_id: key(2), result_hash: [5u8; 32] };
    assert_eq!(process_instruction(&program_id, &mut accounts, &complete.to_bytes(), 0), Ok(()));
    assert_eq!(task_of(&accounts[0]).status, TaskStatus::Completed);
    assert_eq!(task_of(&accounts[0]).result_hash, [5u8; 32]);

    let mut purse = vec![accounts[1].clone(), signer(key(3))];
    let withdraw = AIInfraInstruction::WithdrawCredits { amount: 100 };
    assert_eq!(process_instruction(&program_id, &mut purse, &withdraw.to_bytes(), 0), Ok(()));
    let deposit = AIInfraInstruction::DepositCredits { amount: 1 };
    assert_eq!(process_instruction(&program_id, &mut purse, &deposit.to_bytes(), 0), Ok(()));
    let off = AIInfraInstruction::UpdateAgentStatus { is_active: false };
    assert_eq!(process_instruction(&program_id, &mut purse, &off.to_bytes(), 0), Ok(()));
    let agent = agent_of(&purse[0]);
    assert_eq!(agent.compute_credits, 501);
    assert_eq!(agent.tasks_completed, 1);
    assert!(!agent.is_active);
}

#[test]
fn error_codes_and_messages() {
    assert_eq!(AIInfraError::InvalidInstruction.code(), 0);
    assert_eq!(AIInfraError::NotRentExempt.code(), 1);
    assert_eq!(AIInfraError::InsufficientCredits.code(), 2);
    assert_eq!(AIInfraError::InvalidInstruction.message(), "Invalid Instruction");
    assert_eq!(AIInfraError::NotRentExempt.message(), "Not Rent Exempt");
    assert_eq!(AIInfraError::InsufficientCredits.message(), "Insufficient Credits");
    assert_eq!(ProgramFault::from(AIInfraError::InvalidInstruction), ProgramFault::Custom(0));
    assert_eq!(TaskStatus::default(), TaskStatus::Pending);
}

#[test]
fn fail_task_from_pending_and_in_progress() {
    let mut pending = market(1000);
    process_create_task(&program(), &mut pending, requirements(), 500).unwrap();
    let agent_before = pending[1].clone();
    assert_eq!(process_fail_task(&program(), &mut pending), Ok(()));
    assert_eq!(task_of(&pending[0]).status, TaskStatus::Failed);
    assert_eq!(task_of(&pending[0]).payment_amount, 500);
    assert_eq!(pending[1], agent_before);
    let after = pending.clone();
    assert_eq!(process_fail_task(&program(), &mut pending), Err(ProgramFault::InvalidAccountData));
    assert_eq!(pending, after);

    let mut running = market(1000);
    process_create_task(&program(), &mut running, requirements(), 500).unwrap();
    process_start_task(&program(), &mut running, key(2)).unwrap();
    assert_eq!(process_fail_task(&program(), &mut running), Ok(()));
    assert_eq!(task_of(&running[0]).status, TaskStatus::Failed);

    let mut done = market(1000);
    process_create_task(&program(), &mut done, requirements(), 500).unwrap();
    process_start_task(&program(), &mut done, key(2)).unwrap();
    process_complete_task(&program(), &mut done, key(2), [1u8; 32]).unwrap();
    assert_eq!(process_fail_task(&program(), &mut done), Err(ProgramFault::InvalidAccountData));

    let mut foreign = market(1000);
    process_create_task(&program(), &mut foreign, requirements(), 500).unwrap();
    foreign[0].owner = key(8);
    assert_eq!(process_fail_task(&program(), &mut foreign), Err(ProgramFault::IncorrectProgramId));
}
