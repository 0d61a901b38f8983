//! The records that the ledger keeps, and the fixed byte layout in which a
//! slot holds them.
//!
//! A record is laid out field by field, in declaration order: an identity and
//! a result hash as their 32 bytes, an integer in little-endian order, a
//! boolean as the byte 0 or 1, a status as the byte 0 to 3.

use vstd::prelude::*;
use vstd::bytes::*;
use vstd::slice::*;
use crate::scalar::{decode_u32, decode_u64, encode_u32, encode_u64};

verus! {

/// Number of bytes in the layout of an agent.
pub const AGENT_LEN: usize = 49;

/// Number of bytes in the layout of a task.
pub const TASK_LEN: usize = 89;

/// The key that names a participant, a slot or a program.
#[derive(Debug, Clone, Copy, PartialEq, Eq)]
pub struct Identity {
    pub bytes: [u8; 32],
}

impl View for Identity {
    type V = Seq<u8>;

    open spec fn view(&self) -> Seq<u8> {
        self.bytes@
    }
}

impl Identity {
    /// The identity with the given bytes.
    pub fn new(bytes: [u8; 32]) -> (id: Identity)
        ensures
            id@ == bytes@,
            id@.len() == 32,
    {
        Identity { bytes }
    }

    /// Whether two identities have the same bytes.
    pub fn same(&self, other: &Identity) -> (equal: bool)
        ensures
            equal == (self@ == other@),
    {
        let mut i: usize = 0;
        while i < 32
            invariant
                i <= 32,
                forall|j: int| 0 <= j < i ==> self.bytes@[j] == other.bytes@[j],
            decreases 32 - i,
        {
            if self.bytes[i] != other.bytes[i] {
                return false;
            }
            i += 1;
        }
        proof {
            assert(self.bytes@ =~= other.bytes@);
        }
        true
    }
}

/// What a task asks of the machine that runs it.
#[derive(Debug, Clone, Copy, PartialEq, Eq, Default)]
pub struct ComputeRequirements {
    pub cpu_units: u32,
    pub memory_mb: u32,
    pub storage_mb: u32,
    pub max_time_seconds: u32,
}

/// Where a task stands in its lifecycle. `Completed` and `Failed` are final.
#[derive(Debug, Clone, Copy, PartialEq, Eq)]
pub enum TaskStatus {
    Pending,
    InProgress,
    Completed,
    Failed,
}

impl Default for TaskStatus {
    fn default() -> (status: TaskStatus)
        ensures
            status == TaskStatus::Pending,
    {
        TaskStatus::Pending
    }
}

/// The byte that stands for a status in a task's layout.
pub open spec fn status_byte(status: TaskStatus) -> u8 {
    match status {
        TaskStatus::Pending => 0,
        TaskStatus::InProgress => 1,
        TaskStatus::Completed => 2,
        TaskStatus::Failed => 3,
    }
}

/// The status that a byte stands for, if any.
pub open spec fn status_of(byte: u8) -> Option<TaskStatus> {
    if byte == 0 {
        Some(TaskStatus::Pending)
    } else if byte == 1 {
        Some(TaskStatus::InProgress)
    } else if byte == 2 {
        Some(TaskStatus::Completed)
    } else if byte == 3 {
        Some(TaskStatus::Failed)
    } else {
        None
    }
}

/// The byte that stands for a boolean.
pub open spec fn flag_byte(flag: bool) -> u8 {
    if flag {
        1
    } else {
        0
    }
}

impl TaskStatus {
    /// Whether no handler may move a task out of this status.
    pub open spec fn spec_is_terminal(self) -> bool {
        self == TaskStatus::Completed || self == TaskStatus::Failed
    }

    /// Whether no handler may move a task out of this status.
    pub fn is_terminal(&self) -> (terminal: bool)
        ensures
            terminal == self.spec_is_terminal(),
    {
        match self {
            TaskStatus::Pending => false,
            TaskStatus::InProgress => false,
            TaskStatus::Completed => true,
            TaskStatus::Failed => true,
        }
    }

    /// The byte that stands for this status.
    pub fn to_byte(&self) -> (byte: u8)
        ensures
            byte == status_byte(*self),
    {
        match self {
            TaskStatus::Pending => 0,
            TaskStatus::InProgress => 1,
            TaskStatus::Completed => 2,
            TaskStatus::Failed => 3,
        }
    }

    /// The status that a byte stands for, if any.
    pub fn from_byte(byte: u8) -> (status: Option<TaskStatus>)
        ensures
            status == status_of(byte),
    {
        if byte == 0 {
            Some(TaskStatus::Pending)
        } else if byte == 1 {
            Some(TaskStatus::InProgress)
        } else if byte == 2 {
            Some(TaskStatus::Completed)
        } else if byte == 3 {
            Some(TaskStatus::Failed)
        } else {
            None
        }
    }
}

/// A registered participant.
#[derive(Debug, Clone, Copy, PartialEq, Eq)]
pub struct AIAgent {
    pub owner: Identity,
    pub compute_credits: u64,
    pub reputation_score: u32,
    pub tasks_completed: u32,
    pub is_active: bool,
}

/// An agent as a mathematical value.
pub struct AgentModel {
    pub owner: Seq<u8>,
    pub compute_credits: u64,
    pub reputation_score: u32,
    pub tasks_completed: u32,
    pub is_active: bool,
}

impl View for AIAgent {
    type V = AgentModel;

    open spec fn view(&self) -> AgentModel {
        AgentModel {
            owner: self.owner@,
            compute_credits: self.compute_credits,
            reputation_score: self.reputation_score,
            tasks_completed: self.tasks_completed,
            is_active: self.is_active,
        }
    }
}

/// One unit of requested work, billed against an agent.
#[derive(Debug, Clone, Copy, PartialEq, Eq)]
pub struct ComputeTask {
    pub agent: Identity,
    pub requirements: ComputeRequirements,
    pub status: TaskStatus,
    pub result_hash: [u8; 32],
    pub payment_amount: u64,
}

/// A task as a mathematical value.
pub struct TaskModel {
    pub agent: Seq<u8>,
    pub requirements: ComputeRequirements,
    pub status: TaskStatus,
    pub result_hash: Seq<u8>,
    pub payment_amount: u64,
}

impl View for ComputeTask {
    type V = TaskModel;

    open spec fn view(&self) -> TaskModel {
        TaskModel {
            agent: self.agent@,
            requirements: self.requirements,
            status: self.status,
            result_hash: self.result_hash@,
            payment_amount: self.payment_amount,
        }
    }
}

/// The agent that registration writes for `owner`.
pub open spec fn fresh_agent(owner: Seq<u8>) -> AgentModel {
    AgentModel {
        owner,
        compute_credits: 0,
        reputation_score: 100,
        tasks_completed: 0,
        is_active: true,
    }
}

/// The task that creation writes: pending, with no result yet.
pub open spec fn fresh_task(
    agent: Seq<u8>,
    requirements: ComputeRequirements,
    payment_amount: u64,
) -> TaskModel {
    TaskModel {
        agent,
        requirements,
        status: TaskStatus::Pending,
        result_hash: Seq::new(32, |i: int| 0u8),
        payment_amount,
    }
}

/// The layout of four requirement fields.
pub open spec fn requirements_bytes(r: ComputeRequirements) -> Seq<u8> {
    spec_u32_to_le_bytes(r.cpu_units) + spec_u32_to_le_bytes(r.memory_mb) + spec_u32_to_le_bytes(
        r.storage_mb,
    ) + spec_u32_to_le_bytes(r.max_time_seconds)
}

/// The requirements laid out in 16 bytes.
pub open spec fn requirements_in(bytes: Seq<u8>) -> ComputeRequirements {
    ComputeRequirements {
        cpu_units: spec_u32_from_le_bytes(bytes.subrange(0, 4)),
        memory_mb: spec_u32_from_le_bytes(bytes.subrange(4, 8)),
        storage_mb: spec_u32_from_le_bytes(bytes.subrange(8, 12)),
        max_time_seconds: spec_u32_from_le_bytes(bytes.subrange(12, 16)),
    }
}

/// The layout of an agent.
pub open spec fn agent_bytes(agent: AgentModel) -> Seq<u8> {
    agent.owner + spec_u64_to_le_bytes(agent.compute_credits) + spec_u32_to_le_bytes(
        agent.reputation_score,
    ) + spec_u32_to_le_bytes(agent.tasks_completed) + seq![flag_byte(agent.is_active)]
}

/// The agent that `bytes` lay out, if they lay out one: exactly
/// `AGENT_LEN` bytes, the last of them 0 or 1.
pub open spec fn agent_in(bytes: Seq<u8>) -> Option<AgentModel> {
    if bytes.len() == 49 && bytes[48] <= 1 {
        Some(
            AgentModel {
                owner: bytes.subrange(0, 32),
                compute_credits: spec_u64_from_le_bytes(bytes.subrange(32, 40)),
                reputation_score: spec_u32_from_le_bytes(bytes.subrange(40, 44)),
                tasks_completed: spec_u32_from_le_bytes(bytes.subrange(44, 48)),
                is_active: bytes[48] == 1,
            },
        )
    } else {
        None
    }
}

/// The layout of a task.
pub open spec fn task_bytes(task: TaskModel) -> Seq<u8> {
    task.agent + requirements_bytes(task.requirements) + seq![status_byte(task.status)]
        + task.result_hash + spec_u64_to_le_bytes(task.payment_amount)
}

/// The task that `bytes` lay out, if they lay out one: exactly `TASK_LEN`
/// bytes, with a status byte of 0 to 3.
pub open spec fn task_in(bytes: Seq<u8>) -> Option<TaskModel> {
    if bytes.len() == 89 && bytes[48] <= 3 {
        Some(
            TaskModel {
                agent: bytes.subrange(0, 32),
                requirements: requirements_in(bytes.subrange(32, 48)),
                status: status_of(bytes[48]).unwrap(),
                result_hash: bytes.subrange(49, 81),
                payment_amount: spec_u64_from_le_bytes(bytes.subrange(81, 89)),
            },
        )
    } else {
        None
    }
}

/// Appends `src` to `out`.
pub fn append(out: &mut Vec<u8>, src: &[u8])
    ensures
        final(out)@ == old(out)@ + src@,
{
    let ghost before = out@;
    let mut i: usize = 0;
    while i < src.len()
        invariant
            i <= src@.len(),
            out@ == before + src@.subrange(0, i as int),
        decreases src@.len() - i,
    {
        out.push(src[i]);
        i += 1;
        proof {
            assert(out@ =~= before + src@.subrange(0, i as int));
        }
    }
    proof {
        assert(src@.subrange(0, i as int) =~= src@);
    }
}

/// The 32 bytes of `bytes` that start at `at`.
pub fn take_32(bytes: &[u8], at: usize) -> (out: [u8; 32])
    requires
        at + 32 <= bytes@.len(),
    ensures
        out@ == bytes@.subrange(at as int, at + 32),
{
    let total: usize = bytes.len();
    let mut out: [u8; 32] = [0u8; 32];
    let mut i: usize = 0;
    while i < 32
        invariant
            i <= 32,
            at + 32 <= bytes@.len(),
            bytes@.len() == total,
            out@.len() == 32,
            forall|j: int| 0 <= j < i ==> out@[j] == bytes@[at + j],
        decreases 32 - i,
    {
        out[i] = bytes[at + i];
        i += 1;
    }
    proof {
        assert(out@ =~= bytes@.subrange(at as int, at + 32));
    }
    out
}

impl ComputeRequirements {
    /// Appends the layout of these requirements to `out`.
    pub fn write_to(&self, out: &mut Vec<u8>)
        ensures
            final(out)@ == old(out)@ + requirements_bytes(*self),
    {
        let ghost before = out@;
        let a = encode_u32(self.cpu_units);
        let b = encode_u32(self.memory_mb);
        let c = encode_u32(self.storage_mb);
        let d = encode_u32(self.max_time_seconds);
        append(out, a.as_slice());
        append(out, b.as_slice());
        append(out, c.as_slice());
        append(out, d.as_slice());
        proof {
            assert(out@ =~= before + requirements_bytes(*self));
        }
    }

    /// Reads requirements from the 16 bytes of `bytes` that start at `at`.
    pub fn read_at(bytes: &[u8], at: usize) -> (r: ComputeRequirements)
        requires
            at + 16 <= bytes@.len(),
        ensures
            r == requirements_in(bytes@.subrange(at as int, at + 16)),
    {
        let total: usize = bytes.len();
        let ghost part = bytes@.subrange(at as int, at + 16);
        proof {
            assert(bytes@.subrange(at as int, at + 4) =~= part.subrange(0, 4));
            assert(bytes@.subrange(at + 4, at + 8) =~= part.subrange(4, 8));
            assert(bytes@.subrange(at + 8, at + 12) =~= part.subrange(8, 12));
            assert(bytes@.subrange(at + 12, at + 16) =~= part.subrange(12, 16));
        }
        ComputeRequirements {
            cpu_units: decode_u32(slice_subrange(bytes, at, at + 4)),
            memory_mb: decode_u32(slice_subrange(bytes, at + 4, at + 8)),
            storage_mb: decode_u32(slice_subrange(bytes, at + 8, at + 12)),
            max_time_seconds: decode_u32(slice_subrange(bytes, at + 12, at + 16)),
        }
    }
}

impl AIAgent {
    /// The agent that registration writes for `owner`.
    pub fn fresh(owner: Identity) -> (agent: AIAgent)
        ensures
            agent@ == fresh_agent(owner@),
    {
        AIAgent {
            owner,
            compute_credits: 0,
            reputation_score: 100,
            tasks_completed: 0,
            is_active: true,
        }
    }

    /// The layout of the agent: `AGENT_LEN` bytes.
    pub fn to_bytes(&self) -> (out: Vec<u8>)
        ensures
            out@ == agent_bytes(self@),
            out@.len() == AGENT_LEN,
    {
        let mut out: Vec<u8> = Vec::new();
        let credits = encode_u64(self.compute_credits);
        let reputation = encode_u32(self.reputation_score);
        let completed = encode_u32(self.tasks_completed);
        append(&mut out, self.owner.bytes.as_slice());
        append(&mut out, credits.as_slice());
        append(&mut out, reputation.as_slice());
        append(&mut out, completed.as_slice());
        out.push(if self.is_active { 1u8 } else { 0u8 });
        proof {
            assert(out@ =~= agent_bytes(self@));
        }
        out
    }

    /// Reads an agent from a slot's bytes. There is one exactly when the
    /// bytes are the layout of an agent.
    pub fn from_bytes(bytes: &[u8]) -> (found: Option<AIAgent>)
        ensures
            match found {
                Some(agent) => agent_in(bytes@) == Some(agent@),
                None => agent_in(bytes@) is None,
            },
    {
        if bytes.len() != AGENT_LEN {
            return None;
        }
        let flag = bytes[48];
        if flag > 1 {
            return None;
        }
        let agent = AIAgent {
            owner: Identity { bytes: take_32(bytes, 0) },
            compute_credits: decode_u64(slice_subrange(bytes, 32, 40)),
            reputation_score: decode_u32(slice_subrange(bytes, 40, 44)),
            tasks_completed: decode_u32(slice_subrange(bytes, 44, 48)),
            is_active: flag == 1,
        };
        Some(agent)
    }
}

impl ComputeTask {
    /// The task that creation writes: pending, with no result yet.
    pub fn fresh(
        agent: Identity,
        requirements: ComputeRequirements,
        payment_amount: u64,
    ) -> (task: ComputeTask)
        ensures
            task@ == fresh_task(agent@, requirements, payment_amount),
    {
        let task = ComputeTask {
            agent,
            requirements,
            status: TaskStatus::Pending,
            result_hash: [0u8; 32],
            payment_amount,
        };
        proof {
            assert(task.result_hash@ =~= Seq::new(32, |i: int| 0u8));
        }
        task
    }

    /// The layout of the task: `TASK_LEN` bytes.
    pub fn to_bytes(&self) -> (out: Vec<u8>)
        ensures
            out@ == task_bytes(self@),
            out@.len() == TASK_LEN,
    {
        let mut out: Vec<u8> = Vec::new();
        let payment = encode_u64(self.payment_amount);
        append(&mut out, self.agent.bytes.as_slice());
        self.requirements.write_to(&mut out);
        out.push(self.status.to_byte());
        append(&mut out, self.result_hash.as_slice());
        append(&mut out, payment.as_slice());
        proof {
            lemma_auto_spec_u32_to_from_le_bytes();
            assert(out@ =~= task_bytes(self@));
        }
        out
    }

    /// Reads a task from a slot's bytes. There is one exactly when the bytes
    /// are the layout of a task.
    pub fn from_bytes(bytes: &[u8]) -> (found: Option<ComputeTask>)
        ensures
            match found {
                Some(task) => task_in(bytes@) == Some(task@),
                None => task_in(bytes@) is None,
            },
    {
        if bytes.len() != TASK_LEN {
            return None;
        }
        match TaskStatus::from_byte(bytes[48]) {
            None => None,
            Some(status) => {
                let task = ComputeTask {
                    agent: Identity { bytes: take_32(bytes, 0) },
                    requirements: ComputeRequirements::read_at(bytes, 32),
                    status,
                    result_hash: take_32(bytes, 49),
                    payment_amount: decode_u64(slice_subrange(bytes, 81, 89)),
                };
                Some(task)
            },
        }
    }
}

/// Reading the layout of an agent gives that agent back.
pub proof fn lemma_agent_round_trip(agent: AgentModel)
    requires
        agent.owner.len() == 32,
    ensures
        agent_bytes(agent).len() == 49,
        agent_in(agent_bytes(agent)) == Some(agent),
{
    lemma_auto_spec_u64_to_from_le_bytes();
    lemma_auto_spec_u32_to_from_le_bytes();
    let b = agent_bytes(agent);
    assert(b.subrange(0, 32) =~= agent.owner);
    assert(b.subrange(32, 40) =~= spec_u64_to_le_bytes(agent.compute_credits));
    assert(b.subrange(40, 44) =~= spec_u32_to_le_bytes(agent.reputation_score));
    assert(b.subrange(44, 48) =~= spec_u32_to_le_bytes(agent.tasks_completed));
}

/// Laying out the agent that was read from a slot gives the slot's bytes.
pub proof fn lemma_agent_layout_unique(bytes: Seq<u8>)
    requires
        agent_in(bytes) is Some,
    ensures
        agent_bytes(agent_in(bytes).unwrap()) == bytes,
        agent_in(bytes).unwrap().owner.len() == 32,
{
    lemma_auto_spec_u64_to_from_le_bytes();
    lemma_auto_spec_u32_to_from_le_bytes();
    let agent = agent_in(bytes).unwrap();
    assert(spec_u64_to_le_bytes(agent.compute_credits) == bytes.subrange(32, 40));
    assert(spec_u32_to_le_bytes(agent.reputation_score) == bytes.subrange(40, 44));
    assert(spec_u32_to_le_bytes(agent.tasks_completed) == bytes.subrange(44, 48));
    assert(agent_bytes(agent) =~= bytes);
}

/// Reading the layout of a task gives that task back.
pub proof fn lemma_task_round_trip(task: TaskModel)
    requires
        task.agent.len() == 32,
        task.result_hash.len() == 32,
    ensures
        task_bytes(task).len() == 89,
        task_in(task_bytes(task)) == Some(task),
{
    lemma_auto_spec_u64_to_from_le_bytes();
    lemma_auto_spec_u32_to_from_le_bytes();
    let b = task_bytes(task);
    let r = task.requirements;
    let rb = b.subrange(32, 48);
    assert(b.subrange(0, 32) =~= task.agent);
    assert(rb =~= requirements_bytes(r));
    assert(rb.subrange(0, 4) =~= spec_u32_to_le_bytes(r.cpu_units));
    assert(rb.subrange(4, 8) =~= spec_u32_to_le_bytes(r.memory_mb));
    assert(rb.subrange(8, 12) =~= spec_u32_to_le_bytes(r.storage_mb));
    assert(rb.subrange(12, 16) =~= spec_u32_to_le_bytes(r.max_time_seconds));
    assert(b[48] == status_byte(task.status));
    assert(b.subrange(49, 81) =~= task.result_hash);
    assert(b.subrange(81, 89) =~= spec_u64_to_le_bytes(task.payment_amount));
}

/// Laying out the task that was read from a slot gives the slot's bytes.
pub proof fn lemma_task_layout_unique(bytes: Seq<u8>)
    requires
        task_in(bytes) is Some,
    ensures
        task_bytes(task_in(bytes).unwrap()) == bytes,
        task_in(bytes).unwrap().agent.len() == 32,
        task_in(bytes).unwrap().result_hash.len() == 32,
{
    lemma_auto_spec_u64_to_from_le_bytes();
    lemma_auto_spec_u32_to_from_le_bytes();
    let task = task_in(bytes).unwrap();
    let r = task.requirements;
    let rb = bytes.subrange(32, 48);
    assert(spec_u32_to_le_bytes(r.cpu_units) == rb.subrange(0, 4));
    assert(spec_u32_to_le_bytes(r.memory_mb) == rb.subrange(4, 8));
    assert(spec_u32_to_le_bytes(r.storage_mb) == rb.subrange(8, 12));
    assert(spec_u32_to_le_bytes(r.max_time_seconds) == rb.subrange(12, 16));
    assert(requirements_bytes(r) =~= rb);
    assert(spec_u64_to_le_bytes(task.payment_amount) == bytes.subrange(81, 89));
    assert(status_byte(task.status) == bytes[48]);
    assert(task_bytes(task) =~= bytes);
}

} // verus!
