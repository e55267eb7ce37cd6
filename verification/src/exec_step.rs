//! Per-instruction execution step: the decoded instruction, the owning call
//! frame, the global counter allocator and the step's append-only row log,
//! together with the recorded machine state the generators read.
//!
//! The engine prepares one step per executed instruction and passes it to
//! the dispatcher exactly once; after the row log is drained the step is
//! discarded.

use vstd::prelude::*;
use crate::rw_row::{counters_contiguous_from, RwRow};

verus! {

/// How many values a `Return` drops from the caller's stack and how many
/// results it keeps.
#[derive(Debug, Clone, Copy, PartialEq, Eq, Structural)]
pub struct DropKeep {
    pub drop_count: u32,
    pub keep_count: u32,
}

/// The decoded instructions the builder dispatches on.  The stream is
/// produced by the bytecode compiler, which validates all indices; only the
/// bulk operations re-check bounds.
#[derive(Debug, Clone, Copy, PartialEq, Eq, Structural)]
pub enum Instruction {
    Unreachable,
    Drop,
    Select,
    LocalGet(u32),
    LocalSet(u32),
    LocalTee(u32),
    GlobalGet(u32),
    GlobalSet(u32),
    Br(i32),
    BrIfEqz(i32),
    BrIfNez(i32),
    BrTable(u32),
    Return(DropKeep),
    Call(u32),
    CallInternal(u32),
    ConsumeFuel(u64),
    I32Const(u64),
    I64Const(u64),
    MemorySize,
    MemoryGrow,
    MemoryCopy,
    MemoryFill,
    TableSize(u32),
    TableGrow(u32),
    TableFill(u32),
    TableGet(u32),
    TableSet(u32),
    TableCopy { dst_table: u32, src_table: u32 },
    I32Add,
    I32Sub,
    I32Mul,
    I32DivS,
    I32DivU,
    I32And,
    I32Or,
    I32Xor,
    I32Eqz,
    I32Eq,
    I32Ne,
    I32LtS,
    I32LtU,
    I32GtS,
    I32GtU,
    I64Add,
    I64Sub,
    I64Mul,
    I64Eqz,
    I64Eq,
    I64Ne,
}

/// One entry of an instruction's statically declared operand shape: a stack
/// pop or push, or a touch of one local slot.
#[derive(Debug, Clone, Copy, PartialEq, Eq, Structural)]
pub enum RwOp {
    StackPop,
    StackPush,
    LocalGet(u32),
    LocalSet(u32),
}

impl Instruction {
    /// The statically declared operand shape of this instruction; the
    /// instructions with their own generators (calls, fuel, bulk memory and
    /// table operations, returns) have an empty shape here.
    pub open spec fn spec_rw_ops(self) -> Seq<RwOp> {
        match self {
            Instruction::Drop => seq![RwOp::StackPop],
            Instruction::Select => seq![RwOp::StackPop, RwOp::StackPop, RwOp::StackPop, RwOp::StackPush],
            Instruction::LocalGet(d) => seq![RwOp::LocalGet(d), RwOp::StackPush],
            Instruction::LocalSet(d) => seq![RwOp::StackPop, RwOp::LocalSet(d)],
            Instruction::LocalTee(d) => seq![RwOp::LocalSet(d)],
            Instruction::GlobalGet(_) => seq![RwOp::StackPush],
            Instruction::GlobalSet(_) => seq![RwOp::StackPop],
            Instruction::BrIfEqz(_) => seq![RwOp::StackPop],
            Instruction::BrIfNez(_) => seq![RwOp::StackPop],
            Instruction::BrTable(_) => seq![RwOp::StackPop],
            Instruction::I32Const(_) => seq![RwOp::StackPush],
            Instruction::I64Const(_) => seq![RwOp::StackPush],
            Instruction::MemorySize => seq![RwOp::StackPush],
            Instruction::MemoryGrow => seq![RwOp::StackPop, RwOp::StackPush],
            Instruction::TableSize(_) => seq![RwOp::StackPush],
            Instruction::TableSet(_) => seq![RwOp::StackPop, RwOp::StackPop],
            Instruction::I32Eqz => seq![RwOp::StackPop, RwOp::StackPush],
            Instruction::I64Eqz => seq![RwOp::StackPop, RwOp::StackPush],
            Instruction::I32Add => seq![RwOp::StackPop, RwOp::StackPop, RwOp::StackPush],
            Instruction::I32Sub => seq![RwOp::StackPop, RwOp::StackPop, RwOp::StackPush],
            Instruction::I32Mul => seq![RwOp::StackPop, RwOp::StackPop, RwOp::StackPush],
            Instruction::I32DivS => seq![RwOp::StackPop, RwOp::StackPop, RwOp::StackPush],
            Instruction::I32DivU => seq![RwOp::StackPop, RwOp::StackPop, RwOp::StackPush],
            Instruction::I32And => seq![RwOp::StackPop, RwOp::StackPop, RwOp::StackPush],
            Instruction::I32Or => seq![RwOp::StackPop, RwOp::StackPop, RwOp::StackPush],
            Instruction::I32Xor => seq![RwOp::StackPop, RwOp::StackPop, RwOp::StackPush],
            Instruction::I32Eq => seq![RwOp::StackPop, RwOp::StackPop, RwOp::StackPush],
            Instruction::I32Ne => seq![RwOp::StackPop, RwOp::StackPop, RwOp::StackPush],
            Instruction::I32LtS => seq![RwOp::StackPop, RwOp::StackPop, RwOp::StackPush],
            Instruction::I32LtU => seq![RwOp::StackPop, RwOp::StackPop, RwOp::StackPush],
            Instruction::I32GtS => seq![RwOp::StackPop, RwOp::StackPop, RwOp::StackPush],
            Instruction::I32GtU => seq![RwOp::StackPop, RwOp::StackPop, RwOp::StackPush],
            Instruction::I64Add => seq![RwOp::StackPop, RwOp::StackPop, RwOp::StackPush],
            Instruction::I64Sub => seq![RwOp::StackPop, RwOp::StackPop, RwOp::StackPush],
            Instruction::I64Mul => seq![RwOp::StackPop, RwOp::StackPop, RwOp::StackPush],
            Instruction::I64Eq => seq![RwOp::StackPop, RwOp::StackPop, RwOp::StackPush],
            Instruction::I64Ne => seq![RwOp::StackPop, RwOp::StackPop, RwOp::StackPush],
            _ => Seq::empty(),
        }
    }

    /// Builds the operand shape as a vector, one entry per accessed slot.
    pub fn get_rw_ops(&self) -> (r: Vec<RwOp>)
        ensures
            r@ == self.spec_rw_ops(),
    {
        let mut ops: Vec<RwOp> = Vec::new();
        match self {
            Instruction::Drop => { ops.push(RwOp::StackPop); },
            Instruction::Select => {
                ops.push(RwOp::StackPop);
                ops.push(RwOp::StackPop);
                ops.push(RwOp::StackPop);
                ops.push(RwOp::StackPush);
            },
            Instruction::LocalGet(d) => {
                ops.push(RwOp::LocalGet(*d));
                ops.push(RwOp::StackPush);
            },
            Instruction::LocalSet(d) => {
                ops.push(RwOp::StackPop);
                ops.push(RwOp::LocalSet(*d));
            },
            Instruction::LocalTee(d) => { ops.push(RwOp::LocalSet(*d)); },
            Instruction::GlobalGet(_) => { ops.push(RwOp::StackPush); },
            Instruction::GlobalSet(_) => { ops.push(RwOp::StackPop); },
            Instruction::BrIfEqz(_) => { ops.push(RwOp::StackPop); },
            Instruction::BrIfNez(_) => { ops.push(RwOp::StackPop); },
            Instruction::BrTable(_) => { ops.push(RwOp::StackPop); },
            Instruction::I32Const(_) => { ops.push(RwOp::StackPush); },
            Instruction::I64Const(_) => { ops.push(RwOp::StackPush); },
            Instruction::MemorySize => { ops.push(RwOp::StackPush); },
            Instruction::MemoryGrow => {
                ops.push(RwOp::StackPop);
                ops.push(RwOp::StackPush);
            },
            Instruction::TableSize(_) => { ops.push(RwOp::StackPush); },
            Instruction::TableSet(_) => {
                ops.push(RwOp::StackPop);
                ops.push(RwOp::StackPop);
            },
            Instruction::I32Eqz => {
                ops.push(RwOp::StackPop);
                ops.push(RwOp::StackPush);
            },
            Instruction::I64Eqz => {
                ops.push(RwOp::StackPop);
                ops.push(RwOp::StackPush);
            },
            Instruction::I32Add | Instruction::I32Sub | Instruction::I32Mul | Instruction::I32DivS
                | Instruction::I32DivU | Instruction::I32And | Instruction::I32Or
                | Instruction::I32Xor | Instruction::I32Eq | Instruction::I32Ne
                | Instruction::I32LtS | Instruction::I32LtU | Instruction::I32GtS
                | Instruction::I32GtU | Instruction::I64Add | Instruction::I64Sub
                | Instruction::I64Mul | Instruction::I64Eq | Instruction::I64Ne => {
                ops.push(RwOp::StackPop);
                ops.push(RwOp::StackPop);
                ops.push(RwOp::StackPush);
            },
            _ => {},
        }
        proof {
            assert(ops@ =~= self.spec_rw_ops());
        }
        ops
    }
}

/// One table: its current elements and the declared maximum element count.
#[derive(Debug, Clone, PartialEq, Eq)]
pub struct TableState {
    pub elems: Vec<u64>,
    pub max_size: u32,
}

/// What a finished nested hash-addressed sub-execution reported back:
/// its output bytes, its exit code and the fuel it consumed.
#[derive(Debug, Clone, PartialEq, Eq)]
pub struct ExecOutcome {
    pub output: Vec<u8>,
    pub exit_code: i32,
    pub fuel_consumed: u64,
}

/// One execution step.  The engine records the machine state the
/// instruction saw (`stack`, `locals`, `memory`, `tables`, ...) and the
/// values the instruction wrote (`written`); the builder appends rows to
/// `rw_rows`, never touching the recorded state.
#[derive(Debug, Clone, PartialEq, Eq)]
pub struct ExecStep {
    /// The decoded instruction of this step.
    pub instr: Instruction,
    /// The program-counter delta since the previous step.
    pub pc_delta: u64,
    /// The id of the call frame performing this step; 0 is the root frame.
    pub call_id: u32,
    /// The next unused global sequence number.
    pub rw_counter: u64,
    /// The step's append-only row log.
    pub rw_rows: Vec<RwRow>,
    /// The step's fuel budget.
    pub fuel_limit: u64,
    /// Fuel still available.
    pub fuel_remaining: u64,
    /// Fuel consumed so far; `fuel_remaining + consumed_fuel == fuel_limit`.
    pub consumed_fuel: u64,
    /// The operand stack before the instruction, top last.
    pub stack: Vec<u64>,
    /// The frame's local slots.
    pub locals: Vec<u64>,
    /// The values the instruction wrote (stack pushes and local writes), in
    /// emission order, as recorded by the engine.
    pub written: Vec<u64>,
    /// Linear memory before the instruction.
    pub memory: Vec<u8>,
    /// The frame's tables.
    pub tables: Vec<TableState>,
    /// The input buffer a buffered-read system call reads from.
    pub input: Vec<u8>,
    /// The output buffer a buffered-write system call appends to.
    pub output: Vec<u8>,
    /// The packed environment strings and their count.
    pub env_blob: Vec<u8>,
    pub env_count: u32,
    /// The packed process arguments and their count.
    pub args_blob: Vec<u8>,
    pub args_count: u32,
    /// What a nested sub-execution reported, recorded by the engine;
    /// `None` when this step performed none.
    pub exec_outcome: Option<ExecOutcome>,
    /// The output bytes folded back from a successful nested sub-execution.
    pub return_data: Vec<u8>,
}

impl ExecStep {
    /// The counter value the step's first row carries.
    pub open spec fn base_counter(self) -> int {
        self.rw_counter - self.rw_rows@.len()
    }

    /// Well-formedness: the log's counters are contiguous and end at the
    /// allocator's next value, and the fuel accounting balances.
    pub open spec fn wf(self) -> bool {
        &&& self.rw_rows@.len() <= self.rw_counter
        &&& counters_contiguous_from(self.rw_rows@, self.base_counter())
        &&& self.fuel_remaining + self.consumed_fuel == self.fuel_limit
    }

    /// The recorded machine state and identity of `post` are those of
    /// `pre`: only the row log, the counter, the fuel bookkeeping, the
    /// output buffer and the folded return data may differ.
    pub open spec fn machine_unchanged(pre: ExecStep, post: ExecStep) -> bool {
        &&& post.instr == pre.instr
        &&& post.pc_delta == pre.pc_delta
        &&& post.call_id == pre.call_id
        &&& post.fuel_limit == pre.fuel_limit
        &&& post.stack == pre.stack
        &&& post.locals == pre.locals
        &&& post.written == pre.written
        &&& post.memory == pre.memory
        &&& post.tables == pre.tables
        &&& post.input == pre.input
        &&& post.env_blob == pre.env_blob
        &&& post.env_count == pre.env_count
        &&& post.args_blob == pre.args_blob
        &&& post.args_count == pre.args_count
        &&& post.exec_outcome == pre.exec_outcome
    }

    /// Neither fuel bookkeeping nor the syscall effect buffers changed.
    pub open spec fn effects_unchanged(pre: ExecStep, post: ExecStep) -> bool {
        &&& post.fuel_remaining == pre.fuel_remaining
        &&& post.consumed_fuel == pre.consumed_fuel
        &&& post.output == pre.output
        &&& post.return_data == pre.return_data
    }

    /// `post`'s log is `pre`'s log followed by `rows`, with the counter
    /// allocator advanced once per appended row.
    pub open spec fn appended(pre: ExecStep, post: ExecStep, rows: Seq<RwRow>) -> bool {
        &&& post.rw_rows@ == pre.rw_rows@ + rows
        &&& post.rw_counter == pre.rw_counter + rows.len()
    }

    /// Returns the next unused global sequence number and advances the
    /// allocator.  Callers consume the value into a row immediately.
    pub fn next_rw_counter(&mut self) -> (r: u64)
        requires
            old(self).rw_counter < u64::MAX,
        ensures
            r == old(self).rw_counter,
            *final(self) == (ExecStep { rw_counter: (old(self).rw_counter + 1) as u64, ..*old(self) }),
    {
        let r = self.rw_counter;
        self.rw_counter = self.rw_counter + 1;
        r
    }

    /// The program-counter delta recorded for this step.
    pub fn pc_diff(&self) -> (r: u64)
        ensures
            r == self.pc_delta,
    {
        self.pc_delta
    }

    /// The decoded instruction of this step.
    pub fn instr(&self) -> (r: Instruction)
        ensures
            r == self.instr,
    {
        self.instr
    }

    /// One stack slot, together with whether the slot existed at the
    /// moment of the access.  The frame's locals occupy the low slots;
    /// the operand stack sits above them.
    pub fn stack_read(&self, slot: u64) -> (r: (u64, bool))
        ensures
            r.1 == (slot < self.locals@.len() + self.stack@.len()),
            slot < self.locals@.len() ==> r.0 == self.locals@[slot as int],
            self.locals@.len() <= slot < self.locals@.len() + self.stack@.len() ==> r.0
                == self.stack@[slot - self.locals@.len()],
            !r.1 ==> r.0 == 0,
    {
        let n_locals = self.locals.len();
        if slot < n_locals as u64 {
            (self.locals[slot as usize], true)
        } else if (slot - n_locals as u64) < (self.stack.len() as u64) {
            (self.stack[(slot - n_locals as u64) as usize], true)
        } else {
            (0, false)
        }
    }

    /// One byte of linear memory, together with whether the address was
    /// backed by memory at the moment of the access.
    pub fn mem_read(&self, address: u64) -> (r: (u8, bool))
        ensures
            r.1 == (address < self.memory@.len()),
            r.1 ==> r.0 == self.memory@[address as int],
            !r.1 ==> r.0 == 0,
    {
        if address < self.memory.len() as u64 {
            (self.memory[address as usize], true)
        } else {
            (0, false)
        }
    }

    /// One element of one table, together with whether the slot existed at
    /// the moment of the access.
    pub fn table_read(&self, table_index: u32, elem_index: u64) -> (r: (u64, bool))
        ensures
            r.1 == (table_index < self.tables@.len() && elem_index < self.tables@[table_index as int].elems@.len()),
            r.1 ==> r.0 == self.tables@[table_index as int].elems@[elem_index as int],
            !r.1 ==> r.0 == 0,
    {
        if (table_index as u64) < self.tables.len() as u64 {
            let t = &self.tables[table_index as usize];
            if elem_index < t.elems.len() as u64 {
                return (t.elems[elem_index as usize], true);
            }
        }
        (0, false)
    }
}

} // verus!

verus! {

/// Appending a contiguous batch of rows that starts at the allocator's
/// value keeps a step well-formed.
pub proof fn lemma_wf_after_append(pre: ExecStep, post: ExecStep, rows: Seq<RwRow>)
    requires
        pre.wf(),
        ExecStep::appended(pre, post, rows),
        counters_contiguous_from(rows, pre.rw_counter as int),
        post.fuel_remaining + post.consumed_fuel == post.fuel_limit,
    ensures
        post.wf(),
{
    crate::rw_row::lemma_contiguous_concat(pre.rw_rows@, rows, pre.base_counter());
    assert(post.rw_rows@ == pre.rw_rows@ + rows);
    assert(post.base_counter() == pre.base_counter());
}

} // verus!
