//! Row generators for ordinary instructions: the data-driven generic
//! generator, fuel consumption, and the bulk memory and table operations.
//!
//! Every generator appends rows in one contiguous counter batch and leaves
//! the recorded machine state untouched; a failed bounds check appends no
//! data rows at all.

use vstd::prelude::*;
use crate::exec_step::{ExecStep, Instruction, RwOp};
use crate::rw_row::RwRow;
use crate::types::GadgetError;

verus! {

/// How many stack pops `ops` declares.
pub open spec fn pop_count(ops: Seq<RwOp>) -> int
    decreases ops.len(),
{
    if ops.len() == 0 {
        0
    } else {
        pop_count(ops.drop_last()) + if ops.last() is StackPop {
            1int
        } else {
            0int
        }
    }
}

/// How many stack pushes `ops` declares.
pub open spec fn push_count(ops: Seq<RwOp>) -> int
    decreases ops.len(),
{
    if ops.len() == 0 {
        0
    } else {
        push_count(ops.drop_last()) + if ops.last() is StackPush {
            1int
        } else {
            0int
        }
    }
}

/// How many written values `ops` consumes: one per stack push and one per
/// local write.
pub open spec fn write_count(ops: Seq<RwOp>) -> int
    decreases ops.len(),
{
    if ops.len() == 0 {
        0
    } else {
        write_count(ops.drop_last()) + if ops.last() is StackPush || ops.last() matches
            RwOp::LocalSet(_) {
            1int
        } else {
            0int
        }
    }
}

/// The operand shape fits the recorded state: it pops no deeper than the
/// stack, consumes exactly the recorded written values, touches only
/// existing locals, and declares every pop before the first push (operands
/// are consumed before results are produced).
pub open spec fn generic_ops_wf(
    ops: Seq<RwOp>,
    stack: Seq<u64>,
    locals: Seq<u64>,
    written: Seq<u64>,
) -> bool {
    &&& pop_count(ops) <= stack.len()
    &&& write_count(ops) == written.len()
    &&& forall|k: int|
        0 <= k < ops.len() ==> match #[trigger] ops[k] {
            RwOp::LocalGet(d) => d < locals.len(),
            RwOp::LocalSet(d) => d < locals.len(),
            _ => true,
        }
    &&& forall|i: int, j: int|
        0 <= i < j < ops.len() && (#[trigger] ops[i]) is StackPush ==> !((#[trigger] ops[j])
            is StackPop)
}

/// The row the `k`-th operand-shape entry emits.  Local slots occupy the
/// low stack addresses; the operand stack sits above them.  Pops read the
/// recorded stack from the top down; pushes and local writes take the
/// recorded written values in order.
pub open spec fn row_for_op(
    ops: Seq<RwOp>,
    k: int,
    stack: Seq<u64>,
    locals: Seq<u64>,
    written: Seq<u64>,
    ctr0: int,
    call_id: u32,
) -> RwRow {
    let p = pop_count(ops.take(k));
    let q = push_count(ops.take(k));
    let w = write_count(ops.take(k));
    match ops[k] {
        RwOp::StackPop => RwRow::Stack {
            rw_counter: (ctr0 + k) as u64,
            is_write: false,
            call_id,
            stack_pointer: (locals.len() + stack.len() - 1 - p) as u64,
            value: stack[stack.len() - 1 - p],
        },
        RwOp::StackPush => RwRow::Stack {
            rw_counter: (ctr0 + k) as u64,
            is_write: true,
            call_id,
            stack_pointer: (locals.len() + stack.len() - p + q) as u64,
            value: written[w],
        },
        RwOp::LocalGet(d) => RwRow::Stack {
            rw_counter: (ctr0 + k) as u64,
            is_write: false,
            call_id,
            stack_pointer: d as u64,
            value: locals[d as int],
        },
        RwOp::LocalSet(d) => RwRow::Stack {
            rw_counter: (ctr0 + k) as u64,
            is_write: true,
            call_id,
            stack_pointer: d as u64,
            value: written[w],
        },
    }
}

/// The rows the whole operand shape emits, one per entry, in order.
pub open spec fn generic_rows(
    ops: Seq<RwOp>,
    stack: Seq<u64>,
    locals: Seq<u64>,
    written: Seq<u64>,
    ctr0: int,
    call_id: u32,
) -> Seq<RwRow> {
    Seq::new(ops.len(), |k: int| row_for_op(ops, k, stack, locals, written, ctr0, call_id))
}

/// Extending a prefix by one entry raises each count by that entry's
/// contribution.
proof fn lemma_counts_take_succ(ops: Seq<RwOp>, k: int)
    requires
        0 <= k < ops.len(),
    ensures
        pop_count(ops.take(k + 1)) == pop_count(ops.take(k)) + if ops[k] is StackPop {
            1int
        } else {
            0int
        },
        push_count(ops.take(k + 1)) == push_count(ops.take(k)) + if ops[k] is StackPush {
            1int
        } else {
            0int
        },
        write_count(ops.take(k + 1)) == write_count(ops.take(k)) + if ops[k] is StackPush
            || ops[k] matches RwOp::LocalSet(_) {
            1int
        } else {
            0int
        },
{
    assert(ops.take(k + 1).drop_last() =~= ops.take(k));
    assert(ops.take(k + 1).last() == ops[k]);
}

/// A prefix never counts more than the whole sequence.
proof fn lemma_counts_monotone(ops: Seq<RwOp>, k: int)
    requires
        0 <= k <= ops.len(),
    ensures
        pop_count(ops.take(k)) <= pop_count(ops),
        push_count(ops.take(k)) <= push_count(ops),
        write_count(ops.take(k)) <= write_count(ops),
        pop_count(ops.take(k)) >= 0,
        push_count(ops.take(k)) >= 0,
        write_count(ops.take(k)) >= 0,
    decreases ops.len() - k,
{
    lemma_counts_nonneg(ops.take(k));
    lemma_counts_nonneg(ops);
    if k == ops.len() {
        assert(ops.take(k) =~= ops);
    } else {
        lemma_counts_take_succ(ops, k);
        lemma_counts_monotone(ops, k + 1);
    }
}

/// All three counts lie between zero and the shape's length.
proof fn lemma_counts_nonneg(ops: Seq<RwOp>)
    ensures
        0 <= pop_count(ops) <= ops.len(),
        0 <= push_count(ops) <= ops.len(),
        0 <= write_count(ops) <= ops.len(),
    decreases ops.len(),
{
    if ops.len() > 0 {
        lemma_counts_nonneg(ops.drop_last());
    }
}

/// After the first push, no further pop occurs, so the pops of any prefix
/// from there on are all the pops there are.
proof fn lemma_pops_settled(ops: Seq<RwOp>, k: int)
    requires
        0 <= k < ops.len(),
        ops[k] is StackPush,
        forall|i: int, j: int|
            0 <= i < j < ops.len() && (#[trigger] ops[i]) is StackPush ==> !((#[trigger] ops[j])
                is StackPop),
    ensures
        pop_count(ops.take(k)) == pop_count(ops),
    decreases ops.len() - k,
{
    if k + 1 == ops.len() {
        lemma_counts_take_succ(ops, k);
        assert(ops.take(k + 1) =~= ops);
    } else {
        lemma_counts_take_succ(ops, k);
        if ops[k + 1] is StackPop {
            assert(false);
        } else {
            if ops[k + 1] is StackPush {
                lemma_pops_settled(ops, k + 1);
            } else {
                lemma_pops_rest_constant(ops, k + 1);
            }
        }
    }
}

/// If every entry from `k` on is pop-free, the pops settle at prefix `k`.
proof fn lemma_pops_rest_constant(ops: Seq<RwOp>, k: int)
    requires
        0 <= k <= ops.len(),
        forall|j: int| k <= j < ops.len() ==> !((#[trigger] ops[j]) is StackPop),
    ensures
        pop_count(ops.take(k)) == pop_count(ops),
    decreases ops.len() - k,
{
    if k == ops.len() {
        assert(ops.take(k) =~= ops);
    } else {
        lemma_counts_take_succ(ops, k);
        lemma_pops_rest_constant(ops, k + 1);
    }
}

/// The default generator: emits one row per entry of the instruction's
/// statically declared operand shape, driven by the shape alone.
#[verifier::loop_isolation(false)]
pub fn build_generic_rw_ops(step: &mut ExecStep, ops: &Vec<RwOp>) -> (r: Result<(), GadgetError>)
    requires
        old(step).wf(),
        generic_ops_wf(ops@, old(step).stack@, old(step).locals@, old(step).written@),
        old(step).rw_counter + ops@.len() <= u64::MAX,
        old(step).locals@.len() + old(step).stack@.len() + ops@.len() <= u64::MAX,
    ensures
        r is Ok,
        final(step).wf(),
        ExecStep::machine_unchanged(*old(step), *final(step)),
        ExecStep::effects_unchanged(*old(step), *final(step)),
        ExecStep::appended(
            *old(step),
            *final(step),
            generic_rows(
                ops@,
                old(step).stack@,
                old(step).locals@,
                old(step).written@,
                old(step).rw_counter as int,
                old(step).call_id,
            ),
        ),
{
    let ghost pre = *old(step);
    let ghost all = generic_rows(
        ops@,
        pre.stack@,
        pre.locals@,
        pre.written@,
        pre.rw_counter as int,
        pre.call_id,
    );
    let mut i: usize = 0;
    let mut p: usize = 0;
    let mut q: usize = 0;
    let mut w: usize = 0;
    proof {
        lemma_counts_nonneg(ops@);
        assert(ops@.take(0) =~= Seq::<RwOp>::empty());
    }
    while i < ops.len()
        invariant
            0 <= i <= ops@.len(),
            p == pop_count(ops@.take(i as int)),
            q == push_count(ops@.take(i as int)),
            w == write_count(ops@.take(i as int)),
            step.rw_rows@ == pre.rw_rows@ + all.take(i as int),
            step.rw_counter == pre.rw_counter + i,
            ExecStep::machine_unchanged(pre, *step),
            ExecStep::effects_unchanged(pre, *step),
        decreases ops@.len() - i,
    {
        proof {
            lemma_counts_monotone(ops@, i as int);
            lemma_counts_take_succ(ops@, i as int);
            lemma_counts_monotone(ops@, i as int + 1);
        }
        let op = ops[i];
        let c = step.next_rw_counter();
        match op {
            RwOp::StackPop => {
                let pos = step.stack.len() - 1 - p;
                let sp = step.locals.len() as u64 + pos as u64;
                let v = step.stack[pos];
                step.rw_rows.push(
                    RwRow::Stack {
                        rw_counter: c,
                        is_write: false,
                        call_id: step.call_id,
                        stack_pointer: sp,
                        value: v,
                    },
                );
                p = p + 1;
            },
            RwOp::StackPush => {
                proof {
                    lemma_pops_settled(ops@, i as int);
                }
                let sp = step.locals.len() as u64 + step.stack.len() as u64 - p as u64
                    + q as u64;
                let v = step.written[w];
                step.rw_rows.push(
                    RwRow::Stack {
                        rw_counter: c,
                        is_write: true,
                        call_id: step.call_id,
                        stack_pointer: sp,
                        value: v,
                    },
                );
                q = q + 1;
                w = w + 1;
            },
            RwOp::LocalGet(d) => {
                let v = step.locals[d as usize];
                step.rw_rows.push(
                    RwRow::Stack {
                        rw_counter: c,
                        is_write: false,
                        call_id: step.call_id,
                        stack_pointer: d as u64,
                        value: v,
                    },
                );
            },
            RwOp::LocalSet(d) => {
                let v = step.written[w];
                step.rw_rows.push(
                    RwRow::Stack {
                        rw_counter: c,
                        is_write: true,
                        call_id: step.call_id,
                        stack_pointer: d as u64,
                        value: v,
                    },
                );
                w = w + 1;
            },
        }
        proof {
            assert(all.take(i as int + 1) =~= all.take(i as int).push(all[i as int]));
            assert(step.rw_rows@ =~= pre.rw_rows@ + all.take(i as int + 1));
        }
        i = i + 1;
    }
    proof {
        assert(all.take(ops@.len() as int) =~= all);
        assert forall|k: int| 0 <= k < all.len() implies (#[trigger] all[k]).rw_counter()
            == pre.rw_counter + k by {}
        crate::exec_step::lemma_wf_after_append(pre, *step, all);
    }
    Ok(())
}

} // verus!

verus! {

/// One memory-read row per byte of the region `[offset, offset + n)`,
/// addresses ascending.
pub open spec fn memory_read_rows(mem: Seq<u8>, offset: u64, n: u64, ctr0: int, call_id: u32) -> Seq<RwRow> {
    Seq::new(
        n as nat,
        |i: int| RwRow::Memory {
            rw_counter: (ctr0 + i) as u64,
            is_write: false,
            call_id,
            memory_address: (offset + i) as u64,
            value: mem[offset + i],
        },
    )
}

/// One memory-write row per byte of `data`, written at ascending addresses
/// from `offset`.
pub open spec fn memory_write_rows(data: Seq<u8>, offset: u64, ctr0: int, call_id: u32) -> Seq<RwRow> {
    Seq::new(
        data.len(),
        |i: int| RwRow::Memory {
            rw_counter: (ctr0 + i) as u64,
            is_write: true,
            call_id,
            memory_address: (offset + i) as u64,
            value: data[i],
        },
    )
}

/// One table-write row per element of `data`, written at ascending element
/// indices from `start`.
pub open spec fn table_write_rows(
    data: Seq<u64>,
    table_index: u32,
    start: u64,
    ctr0: int,
    call_id: u32,
) -> Seq<RwRow> {
    Seq::new(
        data.len(),
        |i: int| RwRow::Table {
            rw_counter: (ctr0 + i) as u64,
            is_write: true,
            call_id,
            table_index,
            elem_index: (start + i) as u64,
            value: data[i],
        },
    )
}

/// Emits one read row per byte of the memory region `[offset, offset+n)`.
#[verifier::loop_isolation(false)]
pub(crate) fn emit_memory_read_rows(step: &mut ExecStep, offset: u64, n: u64)
    requires
        old(step).wf(),
        offset + n <= old(step).memory@.len(),
        old(step).rw_counter + n <= u64::MAX,
    ensures
        final(step).wf(),
        ExecStep::machine_unchanged(*old(step), *final(step)),
        ExecStep::effects_unchanged(*old(step), *final(step)),
        ExecStep::appended(
            *old(step),
            *final(step),
            memory_read_rows(old(step).memory@, offset, n, old(step).rw_counter as int, old(step).call_id),
        ),
{
    let ghost pre = *old(step);
    let ghost all = memory_read_rows(pre.memory@, offset, n, pre.rw_counter as int, pre.call_id);
    let _mem_len: usize = step.memory.len();
    let mut i: u64 = 0;
    while i < n
        invariant
            0 <= i <= n,
            step.rw_rows@ == pre.rw_rows@ + all.take(i as int),
            step.rw_counter == pre.rw_counter + i,
            ExecStep::machine_unchanged(pre, *step),
            ExecStep::effects_unchanged(pre, *step),
        decreases n - i,
    {
        let c = step.next_rw_counter();
        let v = step.memory[(offset + i) as usize];
        step.rw_rows.push(
            RwRow::Memory {
                rw_counter: c,
                is_write: false,
                call_id: step.call_id,
                memory_address: offset + i,
                value: v,
            },
        );
        proof {
            assert(all.take(i as int + 1) =~= all.take(i as int).push(all[i as int]));
        }
        i = i + 1;
    }
    proof {
        assert(all.take(n as int) =~= all);
        crate::exec_step::lemma_wf_after_append(pre, *step, all);
    }
}

/// Emits one write row per byte of `data`, at ascending addresses from
/// `offset`.
#[verifier::loop_isolation(false)]
pub(crate) fn emit_memory_write_rows(step: &mut ExecStep, offset: u64, data: &Vec<u8>)
    requires
        old(step).wf(),
        offset + data@.len() <= u64::MAX,
        old(step).rw_counter + data@.len() <= u64::MAX,
    ensures
        final(step).wf(),
        ExecStep::machine_unchanged(*old(step), *final(step)),
        ExecStep::effects_unchanged(*old(step), *final(step)),
        ExecStep::appended(
            *old(step),
            *final(step),
            memory_write_rows(data@, offset, old(step).rw_counter as int, old(step).call_id),
        ),
{
    let ghost pre = *old(step);
    let ghost all = memory_write_rows(data@, offset, pre.rw_counter as int, pre.call_id);
    let mut i: usize = 0;
    while i < data.len()
        invariant
            0 <= i <= data@.len(),
            step.rw_rows@ == pre.rw_rows@ + all.take(i as int),
            step.rw_counter == pre.rw_counter + i,
            ExecStep::machine_unchanged(pre, *step),
            ExecStep::effects_unchanged(pre, *step),
        decreases data@.len() - i,
    {
        let c = step.next_rw_counter();
        step.rw_rows.push(
            RwRow::Memory {
                rw_counter: c,
                is_write: true,
                call_id: step.call_id,
                memory_address: offset + i as u64,
                value: data[i],
            },
        );
        proof {
            assert(all.take(i as int + 1) =~= all.take(i as int).push(all[i as int]));
        }
        i = i + 1;
    }
    proof {
        assert(all.take(data@.len() as int) =~= all);
        crate::exec_step::lemma_wf_after_append(pre, *step, all);
    }
}

/// Emits one write row per element of `data`, at ascending element indices
/// of one table from `start`.
#[verifier::loop_isolation(false)]
pub(crate) fn emit_table_write_rows(step: &mut ExecStep, table_index: u32, start: u64, data: &Vec<u64>)
    requires
        old(step).wf(),
        start + data@.len() <= u64::MAX,
        old(step).rw_counter + data@.len() <= u64::MAX,
    ensures
        final(step).wf(),
        ExecStep::machine_unchanged(*old(step), *final(step)),
        ExecStep::effects_unchanged(*old(step), *final(step)),
        ExecStep::appended(
            *old(step),
            *final(step),
            table_write_rows(data@, table_index, start, old(step).rw_counter as int, old(step).call_id),
        ),
{
    let ghost pre = *old(step);
    let ghost all = table_write_rows(data@, table_index, start, pre.rw_counter as int, pre.call_id);
    let mut i: usize = 0;
    while i < data.len()
        invariant
            0 <= i <= data@.len(),
            step.rw_rows@ == pre.rw_rows@ + all.take(i as int),
            step.rw_counter == pre.rw_counter + i,
            ExecStep::machine_unchanged(pre, *step),
            ExecStep::effects_unchanged(pre, *step),
        decreases data@.len() - i,
    {
        let c = step.next_rw_counter();
        step.rw_rows.push(
            RwRow::Table {
                rw_counter: c,
                is_write: true,
                call_id: step.call_id,
                table_index,
                elem_index: start + i as u64,
                value: data[i],
            },
        );
        proof {
            assert(all.take(i as int + 1) =~= all.take(i as int).push(all[i as int]));
        }
        i = i + 1;
    }
    proof {
        assert(all.take(data@.len() as int) =~= all);
        crate::exec_step::lemma_wf_after_append(pre, *step, all);
    }
}

} // verus!

verus! {

/// What fuel consumption does: the delta is checked against the remaining
/// budget and booked; exhaustion is a fatal abort, never a clamp.  No row
/// is emitted; the fuel facts live in the step itself.
pub open spec fn consume_fuel_post(pre: ExecStep, post: ExecStep, r: Result<(), GadgetError>) -> bool {
    let delta = pre.instr->ConsumeFuel_0;
    if delta <= pre.fuel_remaining {
        &&& r is Ok
        &&& post == (ExecStep {
            fuel_remaining: (pre.fuel_remaining - delta) as u64,
            consumed_fuel: (pre.consumed_fuel + delta) as u64,
            ..pre
        })
    } else {
        &&& r == Result::<(), GadgetError>::Err(GadgetError::OutOfFuel)
        &&& post == pre
    }
}

/// Books the fuel delta of a `ConsumeFuel` instruction; fails fatally when
/// the remaining fuel would go negative.
pub fn build_consume_fuel_rw_ops(step: &mut ExecStep) -> (r: Result<(), GadgetError>)
    requires
        old(step).wf(),
        old(step).instr matches Instruction::ConsumeFuel(_),
    ensures
        final(step).wf(),
        consume_fuel_post(*old(step), *final(step), r),
{
    let delta = match step.instr {
        Instruction::ConsumeFuel(d) => d,
        _ => 0,
    };
    if delta > step.fuel_remaining {
        return Err(GadgetError::OutOfFuel);
    }
    step.fuel_remaining = step.fuel_remaining - delta;
    step.consumed_fuel = step.consumed_fuel + delta;
    Ok(())
}

/// The bulk-copy arguments on the recorded stack: destination offset,
/// source offset and length, pushed in that order.
pub open spec fn copy_args(stack: Seq<u64>) -> (u64, u64, u64) {
    (stack[stack.len() - 3], stack[stack.len() - 2], stack[stack.len() - 1])
}

/// The data rows of a memory copy: one write row per copied byte,
/// destination addresses ascending, values taken from the source region of
/// the memory as it was before any destination write (a snapshot, so
/// overlapping regions copy consistently).
pub open spec fn memory_copy_rows(mem: Seq<u8>, d: u64, s: u64, n: u64, ctr0: int, call_id: u32) -> Seq<RwRow> {
    Seq::new(
        n as nat,
        |i: int| RwRow::Memory {
            rw_counter: (ctr0 + i) as u64,
            is_write: true,
            call_id,
            memory_address: (d + i) as u64,
            value: mem[s + i],
        },
    )
}

/// Both the source and the destination region lie inside linear memory.
pub open spec fn memory_copy_ok(pre: ExecStep) -> bool {
    let (d, s, n) = copy_args(pre.stack@);
    s + n <= pre.memory@.len() && d + n <= pre.memory@.len()
}

/// What a memory copy of length `n` does: exactly `n` data rows on
/// success; a bounds violation fails fatally with no data row at all.
pub open spec fn memory_copy_post(pre: ExecStep, post: ExecStep, r: Result<(), GadgetError>) -> bool {
    let (d, s, n) = copy_args(pre.stack@);
    &&& ExecStep::machine_unchanged(pre, post)
    &&& ExecStep::effects_unchanged(pre, post)
    &&& if memory_copy_ok(pre) {
        &&& r is Ok
        &&& ExecStep::appended(
            pre,
            post,
            memory_copy_rows(pre.memory@, d, s, n, pre.rw_counter as int, pre.call_id),
        )
    } else {
        &&& r == Result::<(), GadgetError>::Err(GadgetError::OutOfBoundsMemory)
        &&& post == pre
    }
}

/// The bulk memory copy: `(dst, src, len)` from the stack, one row per
/// copied byte in ascending destination order.
#[verifier::loop_isolation(false)]
pub fn build_memory_copy_rw_ops(step: &mut ExecStep) -> (r: Result<(), GadgetError>)
    requires
        old(step).wf(),
        old(step).stack@.len() >= 3,
        memory_copy_ok(*old(step)) ==> old(step).rw_counter + copy_args(old(step).stack@).2
            <= u64::MAX,
    ensures
        final(step).wf(),
        memory_copy_post(*old(step), *final(step), r),
{
    let ghost pre = *old(step);
    let l = step.stack.len();
    let n = step.stack[l - 1];
    let s = step.stack[l - 2];
    let d = step.stack[l - 3];
    let mem_len = step.memory.len() as u64;
    if n > mem_len || s > mem_len - n || d > mem_len - n {
        return Err(GadgetError::OutOfBoundsMemory);
    }
    let mut data: Vec<u8> = Vec::new();
    let mut i: u64 = 0;
    while i < n
        invariant
            0 <= i <= n,
            data@ =~= pre.memory@.subrange(s as int, s + i),
            *step == pre,
        decreases n - i,
    {
        data.push(step.memory[(s + i) as usize]);
        proof {
            assert(data@ =~= pre.memory@.subrange(s as int, s + i + 1));
        }
        i = i + 1;
    }
    emit_memory_write_rows(step, d, &data);
    proof {
        assert(memory_write_rows(data@, d, pre.rw_counter as int, pre.call_id) =~= memory_copy_rows(
            pre.memory@,
            d,
            s,
            n,
            pre.rw_counter as int,
            pre.call_id,
        ));
    }
    Ok(())
}

/// The bulk-fill arguments on the recorded stack: destination offset, fill
/// value and length, pushed in that order.
pub open spec fn fill_args(stack: Seq<u64>) -> (u64, u64, u64) {
    (stack[stack.len() - 3], stack[stack.len() - 2], stack[stack.len() - 1])
}

/// The whole filled region lies inside linear memory.
pub open spec fn memory_fill_ok(pre: ExecStep) -> bool {
    let (d, v, n) = fill_args(pre.stack@);
    d + n <= pre.memory@.len()
}

/// The data rows of a memory fill: one write row per byte, addresses
/// ascending, all carrying the low byte of the fill value.
pub open spec fn memory_fill_rows(d: u64, v: u64, n: u64, ctr0: int, call_id: u32) -> Seq<RwRow> {
    Seq::new(
        n as nat,
        |i: int| RwRow::Memory {
            rw_counter: (ctr0 + i) as u64,
            is_write: true,
            call_id,
            memory_address: (d + i) as u64,
            value: (v % 256) as u8,
        },
    )
}

/// What a memory fill of length `n` does: exactly `n` data rows on
/// success; a bounds violation fails fatally with no data row at all.
pub open spec fn memory_fill_post(pre: ExecStep, post: ExecStep, r: Result<(), GadgetError>) -> bool {
    let (d, v, n) = fill_args(pre.stack@);
    &&& ExecStep::machine_unchanged(pre, post)
    &&& ExecStep::effects_unchanged(pre, post)
    &&& if memory_fill_ok(pre) {
        &&& r is Ok
        &&& ExecStep::appended(pre, post, memory_fill_rows(d, v, n, pre.rw_counter as int, pre.call_id))
    } else {
        &&& r == Result::<(), GadgetError>::Err(GadgetError::OutOfBoundsMemory)
        &&& post == pre
    }
}

/// The bulk memory fill: `(dst, value, len)` from the stack, one row per
/// filled byte in ascending destination order.
#[verifier::loop_isolation(false)]
pub fn build_memory_fill_rw_ops(step: &mut ExecStep) -> (r: Result<(), GadgetError>)
    requires
        old(step).wf(),
        old(step).stack@.len() >= 3,
        memory_fill_ok(*old(step)) ==> old(step).rw_counter + fill_args(old(step).stack@).2
            <= u64::MAX,
    ensures
        final(step).wf(),
        memory_fill_post(*old(step), *final(step), r),
{
    let ghost pre = *old(step);
    let l = step.stack.len();
    let n = step.stack[l - 1];
    let v = step.stack[l - 2];
    let d = step.stack[l - 3];
    let mem_len = step.memory.len() as u64;
    if n > mem_len || d > mem_len - n {
        return Err(GadgetError::OutOfBoundsMemory);
    }
    let byte = (v % 256) as u8;
    let mut data: Vec<u8> = Vec::new();
    let mut i: u64 = 0;
    while i < n
        invariant
            0 <= i <= n,
            data@ =~= Seq::new(i as nat, |k: int| byte),
            *step == pre,
        decreases n - i,
    {
        data.push(byte);
        proof {
            assert(data@ =~= Seq::new(i as nat + 1, |k: int| byte));
        }
        i = i + 1;
    }
    emit_memory_write_rows(step, d, &data);
    proof {
        assert(memory_write_rows(data@, d, pre.rw_counter as int, pre.call_id) =~= memory_fill_rows(
            d,
            v,
            n,
            pre.rw_counter as int,
            pre.call_id,
        ));
    }
    Ok(())
}

} // verus!

verus! {

/// The table-fill arguments on the recorded stack: start element, fill
/// value and count, pushed in that order.
pub open spec fn table_fill_args(stack: Seq<u64>) -> (u64, u64, u64) {
    (stack[stack.len() - 3], stack[stack.len() - 2], stack[stack.len() - 1])
}

/// The table exists and the filled element range lies inside it.
pub open spec fn table_fill_ok(pre: ExecStep, t: u32) -> bool {
    let (i, v, n) = table_fill_args(pre.stack@);
    &&& t < pre.tables@.len()
    &&& i + n <= pre.tables@[t as int].elems@.len()
}

/// The data rows of a table fill: one write row per element, indices
/// ascending, all carrying the fill value.
pub open spec fn table_fill_rows(t: u32, i0: u64, v: u64, n: u64, ctr0: int, call_id: u32) -> Seq<RwRow> {
    Seq::new(
        n as nat,
        |i: int| RwRow::Table {
            rw_counter: (ctr0 + i) as u64,
            is_write: true,
            call_id,
            table_index: t,
            elem_index: (i0 + i) as u64,
            value: v,
        },
    )
}

/// What a table fill does: exactly one row per affected element on
/// success; a bounds violation fails fatally with no data row at all.
pub open spec fn table_fill_post(pre: ExecStep, post: ExecStep, t: u32, r: Result<(), GadgetError>) -> bool {
    let (i, v, n) = table_fill_args(pre.stack@);
    &&& ExecStep::machine_unchanged(pre, post)
    &&& ExecStep::effects_unchanged(pre, post)
    &&& if table_fill_ok(pre, t) {
        &&& r is Ok
        &&& ExecStep::appended(pre, post, table_fill_rows(t, i, v, n, pre.rw_counter as int, pre.call_id))
    } else {
        &&& r == Result::<(), GadgetError>::Err(GadgetError::OutOfBoundsTable)
        &&& post == pre
    }
}

/// The bulk table fill: `(start, value, count)` from the stack, one row
/// per element in ascending index order.
#[verifier::loop_isolation(false)]
pub fn build_table_fill_rw_ops(step: &mut ExecStep, table_idx: u32) -> (r: Result<(), GadgetError>)
    requires
        old(step).wf(),
        old(step).stack@.len() >= 3,
        table_fill_ok(*old(step), table_idx) ==> old(step).rw_counter + table_fill_args(
            old(step).stack@,
        ).2 <= u64::MAX,
    ensures
        final(step).wf(),
        table_fill_post(*old(step), *final(step), table_idx, r),
{
    let ghost pre = *old(step);
    let l = step.stack.len();
    let n = step.stack[l - 1];
    let v = step.stack[l - 2];
    let i0 = step.stack[l - 3];
    if table_idx as usize >= step.tables.len() {
        return Err(GadgetError::OutOfBoundsTable);
    }
    let t_len = step.tables[table_idx as usize].elems.len() as u64;
    if n > t_len || i0 > t_len - n {
        return Err(GadgetError::OutOfBoundsTable);
    }
    let mut data: Vec<u64> = Vec::new();
    let mut i: u64 = 0;
    while i < n
        invariant
            0 <= i <= n,
            data@ =~= Seq::new(i as nat, |k: int| v),
            *step == pre,
        decreases n - i,
    {
        data.push(v);
        proof {
            assert(data@ =~= Seq::new(i as nat + 1, |k: int| v));
        }
        i = i + 1;
    }
    emit_table_write_rows(step, table_idx, i0, &data);
    proof {
        assert(table_write_rows(data@, table_idx, i0, pre.rw_counter as int, pre.call_id)
            =~= table_fill_rows(table_idx, i0, v, n, pre.rw_counter as int, pre.call_id));
    }
    Ok(())
}

/// Both tables exist and both element ranges lie inside them.
pub open spec fn table_copy_ok(pre: ExecStep, dst: u32, src: u32) -> bool {
    let (d, s, n) = copy_args(pre.stack@);
    &&& dst < pre.tables@.len()
    &&& src < pre.tables@.len()
    &&& s + n <= pre.tables@[src as int].elems@.len()
    &&& d + n <= pre.tables@[dst as int].elems@.len()
}

/// The data rows of a table copy: one write row per element, destination
/// indices ascending, values from the source table as it was before any
/// destination write.
pub open spec fn table_copy_rows(
    pre: ExecStep,
    dst: u32,
    src: u32,
    d: u64,
    s: u64,
    n: u64,
    ctr0: int,
) -> Seq<RwRow> {
    Seq::new(
        n as nat,
        |i: int| RwRow::Table {
            rw_counter: (ctr0 + i) as u64,
            is_write: true,
            call_id: pre.call_id,
            table_index: dst,
            elem_index: (d + i) as u64,
            value: pre.tables@[src as int].elems@[s + i],
        },
    )
}

/// What a table copy does: exactly one row per copied element on success;
/// a bounds violation fails fatally with no data row at all.
pub open spec fn table_copy_post(
    pre: ExecStep,
    post: ExecStep,
    dst: u32,
    src: u32,
    r: Result<(), GadgetError>,
) -> bool {
    let (d, s, n) = copy_args(pre.stack@);
    &&& ExecStep::machine_unchanged(pre, post)
    &&& ExecStep::effects_unchanged(pre, post)
    &&& if table_copy_ok(pre, dst, src) {
        &&& r is Ok
        &&& ExecStep::appended(pre, post, table_copy_rows(pre, dst, src, d, s, n, pre.rw_counter as int))
    } else {
        &&& r == Result::<(), GadgetError>::Err(GadgetError::OutOfBoundsTable)
        &&& post == pre
    }
}

/// The bulk table copy: `(dst_start, src_start, count)` from the stack,
/// one row per element in ascending destination order, source values
/// snapshotted before any write.
#[verifier::loop_isolation(false)]
pub fn build_table_copy_rw_ops(step: &mut ExecStep, dst_table: u32, src_table: u32) -> (r: Result<
    (),
    GadgetError,
>)
    requires
        old(step).wf(),
        old(step).stack@.len() >= 3,
        table_copy_ok(*old(step), dst_table, src_table) ==> old(step).rw_counter + copy_args(
            old(step).stack@,
        ).2 <= u64::MAX,
    ensures
        final(step).wf(),
        table_copy_post(*old(step), *final(step), dst_table, src_table, r),
{
    let ghost pre = *old(step);
    let l = step.stack.len();
    let n = step.stack[l - 1];
    let s = step.stack[l - 2];
    let d = step.stack[l - 3];
    if dst_table as usize >= step.tables.len() || src_table as usize >= step.tables.len() {
        return Err(GadgetError::OutOfBoundsTable);
    }
    let src_len = step.tables[src_table as usize].elems.len() as u64;
    let dst_len = step.tables[dst_table as usize].elems.len() as u64;
    if n > src_len || s > src_len - n || n > dst_len || d > dst_len - n {
        return Err(GadgetError::OutOfBoundsTable);
    }
    let mut data: Vec<u64> = Vec::new();
    let mut i: u64 = 0;
    while i < n
        invariant
            0 <= i <= n,
            data@ =~= pre.tables@[src_table as int].elems@.subrange(s as int, s + i),
            *step == pre,
        decreases n - i,
    {
        let src_elems = &step.tables[src_table as usize].elems;
        data.push(src_elems[(s + i) as usize]);
        proof {
            assert(data@ =~= pre.tables@[src_table as int].elems@.subrange(s as int, s + i + 1));
        }
        i = i + 1;
    }
    emit_table_write_rows(step, dst_table, d, &data);
    proof {
        assert(table_write_rows(data@, dst_table, d, pre.rw_counter as int, pre.call_id)
            =~= table_copy_rows(pre, dst_table, src_table, d, s, n, pre.rw_counter as int));
    }
    Ok(())
}

/// The table-grow arguments on the recorded stack: the value the new
/// elements start as and the growth delta, pushed in that order.
pub open spec fn table_grow_args(stack: Seq<u64>) -> (u64, u64) {
    (stack[stack.len() - 2], stack[stack.len() - 1])
}

/// The table exists and growing its current size by the delta stays
/// within the table's declared maximum.
pub open spec fn table_grow_ok(pre: ExecStep, t: u32) -> bool {
    let (v, n) = table_grow_args(pre.stack@);
    &&& t < pre.tables@.len()
    &&& pre.tables@[t as int].elems@.len() + n <= pre.tables@[t as int].max_size
}

/// The data rows of a table growth: one write row per new element,
/// indices ascending from the old size, all carrying the initial value.
pub open spec fn table_grow_rows(pre: ExecStep, t: u32, v: u64, n: u64, ctr0: int) -> Seq<RwRow> {
    Seq::new(
        n as nat,
        |i: int| RwRow::Table {
            rw_counter: (ctr0 + i) as u64,
            is_write: true,
            call_id: pre.call_id,
            table_index: t,
            elem_index: (pre.tables@[t as int].elems@.len() + i) as u64,
            value: v,
        },
    )
}

/// What a table growth does: one row per new element on success; growing
/// past the declared maximum fails fatally with no data row at all.
pub open spec fn table_grow_post(pre: ExecStep, post: ExecStep, t: u32, r: Result<(), GadgetError>) -> bool {
    let (v, n) = table_grow_args(pre.stack@);
    &&& ExecStep::machine_unchanged(pre, post)
    &&& ExecStep::effects_unchanged(pre, post)
    &&& if table_grow_ok(pre, t) {
        &&& r is Ok
        &&& ExecStep::appended(pre, post, table_grow_rows(pre, t, v, n, pre.rw_counter as int))
    } else {
        &&& r == Result::<(), GadgetError>::Err(GadgetError::OutOfBoundsTable)
        &&& post == pre
    }
}

/// The table growth: `(init_value, delta)` from the stack, one row per
/// newly created element; a growth past the declared maximum is a bounds
/// error.
#[verifier::loop_isolation(false)]
pub fn build_table_grow_rw_ops(step: &mut ExecStep, table_idx: u32) -> (r: Result<(), GadgetError>)
    requires
        old(step).wf(),
        old(step).stack@.len() >= 2,
        table_grow_ok(*old(step), table_idx) ==> old(step).rw_counter + table_grow_args(
            old(step).stack@,
        ).1 <= u64::MAX,
    ensures
        final(step).wf(),
        table_grow_post(*old(step), *final(step), table_idx, r),
{
    let ghost pre = *old(step);
    let l = step.stack.len();
    let n = step.stack[l - 1];
    let v = step.stack[l - 2];
    if table_idx as usize >= step.tables.len() {
        return Err(GadgetError::OutOfBoundsTable);
    }
    let t = &step.tables[table_idx as usize];
    let cur = t.elems.len() as u64;
    let max = t.max_size as u64;
    if n > max || cur > max - n {
        return Err(GadgetError::OutOfBoundsTable);
    }
    let mut data: Vec<u64> = Vec::new();
    let mut i: u64 = 0;
    while i < n
        invariant
            0 <= i <= n,
            data@ =~= Seq::new(i as nat, |k: int| v),
            *step == pre,
        decreases n - i,
    {
        data.push(v);
        proof {
            assert(data@ =~= Seq::new(i as nat + 1, |k: int| v));
        }
        i = i + 1;
    }
    emit_table_write_rows(step, table_idx, cur, &data);
    proof {
        assert(table_write_rows(data@, table_idx, cur, pre.rw_counter as int, pre.call_id)
            =~= table_grow_rows(pre, table_idx, v, n, pre.rw_counter as int));
    }
    Ok(())
}

/// The table exists and the accessed element does too.
pub open spec fn table_get_ok(pre: ExecStep, t: u32) -> bool {
    let i = pre.stack@[pre.stack@.len() - 1];
    &&& t < pre.tables@.len()
    &&& i < pre.tables@[t as int].elems@.len()
}

/// The single data row of a table element access.
pub open spec fn table_get_row(pre: ExecStep, t: u32) -> RwRow {
    let i = pre.stack@[pre.stack@.len() - 1];
    RwRow::Table {
        rw_counter: pre.rw_counter,
        is_write: false,
        call_id: pre.call_id,
        table_index: t,
        elem_index: i,
        value: pre.tables@[t as int].elems@[i as int],
    }
}

/// What a table element access does: one read row of the element on
/// success; a bounds violation fails fatally with no data row at all.
pub open spec fn table_get_post(pre: ExecStep, post: ExecStep, t: u32, r: Result<(), GadgetError>) -> bool {
    &&& ExecStep::machine_unchanged(pre, post)
    &&& ExecStep::effects_unchanged(pre, post)
    &&& if table_get_ok(pre, t) {
        &&& r is Ok
        &&& ExecStep::appended(pre, post, seq![table_get_row(pre, t)])
    } else {
        &&& r == Result::<(), GadgetError>::Err(GadgetError::OutOfBoundsTable)
        &&& post == pre
    }
}

/// The table element access: reads the element the stack names and emits
/// its read row.
pub fn build_table_get_rw_ops(step: &mut ExecStep, table_idx: u32) -> (r: Result<(), GadgetError>)
    requires
        old(step).wf(),
        old(step).stack@.len() >= 1,
        old(step).rw_counter < u64::MAX,
    ensures
        final(step).wf(),
        table_get_post(*old(step), *final(step), table_idx, r),
{
    let ghost pre = *old(step);
    let l = step.stack.len();
    let i = step.stack[l - 1];
    if table_idx as usize >= step.tables.len() {
        return Err(GadgetError::OutOfBoundsTable);
    }
    let t_len = step.tables[table_idx as usize].elems.len() as u64;
    if i >= t_len {
        return Err(GadgetError::OutOfBoundsTable);
    }
    let v = step.tables[table_idx as usize].elems[i as usize];
    let c = step.next_rw_counter();
    step.rw_rows.push(
        RwRow::Table {
            rw_counter: c,
            is_write: false,
            call_id: step.call_id,
            table_index: table_idx,
            elem_index: i,
            value: v,
        },
    );
    proof {
        assert(step.rw_rows@ =~= pre.rw_rows@ + seq![table_get_row(pre, table_idx)]);
        crate::exec_step::lemma_wf_after_append(pre, *step, seq![table_get_row(pre, table_idx)]);
    }
    Ok(())
}

} // verus!
