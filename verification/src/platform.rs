//! Generators for the plain system calls: halt, buffered write and
//! buffered read.
//!
//! Each one reads its fixed-shape arguments from the recorded stack,
//! emits one memory row per byte of every region it touches, then one
//! system-call result row, and returns the guest-visible exit code.  A
//! failure the guest can observe (a short input buffer) is encoded in the
//! result row and returned as a successful result carrying that code; it
//! is never a builder fault.

use vstd::prelude::*;
use crate::exec_step::ExecStep;
use crate::opcode::{emit_memory_read_rows, emit_memory_write_rows, memory_read_rows, memory_write_rows};
use crate::rw_row::RwRow;
use crate::types::{ExitCode, GadgetError};

verus! {

/// A system-call result row: a write carrying the call's logical outcome.
pub open spec fn syscall_result_row(ctr: int, call_id: u32, value: u64) -> RwRow {
    RwRow::SysCall { rw_counter: ctr as u64, is_write: true, call_id, arg_index: 0, value }
}

/// Appends one system-call result row.
pub(crate) fn emit_syscall_result_row(step: &mut ExecStep, value: u64)
    requires
        old(step).wf(),
        old(step).rw_counter < u64::MAX,
    ensures
        final(step).wf(),
        ExecStep::machine_unchanged(*old(step), *final(step)),
        ExecStep::effects_unchanged(*old(step), *final(step)),
        ExecStep::appended(
            *old(step),
            *final(step),
            seq![syscall_result_row(old(step).rw_counter as int, old(step).call_id, value)],
        ),
{
    let ghost pre = *old(step);
    let c = step.next_rw_counter();
    step.rw_rows.push(
        RwRow::SysCall { rw_counter: c, is_write: true, call_id: step.call_id, arg_index: 0, value },
    );
    proof {
        let row = syscall_result_row(pre.rw_counter as int, pre.call_id, value);
        assert(step.rw_rows@ =~= pre.rw_rows@ + seq![row]);
        crate::exec_step::lemma_wf_after_append(pre, *step, seq![row]);
    }
}

/// What the halt system call does: one result row carrying the requested
/// exit code, which is also returned.
pub open spec fn sys_halt_post(pre: ExecStep, post: ExecStep, r: Result<i32, GadgetError>) -> bool {
    let code = pre.stack@[pre.stack@.len() - 1];
    &&& ExecStep::machine_unchanged(pre, post)
    &&& ExecStep::effects_unchanged(pre, post)
    &&& ExecStep::appended(pre, post, seq![syscall_result_row(pre.rw_counter as int, pre.call_id, code)])
    &&& r == Result::<i32, GadgetError>::Ok(code as i32)
}

/// The halt system call: records the exit code the guest requested.
pub fn build_sys_halt_rw_ops(step: &mut ExecStep) -> (r: Result<i32, GadgetError>)
    requires
        old(step).wf(),
        old(step).stack@.len() >= 1,
        old(step).rw_counter < u64::MAX,
    ensures
        final(step).wf(),
        sys_halt_post(*old(step), *final(step), r),
{
    let l = step.stack.len();
    let code = step.stack[l - 1];
    emit_syscall_result_row(step, code);
    Ok(truncate_i32(code))
}

/// Truncates a stack value to the signed 32-bit exit code it carries.
pub fn truncate_i32(v: u64) -> (r: i32)
    ensures
        r == v as i32,
{
    #[verifier::truncate] (v as i32)
}

/// The buffered-write arguments on the recorded stack: source offset and
/// length, pushed in that order.
pub open spec fn sys_write_args(stack: Seq<u64>) -> (u64, u64) {
    (stack[stack.len() - 2], stack[stack.len() - 1])
}

/// What the buffered write does: one read row per written byte, a result
/// row carrying the byte count, the bytes appended to the output buffer,
/// and a success code.
pub open spec fn sys_write_post(pre: ExecStep, post: ExecStep, r: Result<i32, GadgetError>) -> bool {
    let (off, len) = sys_write_args(pre.stack@);
    &&& ExecStep::machine_unchanged(pre, post)
    &&& post.fuel_remaining == pre.fuel_remaining
    &&& post.consumed_fuel == pre.consumed_fuel
    &&& post.return_data == pre.return_data
    &&& post.output@ == pre.output@ + pre.memory@.subrange(off as int, off + len)
    &&& ExecStep::appended(
        pre,
        post,
        memory_read_rows(pre.memory@, off, len, pre.rw_counter as int, pre.call_id) + seq![
            syscall_result_row(pre.rw_counter + len, pre.call_id, len),
        ],
    )
    &&& r == Result::<i32, GadgetError>::Ok(0)
}

/// The buffered write system call: reads `(offset, length)` from the
/// stack and hands that memory region to the output buffer, one read row
/// per byte.  The caller validated the region before dispatch.
#[verifier::loop_isolation(false)]
pub fn build_sys_write_rw_ops(step: &mut ExecStep) -> (r: Result<i32, GadgetError>)
    requires
        old(step).wf(),
        old(step).stack@.len() >= 2,
        sys_write_args(old(step).stack@).0 + sys_write_args(old(step).stack@).1
            <= old(step).memory@.len(),
        old(step).rw_counter + sys_write_args(old(step).stack@).1 < u64::MAX,
    ensures
        final(step).wf(),
        sys_write_post(*old(step), *final(step), r),
{
    let ghost pre = *old(step);
    let l = step.stack.len();
    let len = step.stack[l - 1];
    let off = step.stack[l - 2];
    let _mem_len: usize = step.memory.len();
    emit_memory_read_rows(step, off, len);
    emit_syscall_result_row(step, len);
    let mut i: u64 = 0;
    let ghost mid = *step;
    while i < len
        invariant
            0 <= i <= len,
            step.output@ == pre.output@ + pre.memory@.subrange(off as int, off + i),
            *step == (ExecStep { output: step.output, ..mid }),
        decreases len - i,
    {
        let b = step.memory[(off + i) as usize];
        step.output.push(b);
        proof {
            assert(step.output@ =~= pre.output@ + pre.memory@.subrange(off as int, off + i + 1));
        }
        i = i + 1;
    }
    proof {
        assert(step.rw_rows@ =~= pre.rw_rows@ + (memory_read_rows(
            pre.memory@,
            off,
            len,
            pre.rw_counter as int,
            pre.call_id,
        ) + seq![syscall_result_row(pre.rw_counter + len, pre.call_id, len)]));
    }
    Ok(0)
}

/// The buffered-read arguments on the recorded stack: target memory
/// offset, offset into the input buffer, and length, pushed in that
/// order.
pub open spec fn sys_read_args(stack: Seq<u64>) -> (u64, u64, u64) {
    (stack[stack.len() - 3], stack[stack.len() - 2], stack[stack.len() - 1])
}

/// The requested input range lies inside the input buffer.
pub open spec fn sys_read_ok(pre: ExecStep) -> bool {
    let (target, source, len) = sys_read_args(pre.stack@);
    source + len <= pre.input@.len()
}

/// What the buffered read does.  On an in-range request: one write row
/// per byte copied from the input buffer into memory, a result row
/// carrying the byte count, and a success code.  A request past the end
/// of the input buffer is a guest-visible failure: one result row
/// carrying the failure code, which is also returned — not a builder
/// fault.
pub open spec fn sys_read_post(pre: ExecStep, post: ExecStep, r: Result<i32, GadgetError>) -> bool {
    let (target, source, len) = sys_read_args(pre.stack@);
    &&& ExecStep::machine_unchanged(pre, post)
    &&& ExecStep::effects_unchanged(pre, post)
    &&& if sys_read_ok(pre) {
        &&& ExecStep::appended(
            pre,
            post,
            memory_write_rows(
                pre.input@.subrange(source as int, source + len),
                target,
                pre.rw_counter as int,
                pre.call_id,
            ) + seq![syscall_result_row(pre.rw_counter + len, pre.call_id, len)],
        )
        &&& r == Result::<i32, GadgetError>::Ok(0)
    } else {
        &&& ExecStep::appended(
            pre,
            post,
            seq![
                syscall_result_row(
                    pre.rw_counter as int,
                    pre.call_id,
                    ExitCode::MemoryOutOfBounds.spec_into_i32() as u64,
                ),
            ],
        )
        &&& r == Result::<i32, GadgetError>::Ok(ExitCode::MemoryOutOfBounds.spec_into_i32())
    }
}

/// The buffered read system call: copies `(target, source, length)` worth
/// of input bytes into memory, one write row per byte.  The caller
/// validated the target region; a source range past the input buffer is
/// the guest's own failure, returned as its exit code.
#[verifier::loop_isolation(false)]
pub fn build_sys_read_rw_ops(step: &mut ExecStep) -> (r: Result<i32, GadgetError>)
    requires
        old(step).wf(),
        old(step).stack@.len() >= 3,
        sys_read_args(old(step).stack@).0 + sys_read_args(old(step).stack@).2
            <= old(step).memory@.len(),
        old(step).rw_counter + sys_read_args(old(step).stack@).2 < u64::MAX,
    ensures
        final(step).wf(),
        sys_read_post(*old(step), *final(step), r),
{
    let ghost pre = *old(step);
    let l = step.stack.len();
    let len = step.stack[l - 1];
    let source = step.stack[l - 2];
    let target = step.stack[l - 3];
    let _mem_len: usize = step.memory.len();
    let input_len = step.input.len() as u64;
    if len > input_len || source > input_len - len {
        let code = ExitCode::MemoryOutOfBounds.into_i32();
        emit_syscall_result_row(step, truncate_u64(code));
        return Ok(code);
    }
    let mut data: Vec<u8> = Vec::new();
    let mut i: u64 = 0;
    while i < len
        invariant
            0 <= i <= len,
            data@ =~= pre.input@.subrange(source as int, source + i),
            *step == pre,
        decreases len - i,
    {
        data.push(step.input[(source + i) as usize]);
        proof {
            assert(data@ =~= pre.input@.subrange(source as int, source + i + 1));
        }
        i = i + 1;
    }
    emit_memory_write_rows(step, target, &data);
    emit_syscall_result_row(step, len);
    proof {
        assert(step.rw_rows@ =~= pre.rw_rows@ + (memory_write_rows(
            pre.input@.subrange(source as int, source + len),
            target,
            pre.rw_counter as int,
            pre.call_id,
        ) + seq![syscall_result_row(pre.rw_counter + len, pre.call_id, len)]));
    }
    Ok(0)
}

/// Sign-extends a 32-bit exit code into the 64-bit value its row carries.
pub fn truncate_u64(v: i32) -> (r: u64)
    ensures
        r == v as u64,
{
    #[verifier::truncate] (v as u64)
}

} // verus!
