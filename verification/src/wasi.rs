//! Generators for the WASI host calls: process exit, descriptor write,
//! and the environment/argument size and content queries.
//!
//! The packed environment and argument strings travel as one recorded
//! blob with an entry count; the per-entry pointer table is the engine's
//! concern.  Every generator follows the shared discipline: one memory
//! row per byte touched, then one result row, then the guest-visible
//! code.

use vstd::prelude::*;
use vstd::bytes::spec_u32_to_le_bytes;
use crate::codec::write_u32_le;
use crate::exec_step::ExecStep;
use crate::opcode::{emit_memory_read_rows, emit_memory_write_rows, memory_read_rows, memory_write_rows};
use crate::platform::{emit_syscall_result_row, syscall_result_row, truncate_i32};
use crate::types::GadgetError;

verus! {

/// The WASI code for a write to a descriptor that is neither standard
/// output nor standard error.
pub open spec fn spec_errno_badf() -> u64 {
    8
}

/// What process exit does: one result row carrying the requested exit
/// code, which is also returned.
pub open spec fn wasi_proc_exit_post(pre: ExecStep, post: ExecStep, r: Result<i32, GadgetError>) -> bool {
    let code = pre.stack@[pre.stack@.len() - 1];
    &&& ExecStep::machine_unchanged(pre, post)
    &&& ExecStep::effects_unchanged(pre, post)
    &&& ExecStep::appended(pre, post, seq![syscall_result_row(pre.rw_counter as int, pre.call_id, code)])
    &&& r == Result::<i32, GadgetError>::Ok(code as i32)
}

/// Process exit: records the exit code the guest requested.
pub fn build_wasi_proc_exit_rw_ops(step: &mut ExecStep) -> (r: Result<i32, GadgetError>)
    requires
        old(step).wf(),
        old(step).stack@.len() >= 1,
        old(step).rw_counter < u64::MAX,
    ensures
        final(step).wf(),
        wasi_proc_exit_post(*old(step), *final(step), r),
{
    let l = step.stack.len();
    let code = step.stack[l - 1];
    emit_syscall_result_row(step, code);
    Ok(truncate_i32(code))
}

/// The descriptor-write arguments on the recorded stack: descriptor,
/// source offset, length, and the offset the written-byte count is stored
/// at, pushed in that order.
pub open spec fn fd_write_args(stack: Seq<u64>) -> (u64, u64, u64, u64) {
    (
        stack[stack.len() - 4],
        stack[stack.len() - 3],
        stack[stack.len() - 2],
        stack[stack.len() - 1],
    )
}

/// What a descriptor write does.  To standard output or standard error:
/// one read row per byte of the region, four write rows storing the
/// written-byte count little-endian, a result row carrying the count, the
/// bytes appended to the output buffer, and code zero.  To any other
/// descriptor: one result row carrying the bad-descriptor code, which is
/// also returned — a guest-visible outcome, not a fault.
pub open spec fn wasi_fd_write_post(pre: ExecStep, post: ExecStep, r: Result<i32, GadgetError>) -> bool {
    let (fd, off, len, rp) = fd_write_args(pre.stack@);
    &&& ExecStep::machine_unchanged(pre, post)
    &&& post.fuel_remaining == pre.fuel_remaining
    &&& post.consumed_fuel == pre.consumed_fuel
    &&& post.return_data == pre.return_data
    &&& if fd == 1 || fd == 2 {
        &&& post.output@ == pre.output@ + pre.memory@.subrange(off as int, off + len)
        &&& ExecStep::appended(
            pre,
            post,
            memory_read_rows(pre.memory@, off, len, pre.rw_counter as int, pre.call_id)
                + memory_write_rows(
                spec_u32_to_le_bytes(len as u32),
                rp,
                pre.rw_counter + len,
                pre.call_id,
            ) + seq![syscall_result_row(pre.rw_counter + len + 4, pre.call_id, len)],
        )
        &&& r == Result::<i32, GadgetError>::Ok(0)
    } else {
        &&& post.output == pre.output
        &&& ExecStep::appended(
            pre,
            post,
            seq![syscall_result_row(pre.rw_counter as int, pre.call_id, spec_errno_badf())],
        )
        &&& r == Result::<i32, GadgetError>::Ok(spec_errno_badf() as i32)
    }
}

/// The descriptor write: `(fd, offset, length, result_offset)` from the
/// stack.  The caller validated both memory regions before dispatch.
#[verifier::loop_isolation(false)]
pub fn build_wasi_fd_write_rw_ops(step: &mut ExecStep) -> (r: Result<i32, GadgetError>)
    requires
        old(step).wf(),
        old(step).stack@.len() >= 4,
        fd_write_args(old(step).stack@).1 + fd_write_args(old(step).stack@).2
            <= old(step).memory@.len(),
        fd_write_args(old(step).stack@).3 + 4 <= old(step).memory@.len(),
        fd_write_args(old(step).stack@).2 <= u32::MAX,
        old(step).rw_counter + fd_write_args(old(step).stack@).2 + 5 <= u64::MAX,
    ensures
        final(step).wf(),
        wasi_fd_write_post(*old(step), *final(step), r),
{
    let ghost pre = *old(step);
    let l = step.stack.len();
    let rp = step.stack[l - 1];
    let len = step.stack[l - 2];
    let off = step.stack[l - 3];
    let fd = step.stack[l - 4];
    if fd != 1 && fd != 2 {
        emit_syscall_result_row(step, 8);
        return Ok(8);
    }
    let _mem_len: usize = step.memory.len();
    emit_memory_read_rows(step, off, len);
    let count_bytes = write_u32_le(len as u32);
    proof {
        vstd::bytes::lemma_auto_spec_u32_to_from_le_bytes();
    }
    emit_memory_write_rows(step, rp, &count_bytes);
    emit_syscall_result_row(step, len);
    let mut i: u64 = 0;
    let ghost mid = *step;
    while i < len
        invariant
            0 <= i <= len,
            step.output@ == pre.output@ + pre.memory@.subrange(off as int, off + i),
            *step == (ExecStep { output: step.output, ..mid }),
        decreases len - i,
    {
        let b = step.memory[(off + i) as usize];
        step.output.push(b);
        proof {
            assert(step.output@ =~= pre.output@ + pre.memory@.subrange(off as int, off + i + 1));
        }
        i = i + 1;
    }
    proof {
        vstd::bytes::lemma_auto_spec_u32_to_from_le_bytes();
        assert(step.rw_rows@ =~= pre.rw_rows@ + (memory_read_rows(
            pre.memory@,
            off,
            len,
            pre.rw_counter as int,
            pre.call_id,
        ) + memory_write_rows(spec_u32_to_le_bytes(len as u32), rp, pre.rw_counter + len, pre.call_id)
            + seq![syscall_result_row(pre.rw_counter + len + 4, pre.call_id, len)]));
    }
    Ok(0)
}

/// The two result offsets of a size query, pushed in that order.
pub open spec fn sizes_get_args(stack: Seq<u64>) -> (u64, u64) {
    (stack[stack.len() - 2], stack[stack.len() - 1])
}

/// What an environment size query does: four write rows storing the entry
/// count, four storing the packed blob's byte size, one result row, code
/// zero.
pub open spec fn wasi_environ_sizes_get_post(
    pre: ExecStep,
    post: ExecStep,
    r: Result<i32, GadgetError>,
) -> bool {
    let (count_ptr, size_ptr) = sizes_get_args(pre.stack@);
    &&& ExecStep::machine_unchanged(pre, post)
    &&& ExecStep::effects_unchanged(pre, post)
    &&& ExecStep::appended(
        pre,
        post,
        memory_write_rows(spec_u32_to_le_bytes(pre.env_count), count_ptr, pre.rw_counter as int, pre.call_id)
            + memory_write_rows(
            spec_u32_to_le_bytes(pre.env_blob@.len() as u32),
            size_ptr,
            pre.rw_counter + 4,
            pre.call_id,
        ) + seq![syscall_result_row(pre.rw_counter + 8, pre.call_id, 0)],
    )
    &&& r == Result::<i32, GadgetError>::Ok(0)
}

/// The environment size query: stores the entry count and the packed
/// byte size at the two offsets the stack names.
pub fn build_wasi_environ_sizes_get_rw_ops(step: &mut ExecStep) -> (r: Result<i32, GadgetError>)
    requires
        old(step).wf(),
        old(step).stack@.len() >= 2,
        sizes_get_args(old(step).stack@).0 + 4 <= old(step).memory@.len(),
        sizes_get_args(old(step).stack@).1 + 4 <= old(step).memory@.len(),
        old(step).env_blob@.len() <= u32::MAX,
        old(step).rw_counter + 9 <= u64::MAX,
    ensures
        final(step).wf(),
        wasi_environ_sizes_get_post(*old(step), *final(step), r),
{
    let ghost pre = *old(step);
    let l = step.stack.len();
    let size_ptr = step.stack[l - 1];
    let count_ptr = step.stack[l - 2];
    let _mem_len: usize = step.memory.len();
    let count_bytes = write_u32_le(step.env_count);
    proof {
        vstd::bytes::lemma_auto_spec_u32_to_from_le_bytes();
    }
    emit_memory_write_rows(step, count_ptr, &count_bytes);
    let size_bytes = write_u32_le(step.env_blob.len() as u32);
    emit_memory_write_rows(step, size_ptr, &size_bytes);
    emit_syscall_result_row(step, 0);
    proof {
        vstd::bytes::lemma_auto_spec_u32_to_from_le_bytes();
        assert(step.rw_rows@ =~= pre.rw_rows@ + (memory_write_rows(
            spec_u32_to_le_bytes(pre.env_count),
            count_ptr,
            pre.rw_counter as int,
            pre.call_id,
        ) + memory_write_rows(
            spec_u32_to_le_bytes(pre.env_blob@.len() as u32),
            size_ptr,
            pre.rw_counter + 4,
            pre.call_id,
        ) + seq![syscall_result_row(pre.rw_counter + 8, pre.call_id, 0)]));
    }
    Ok(0)
}

/// The two buffer offsets of a content query: the pointer-table offset
/// (resolved by the engine) and the data-buffer offset, pushed in that
/// order.
pub open spec fn content_get_args(stack: Seq<u64>) -> (u64, u64) {
    (stack[stack.len() - 2], stack[stack.len() - 1])
}

/// What an environment content query does: one write row per byte of the
/// packed blob, stored at the data-buffer offset, one result row, code
/// zero.
pub open spec fn wasi_environ_get_post(pre: ExecStep, post: ExecStep, r: Result<i32, GadgetError>) -> bool {
    let (env_ptr, buf_ptr) = content_get_args(pre.stack@);
    &&& ExecStep::machine_unchanged(pre, post)
    &&& ExecStep::effects_unchanged(pre, post)
    &&& ExecStep::appended(
        pre,
        post,
        memory_write_rows(pre.env_blob@, buf_ptr, pre.rw_counter as int, pre.call_id) + seq![
            syscall_result_row(pre.rw_counter + pre.env_blob@.len(), pre.call_id, 0),
        ],
    )
    &&& r == Result::<i32, GadgetError>::Ok(0)
}

/// The environment content query: stores the packed environment blob at
/// the buffer offset the stack names.
pub fn build_wasi_environ_get_rw_ops(step: &mut ExecStep) -> (r: Result<i32, GadgetError>)
    requires
        old(step).wf(),
        old(step).stack@.len() >= 2,
        content_get_args(old(step).stack@).1 + old(step).env_blob@.len()
            <= old(step).memory@.len(),
        old(step).rw_counter + old(step).env_blob@.len() < u64::MAX,
    ensures
        final(step).wf(),
        wasi_environ_get_post(*old(step), *final(step), r),
{
    let ghost pre = *old(step);
    let l = step.stack.len();
    let buf_ptr = step.stack[l - 1];
    let _mem_len: usize = step.memory.len();
    let blob = step.env_blob.clone();
    proof {
        assert(blob@ =~= pre.env_blob@);
    }
    emit_memory_write_rows(step, buf_ptr, &blob);
    emit_syscall_result_row(step, 0);
    proof {
        assert(step.rw_rows@ =~= pre.rw_rows@ + (memory_write_rows(
            pre.env_blob@,
            buf_ptr,
            pre.rw_counter as int,
            pre.call_id,
        ) + seq![syscall_result_row(pre.rw_counter + pre.env_blob@.len(), pre.call_id, 0)]));
    }
    Ok(0)
}

/// What an argument size query does: the same shape as the environment
/// size query, over the packed argument strings.
pub open spec fn wasi_args_sizes_get_post(pre: ExecStep, post: ExecStep, r: Result<i32, GadgetError>) -> bool {
    let (count_ptr, size_ptr) = sizes_get_args(pre.stack@);
    &&& ExecStep::machine_unchanged(pre, post)
    &&& ExecStep::effects_unchanged(pre, post)
    &&& ExecStep::appended(
        pre,
        post,
        memory_write_rows(spec_u32_to_le_bytes(pre.args_count), count_ptr, pre.rw_counter as int, pre.call_id)
            + memory_write_rows(
            spec_u32_to_le_bytes(pre.args_blob@.len() as u32),
            size_ptr,
            pre.rw_counter + 4,
            pre.call_id,
        ) + seq![syscall_result_row(pre.rw_counter + 8, pre.call_id, 0)],
    )
    &&& r == Result::<i32, GadgetError>::Ok(0)
}

/// The argument size query: stores the argument count and the packed
/// byte size at the two offsets the stack names.
pub fn build_wasi_args_sizes_get_rw_ops(step: &mut ExecStep) -> (r: Result<i32, GadgetError>)
    requires
        old(step).wf(),
        old(step).stack@.len() >= 2,
        sizes_get_args(old(step).stack@).0 + 4 <= old(step).memory@.len(),
        sizes_get_args(old(step).stack@).1 + 4 <= old(step).memory@.len(),
        old(step).args_blob@.len() <= u32::MAX,
        old(step).rw_counter + 9 <= u64::MAX,
    ensures
        final(step).wf(),
        wasi_args_sizes_get_post(*old(step), *final(step), r),
{
    let ghost pre = *old(step);
    let l = step.stack.len();
    let size_ptr = step.stack[l - 1];
    let count_ptr = step.stack[l - 2];
    let _mem_len: usize = step.memory.len();
    let count_bytes = write_u32_le(step.args_count);
    proof {
        vstd::bytes::lemma_auto_spec_u32_to_from_le_bytes();
    }
    emit_memory_write_rows(step, count_ptr, &count_bytes);
    let size_bytes = write_u32_le(step.args_blob.len() as u32);
    emit_memory_write_rows(step, size_ptr, &size_bytes);
    emit_syscall_result_row(step, 0);
    proof {
        vstd::bytes::lemma_auto_spec_u32_to_from_le_bytes();
        assert(step.rw_rows@ =~= pre.rw_rows@ + (memory_write_rows(
            spec_u32_to_le_bytes(pre.args_count),
            count_ptr,
            pre.rw_counter as int,
            pre.call_id,
        ) + memory_write_rows(
            spec_u32_to_le_bytes(pre.args_blob@.len() as u32),
            size_ptr,
            pre.rw_counter + 4,
            pre.call_id,
        ) + seq![syscall_result_row(pre.rw_counter + 8, pre.call_id, 0)]));
    }
    Ok(0)
}

/// What an argument content query does: the same shape as the environment
/// content query, over the packed argument strings.
pub open spec fn wasi_args_get_post(pre: ExecStep, post: ExecStep, r: Result<i32, GadgetError>) -> bool {
    let (args_ptr, buf_ptr) = content_get_args(pre.stack@);
    &&& ExecStep::machine_unchanged(pre, post)
    &&& ExecStep::effects_unchanged(pre, post)
    &&& ExecStep::appended(
        pre,
        post,
        memory_write_rows(pre.args_blob@, buf_ptr, pre.rw_counter as int, pre.call_id) + seq![
            syscall_result_row(pre.rw_counter + pre.args_blob@.len(), pre.call_id, 0),
        ],
    )
    &&& r == Result::<i32, GadgetError>::Ok(0)
}

/// The argument content query: stores the packed argument blob at the
/// buffer offset the stack names.
pub fn build_wasi_args_get_rw_ops(step: &mut ExecStep) -> (r: Result<i32, GadgetError>)
    requires
        old(step).wf(),
        old(step).stack@.len() >= 2,
        content_get_args(old(step).stack@).1 + old(step).args_blob@.len()
            <= old(step).memory@.len(),
        old(step).rw_counter + old(step).args_blob@.len() < u64::MAX,
    ensures
        final(step).wf(),
        wasi_args_get_post(*old(step), *final(step), r),
{
    let ghost pre = *old(step);
    let l = step.stack.len();
    let buf_ptr = step.stack[l - 1];
    let _mem_len: usize = step.memory.len();
    let blob = step.args_blob.clone();
    proof {
        assert(blob@ =~= pre.args_blob@);
    }
    emit_memory_write_rows(step, buf_ptr, &blob);
    emit_syscall_result_row(step, 0);
    proof {
        assert(step.rw_rows@ =~= pre.rw_rows@ + (memory_write_rows(
            pre.args_blob@,
            buf_ptr,
            pre.rw_counter as int,
            pre.call_id,
        ) + seq![syscall_result_row(pre.rw_counter + pre.args_blob@.len(), pre.call_id, 0)]));
    }
    Ok(0)
}

} // verus!
