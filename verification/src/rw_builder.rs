//! The per-instruction dispatcher: appends the leading program-counter
//! context row, then hands the step to the matching generator.
//!
//! The context row always comes first, before any other row of the step:
//! later rows depend on it already being committed.  Call-like
//! instructions resolve a platform function index; an index outside the
//! known set is a fatal `UnknownSysCall` — bytecode is pre-validated, so
//! hitting it signals a decoder/dispatcher mismatch.

use vstd::prelude::*;
use crate::exec_step::{ExecStep, Instruction};
use crate::opcode::{
    build_consume_fuel_rw_ops, build_generic_rw_ops, build_memory_copy_rw_ops,
    build_memory_fill_rw_ops, build_table_copy_rw_ops, build_table_fill_rw_ops,
    build_table_get_rw_ops, build_table_grow_rw_ops, copy_args, fill_args, generic_ops_wf,
    generic_rows, memory_copy_ok, memory_copy_post, memory_fill_ok, memory_fill_post,
    consume_fuel_post, table_copy_ok, table_copy_post, table_fill_ok, table_fill_post,
    table_get_post, table_grow_args, table_grow_ok, table_grow_post, table_fill_args,
};
use crate::platform::{
    build_sys_halt_rw_ops, build_sys_read_rw_ops, build_sys_write_rw_ops, sys_halt_post,
    sys_read_args, sys_read_ok, sys_read_post, sys_write_args, sys_write_post,
};
use crate::rw_row::{RwRow, RwTableContextTag};
use crate::rwasm::{build_rwasm_transact_rw_ops, transact_args, transact_fuel_limit, transact_post};
use crate::types::{ExitCode, GadgetError};
use crate::wasi::{
    build_wasi_args_get_rw_ops, build_wasi_args_sizes_get_rw_ops, build_wasi_environ_get_rw_ops,
    build_wasi_environ_sizes_get_rw_ops, build_wasi_fd_write_rw_ops, build_wasi_proc_exit_rw_ops,
    content_get_args, fd_write_args, sizes_get_args, wasi_args_get_post, wasi_args_sizes_get_post,
    wasi_environ_get_post, wasi_environ_sizes_get_post, wasi_fd_write_post, wasi_proc_exit_post,
};

verus! {

/// The platform functions a call-like instruction can resolve to.
#[derive(Debug, Clone, Copy, PartialEq, Eq, Structural)]
pub enum SysFuncIdx {
    RwasmTransact,
    SysHalt,
    SysWrite,
    SysRead,
    WasiProcExit,
    WasiFdWrite,
    WasiEnvironSizesGet,
    WasiEnvironGet,
    WasiArgsSizesGet,
    WasiArgsGet,
    Unknown,
}

impl SysFuncIdx {
    /// The platform function a call index resolves to; indices outside
    /// the assigned range resolve to `Unknown`.
    pub open spec fn spec_from_index(idx: u32) -> SysFuncIdx {
        if idx == 1 {
            SysFuncIdx::RwasmTransact
        } else if idx == 2 {
            SysFuncIdx::SysHalt
        } else if idx == 3 {
            SysFuncIdx::SysWrite
        } else if idx == 4 {
            SysFuncIdx::SysRead
        } else if idx == 5 {
            SysFuncIdx::WasiProcExit
        } else if idx == 6 {
            SysFuncIdx::WasiFdWrite
        } else if idx == 7 {
            SysFuncIdx::WasiEnvironSizesGet
        } else if idx == 8 {
            SysFuncIdx::WasiEnvironGet
        } else if idx == 9 {
            SysFuncIdx::WasiArgsSizesGet
        } else if idx == 10 {
            SysFuncIdx::WasiArgsGet
        } else {
            SysFuncIdx::Unknown
        }
    }

    /// Resolves a call index to its platform function.
    pub fn from_index(idx: u32) -> (r: SysFuncIdx)
        ensures
            r == SysFuncIdx::spec_from_index(idx),
    {
        if idx == 1 {
            SysFuncIdx::RwasmTransact
        } else if idx == 2 {
            SysFuncIdx::SysHalt
        } else if idx == 3 {
            SysFuncIdx::SysWrite
        } else if idx == 4 {
            SysFuncIdx::SysRead
        } else if idx == 5 {
            SysFuncIdx::WasiProcExit
        } else if idx == 6 {
            SysFuncIdx::WasiFdWrite
        } else if idx == 7 {
            SysFuncIdx::WasiEnvironSizesGet
        } else if idx == 8 {
            SysFuncIdx::WasiEnvironGet
        } else if idx == 9 {
            SysFuncIdx::WasiArgsSizesGet
        } else if idx == 10 {
            SysFuncIdx::WasiArgsGet
        } else {
            SysFuncIdx::Unknown
        }
    }
}

/// The leading context row of a step: a write of the step's
/// program-counter delta, carrying the step's first counter value.
pub open spec fn context_row(pre: ExecStep) -> RwRow {
    RwRow::Context {
        rw_counter: pre.rw_counter,
        is_write: true,
        call_id: pre.call_id,
        tag: RwTableContextTag::ProgramCounter,
        value: pre.pc_delta,
    }
}

/// `mid` is `pre` with exactly the leading context row appended and
/// nothing else changed.
pub open spec fn context_appended(pre: ExecStep, mid: ExecStep) -> bool {
    &&& ExecStep::appended(pre, mid, seq![context_row(pre)])
    &&& ExecStep::machine_unchanged(pre, mid)
    &&& ExecStep::effects_unchanged(pre, mid)
    &&& mid.wf()
}

/// The guest-visible result each platform function returns, determined
/// by the recorded step alone.
pub open spec fn platform_spec_result(pre: ExecStep, f: u32) -> Result<i32, GadgetError> {
    if pre.fuel_remaining == 0 {
        Err(GadgetError::OutOfFuel)
    } else {
        match SysFuncIdx::spec_from_index(f) {
        SysFuncIdx::RwasmTransact => transact_spec_result(pre),
        SysFuncIdx::SysHalt => Ok(pre.stack@[pre.stack@.len() - 1] as i32),
        SysFuncIdx::SysWrite => Ok(0),
        SysFuncIdx::SysRead => if sys_read_ok(pre) {
            Ok(0)
        } else {
            Ok(ExitCode::MemoryOutOfBounds.spec_into_i32())
        },
        SysFuncIdx::WasiProcExit => Ok(pre.stack@[pre.stack@.len() - 1] as i32),
        SysFuncIdx::WasiFdWrite => if fd_write_args(pre.stack@).0 == 1 || fd_write_args(
            pre.stack@,
        ).0 == 2 {
            Ok(0)
        } else {
            Ok(crate::wasi::spec_errno_badf() as i32)
        },
        SysFuncIdx::WasiEnvironSizesGet => Ok(0),
        SysFuncIdx::WasiEnvironGet => Ok(0),
        SysFuncIdx::WasiArgsSizesGet => Ok(0),
        SysFuncIdx::WasiArgsGet => Ok(0),
            SysFuncIdx::Unknown => Err(GadgetError::UnknownSysCall(f)),
        }
    }
}

/// The result a nested sub-execution resolves to, determined by the
/// recorded step alone.
pub open spec fn transact_spec_result(pre: ExecStep) -> Result<i32, GadgetError> {
    let (hash_off, in_off, in_len, ret_off, ret_len, fuel_off, state) = transact_args(pre.stack@);
    let oc = pre.exec_outcome->Some_0;
    let fl = transact_fuel_limit(pre);
    if fl > pre.fuel_remaining {
        Err(GadgetError::OutOfFuel)
    } else if ret_len > 0 && oc.output@.len() > ret_len {
        Err(GadgetError::OutputOverflow)
    } else if oc.exit_code != 0 {
        Err(GadgetError::TransactError(oc.exit_code))
    } else if oc.fuel_consumed > fl {
        Err(GadgetError::OutOfFuel)
    } else {
        Ok(0)
    }
}

/// What the platform dispatch does, given the step after its context row.
/// A step that reaches a system call with its fuel already exhausted
/// aborts at entry, before any generator runs.
pub open spec fn platform_post(pre: ExecStep, post: ExecStep, f: u32, r: Result<i32, GadgetError>) -> bool {
    if pre.fuel_remaining == 0 {
        post == pre && r == Result::<i32, GadgetError>::Err(GadgetError::OutOfFuel)
    } else {
        match SysFuncIdx::spec_from_index(f) {
        SysFuncIdx::RwasmTransact => transact_post(pre, post, r),
        SysFuncIdx::SysHalt => sys_halt_post(pre, post, r),
        SysFuncIdx::SysWrite => sys_write_post(pre, post, r),
        SysFuncIdx::SysRead => sys_read_post(pre, post, r),
        SysFuncIdx::WasiProcExit => wasi_proc_exit_post(pre, post, r),
        SysFuncIdx::WasiFdWrite => wasi_fd_write_post(pre, post, r),
        SysFuncIdx::WasiEnvironSizesGet => wasi_environ_sizes_get_post(pre, post, r),
        SysFuncIdx::WasiEnvironGet => wasi_environ_get_post(pre, post, r),
        SysFuncIdx::WasiArgsSizesGet => wasi_args_sizes_get_post(pre, post, r),
        SysFuncIdx::WasiArgsGet => wasi_args_get_post(pre, post, r),
            SysFuncIdx::Unknown => post == pre && r == Result::<i32, GadgetError>::Err(
                GadgetError::UnknownSysCall(f),
            ),
        }
    }
}

/// What each platform function asks of the step it is dispatched on:
/// the argument regions it reads were validated by the caller before
/// dispatch, and the counter has room for its rows.
pub open spec fn platform_requires(pre: ExecStep, f: u32) -> bool {
    match SysFuncIdx::spec_from_index(f) {
        SysFuncIdx::RwasmTransact => {
            &&& pre.stack@.len() >= 7
            &&& pre.exec_outcome is Some
            &&& transact_args(pre.stack@).0 + 32 <= pre.memory@.len()
            &&& transact_args(pre.stack@).1 + transact_args(pre.stack@).2 <= pre.memory@.len()
            &&& transact_args(pre.stack@).3 + transact_args(pre.stack@).4 <= pre.memory@.len()
            &&& transact_args(pre.stack@).5 + 4 <= pre.memory@.len()
            &&& pre.exec_outcome->Some_0.output@.len() + transact_args(pre.stack@).3 <= u64::MAX
            &&& pre.rw_counter + 41 + transact_args(pre.stack@).2
                + pre.exec_outcome->Some_0.output@.len() <= u64::MAX
        },
        SysFuncIdx::SysHalt => pre.stack@.len() >= 1 && pre.rw_counter < u64::MAX,
        SysFuncIdx::SysWrite => {
            &&& pre.stack@.len() >= 2
            &&& sys_write_args(pre.stack@).0 + sys_write_args(pre.stack@).1 <= pre.memory@.len()
            &&& pre.rw_counter + sys_write_args(pre.stack@).1 < u64::MAX
        },
        SysFuncIdx::SysRead => {
            &&& pre.stack@.len() >= 3
            &&& sys_read_args(pre.stack@).0 + sys_read_args(pre.stack@).2 <= pre.memory@.len()
            &&& pre.rw_counter + sys_read_args(pre.stack@).2 < u64::MAX
        },
        SysFuncIdx::WasiProcExit => pre.stack@.len() >= 1 && pre.rw_counter < u64::MAX,
        SysFuncIdx::WasiFdWrite => {
            &&& pre.stack@.len() >= 4
            &&& fd_write_args(pre.stack@).1 + fd_write_args(pre.stack@).2 <= pre.memory@.len()
            &&& fd_write_args(pre.stack@).3 + 4 <= pre.memory@.len()
            &&& fd_write_args(pre.stack@).2 <= u32::MAX
            &&& pre.rw_counter + fd_write_args(pre.stack@).2 + 5 <= u64::MAX
        },
        SysFuncIdx::WasiEnvironSizesGet => {
            &&& pre.stack@.len() >= 2
            &&& sizes_get_args(pre.stack@).0 + 4 <= pre.memory@.len()
            &&& sizes_get_args(pre.stack@).1 + 4 <= pre.memory@.len()
            &&& pre.env_blob@.len() <= u32::MAX
            &&& pre.rw_counter + 9 <= u64::MAX
        },
        SysFuncIdx::WasiEnvironGet => {
            &&& pre.stack@.len() >= 2
            &&& content_get_args(pre.stack@).1 + pre.env_blob@.len() <= pre.memory@.len()
            &&& pre.rw_counter + pre.env_blob@.len() < u64::MAX
        },
        SysFuncIdx::WasiArgsSizesGet => {
            &&& pre.stack@.len() >= 2
            &&& sizes_get_args(pre.stack@).0 + 4 <= pre.memory@.len()
            &&& sizes_get_args(pre.stack@).1 + 4 <= pre.memory@.len()
            &&& pre.args_blob@.len() <= u32::MAX
            &&& pre.rw_counter + 9 <= u64::MAX
        },
        SysFuncIdx::WasiArgsGet => {
            &&& pre.stack@.len() >= 2
            &&& content_get_args(pre.stack@).1 + pre.args_blob@.len() <= pre.memory@.len()
            &&& pre.rw_counter + pre.args_blob@.len() < u64::MAX
        },
        SysFuncIdx::Unknown => true,
    }
}

/// Dispatches a resolved platform function to its generator.
fn build_platform_rw_ops(step: &mut ExecStep, fn_idx: u32) -> (r: Result<i32, GadgetError>)
    requires
        old(step).wf(),
        platform_requires(*old(step), fn_idx),
    ensures
        final(step).wf(),
        platform_post(*old(step), *final(step), fn_idx, r),
        r == platform_spec_result(*old(step), fn_idx),
{
    if step.fuel_remaining == 0 {
        return Err(GadgetError::OutOfFuel);
    }
    let sys_func = SysFuncIdx::from_index(fn_idx);
    match sys_func {
        SysFuncIdx::RwasmTransact => build_rwasm_transact_rw_ops(step),
        SysFuncIdx::SysHalt => build_sys_halt_rw_ops(step),
        SysFuncIdx::SysWrite => build_sys_write_rw_ops(step),
        SysFuncIdx::SysRead => build_sys_read_rw_ops(step),
        SysFuncIdx::WasiProcExit => build_wasi_proc_exit_rw_ops(step),
        SysFuncIdx::WasiFdWrite => build_wasi_fd_write_rw_ops(step),
        SysFuncIdx::WasiEnvironSizesGet => build_wasi_environ_sizes_get_rw_ops(step),
        SysFuncIdx::WasiEnvironGet => build_wasi_environ_get_rw_ops(step),
        SysFuncIdx::WasiArgsSizesGet => build_wasi_args_sizes_get_rw_ops(step),
        SysFuncIdx::WasiArgsGet => build_wasi_args_get_rw_ops(step),
        SysFuncIdx::Unknown => Err(GadgetError::UnknownSysCall(fn_idx)),
    }
}

/// Handles a return instruction.  Returning from a non-root frame is the
/// reserved extension point for restoring the caller's depth with a
/// CallDepth context row; the active row schema emits nothing here.
pub fn build_return_rw_ops(step: &mut ExecStep) -> (r: Result<(), GadgetError>)
    ensures
        *final(step) == *old(step),
        r is Ok,
{
    if step.call_id > 0 {
        // Reserved: a future revision of the row schema restores the
        // caller's depth here with a CallDepth context row.
    }
    Ok(())
}

/// What the step after the leading context row must satisfy for its
/// generator to run: pre-validated argument shapes and counter headroom.
pub open spec fn dispatch_requires(mid: ExecStep) -> bool {
    match mid.instr {
        Instruction::Call(f) => platform_requires(mid, f),
        Instruction::Return(_) => true,
        Instruction::ConsumeFuel(_) => true,
        Instruction::MemoryCopy => mid.stack@.len() >= 3 && (memory_copy_ok(mid)
            ==> mid.rw_counter + copy_args(mid.stack@).2 <= u64::MAX),
        Instruction::MemoryFill => mid.stack@.len() >= 3 && (memory_fill_ok(mid)
            ==> mid.rw_counter + fill_args(mid.stack@).2 <= u64::MAX),
        Instruction::TableFill(t) => mid.stack@.len() >= 3 && (table_fill_ok(mid, t)
            ==> mid.rw_counter + table_fill_args(mid.stack@).2 <= u64::MAX),
        Instruction::TableCopy { dst_table, src_table } => mid.stack@.len() >= 3 && (
        table_copy_ok(mid, dst_table, src_table) ==> mid.rw_counter + copy_args(mid.stack@).2
            <= u64::MAX),
        Instruction::TableGrow(t) => mid.stack@.len() >= 2 && (table_grow_ok(mid, t)
            ==> mid.rw_counter + table_grow_args(mid.stack@).1 <= u64::MAX),
        Instruction::TableGet(_) => mid.stack@.len() >= 1 && mid.rw_counter < u64::MAX,
        _ => {
            &&& generic_ops_wf(mid.instr.spec_rw_ops(), mid.stack@, mid.locals@, mid.written@)
            &&& mid.rw_counter + mid.instr.spec_rw_ops().len() <= u64::MAX
            &&& mid.locals@.len() + mid.stack@.len() + mid.instr.spec_rw_ops().len() <= u64::MAX
        },
    }
}

/// What the dispatched generator did, given the step after its context
/// row.
pub open spec fn dispatch_post(mid: ExecStep, post: ExecStep, r: Result<(), GadgetError>) -> bool {
    match mid.instr {
        Instruction::Call(f) => {
            &&& platform_post(mid, post, f, platform_spec_result(mid, f))
            &&& r == strip_code(platform_spec_result(mid, f))
        },
        Instruction::Return(_) => post == mid && r is Ok,
        Instruction::ConsumeFuel(_) => consume_fuel_post(mid, post, r),
        Instruction::MemoryCopy => memory_copy_post(mid, post, r),
        Instruction::MemoryFill => memory_fill_post(mid, post, r),
        Instruction::TableFill(t) => table_fill_post(mid, post, t, r),
        Instruction::TableCopy { dst_table, src_table } => table_copy_post(
            mid,
            post,
            dst_table,
            src_table,
            r,
        ),
        Instruction::TableGrow(t) => table_grow_post(mid, post, t, r),
        Instruction::TableGet(t) => table_get_post(mid, post, t, r),
        _ => {
            &&& r is Ok
            &&& ExecStep::machine_unchanged(mid, post)
            &&& ExecStep::effects_unchanged(mid, post)
            &&& ExecStep::appended(
                mid,
                post,
                generic_rows(
                    mid.instr.spec_rw_ops(),
                    mid.stack@,
                    mid.locals@,
                    mid.written@,
                    mid.rw_counter as int,
                    mid.call_id,
                ),
            )
        },
    }
}

/// A guest-visible success code is dropped; a builder fault passes
/// through.
pub open spec fn strip_code(r: Result<i32, GadgetError>) -> Result<(), GadgetError> {
    match r {
        Ok(_) => Ok(()),
        Err(e) => Err(e),
    }
}

/// What one dispatch of a step must satisfy before the builder runs.
pub open spec fn build_requires(pre: ExecStep) -> bool {
    &&& pre.wf()
    &&& pre.rw_counter < u64::MAX
    &&& dispatch_requires(ExecStep { rw_counter: (pre.rw_counter + 1) as u64, ..pre })
}

/// What one dispatch of a step did: the leading program-counter context
/// row was appended first — a write carrying the step's pc delta and its
/// first counter value — every appended row carries the id of the frame
/// that performed the access, and the rest is the dispatched generator's
/// work on the step as it stood after that row.
pub open spec fn build_post(pre: ExecStep, post: ExecStep, r: Result<(), GadgetError>) -> bool {
    &&& post.rw_rows@.len() > pre.rw_rows@.len()
    &&& post.rw_rows@[pre.rw_rows@.len() as int] == context_row(pre)
    &&& post.rw_rows@.subrange(0, pre.rw_rows@.len() as int) == pre.rw_rows@
    &&& forall|i: int|
        pre.rw_rows@.len() <= i < post.rw_rows@.len() ==> (#[trigger] post.rw_rows@[i]).call_id()
            == pre.call_id
    &&& exists|mid: ExecStep|
        {
            &&& #[trigger] context_appended(pre, mid)
            &&& dispatch_post(mid, post, r)
        }
}

/// The read/write trace builder.
pub struct RwBuilder {}

impl Default for RwBuilder {
    /// An empty builder.
    fn default() -> (r: RwBuilder) {
        RwBuilder {  }
    }
}

impl RwBuilder {
    /// A fresh builder.
    pub fn new() -> (r: RwBuilder) {
        RwBuilder {  }
    }

    /// Dispatches one execution step: appends the leading context row,
    /// then the rows of the matching generator, in one contiguous counter
    /// batch.
    pub fn build(&mut self, step: &mut ExecStep) -> (r: Result<(), GadgetError>)
        requires
            build_requires(*old(step)),
        ensures
            final(step).wf(),
            build_post(*old(step), *final(step), r),
    {
        let ghost pre = *old(step);
        let c = step.next_rw_counter();
        let pc = step.pc_diff();
        step.rw_rows.push(
            RwRow::Context {
                rw_counter: c,
                is_write: true,
                call_id: step.call_id,
                tag: RwTableContextTag::ProgramCounter,
                value: pc,
            },
        );
        let ghost mid = *step;
        proof {
            assert(mid.rw_rows@ =~= pre.rw_rows@ + seq![context_row(pre)]);
            crate::exec_step::lemma_wf_after_append(pre, mid, seq![context_row(pre)]);
            assert(mid == (ExecStep { rw_counter: (pre.rw_counter + 1) as u64, rw_rows: mid.rw_rows, ..pre }));
        }
        let r: Result<(), GadgetError> = match step.instr() {
            Instruction::Call(fn_idx) => {
                match build_platform_rw_ops(step, fn_idx) {
                    Ok(_) => Ok(()),
                    Err(e) => Err(e),
                }
            },
            Instruction::Return(_) => build_return_rw_ops(step),
            Instruction::ConsumeFuel(_) => build_consume_fuel_rw_ops(step),
            Instruction::MemoryCopy => build_memory_copy_rw_ops(step),
            Instruction::MemoryFill => build_memory_fill_rw_ops(step),
            Instruction::TableFill(table_idx) => build_table_fill_rw_ops(step, table_idx),
            Instruction::TableCopy { dst_table, src_table } => build_table_copy_rw_ops(
                step,
                dst_table,
                src_table,
            ),
            Instruction::TableGrow(table_idx) => build_table_grow_rw_ops(step, table_idx),
            Instruction::TableGet(table_idx) => build_table_get_rw_ops(step, table_idx),
            _ => {
                let ops = step.instr().get_rw_ops();
                build_generic_rw_ops(step, &ops)
            },
        };
        proof {
            assert(context_appended(pre, mid));
            assert(dispatch_post(mid, *step, r));
            assert(step.rw_rows@.subrange(0, pre.rw_rows@.len() as int) =~= pre.rw_rows@);
            assert(step.rw_rows@[pre.rw_rows@.len() as int] == context_row(pre));
            assert forall|i: int|
                pre.rw_rows@.len() <= i < step.rw_rows@.len() implies (#[trigger] step.rw_rows@[i]).call_id()
                == pre.call_id by {}
        }
        r
    }
}

} // verus!
