//! Generator for the nested re-entrant sub-execution: code addressed by a
//! 32-byte content hash, run synchronously by the engine under a fuel
//! allowance carved from the parent's remaining fuel.
//!
//! The engine records what the child reported (output bytes, exit code,
//! fuel consumed) in the step before the builder runs; the generator
//! marshals the argument regions, decides, and on success folds the
//! child's fuel and output back into the parent.  On any failure nothing
//! is folded: the parent's fuel and output stay exactly as they were.

use vstd::prelude::*;
use vstd::bytes::{spec_u32_from_le_bytes, spec_u32_to_le_bytes};
use crate::codec::{read_u32_le, write_u32_le};
use crate::exec_step::{ExecOutcome, ExecStep};
use crate::opcode::{emit_memory_read_rows, emit_memory_write_rows, memory_read_rows, memory_write_rows};
use crate::platform::{emit_syscall_result_row, syscall_result_row};
use crate::rw_row::RwRow;
use crate::types::GadgetError;

verus! {

/// The sub-execution arguments on the recorded stack, pushed in this
/// order: bytecode-hash offset, input offset, input length, return
/// offset, maximum return length, fuel offset, and the state selector.
pub open spec fn transact_args(stack: Seq<u64>) -> (u64, u64, u64, u64, u64, u64, u64) {
    (
        stack[stack.len() - 7],
        stack[stack.len() - 6],
        stack[stack.len() - 5],
        stack[stack.len() - 4],
        stack[stack.len() - 3],
        stack[stack.len() - 2],
        stack[stack.len() - 1],
    )
}

/// The argument-marshaling rows: the 32 bytes of the bytecode hash, the
/// input region, then the 4 little-endian bytes of the fuel allowance,
/// each read byte by byte.
pub open spec fn transact_read_rows(pre: ExecStep) -> Seq<RwRow> {
    let (hash_off, in_off, in_len, ret_off, ret_len, fuel_off, state) = transact_args(pre.stack@);
    memory_read_rows(pre.memory@, hash_off, 32, pre.rw_counter as int, pre.call_id)
        + memory_read_rows(pre.memory@, in_off, in_len, pre.rw_counter + 32, pre.call_id)
        + memory_read_rows(pre.memory@, fuel_off, 4, pre.rw_counter + 32 + in_len, pre.call_id)
}

/// The fuel allowance the caller stored at the fuel offset.
pub open spec fn transact_fuel_limit(pre: ExecStep) -> u32 {
    let fuel_off = transact_args(pre.stack@).5;
    spec_u32_from_le_bytes(pre.memory@.subrange(fuel_off as int, fuel_off + 4))
}

/// The fold-back rows of a successful sub-execution: the child's output
/// written at the return offset (when a return buffer was declared), the
/// remaining fuel written back, and one result row carrying code zero.
pub open spec fn transact_fold_rows(pre: ExecStep, oc: ExecOutcome) -> Seq<RwRow> {
    let (hash_off, in_off, in_len, ret_off, ret_len, fuel_off, state) = transact_args(pre.stack@);
    let c0 = pre.rw_counter + 36 + in_len;
    let w = if ret_len > 0 {
        memory_write_rows(oc.output@, ret_off, c0, pre.call_id)
    } else {
        Seq::empty()
    };
    let fuel_left = (transact_fuel_limit(pre) - oc.fuel_consumed) as u32;
    w + memory_write_rows(spec_u32_to_le_bytes(fuel_left), fuel_off, c0 + w.len(), pre.call_id)
        + seq![syscall_result_row(c0 + w.len() + 4, pre.call_id, 0)]
}

/// What the nested sub-execution generator does.  The argument regions
/// are always marshaled first.  The call fails fatally — with the
/// parent's fuel, output and return data exactly as they were before the
/// call — when the fuel allowance exceeds the parent's remaining fuel,
/// when the child's output exceeds the declared maximum return size, when
/// the child reports a non-success exit code, or when the child claims
/// more fuel than its allowance.  Only on success are the child's
/// consumed fuel and output folded back into the parent.
pub open spec fn transact_post(pre: ExecStep, post: ExecStep, r: Result<i32, GadgetError>) -> bool {
    let (hash_off, in_off, in_len, ret_off, ret_len, fuel_off, state) = transact_args(pre.stack@);
    let oc = pre.exec_outcome->Some_0;
    let fl = transact_fuel_limit(pre);
    &&& ExecStep::machine_unchanged(pre, post)
    &&& if fl > pre.fuel_remaining {
        &&& r == Result::<i32, GadgetError>::Err(GadgetError::OutOfFuel)
        &&& ExecStep::appended(pre, post, transact_read_rows(pre))
        &&& ExecStep::effects_unchanged(pre, post)
    } else if ret_len > 0 && oc.output@.len() > ret_len {
        &&& r == Result::<i32, GadgetError>::Err(GadgetError::OutputOverflow)
        &&& ExecStep::appended(pre, post, transact_read_rows(pre))
        &&& ExecStep::effects_unchanged(pre, post)
    } else if oc.exit_code != 0 {
        &&& r == Result::<i32, GadgetError>::Err(GadgetError::TransactError(oc.exit_code))
        &&& ExecStep::appended(pre, post, transact_read_rows(pre))
        &&& ExecStep::effects_unchanged(pre, post)
    } else if oc.fuel_consumed > fl {
        &&& r == Result::<i32, GadgetError>::Err(GadgetError::OutOfFuel)
        &&& ExecStep::appended(pre, post, transact_read_rows(pre))
        &&& ExecStep::effects_unchanged(pre, post)
    } else {
        &&& r == Result::<i32, GadgetError>::Ok(0)
        &&& ExecStep::appended(pre, post, transact_read_rows(pre) + transact_fold_rows(pre, oc))
        &&& post.fuel_remaining == pre.fuel_remaining - oc.fuel_consumed
        &&& post.consumed_fuel == pre.consumed_fuel + oc.fuel_consumed
        &&& post.return_data@ == oc.output@
        &&& post.output == pre.output
    }
}

/// The nested hash-addressed sub-execution: marshals the argument
/// regions, checks the fuel carve and the child's report, and folds fuel
/// and output back only on success.
#[verifier::loop_isolation(false)]
pub fn build_rwasm_transact_rw_ops(step: &mut ExecStep) -> (r: Result<i32, GadgetError>)
    requires
        old(step).wf(),
        old(step).stack@.len() >= 7,
        old(step).exec_outcome is Some,
        transact_args(old(step).stack@).0 + 32 <= old(step).memory@.len(),
        transact_args(old(step).stack@).1 + transact_args(old(step).stack@).2
            <= old(step).memory@.len(),
        transact_args(old(step).stack@).3 + transact_args(old(step).stack@).4
            <= old(step).memory@.len(),
        transact_args(old(step).stack@).5 + 4 <= old(step).memory@.len(),
        old(step).exec_outcome->Some_0.output@.len() + transact_args(old(step).stack@).3
            <= u64::MAX,
        old(step).rw_counter + 41 + transact_args(old(step).stack@).2
            + old(step).exec_outcome->Some_0.output@.len() <= u64::MAX,
    ensures
        final(step).wf(),
        transact_post(*old(step), *final(step), r),
{
    let ghost pre = *old(step);
    let l = step.stack.len();
    let fuel_off = step.stack[l - 2];
    let ret_len = step.stack[l - 3];
    let ret_off = step.stack[l - 4];
    let in_len = step.stack[l - 5];
    let in_off = step.stack[l - 6];
    let hash_off = step.stack[l - 7];
    let _mem_len: usize = step.memory.len();
    emit_memory_read_rows(step, hash_off, 32);
    emit_memory_read_rows(step, in_off, in_len);
    emit_memory_read_rows(step, fuel_off, 4);
    proof {
        assert(step.rw_rows@ =~= pre.rw_rows@ + transact_read_rows(pre));
    }
    let fuel_slice = vstd::slice::slice_subrange(
        step.memory.as_slice(),
        fuel_off as usize,
        fuel_off as usize + 4,
    );
    let fuel_limit = read_u32_le(fuel_slice);
    proof {
        assert(fuel_slice@.subrange(0, 4) =~= pre.memory@.subrange(fuel_off as int, fuel_off + 4));
    }
    if fuel_limit as u64 > step.fuel_remaining {
        return Err(GadgetError::OutOfFuel);
    }
    let (child_output, child_exit, child_fuel): (Vec<u8>, i32, u64) = match &step.exec_outcome {
        Some(oc) => (oc.output.clone(), oc.exit_code, oc.fuel_consumed),
        None => (Vec::new(), 0, 0),
    };
    proof {
        assert(child_output@ =~= pre.exec_outcome->Some_0.output@);
    }
    if ret_len > 0 && child_output.len() as u64 > ret_len {
        return Err(GadgetError::OutputOverflow);
    }
    if child_exit != 0 {
        return Err(GadgetError::TransactError(child_exit));
    }
    if child_fuel > fuel_limit as u64 {
        return Err(GadgetError::OutOfFuel);
    }
    let ghost mid = *step;
    if ret_len > 0 {
        emit_memory_write_rows(step, ret_off, &child_output);
    }
    let fuel_left_bytes = write_u32_le(fuel_limit - child_fuel as u32);
    proof {
        vstd::bytes::lemma_auto_spec_u32_to_from_le_bytes();
    }
    emit_memory_write_rows(step, fuel_off, &fuel_left_bytes);
    emit_syscall_result_row(step, 0);
    step.fuel_remaining = step.fuel_remaining - child_fuel;
    step.consumed_fuel = step.consumed_fuel + child_fuel;
    step.return_data = child_output;
    proof {
        let oc = pre.exec_outcome->Some_0;
        assert(step.rw_rows@ =~= pre.rw_rows@ + (transact_read_rows(pre) + transact_fold_rows(
            pre,
            oc,
        )));
    }
    Ok(0)
}

} // verus!
