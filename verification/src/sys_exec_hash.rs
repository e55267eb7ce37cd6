//! The decision core of the hash-addressed execution system call: given
//! what the engine's nested run reported, decide between the guest's
//! outcome and the failure codes, and fold fuel and output into the
//! calling context only on success.

use vstd::prelude::*;
use crate::exec_step::ExecOutcome;
use crate::types::{Bytes32, ExitCode};

verus! {

/// The per-run context the system call operates on: the run's input, the
/// fuel it has consumed so far, and the output bytes the last nested call
/// returned.
#[derive(Debug, Clone, PartialEq, Eq)]
pub struct RuntimeContext {
    pub input: Vec<u8>,
    pub state: u32,
    pub consumed_fuel: u64,
    pub return_data: Vec<u8>,
}

/// The hash-addressed execution system call.
pub struct SysExecHash;

impl SysExecHash {
    /// Decides the outcome of a nested run of the bytecode behind
    /// `bytecode_hash32`.  The engine runs the code and reports in `run`:
    /// `None` when the run could not be performed at all, `Some` with
    /// output, exit code and fuel.  Output larger than the declared
    /// return size, and any non-success exit code, leave the context
    /// untouched and are reported; only a clean run folds its consumed
    /// fuel and output back and returns the output with the fuel left.
    pub fn fn_impl(
        ctx: &mut RuntimeContext,
        bytecode_hash32: &Bytes32,
        input: Vec<u8>,
        return_len: u32,
        fuel_limit: u32,
        state: u32,
        run: Option<&ExecOutcome>,
    ) -> (r: Result<(Vec<u8>, u32), ExitCode>)
        requires
            run matches Some(oc) ==> oc.fuel_consumed <= fuel_limit,
            run matches Some(oc) ==> old(ctx).consumed_fuel + oc.fuel_consumed <= u64::MAX,
        ensures
            run is None ==> r == Result::<(Vec<u8>, u32), ExitCode>::Err(ExitCode::TransactError)
                && *final(ctx) == *old(ctx),
            run matches Some(oc) ==> {
                &&& return_len > 0 && oc.output@.len() > return_len ==> r == Result::<
                    (Vec<u8>, u32),
                    ExitCode,
                >::Err(ExitCode::OutputOverflow) && *final(ctx) == *old(ctx)
                &&& !(return_len > 0 && oc.output@.len() > return_len) && oc.exit_code != 0 ==> r
                    == Result::<(Vec<u8>, u32), ExitCode>::Err(
                    ExitCode::spec_from_i32(oc.exit_code),
                ) && *final(ctx) == *old(ctx)
                &&& !(return_len > 0 && oc.output@.len() > return_len) && oc.exit_code == 0 ==> (r
                    matches Ok(t) && t.0@ == oc.output@ && t.1 == fuel_limit - oc.fuel_consumed
                    && final(ctx).consumed_fuel == old(ctx).consumed_fuel + oc.fuel_consumed
                    && final(ctx).return_data@ == oc.output@ && final(ctx).input == old(ctx).input
                    && final(ctx).state == old(ctx).state)
            },
    {
        let oc = match run {
            Some(oc) => oc,
            None => {
                return Err(ExitCode::TransactError);
            },
        };
        let output = oc.output.clone();
        proof {
            assert(output@ =~= oc.output@);
        }
        if return_len > 0 && output.len() as u64 > return_len as u64 {
            return Err(ExitCode::OutputOverflow);
        }
        if oc.exit_code != 0 {
            return Err(ExitCode::from_i32(oc.exit_code));
        }
        let fuel_consumed = oc.fuel_consumed;
        ctx.consumed_fuel = ctx.consumed_fuel + fuel_consumed;
        ctx.return_data = output.clone();
        proof {
            assert(ctx.return_data@ =~= oc.output@);
        }
        let remaining: u32 = fuel_limit - (fuel_consumed as u32);
        Ok((output, remaining))
    }
}

} // verus!
