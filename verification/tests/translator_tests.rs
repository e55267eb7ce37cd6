use rwtrace::exec_step::{ExecOutcome, ExecStep, Instruction, RwOp};
use rwtrace::instruction_set::{InstrMeta, InstructionSet};
use rwtrace::rw_builder::RwBuilder;
use rwtrace::rw_row::RwRow;
use rwtrace::sys_exec_hash::{RuntimeContext, SysExecHash};
use rwtrace::translator::{SubroutineMeta, Translator};
use rwtrace::types::ExitCode;

#[test]
fn instruction_set_push_and_len() {
    let mut is = InstructionSet::new();
    assert_eq!(is.len(), 0);
    assert!(!is.has_meta());
    assert_eq!(is.push(Instruction::I32Add), 0);
    assert_eq!(is.push(Instruction::Drop), 1);
    assert_eq!(is.len(), 2);
}

#[test]
fn instruction_set_push_with_meta_keeps_lock_step() {
    let mut is = InstructionSet::new();
    let m = InstrMeta { pos: 0, code: 1, index: 0 };
    assert_eq!(is.push_with_meta(Instruction::I32Add, m), 0);
    assert!(is.has_meta());
    let m2 = InstrMeta { pos: 2, code: 7, index: 1 };
    assert_eq!(is.push_with_meta(Instruction::Drop, m2), 1);
    assert_eq!(is.metas.as_ref().unwrap().len(), 2);
}

#[test]
fn instruction_set_get_mut_and_set() {
    let mut is = InstructionSet::new();
    is.push(Instruction::I32Add);
    assert_eq!(is.get_mut(0), Some(Instruction::I32Add));
    assert_eq!(is.get_mut(1), None);
    assert!(is.set(0, Instruction::I32Sub));
    assert!(!is.set(5, Instruction::I32Sub));
    assert_eq!(is.get_mut(0), Some(Instruction::I32Sub));
}

#[test]
fn count_globals_is_one_past_the_highest_index() {
    let mut is = InstructionSet::new();
    assert_eq!(is.count_globals(), 0);
    is.push(Instruction::GlobalGet(2));
    is.push(Instruction::I32Add);
    is.push(Instruction::GlobalSet(5));
    is.push(Instruction::GlobalGet(1));
    assert_eq!(is.count_globals(), 6);
}

#[test]
fn instruction_set_extend_and_finalize() {
    let mut a = InstructionSet::new();
    a.push(Instruction::I32Add);
    let mut b = InstructionSet::from(vec![Instruction::Drop, Instruction::Select]);
    a.extend(&b);
    assert_eq!(a.len(), 3);
    let out = a.finalize();
    assert_eq!(out, vec![Instruction::I32Add, Instruction::Drop, Instruction::Select]);
    assert_eq!(b.finalize(), vec![Instruction::Drop, Instruction::Select]);
}

#[test]
fn operand_shapes_are_data_driven() {
    assert_eq!(Instruction::I32Add.get_rw_ops(), vec![
        RwOp::StackPop,
        RwOp::StackPop,
        RwOp::StackPush
    ]);
    assert_eq!(Instruction::LocalSet(3).get_rw_ops(), vec![
        RwOp::StackPop,
        RwOp::LocalSet(3)
    ]);
    assert_eq!(Instruction::Br(4).get_rw_ops(), Vec::new());
}

#[test]
fn register_subroutine_records_offsets() {
    let mut t = Translator::new(vec![0x60, 0x01, 0x00], true);
    let mut s1 = InstructionSet::new();
    s1.push(Instruction::I32Add);
    s1.push(Instruction::Drop);
    let mut s2 = InstructionSet::new();
    s2.push(Instruction::Select);
    assert!(t.register_subroutine(0x01, s1, 0));
    assert!(t.register_subroutine(0x16, s2, 0));
    assert_eq!(
        t.subroutine_meta(0x01),
        Some(SubroutineMeta { begin_offset: 0, end_offset: 1 })
    );
    assert_eq!(
        t.subroutine_meta(0x16),
        Some(SubroutineMeta { begin_offset: 2, end_offset: 2 })
    );
    assert_eq!(t.subroutine_meta(0x55), None);
    assert_eq!(t.subroutines_instruction_set().instr.len(), 3);
    let sd = t.subroutine_data(0x16).unwrap();
    assert_eq!(sd.instruction_set.instr, vec![Instruction::Select]);
}

#[test]
fn register_subroutine_refuses_duplicates() {
    let mut t = Translator::new(Vec::new(), false);
    let mut s = InstructionSet::new();
    s.push(Instruction::Drop);
    let mut s2 = InstructionSet::new();
    s2.push(Instruction::Select);
    assert!(t.register_subroutine(0x01, s, 0));
    assert!(!t.register_subroutine(0x01, s2, 0));
    assert_eq!(t.subroutines_instruction_set().instr.len(), 1);
}

#[test]
fn fetch_opcode_advances_the_pointer() {
    let mut t = Translator::new(vec![0x60, 0x01, 0x00], false);
    assert_eq!(t.program_counter(), 0);
    assert_eq!(t.opcode_cur(), 0x60);
    assert_eq!(t.fetch_opcode(), 0x60);
    assert_eq!(t.program_counter(), 1);
    assert_eq!(t.opcode_prev(), 0x60);
    t.instruction_pointer_inc(1);
    assert_eq!(t.program_counter(), 2);
    assert_eq!(t.opcode_cur(), 0x00);
}

#[test]
fn exec_hash_folds_only_clean_runs() {
    let mut ctx = RuntimeContext {
        input: Vec::new(),
        state: 0,
        consumed_fuel: 10,
        return_data: Vec::new(),
    };
    let hash = [0u8; 32];
    let oc = ExecOutcome { output: vec![1, 2, 3], exit_code: 0, fuel_consumed: 7 };
    let r = SysExecHash::fn_impl(&mut ctx, &hash, Vec::new(), 8, 20, 0, Some(&oc));
    assert_eq!(r, Ok((vec![1, 2, 3], 13)));
    assert_eq!(ctx.consumed_fuel, 17);
    assert_eq!(ctx.return_data, vec![1, 2, 3]);
}

#[test]
fn exec_hash_reports_output_overflow() {
    let mut ctx = RuntimeContext {
        input: Vec::new(),
        state: 0,
        consumed_fuel: 10,
        return_data: Vec::new(),
    };
    let hash = [0u8; 32];
    let oc = ExecOutcome { output: vec![1, 2, 3], exit_code: 0, fuel_consumed: 7 };
    let r = SysExecHash::fn_impl(&mut ctx, &hash, Vec::new(), 2, 20, 0, Some(&oc));
    assert_eq!(r, Err(ExitCode::OutputOverflow));
    assert_eq!(ctx.consumed_fuel, 10);
}

#[test]
fn exec_hash_passes_the_child_exit_code_through() {
    let mut ctx = RuntimeContext {
        input: Vec::new(),
        state: 0,
        consumed_fuel: 0,
        return_data: Vec::new(),
    };
    let hash = [0u8; 32];
    let oc = ExecOutcome { output: Vec::new(), exit_code: -6, fuel_consumed: 1 };
    let r = SysExecHash::fn_impl(&mut ctx, &hash, Vec::new(), 0, 20, 0, Some(&oc));
    assert_eq!(r, Err(ExitCode::InsufficientBalance));
    let r2 = SysExecHash::fn_impl(&mut ctx, &hash, Vec::new(), 0, 20, 0, None);
    assert_eq!(r2, Err(ExitCode::TransactError));
}

#[test]
fn wasi_calls_follow_the_shared_discipline() {
    let mut builder = RwBuilder::new();
    // a write to an unknown descriptor is a guest-visible failure
    let mut step = wasi_step(Instruction::Call(6));
    step.stack = vec![5, 0, 4, 20];
    builder.build(&mut step).unwrap();
    assert_eq!(step.rw_rows.len(), 2);
    assert_eq!(
        step.rw_rows[1],
        RwRow::SysCall { rw_counter: 1, is_write: true, call_id: 0, arg_index: 0, value: 8 }
    );

    // a write to standard output reads the region, stores the count and
    // reports it
    let mut ok_step = wasi_step(Instruction::Call(6));
    ok_step.stack = vec![1, 0, 4, 20];
    builder.build(&mut ok_step).unwrap();
    // context + 4 reads + 4 count bytes + result row
    assert_eq!(ok_step.rw_rows.len(), 10);
    assert_eq!(ok_step.output, vec![11, 12, 13, 14]);

    // the size queries store the counts little-endian
    let mut sz_step = wasi_step(Instruction::Call(9));
    sz_step.args_blob = vec![1, 2, 3];
    sz_step.args_count = 2;
    sz_step.stack = vec![8, 16];
    builder.build(&mut sz_step).unwrap();
    assert_eq!(sz_step.rw_rows.len(), 10);
    assert_eq!(
        sz_step.rw_rows[1],
        RwRow::Memory { rw_counter: 1, is_write: true, call_id: 0, memory_address: 8, value: 2 }
    );
    assert_eq!(
        sz_step.rw_rows[5],
        RwRow::Memory { rw_counter: 5, is_write: true, call_id: 0, memory_address: 16, value: 3 }
    );

    // the content query stores the packed blob
    let mut get_step = wasi_step(Instruction::Call(10));
    get_step.args_blob = vec![9, 8];
    get_step.args_count = 1;
    get_step.stack = vec![4, 24];
    builder.build(&mut get_step).unwrap();
    assert_eq!(get_step.rw_rows.len(), 4);
    assert_eq!(
        get_step.rw_rows[1],
        RwRow::Memory { rw_counter: 1, is_write: true, call_id: 0, memory_address: 24, value: 9 }
    );
}

#[test]
fn buffered_read_copies_input_into_memory() {
    let mut builder = RwBuilder::new();
    let mut step = wasi_step(Instruction::Call(4));
    step.input = vec![1, 2, 3, 4, 5];
    // target 8, source 1, length 3
    step.stack = vec![8, 1, 3];
    builder.build(&mut step).unwrap();
    assert_eq!(step.rw_rows.len(), 5);
    assert_eq!(
        step.rw_rows[1],
        RwRow::Memory { rw_counter: 1, is_write: true, call_id: 0, memory_address: 8, value: 2 }
    );
    assert_eq!(
        step.rw_rows[4],
        RwRow::SysCall { rw_counter: 4, is_write: true, call_id: 0, arg_index: 0, value: 3 }
    );

    // a source range past the input buffer is the guest's own failure
    let mut bad = wasi_step(Instruction::Call(4));
    bad.input = vec![1];
    bad.stack = vec![8, 0, 3];
    builder.build(&mut bad).unwrap();
    assert_eq!(bad.rw_rows.len(), 2);
    assert_eq!(
        bad.rw_rows[1],
        RwRow::SysCall {
            rw_counter: 1,
            is_write: true,
            call_id: 0,
            arg_index: 0,
            value: (-9i32) as u64,
        }
    );
}

#[test]
fn halt_and_proc_exit_record_the_code() {
    let mut builder = RwBuilder::new();
    let mut step = wasi_step(Instruction::Call(2));
    step.stack = vec![3];
    builder.build(&mut step).unwrap();
    assert_eq!(step.rw_rows.len(), 2);
    assert_eq!(
        step.rw_rows[1],
        RwRow::SysCall { rw_counter: 1, is_write: true, call_id: 0, arg_index: 0, value: 3 }
    );
    let mut exit_step = wasi_step(Instruction::Call(5));
    exit_step.stack = vec![1];
    builder.build(&mut exit_step).unwrap();
    assert_eq!(exit_step.rw_rows.len(), 2);
}

fn wasi_step(instr: Instruction) -> ExecStep {
    let mut memory = vec![0u8; 32];
    memory[0] = 11;
    memory[1] = 12;
    memory[2] = 13;
    memory[3] = 14;
    ExecStep {
        instr,
        pc_delta: 1,
        call_id: 0,
        rw_counter: 0,
        rw_rows: Vec::new(),
        fuel_limit: 1000,
        fuel_remaining: 1000,
        consumed_fuel: 0,
        stack: Vec::new(),
        locals: Vec::new(),
        written: Vec::new(),
        memory,
        tables: Vec::new(),
        input: Vec::new(),
        output: Vec::new(),
        env_blob: Vec::new(),
        env_count: 0,
        args_blob: Vec::new(),
        args_count: 0,
        exec_outcome: None,
        return_data: Vec::new(),
    }
}

#[test]
fn accessors_report_whether_the_slot_existed() {
    let mut step = wasi_step(Instruction::Drop);
    step.locals = vec![7, 8];
    step.stack = vec![9];
    assert_eq!(step.stack_read(0), (7, true));
    assert_eq!(step.stack_read(2), (9, true));
    assert_eq!(step.stack_read(3), (0, false));
    assert_eq!(step.mem_read(0), (11, true));
    assert_eq!(step.mem_read(99), (0, false));
    step.tables = vec![rwtrace::exec_step::TableState { elems: vec![5], max_size: 2 }];
    assert_eq!(step.table_read(0, 0), (5, true));
    assert_eq!(step.table_read(0, 1), (0, false));
    assert_eq!(step.table_read(1, 0), (0, false));
}
