use rwtrace::exec_step::{DropKeep, ExecOutcome, ExecStep, Instruction, TableState};
use rwtrace::rw_builder::RwBuilder;
use rwtrace::rw_row::{RwRow, RwTableContextTag};
use rwtrace::types::GadgetError;

fn base_step(instr: Instruction) -> ExecStep {
    ExecStep {
        instr,
        pc_delta: 1,
        call_id: 0,
        rw_counter: 0,
        rw_rows: Vec::new(),
        fuel_limit: 1000,
        fuel_remaining: 1000,
        consumed_fuel: 0,
        stack: Vec::new(),
        locals: Vec::new(),
        written: Vec::new(),
        memory: Vec::new(),
        tables: Vec::new(),
        input: Vec::new(),
        output: Vec::new(),
        env_blob: Vec::new(),
        env_count: 0,
        args_blob: Vec::new(),
        args_count: 0,
        exec_outcome: None,
        return_data: Vec::new(),
    }
}

#[test]
fn context_row_comes_first() {
    let mut step = base_step(Instruction::I32Add);
    step.pc_delta = 7;
    step.stack = vec![2, 3];
    step.written = vec![5];
    let mut builder = RwBuilder::new();
    let r = builder.build(&mut step);
    assert!(r.is_ok());
    assert_eq!(
        step.rw_rows[0],
        RwRow::Context {
            rw_counter: 0,
            is_write: true,
            call_id: 0,
            tag: RwTableContextTag::ProgramCounter,
            value: 7,
        }
    );
}

#[test]
fn generic_rows_for_binary_op() {
    let mut step = base_step(Instruction::I32Add);
    step.stack = vec![2, 3];
    step.written = vec![5];
    let mut builder = RwBuilder::new();
    builder.build(&mut step).unwrap();
    assert_eq!(step.rw_rows.len(), 4);
    assert_eq!(
        step.rw_rows[1],
        RwRow::Stack { rw_counter: 1, is_write: false, call_id: 0, stack_pointer: 1, value: 3 }
    );
    assert_eq!(
        step.rw_rows[2],
        RwRow::Stack { rw_counter: 2, is_write: false, call_id: 0, stack_pointer: 0, value: 2 }
    );
    assert_eq!(
        step.rw_rows[3],
        RwRow::Stack { rw_counter: 3, is_write: true, call_id: 0, stack_pointer: 0, value: 5 }
    );
}

#[test]
fn counters_increase_by_one_across_steps() {
    // Two steps of one run share the counter: the second starts where
    // the first stopped, and the whole row sequence counts 0, 1, 2, ...
    let mut step = base_step(Instruction::I32Const(9));
    step.written = vec![9];
    let mut builder = RwBuilder::new();
    builder.build(&mut step).unwrap();
    let next_counter = step.rw_counter;
    assert_eq!(next_counter, 2);
    let mut second = base_step(Instruction::Drop);
    second.stack = vec![9];
    second.rw_counter = next_counter;
    builder.build(&mut second).unwrap();
    let mut all_rows = step.rw_rows.clone();
    all_rows.extend(second.rw_rows.iter().cloned());
    for (i, row) in all_rows.iter().enumerate() {
        let c = match row {
            RwRow::Stack { rw_counter, .. } => *rw_counter,
            RwRow::Memory { rw_counter, .. } => *rw_counter,
            RwRow::Table { rw_counter, .. } => *rw_counter,
            RwRow::Storage { rw_counter, .. } => *rw_counter,
            RwRow::Context { rw_counter, .. } => *rw_counter,
            RwRow::SysCall { rw_counter, .. } => *rw_counter,
        };
        assert_eq!(c, i as u64);
    }
}

#[test]
fn memory_copy_emits_one_row_per_byte() {
    let mut step = base_step(Instruction::MemoryCopy);
    step.memory = vec![10, 11, 12, 13, 14, 15];
    // destination 2, source 0, length 3
    step.stack = vec![2, 0, 3];
    let mut builder = RwBuilder::new();
    builder.build(&mut step).unwrap();
    assert_eq!(step.rw_rows.len(), 4);
    assert_eq!(
        step.rw_rows[1],
        RwRow::Memory { rw_counter: 1, is_write: true, call_id: 0, memory_address: 2, value: 10 }
    );
    assert_eq!(
        step.rw_rows[2],
        RwRow::Memory { rw_counter: 2, is_write: true, call_id: 0, memory_address: 3, value: 11 }
    );
    assert_eq!(
        step.rw_rows[3],
        RwRow::Memory { rw_counter: 3, is_write: true, call_id: 0, memory_address: 4, value: 12 }
    );
}

#[test]
fn memory_copy_of_length_zero_emits_only_context_row() {
    let mut step = base_step(Instruction::MemoryCopy);
    step.memory = vec![1, 2, 3];
    step.stack = vec![1, 0, 0];
    let mut builder = RwBuilder::new();
    builder.build(&mut step).unwrap();
    assert_eq!(step.rw_rows.len(), 1);
    assert!(matches!(step.rw_rows[0], RwRow::Context { .. }));
}

#[test]
fn memory_copy_respects_overlap_snapshot() {
    let mut step = base_step(Instruction::MemoryCopy);
    step.memory = vec![1, 2, 3, 4];
    // destination 1 overlaps source 0, length 3: values come from the
    // pre-copy snapshot 1, 2, 3, not from bytes already overwritten.
    step.stack = vec![1, 0, 3];
    let mut builder = RwBuilder::new();
    builder.build(&mut step).unwrap();
    let values: Vec<u8> = step.rw_rows[1..]
        .iter()
        .map(|r| match r {
            RwRow::Memory { value, .. } => *value,
            _ => panic!("expected memory rows"),
        })
        .collect();
    assert_eq!(values, vec![1, 2, 3]);
}

#[test]
fn memory_copy_out_of_bounds_fails() {
    let mut step = base_step(Instruction::MemoryCopy);
    step.memory = vec![1, 2, 3];
    step.stack = vec![2, 0, 2];
    let mut builder = RwBuilder::new();
    let r = builder.build(&mut step);
    assert_eq!(r, Err(GadgetError::OutOfBoundsMemory));
    assert_eq!(step.rw_rows.len(), 1);
}

#[test]
fn memory_fill_writes_low_byte() {
    let mut step = base_step(Instruction::MemoryFill);
    step.memory = vec![0; 8];
    // destination 4, value 0x1ff, length 2: the rows carry 0xff.
    step.stack = vec![4, 0x1ff, 2];
    let mut builder = RwBuilder::new();
    builder.build(&mut step).unwrap();
    assert_eq!(step.rw_rows.len(), 3);
    assert_eq!(
        step.rw_rows[1],
        RwRow::Memory { rw_counter: 1, is_write: true, call_id: 0, memory_address: 4, value: 0xff }
    );
}

#[test]
fn table_grow_past_maximum_fails_with_bounds_error() {
    let mut step = base_step(Instruction::TableGrow(0));
    step.tables = vec![TableState { elems: vec![7, 7], max_size: 3 }];
    // initial value 7, delta 2: size 2 + 2 exceeds the maximum 3.
    step.stack = vec![7, 2];
    let mut builder = RwBuilder::new();
    let r = builder.build(&mut step);
    assert_eq!(r, Err(GadgetError::OutOfBoundsTable));
    assert_eq!(step.rw_rows.len(), 1);
    assert!(matches!(step.rw_rows[0], RwRow::Context { .. }));
}

#[test]
fn table_grow_within_maximum_emits_one_row_per_element() {
    let mut step = base_step(Instruction::TableGrow(0));
    step.tables = vec![TableState { elems: vec![7], max_size: 4 }];
    step.stack = vec![9, 2];
    let mut builder = RwBuilder::new();
    builder.build(&mut step).unwrap();
    assert_eq!(step.rw_rows.len(), 3);
    assert_eq!(
        step.rw_rows[1],
        RwRow::Table {
            rw_counter: 1,
            is_write: true,
            call_id: 0,
            table_index: 0,
            elem_index: 1,
            value: 9,
        }
    );
    assert_eq!(
        step.rw_rows[2],
        RwRow::Table {
            rw_counter: 2,
            is_write: true,
            call_id: 0,
            table_index: 0,
            elem_index: 2,
            value: 9,
        }
    );
}

#[test]
fn table_fill_and_copy_and_get() {
    let mut step = base_step(Instruction::TableFill(0));
    step.tables = vec![
        TableState { elems: vec![0, 0, 0, 0], max_size: 8 },
        TableState { elems: vec![5, 6], max_size: 8 },
    ];
    step.stack = vec![1, 42, 2];
    let mut builder = RwBuilder::new();
    builder.build(&mut step).unwrap();
    assert_eq!(step.rw_rows.len(), 3);

    let mut copy_step = base_step(Instruction::TableCopy { dst_table: 0, src_table: 1 });
    copy_step.tables = step.tables.clone();
    copy_step.stack = vec![0, 0, 2];
    builder.build(&mut copy_step).unwrap();
    assert_eq!(copy_step.rw_rows.len(), 3);
    assert_eq!(
        copy_step.rw_rows[1],
        RwRow::Table {
            rw_counter: 1,
            is_write: true,
            call_id: 0,
            table_index: 0,
            elem_index: 0,
            value: 5,
        }
    );

    let mut get_step = base_step(Instruction::TableGet(1));
    get_step.tables = step.tables.clone();
    get_step.stack = vec![1];
    builder.build(&mut get_step).unwrap();
    assert_eq!(get_step.rw_rows.len(), 2);
    assert_eq!(
        get_step.rw_rows[1],
        RwRow::Table {
            rw_counter: 1,
            is_write: false,
            call_id: 0,
            table_index: 1,
            elem_index: 1,
            value: 6,
        }
    );
}

#[test]
fn consume_fuel_books_the_delta() {
    let mut step = base_step(Instruction::ConsumeFuel(300));
    let mut builder = RwBuilder::new();
    builder.build(&mut step).unwrap();
    assert_eq!(step.fuel_remaining, 700);
    assert_eq!(step.consumed_fuel, 300);
    assert_eq!(step.rw_rows.len(), 1);
}

#[test]
fn consume_fuel_exhaustion_is_fatal() {
    let mut step = base_step(Instruction::ConsumeFuel(1001));
    let mut builder = RwBuilder::new();
    let r = builder.build(&mut step);
    assert_eq!(r, Err(GadgetError::OutOfFuel));
    assert_eq!(step.fuel_remaining, 1000);
    assert_eq!(step.rw_rows.len(), 1);
}

#[test]
fn return_from_root_frame_emits_only_context_row() {
    let mut step = base_step(Instruction::Return(DropKeep { drop_count: 0, keep_count: 0 }));
    let mut builder = RwBuilder::new();
    builder.build(&mut step).unwrap();
    assert_eq!(step.rw_rows.len(), 1);
}

#[test]
fn unknown_syscall_is_fatal() {
    let mut step = base_step(Instruction::Call(999));
    let mut builder = RwBuilder::new();
    let r = builder.build(&mut step);
    assert_eq!(r, Err(GadgetError::UnknownSysCall(999)));
    assert_eq!(step.rw_rows.len(), 1);
}

#[test]
fn local_get_reads_the_slot_and_pushes() {
    let mut step = base_step(Instruction::LocalGet(1));
    step.locals = vec![10, 20];
    step.stack = vec![99];
    step.written = vec![20];
    let mut builder = RwBuilder::new();
    builder.build(&mut step).unwrap();
    assert_eq!(step.rw_rows.len(), 3);
    assert_eq!(
        step.rw_rows[1],
        RwRow::Stack { rw_counter: 1, is_write: false, call_id: 0, stack_pointer: 1, value: 20 }
    );
    // the push lands above the locals and the operand stack
    assert_eq!(
        step.rw_rows[2],
        RwRow::Stack { rw_counter: 2, is_write: true, call_id: 0, stack_pointer: 3, value: 20 }
    );
}

#[test]
fn buffered_write_emits_reads_and_result_row() {
    let mut step = base_step(Instruction::Call(3));
    let mut memory = vec![0u8; 16];
    memory[6..11].copy_from_slice(b"hello");
    step.memory = memory;
    // offset 6, length 5
    step.stack = vec![6, 5];
    let mut builder = RwBuilder::new();
    let r = builder.build(&mut step);
    assert_eq!(r, Ok(()));
    assert_eq!(step.rw_rows.len(), 7);
    for (i, b) in b"hello".iter().enumerate() {
        assert_eq!(
            step.rw_rows[1 + i],
            RwRow::Memory {
                rw_counter: 1 + i as u64,
                is_write: false,
                call_id: 0,
                memory_address: 6 + i as u64,
                value: *b,
            }
        );
    }
    assert_eq!(
        step.rw_rows[6],
        RwRow::SysCall { rw_counter: 6, is_write: true, call_id: 0, arg_index: 0, value: 5 }
    );
    assert_eq!(step.output, b"hello".to_vec());
}

#[test]
fn transact_failure_folds_nothing_back() {
    let mut step = base_step(Instruction::Call(1));
    step.memory = vec![0u8; 64];
    step.memory[40] = 16; // fuel allowance 16, little-endian at offset 40
    // hash at 0, input at 32 of length 4, return at 36 of length 4, fuel at 40
    step.stack = vec![0, 32, 4, 36, 4, 40, 0];
    step.return_data = vec![9, 9];
    step.output = vec![1];
    step.exec_outcome = Some(ExecOutcome { output: vec![5], exit_code: -7, fuel_consumed: 3 });
    let fuel_before = step.fuel_remaining;
    let consumed_before = step.consumed_fuel;
    let mut builder = RwBuilder::new();
    let r = builder.build(&mut step);
    assert_eq!(r, Err(GadgetError::TransactError(-7)));
    assert_eq!(step.fuel_remaining, fuel_before);
    assert_eq!(step.consumed_fuel, consumed_before);
    assert_eq!(step.return_data, vec![9, 9]);
    assert_eq!(step.output, vec![1]);
    // the argument regions were still marshaled: context + 32 + 4 + 4 rows
    assert_eq!(step.rw_rows.len(), 41);
}

#[test]
fn transact_success_folds_fuel_and_output() {
    let mut step = base_step(Instruction::Call(1));
    step.memory = vec![0u8; 64];
    step.memory[40] = 16;
    step.stack = vec![0, 32, 4, 36, 4, 40, 0];
    step.exec_outcome = Some(ExecOutcome { output: vec![5, 6], exit_code: 0, fuel_consumed: 3 });
    let mut builder = RwBuilder::new();
    let r = builder.build(&mut step);
    assert_eq!(r, Ok(()));
    assert_eq!(step.fuel_remaining, 997);
    assert_eq!(step.consumed_fuel, 3);
    assert_eq!(step.return_data, vec![5, 6]);
    // context + 40 reads + 2 output writes + 4 fuel writes + result row
    assert_eq!(step.rw_rows.len(), 48);
    // the written-back fuel is 16 - 3 = 13, little-endian
    assert_eq!(
        step.rw_rows[43],
        RwRow::Memory { rw_counter: 43, is_write: true, call_id: 0, memory_address: 40, value: 13 }
    );
    assert_eq!(
        step.rw_rows[44],
        RwRow::Memory { rw_counter: 44, is_write: true, call_id: 0, memory_address: 41, value: 0 }
    );
    assert_eq!(
        step.rw_rows[47],
        RwRow::SysCall { rw_counter: 47, is_write: true, call_id: 0, arg_index: 0, value: 0 }
    );
}

#[test]
fn transact_output_overflow_is_fatal() {
    let mut step = base_step(Instruction::Call(1));
    step.memory = vec![0u8; 64];
    step.memory[40] = 16;
    // declared maximum return size 1, child output 2 bytes
    step.stack = vec![0, 32, 4, 36, 1, 40, 0];
    step.exec_outcome = Some(ExecOutcome { output: vec![5, 6], exit_code: 0, fuel_consumed: 3 });
    let mut builder = RwBuilder::new();
    let r = builder.build(&mut step);
    assert_eq!(r, Err(GadgetError::OutputOverflow));
    assert_eq!(step.fuel_remaining, 1000);
}

#[test]
fn syscall_entry_with_exhausted_fuel_is_fatal() {
    let mut step = base_step(Instruction::Call(2));
    step.stack = vec![0];
    step.fuel_limit = 10;
    step.fuel_remaining = 0;
    step.consumed_fuel = 10;
    let mut builder = RwBuilder::new();
    let r = builder.build(&mut step);
    assert_eq!(r, Err(GadgetError::OutOfFuel));
    assert_eq!(step.rw_rows.len(), 1);
}

#[test]
fn select_pops_three_and_pushes_one() {
    let mut step = base_step(Instruction::Select);
    step.stack = vec![10, 20, 1];
    step.written = vec![10];
    let mut builder = RwBuilder::new();
    builder.build(&mut step).unwrap();
    assert_eq!(step.rw_rows.len(), 5);
    assert_eq!(
        step.rw_rows[1],
        RwRow::Stack { rw_counter: 1, is_write: false, call_id: 0, stack_pointer: 2, value: 1 }
    );
    assert_eq!(
        step.rw_rows[4],
        RwRow::Stack { rw_counter: 4, is_write: true, call_id: 0, stack_pointer: 0, value: 10 }
    );
}

#[test]
fn local_tee_writes_the_slot_without_popping() {
    let mut step = base_step(Instruction::LocalTee(0));
    step.locals = vec![1];
    step.stack = vec![42];
    step.written = vec![42];
    let mut builder = RwBuilder::new();
    builder.build(&mut step).unwrap();
    assert_eq!(step.rw_rows.len(), 2);
    assert_eq!(
        step.rw_rows[1],
        RwRow::Stack { rw_counter: 1, is_write: true, call_id: 0, stack_pointer: 0, value: 42 }
    );
}

#[test]
fn table_fill_on_a_missing_table_fails() {
    let mut step = base_step(Instruction::TableFill(3));
    step.stack = vec![0, 0, 0];
    let mut builder = RwBuilder::new();
    let r = builder.build(&mut step);
    assert_eq!(r, Err(GadgetError::OutOfBoundsTable));
    assert_eq!(step.rw_rows.len(), 1);
}

#[test]
fn rows_of_a_step_carry_its_call_frame_id() {
    let mut step = base_step(Instruction::I32Add);
    step.call_id = 5;
    step.stack = vec![2, 3];
    step.written = vec![5];
    let mut builder = RwBuilder::new();
    builder.build(&mut step).unwrap();
    for row in &step.rw_rows {
        let id = match row {
            RwRow::Stack { call_id, .. } => *call_id,
            RwRow::Memory { call_id, .. } => *call_id,
            RwRow::Table { call_id, .. } => *call_id,
            RwRow::Storage { call_id, .. } => *call_id,
            RwRow::Context { call_id, .. } => *call_id,
            RwRow::SysCall { call_id, .. } => *call_id,
        };
        assert_eq!(id, 5);
    }
}
