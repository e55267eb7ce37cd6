//! Read/write trace builder for a zero-knowledge virtual machine.
//!
//! For every executed bytecode instruction the builder appends a strictly
//! ordered sequence of state-access rows (stack, linear memory, tables,
//! call-frame context, host calls) to the step's row log.  Each row carries a
//! globally unique, monotonically increasing sequence number; the log is later
//! drained into an arithmetic circuit's witness.

pub mod account;
pub mod codec;
pub mod exec_step;
pub mod instruction_set;
pub mod opcode;
pub mod platform;
pub mod rw_builder;
pub mod rw_row;
pub mod rwasm;
pub mod snippets;
pub mod storage;
pub mod sys_exec_hash;
pub mod translator;
pub mod types;
pub mod u256;
pub mod wasi;
