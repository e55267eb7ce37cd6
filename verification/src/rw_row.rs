//! The row model: one immutable state-access fact per row.
//!
//! Every row carries the global sequence number (`rw_counter`), a read/write
//! flag, and the id of the call frame that performed the access.  The kinds
//! are closed: stack slot, linear-memory byte, table element, storage slot,
//! call-frame context field, and system-call argument/result.

use vstd::prelude::*;

verus! {

/// Tag of a context row.  Only `ProgramCounter` is emitted today; the other
/// kinds are reserved for a future revision of the row schema and no
/// generator produces them.
#[derive(Debug, Clone, Copy, PartialEq, Eq, Structural)]
pub enum RwTableContextTag {
    ProgramCounter,
    MemorySize,
    StackPointer,
    CallDepth,
}

/// One recorded read or write access.  Rows are never mutated after being
/// appended to a step's log; they are only read back in emission order.
#[derive(Debug, Clone, PartialEq, Eq)]
pub enum RwRow {
    /// Access to one stack slot (locals live in the low slots, the operand
    /// stack above them).
    Stack { rw_counter: u64, is_write: bool, call_id: u32, stack_pointer: u64, value: u64 },
    /// Access to one byte of linear memory.
    Memory { rw_counter: u64, is_write: bool, call_id: u32, memory_address: u64, value: u8 },
    /// Access to one element of one table.
    Table { rw_counter: u64, is_write: bool, call_id: u32, table_index: u32, elem_index: u64, value: u64 },
    /// Access to one persistent-storage slot, keyed by a 32-byte key.
    Storage { rw_counter: u64, is_write: bool, call_id: u32, key: [u8; 32], value: [u8; 32] },
    /// Access to a per-frame context field.
    Context { rw_counter: u64, is_write: bool, call_id: u32, tag: RwTableContextTag, value: u64 },
    /// A system-call argument (read) or result (write).
    SysCall { rw_counter: u64, is_write: bool, call_id: u32, arg_index: u32, value: u64 },
}

impl RwRow {
    /// The global sequence number of this row.
    pub open spec fn rw_counter(self) -> u64 {
        match self {
            RwRow::Stack { rw_counter, .. } => rw_counter,
            RwRow::Memory { rw_counter, .. } => rw_counter,
            RwRow::Table { rw_counter, .. } => rw_counter,
            RwRow::Storage { rw_counter, .. } => rw_counter,
            RwRow::Context { rw_counter, .. } => rw_counter,
            RwRow::SysCall { rw_counter, .. } => rw_counter,
        }
    }

    /// Whether this row records a write.
    pub open spec fn is_write(self) -> bool {
        match self {
            RwRow::Stack { is_write, .. } => is_write,
            RwRow::Memory { is_write, .. } => is_write,
            RwRow::Table { is_write, .. } => is_write,
            RwRow::Storage { is_write, .. } => is_write,
            RwRow::Context { is_write, .. } => is_write,
            RwRow::SysCall { is_write, .. } => is_write,
        }
    }

    /// The id of the call frame that performed the access.
    pub open spec fn call_id(self) -> u32 {
        match self {
            RwRow::Stack { call_id, .. } => call_id,
            RwRow::Memory { call_id, .. } => call_id,
            RwRow::Table { call_id, .. } => call_id,
            RwRow::Storage { call_id, .. } => call_id,
            RwRow::Context { call_id, .. } => call_id,
            RwRow::SysCall { call_id, .. } => call_id,
        }
    }
}

/// The rows of `rows` carry the counters `start`, `start + 1`, ... in order:
/// the counter advances by exactly one per emitted row.
pub open spec fn counters_contiguous_from(rows: Seq<RwRow>, start: int) -> bool {
    forall|i: int| 0 <= i < rows.len() ==> (#[trigger] rows[i]).rw_counter() == start + i
}

/// Two contiguous row segments whose counter ranges meet end-to-start form
/// one contiguous segment.  A whole run is assembled this way: one segment
/// per step (and per nested sub-run), each starting where the previous one
/// stopped.
pub proof fn lemma_contiguous_concat(a: Seq<RwRow>, b: Seq<RwRow>, start: int)
    requires
        counters_contiguous_from(a, start),
        counters_contiguous_from(b, start + a.len()),
    ensures
        counters_contiguous_from(a + b, start),
{
    assert forall|i: int| 0 <= i < (a + b).len() implies (#[trigger] (a + b)[i]).rw_counter()
        == start + i by {
        if i < a.len() {
            assert((a + b)[i] == a[i]);
        } else {
            assert((a + b)[i] == b[i - a.len()]);
        }
    }
}

/// In a contiguous segment the sequence of row counters is strictly
/// increasing by exactly one, with no gaps and no repeats, whatever the
/// call-frame nesting of the rows.
pub proof fn lemma_contiguous_counters_increase(rows: Seq<RwRow>, start: int)
    requires
        counters_contiguous_from(rows, start),
    ensures
        forall|i: int|
            0 <= i && i + 1 < rows.len() ==> (#[trigger] rows[i + 1]).rw_counter()
                == rows[i].rw_counter() + 1,
        forall|i: int, j: int|
            0 <= i < j < rows.len() ==> (#[trigger] rows[i]).rw_counter()
                < (#[trigger] rows[j]).rw_counter(),
{
}

} // verus!

verus! {

/// The total length of a sequence of row segments.
pub open spec fn segments_len(segs: Seq<Seq<RwRow>>) -> int
    decreases segs.len(),
{
    if segs.len() == 0 {
        0
    } else {
        segments_len(segs.drop_last()) + segs.last().len()
    }
}

/// An entire run assembled from per-step segments carries one contiguous
/// counter range: when every segment starts exactly where the previous
/// ones stop, their concatenation counts `start`, `start + 1`, ... with
/// no gap or repeat, however deeply the segments' frames nest.
pub proof fn lemma_run_counters_contiguous(segs: Seq<Seq<RwRow>>, start: int)
    requires
        forall|i: int|
            0 <= i < segs.len() ==> counters_contiguous_from(
                #[trigger] segs[i],
                start + segments_len(segs.take(i)),
            ),
    ensures
        counters_contiguous_from(segs.flatten(), start),
    decreases segs.len(),
{
    if segs.len() == 0 {
        assert(segs.flatten() =~= Seq::<RwRow>::empty());
    } else {
        let front = segs.drop_last();
        assert forall|i: int| 0 <= i < front.len() implies counters_contiguous_from(
            #[trigger] front[i],
            start + segments_len(front.take(i)),
        ) by {
            assert(front.take(i) =~= segs.take(i));
            assert(front[i] == segs[i]);
        }
        lemma_run_counters_contiguous(front, start);
        lemma_segments_len_nonneg(front);
        lemma_flatten_len(front);
        assert(segs.take(segs.len() - 1) =~= front);
        lemma_contiguous_concat(front.flatten(), segs.last(), start);
        assert(segs.flatten() =~= front.flatten() + segs.last()) by {
            lemma_flatten_last(segs);
        }
    }
}

/// A flattened sequence of segments is as long as the segments together.
proof fn lemma_flatten_len(segs: Seq<Seq<RwRow>>)
    ensures
        segs.flatten().len() == segments_len(segs),
    decreases segs.len(),
{
    if segs.len() == 0 {
        assert(segs.flatten() =~= Seq::<RwRow>::empty());
    } else {
        lemma_flatten_len(segs.drop_last());
        lemma_flatten_last(segs);
    }
}

/// Segment lengths never sum below zero.
proof fn lemma_segments_len_nonneg(segs: Seq<Seq<RwRow>>)
    ensures
        segments_len(segs) >= 0,
    decreases segs.len(),
{
    if segs.len() > 0 {
        lemma_segments_len_nonneg(segs.drop_last());
    }
}

/// Flattening peels the last segment off the back.
proof fn lemma_flatten_last(segs: Seq<Seq<RwRow>>)
    requires
        segs.len() > 0,
    ensures
        segs.flatten() == segs.drop_last().flatten() + segs.last(),
{
    segs.lemma_flatten_and_flatten_alt_are_equivalent();
    segs.drop_last().lemma_flatten_and_flatten_alt_are_equivalent();
    assert(segs.flatten_alt() == segs.drop_last().flatten_alt() + segs.last());
}

} // verus!
