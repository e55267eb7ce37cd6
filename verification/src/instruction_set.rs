//! An instruction stream under construction, with optional per-opcode
//! metadata kept in lock step with the instructions.

use vstd::prelude::*;
use crate::exec_step::Instruction;

verus! {

/// Metadata for one emitted opcode: its source position, its raw code,
/// and its index in the source stream.
#[derive(Debug, Clone, Copy, PartialEq, Eq, Structural)]
pub struct InstrMeta {
    pub pos: usize,
    pub code: u16,
    pub index: u32,
}

/// An instruction stream: the opcodes, and their metadata when any was
/// recorded.  When metadata is kept at all, there is exactly one entry
/// per instruction.
#[derive(Debug, Clone, PartialEq, Eq)]
pub struct InstructionSet {
    pub instr: Vec<Instruction>,
    pub metas: Option<Vec<InstrMeta>>,
}

/// The sentinel a global access counts from when computing how many
/// globals a stream uses.
pub open spec fn globals_used_by(op: Instruction) -> int {
    match op {
        Instruction::GlobalGet(i) => i + 1,
        Instruction::GlobalSet(i) => i + 1,
        _ => 0,
    }
}

/// How many global slots the stream uses: one past the highest global
/// index any access names, or zero when none does.
pub open spec fn spec_count_globals(s: Seq<Instruction>) -> int
    decreases s.len(),
{
    if s.len() == 0 {
        0
    } else {
        let rest = spec_count_globals(s.drop_last());
        let last = globals_used_by(s.last());
        if last > rest {
            last
        } else {
            rest
        }
    }
}

impl Default for InstructionSet {
    /// An empty stream without metadata.
    fn default() -> (r: InstructionSet)
        ensures
            r.instr@.len() == 0,
            r.metas is None,
    {
        InstructionSet { instr: Vec::new(), metas: None }
    }
}

impl From<Vec<Instruction>> for InstructionSet {
    /// Wraps a finished opcode vector, without metadata.
    fn from(value: Vec<Instruction>) -> (r: InstructionSet) {
        InstructionSet { instr: value, metas: None }
    }
}

impl vstd::std_specs::convert::FromSpecImpl<Vec<Instruction>> for InstructionSet {
    open spec fn obeys_from_spec() -> bool {
        true
    }

    open spec fn from_spec(v: Vec<Instruction>) -> InstructionSet {
        InstructionSet { instr: v, metas: None }
    }
}

impl InstructionSet {
    /// An empty stream without metadata.
    pub fn new() -> (r: InstructionSet)
        ensures
            r.instr@.len() == 0,
            r.metas is None,
    {
        InstructionSet { instr: Vec::new(), metas: None }
    }

    /// Appends one opcode and returns its position.
    pub fn push(&mut self, opcode: Instruction) -> (r: u32)
        requires
            old(self).instr@.len() < u32::MAX,
        ensures
            r == old(self).instr@.len(),
            final(self).instr@ == old(self).instr@.push(opcode),
            final(self).metas == old(self).metas,
    {
        let opcode_pos = self.len();
        self.instr.push(opcode);
        opcode_pos
    }

    /// Appends one opcode with its metadata and returns its position.
    /// Metadata must have been kept for every earlier instruction: a
    /// stream that started without it cannot start keeping it midway.
    pub fn push_with_meta(&mut self, opcode: Instruction, meta: InstrMeta) -> (r: u32)
        requires
            old(self).instr@.len() < u32::MAX,
            old(self).metas matches Some(m) ==> m@.len() == old(self).instr@.len(),
            old(self).metas is None ==> old(self).instr@.len() == 0,
        ensures
            r == old(self).instr@.len(),
            final(self).instr@ == old(self).instr@.push(opcode),
            final(self).metas matches Some(m) && (match old(self).metas {
                Some(old_m) => m@ == old_m@.push(meta),
                None => m@ =~= seq![meta],
            }),
    {
        let opcode_pos = self.push(opcode);
        match &mut self.metas {
            Some(metas) => {
                metas.push(meta);
            },
            None => {
                let mut metas: Vec<InstrMeta> = Vec::new();
                metas.push(meta);
                self.metas = Some(metas);
            },
        }
        opcode_pos
    }

    /// Whether any metadata is kept.
    pub fn has_meta(&self) -> (r: bool)
        ensures
            r == (self.metas is Some),
    {
        self.metas.is_some()
    }

    /// The opcode at `index`, or `None` past the end.  The stream hands
    /// out a copy; `set` writes one back.
    pub fn get_mut(&mut self, index: usize) -> (r: Option<Instruction>)
        ensures
            *final(self) == *old(self),
            index < old(self).instr@.len() ==> r == Some(old(self).instr@[index as int]),
            index >= old(self).instr@.len() ==> r is None,
    {
        if index < self.instr.len() {
            Some(self.instr[index])
        } else {
            None
        }
    }

    /// Replaces the opcode at `index`; reports whether the index was in
    /// range.
    pub fn set(&mut self, index: usize, opcode: Instruction) -> (r: bool)
        ensures
            r == (index < old(self).instr@.len()),
            r ==> final(self).instr@ == old(self).instr@.update(index as int, opcode),
            !r ==> *final(self) == *old(self),
            final(self).metas == old(self).metas,
    {
        if index < self.instr.len() {
            self.instr[index] = opcode;
            true
        } else {
            false
        }
    }

    /// How many global slots the stream uses: one past the highest
    /// global index any `GlobalGet` or `GlobalSet` names, or zero.
    #[verifier::loop_isolation(false)]
    pub fn count_globals(&self) -> (r: u32)
        requires
            forall|k: int|
                0 <= k < self.instr@.len() ==> globals_used_by(#[trigger] self.instr@[k])
                    <= u32::MAX,
        ensures
            r == spec_count_globals(self.instr@),
    {
        let mut max: u32 = 0;
        let mut i: usize = 0;
        proof {
            assert(self.instr@.take(0) =~= Seq::<Instruction>::empty());
        }
        while i < self.instr.len()
            invariant
                0 <= i <= self.instr@.len(),
                max == spec_count_globals(self.instr@.take(i as int)),
            decreases self.instr@.len() - i,
        {
            proof {
                assert(self.instr@.take(i as int + 1).drop_last() =~= self.instr@.take(i as int));
                assert(self.instr@.take(i as int + 1).last() == self.instr@[i as int]);
                lemma_count_globals_bounded(self.instr@.take(i as int));
            }
            let used: u32 = match self.instr[i] {
                Instruction::GlobalGet(g) => g + 1,
                Instruction::GlobalSet(g) => g + 1,
                _ => 0,
            };
            if used > max {
                max = used;
            }
            i = i + 1;
        }
        proof {
            assert(self.instr@.take(self.instr@.len() as int) =~= self.instr@);
        }
        max
    }

    /// How many opcodes the stream holds.
    pub fn len(&self) -> (r: u32)
        requires
            self.instr@.len() <= u32::MAX,
        ensures
            r == self.instr@.len(),
    {
        self.instr.len() as u32
    }

    /// Appends every opcode of another stream; metadata is untouched.
    #[verifier::loop_isolation(false)]
    pub fn extend(&mut self, with: &InstructionSet)
        ensures
            final(self).instr@ == old(self).instr@ + with.instr@,
            final(self).metas == old(self).metas,
    {
        let ghost pre = *old(self);
        let mut i: usize = 0;
        while i < with.instr.len()
            invariant
                0 <= i <= with.instr@.len(),
                self.instr@ == pre.instr@ + with.instr@.take(i as int),
                self.metas == pre.metas,
            decreases with.instr@.len() - i,
        {
            self.instr.push(with.instr[i]);
            proof {
                assert(with.instr@.take(i as int + 1) =~= with.instr@.take(i as int).push(
                    with.instr@[i as int],
                ));
                assert(self.instr@ =~= pre.instr@ + with.instr@.take(i as int + 1));
            }
            i = i + 1;
        }
        proof {
            assert(with.instr@.take(with.instr@.len() as int) =~= with.instr@);
        }
    }

    /// Hands out a copy of the finished opcode stream.
    #[verifier::loop_isolation(false)]
    pub fn finalize(&mut self) -> (r: Vec<Instruction>)
        ensures
            *final(self) == *old(self),
            r@ == old(self).instr@,
    {
        let mut out: Vec<Instruction> = Vec::new();
        let mut i: usize = 0;
        while i < self.instr.len()
            invariant
                0 <= i <= self.instr@.len(),
                out@ == self.instr@.take(i as int),
                *self == *old(self),
            decreases self.instr@.len() - i,
        {
            out.push(self.instr[i]);
            proof {
                assert(self.instr@.take(i as int + 1) =~= self.instr@.take(i as int).push(
                    self.instr@[i as int],
                ));
            }
            i = i + 1;
        }
        proof {
            assert(self.instr@.take(self.instr@.len() as int) =~= self.instr@);
        }
        out
    }
}

/// The global count of a stream never goes below zero, and a stream
/// whose accesses all fit below the index ceiling counts no higher.
proof fn lemma_count_globals_bounded(s: Seq<Instruction>)
    requires
        forall|k: int| 0 <= k < s.len() ==> globals_used_by(#[trigger] s[k]) <= u32::MAX,
    ensures
        0 <= spec_count_globals(s) <= u32::MAX,
    decreases s.len(),
{
    if s.len() > 0 {
        lemma_count_globals_bounded(s.drop_last());
    }
}

} // verus!
