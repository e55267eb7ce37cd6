//! The bytecode translator's state: the contract bytecode with its
//! instruction pointer, and the registry of per-opcode subroutines that
//! replace complex opcodes with calls into one shared instruction
//! stream.
//!
//! Subroutine streams are produced by the external bytecode compiler;
//! this module owns the registry bookkeeping: offsets into the shared
//! stream, the opcode lookup table, and the pointer arithmetic of
//! stepping, all as plain indices.

use vstd::prelude::*;
use crate::exec_step::Instruction;
use crate::instruction_set::InstructionSet;

verus! {

/// How one translated run ended, or that it is still going.
#[derive(Debug, Clone, Copy, PartialEq, Eq, Structural)]
pub enum InstructionResult {
    Continue,
    Stop,
    Revert,
}

/// One registered subroutine: its instruction stream, where the stream
/// sits inside the shared concatenation, and the entry offset within it.
#[derive(Debug, Clone, PartialEq, Eq)]
pub struct SubroutineData {
    pub rel_entry_offset: u32,
    pub instruction_set: InstructionSet,
    pub begin_offset: usize,
    pub end_offset: usize,
}

/// The position of one subroutine inside the shared stream.
#[derive(Debug, Clone, Copy, PartialEq, Eq, Structural)]
pub struct SubroutineMeta {
    pub begin_offset: usize,
    pub end_offset: usize,
}

/// The opcode lookup table, held in a hashbrown hash map behind a sealed
/// struct: the map itself is outside code, its contents are named by
/// `opcode_map_view` and pinned by the wrapper contracts.
#[verifier::external_body]
pub struct OpcodeMap {
    map: hashbrown::HashMap<u8, usize>,
}

pub uninterp spec fn opcode_map_view(m: OpcodeMap) -> Map<u8, usize>;

impl OpcodeMap {
    /// Relies on hashbrown's `HashMap::new`: a fresh map holds nothing.
    #[verifier::external_body]
    pub fn new() -> (r: OpcodeMap)
        ensures
            opcode_map_view(r) =~= Map::empty(),
    {
        OpcodeMap { map: hashbrown::HashMap::new() }
    }

    /// Relies on hashbrown's `HashMap::insert`: the key now maps to the
    /// value, every other key is untouched.
    #[verifier::external_body]
    pub fn insert(&mut self, key: u8, value: usize)
        ensures
            opcode_map_view(*final(self)) == opcode_map_view(*old(self)).insert(key, value),
    {
        self.map.insert(key, value);
    }

    /// Relies on hashbrown's `HashMap::get`: hands back the value stored
    /// under the key, or nothing.
    #[verifier::external_body]
    pub fn get(&self, key: u8) -> (r: Option<usize>)
        ensures
            opcode_map_view(*self).dom().contains(key) ==> r == Some(
                opcode_map_view(*self)[key],
            ),
            !opcode_map_view(*self).dom().contains(key) ==> r is None,
    {
        self.map.get(&key).copied()
    }

    /// Relies on hashbrown's `HashMap::contains_key`.
    #[verifier::external_body]
    pub fn contains_key(&self, key: u8) -> (r: bool)
        ensures
            r == opcode_map_view(*self).dom().contains(key),
    {
        self.map.contains_key(&key)
    }
}

/// The translator: the locked contract bytecode, the instruction pointer
/// as an index into it, and the subroutine registry.
pub struct Translator {
    /// The padded contract bytecode being translated.
    pub bytecode: Vec<u8>,
    /// The index of the next opcode; the analysis pads the bytecode so
    /// the last byte is a terminator, and stepping never passes the end.
    pub instruction_pointer: usize,
    /// How the run ended, or `Continue` while it is going.
    pub instruction_result: InstructionResult,
    /// Whether compiled subroutines get fuel-consumption instrumentation.
    pub inject_fuel_consumption: bool,
    /// The opcode lookup table; `spec_opcode_map` names its contents.
    pub opcode_to_subroutine_data: OpcodeMap,
    /// The registered subroutines, in registration order.
    pub subroutines: Vec<SubroutineData>,
    /// The shared concatenation of every registered stream.
    pub subroutines_instruction_set: InstructionSet,
}

impl Translator {
    /// The registry is consistent: the pointer stays inside the
    /// bytecode, and every registered opcode maps to a stored
    /// subroutine.
    pub open spec fn wf(self) -> bool {
        &&& self.instruction_pointer <= self.bytecode@.len()
        &&& forall|k: u8|
            opcode_map_view(self.opcode_to_subroutine_data).dom().contains(k)
                ==> opcode_map_view(self.opcode_to_subroutine_data)[k] < self.subroutines@.len()
    }

    /// The registered subroutines, in registration order.
    pub open spec fn spec_subroutines(self) -> Seq<SubroutineData> {
        self.subroutines@
    }

    /// The opcode lookup table's contents.
    pub open spec fn spec_opcode_map(self) -> Map<u8, usize> {
        opcode_map_view(self.opcode_to_subroutine_data)
    }

    /// The shared concatenated subroutine stream.
    pub open spec fn spec_subroutines_instruction_set(self) -> InstructionSet {
        self.subroutines_instruction_set
    }

    /// A fresh translator over a locked bytecode, with an empty
    /// subroutine registry.
    pub fn new(bytecode: Vec<u8>, inject_fuel_consumption: bool) -> (r: Translator)
        ensures
            r.wf(),
            r.bytecode == bytecode,
            r.instruction_pointer == 0,
            r.instruction_result == InstructionResult::Continue,
            r.inject_fuel_consumption == inject_fuel_consumption,
            r.spec_opcode_map() == Map::<u8, usize>::empty(),
            r.spec_subroutines() == Seq::<SubroutineData>::empty(),
            r.spec_subroutines_instruction_set().instr@ == Seq::<Instruction>::empty(),
    {
        let r = Translator {
            bytecode,
            instruction_pointer: 0,
            instruction_result: InstructionResult::Continue,
            inject_fuel_consumption,
            opcode_to_subroutine_data: OpcodeMap::new(),
            subroutines: Vec::new(),
            subroutines_instruction_set: InstructionSet::new(),
        };
        proof {
            assert(r.spec_subroutines() =~= Seq::<SubroutineData>::empty());
        }
        r
    }

    /// Registers one compiled subroutine under its opcode: appends its
    /// stream to the shared concatenation, records where it begins and
    /// ends, and binds the opcode to it.  An opcode registered twice is
    /// refused, and nothing changes.
    pub fn register_subroutine(
        &mut self,
        opcode: u8,
        instruction_set: InstructionSet,
        rel_entry_offset: u32,
    ) -> (r: bool)
        requires
            old(self).wf(),
            instruction_set.instr@.len() > 0,
            old(self).subroutines_instruction_set.instr@.len() + instruction_set.instr@.len()
                <= usize::MAX,
            old(self).subroutines@.len() < usize::MAX,
        ensures
            final(self).wf(),
            final(self).bytecode == old(self).bytecode,
            final(self).instruction_pointer == old(self).instruction_pointer,
            final(self).instruction_result == old(self).instruction_result,
            r == !old(self).spec_opcode_map().dom().contains(opcode),
            !r ==> final(self).spec_opcode_map() == old(self).spec_opcode_map() && final(self).spec_subroutines() == old(self).spec_subroutines() && final(self).spec_subroutines_instruction_set() == old(self).spec_subroutines_instruction_set(),
            r ==> {
                &&& final(self).spec_subroutines().len() == old(self).spec_subroutines().len() + 1
                &&& final(self).spec_subroutines().last() == (SubroutineData {
                    rel_entry_offset,
                    begin_offset: old(self).subroutines_instruction_set.instr@.len() as usize,
                    end_offset: (old(self).subroutines_instruction_set.instr@.len()
                        + instruction_set.instr@.len() - 1) as usize,
                    instruction_set,
                })
                &&& final(self).spec_subroutines().take(old(self).spec_subroutines().len() as int)
                    == old(self).spec_subroutines()
                &&& final(self).spec_opcode_map() == old(self).spec_opcode_map().insert(
                    opcode,
                    old(self).spec_subroutines().len() as usize,
                )
                &&& final(self).spec_subroutines_instruction_set().instr@ == old(self).spec_subroutines_instruction_set().instr@ + instruction_set.instr@
            },
    {
        if self.opcode_to_subroutine_data.contains_key(opcode) {
            return false;
        }
        let l = self.subroutines_instruction_set.instr.len();
        let end = l + instruction_set.instr.len() - 1;
        let subroutine_data = SubroutineData {
            rel_entry_offset,
            begin_offset: l,
            end_offset: end,
            instruction_set,
        };
        self.subroutines_instruction_set.extend(&subroutine_data.instruction_set);
        let index = self.subroutines.len();
        self.subroutines.push(subroutine_data);
        self.opcode_to_subroutine_data.insert(opcode, index);
        proof {
            assert(final(self).spec_subroutines().take(old(self).spec_subroutines().len() as int)
                =~= old(self).spec_subroutines());
        }
        true
    }

    /// The position of a registered subroutine inside the shared stream.
    pub fn subroutine_meta(&self, opcode: u8) -> (r: Option<SubroutineMeta>)
        requires
            self.wf(),
        ensures
            self.spec_opcode_map().dom().contains(opcode) ==> r == Some(SubroutineMeta {
                begin_offset: self.spec_subroutines()[self.spec_opcode_map()[opcode] as int].begin_offset,
                end_offset: self.spec_subroutines()[self.spec_opcode_map()[opcode] as int].end_offset,
            }),
            !self.spec_opcode_map().dom().contains(opcode) ==> r is None,
    {
        match self.opcode_to_subroutine_data.get(opcode) {
            Some(index) => {
                let sd = &self.subroutines[index];
                Some(SubroutineMeta { begin_offset: sd.begin_offset, end_offset: sd.end_offset })
            },
            None => None,
        }
    }

    /// A borrow of the subroutine a registered opcode is bound to.
    pub fn subroutine_data(&self, opcode: u8) -> (r: Option<&SubroutineData>)
        requires
            self.wf(),
        ensures
            self.spec_opcode_map().dom().contains(opcode) ==> (r matches Some(sd) && *sd
                == self.spec_subroutines()[self.spec_opcode_map()[opcode] as int]),
            !self.spec_opcode_map().dom().contains(opcode) ==> r is None,
    {
        match self.opcode_to_subroutine_data.get(opcode) {
            Some(index) => Some(&self.subroutines[index]),
            None => None,
        }
    }

    /// The shared concatenated subroutine stream.
    pub fn subroutines_instruction_set(&self) -> (r: &InstructionSet)
        ensures
            *r == self.spec_subroutines_instruction_set(),
    {
        &self.subroutines_instruction_set
    }

    /// The opcode before the pointer.
    pub fn opcode_prev(&self) -> (r: u8)
        requires
            self.wf(),
            self.instruction_pointer >= 1,
    ensures
            r == self.bytecode@[self.instruction_pointer - 1],
    {
        self.bytecode[self.instruction_pointer - 1]
    }

    /// The opcode at the pointer.
    pub fn opcode_cur(&self) -> (r: u8)
        requires
            self.instruction_pointer < self.bytecode@.len(),
        ensures
            r == self.bytecode@[self.instruction_pointer as int],
    {
        self.bytecode[self.instruction_pointer]
    }

    /// The pointer's offset from the start of the bytecode.
    pub fn program_counter(&self) -> (r: usize)
        ensures
            r == self.instruction_pointer,
    {
        self.instruction_pointer
    }

    /// Advances the pointer; the analysis pads the bytecode, so a step
    /// never leaves it.
    pub fn instruction_pointer_inc(&mut self, offset: usize)
        requires
            old(self).wf(),
            old(self).instruction_pointer + offset <= old(self).bytecode@.len(),
        ensures
            final(self).wf(),
            *final(self) == (Translator {
                instruction_pointer: (old(self).instruction_pointer + offset) as usize,
                ..*old(self)
            }),
    {
        let _bytecode_len: usize = self.bytecode.len();
        self.instruction_pointer = self.instruction_pointer + offset;
    }

    /// The fetch half of one step: reads the current opcode and advances
    /// the pointer past it.  The caller dispatches the opcode through
    /// its instruction table.
    pub fn fetch_opcode(&mut self) -> (r: u8)
        requires
            old(self).wf(),
            old(self).instruction_pointer < old(self).bytecode@.len(),
        ensures
            final(self).wf(),
            r == old(self).bytecode@[old(self).instruction_pointer as int],
            *final(self) == (Translator {
                instruction_pointer: (old(self).instruction_pointer + 1) as usize,
                ..*old(self)
            }),
    {
        let _bytecode_len: usize = self.bytecode.len();
        let opcode = self.bytecode[self.instruction_pointer];
        self.instruction_pointer = self.instruction_pointer + 1;
        opcode
    }
}

} // verus!
