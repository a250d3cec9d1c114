use vstd::prelude::*;

verus! {

broadcast use vstd::slice::group_slice_axioms;

/// Instructions traced before the tracer stops the machine.
pub const TRACE_LIMIT: usize = 200;

/// Bytes at the program counter that one trace line disassembles.
pub const TRACE_WINDOW: usize = 16;

/// The listing that `disasm6502::from_array` produces for `bytes` (decoded
/// from address $0000), each instruction as its `Display` text.
pub uninterp spec fn spec_disassembly(bytes: Seq<u8>) -> Seq<Seq<char>>;

/// Calls `disasm6502::from_array` and formats each decoded instruction with
/// its `Display` impl. The contract claims that the result is the named
/// listing, and, as the crate's source shows (`from_addr_array` returns `Ok`
/// always and decodes one instruction of at least one byte per pass while
/// bytes remain; `decode` covers all 256 opcodes and reads missing operand
/// bytes as zero), that a non-empty input gives a non-empty listing of at
/// most one instruction per byte. What the text of each instruction is, is
/// left to the name.
#[verifier::external_body]
fn disassemble(bytes: &[u8]) -> (res: Vec<String>)
    ensures
        res@.len() == spec_disassembly(bytes@).len(),
        forall|i: int| 0 <= i < res@.len() ==> #[trigger] res@[i]@ == spec_disassembly(bytes@)[i],
        bytes@.len() > 0 ==> res@.len() > 0,
        res@.len() <= bytes@.len(),
{
    match disasm6502::from_array(bytes) {
        Ok(instructions) => instructions.iter().map(|i| format!("{}", i)).collect(),
        Err(_) => Vec::new(),
    }
}

/// The trace text of the instruction at `pc`: the first instruction of the
/// disassembly of the 16 bytes of `ram` that start at `pc`.
pub fn trace_instruction(ram: &[u8], pc: usize) -> (res: String)
    requires
        pc + TRACE_WINDOW <= ram@.len(),
    ensures
        res@ == spec_disassembly(ram@.subrange(pc as int, pc + TRACE_WINDOW))[0],
{
    assert(ram@.len() == ram.len());
    let window = vstd::slice::slice_subrange(ram, pc, pc + TRACE_WINDOW);
    let mut listing = disassemble(window);
    listing.swap_remove(0)
}

/// What the instruction tracer does before a CPU step.
#[derive(Clone, Copy, Debug, PartialEq, Eq, Structural)]
pub enum TraceAction {
    /// Tracing is off: step without output.
    Run,
    /// Disassemble and log the next instruction, then step.
    Trace,
    /// The trace limit is reached: stop the machine.
    Stop,
}

/// The instruction tracer: whether it is on, and how many instructions it traced.
#[derive(Clone, Copy, Debug)]
pub struct Debugger {
    pub enabled: bool,
    pub instr_cnt: usize,
}

impl Debugger {
    /// The tracer never counts past its limit.
    pub open spec fn wf(&self) -> bool {
        self.instr_cnt <= TRACE_LIMIT
    }

    /// A tracer that is off and has traced nothing.
    pub fn new() -> (res: Self)
        ensures
            res.wf(),
            !res.enabled,
            res.instr_cnt == 0,
    {
        Debugger { enabled: false, instr_cnt: 0 }
    }

    /// Decides what to do before a CPU step: nothing when off; trace and
    /// count the instruction while under the limit; stop at the limit, without
    /// counting.
    pub fn before_step(&mut self) -> (action: TraceAction)
        requires
            old(self).wf(),
        ensures
            final(self).wf(),
            final(self).enabled == old(self).enabled,
            !old(self).enabled ==> action == TraceAction::Run && final(self).instr_cnt == old(
                self,
            ).instr_cnt,
            old(self).enabled && old(self).instr_cnt < TRACE_LIMIT ==> action == TraceAction::Trace
                && final(self).instr_cnt == old(self).instr_cnt + 1,
            old(self).enabled && old(self).instr_cnt >= TRACE_LIMIT ==> action == TraceAction::Stop
                && final(self).instr_cnt == old(self).instr_cnt,
    {
        if !self.enabled {
            TraceAction::Run
        } else if self.instr_cnt < TRACE_LIMIT {
            self.instr_cnt = self.instr_cnt + 1;
            TraceAction::Trace
        } else {
            TraceAction::Stop
        }
    }
}

} // verus!
