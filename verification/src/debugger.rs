//! The debugger's own logic: breakpoints, and the disassembly listing
//! that it shows around the program counter.
use std::collections::HashSet;
use vstd::prelude::*;

use crate::bus::{BusAccess, BusModel};
use crate::cpu::{fetch_bytes, wrap_add, CPU};
use crate::game_boy::{DebugEvent, GameBoy};
use crate::instruction::opcode::length_of;
use crate::instruction::{decode_result, Instruction};
use crate::ppu::dump_text;

verus! {

broadcast use vstd::std_specs::hash::group_hash_axioms;

/// A disassembly listing: each address with the instruction decoded there,
/// or nothing where no instruction could be read.
pub type AsmState = Vec<(u16, Option<Instruction>)>;

/// How many lines a listing holds.
pub const ASM_LINES: usize = 20;

/// The address of line `k` of the listing that starts at `start`: each line
/// follows the instruction before it, or the byte before it where none could
/// be read.
pub open spec fn listing_pc<B: BusModel>(bus: B, start: u16, k: nat) -> u16
    decreases k,
{
    if k == 0 {
        start
    } else {
        let p = listing_pc(bus, start, (k - 1) as nat);
        match fetch_bytes(bus, p) {
            Ok(m) => wrap_add(p, length_of(m[0]) as int),
            Err(_) => wrap_add(p, 1),
        }
    }
}

/// Whether `line` is line `k` of the listing that starts at `start`.
pub open spec fn listing_line<B: BusModel>(bus: B, start: u16, k: nat, line: (u16, Option<Instruction>)) -> bool {
    let p = listing_pc(bus, start, k);
    &&& line.0 == p
    &&& (line.1 is Some <==> fetch_bytes(bus, p) is Ok)
    &&& (line.1 matches Some(i) ==> decode_result(fetch_bytes(bus, p)->Ok_0, Ok(i)))
}

/// A breakpoint set at an address stops the emulation there, one cleared
/// no longer does, and the other breakpoints are left as they were.
pub proof fn law_breakpoint_set_and_clear(s: Set<u16>, pc: u16, other: u16)
    requires
        other != pc,
    ensures
        s.insert(pc).contains(pc),
        !s.remove(pc).contains(pc),
        s.insert(pc).contains(other) == s.contains(other),
        s.remove(pc).contains(other) == s.contains(other),
{
}

/// The debugger's state: the addresses at which the emulation stops.
pub struct Debugger {
    breakpoints: HashSet<u16>,
}

impl View for Debugger {
    type V = Set<u16>;

    closed spec fn view(&self) -> Set<u16> {
        self.breakpoints@
    }
}

impl Debugger {
    /// A debugger with no breakpoint.
    pub fn new() -> (r: Self)
        ensures
            r@ == Set::<u16>::empty(),
    {
        Debugger { breakpoints: HashSet::new() }
    }

    /// Takes a request: a breakpoint is set or cleared; a VRAM dump is
    /// returned as text, to be shown.
    pub fn handle_event(&mut self, gb: &GameBoy, ev: &DebugEvent) -> (r: Option<String>)
        requires
            gb.sound(),
        ensures
            match *ev {
                DebugEvent::SetBreakpoint(pc) => final(self)@ == old(self)@.insert(pc) && r is None,
                DebugEvent::ClearBreakpoint(pc) => final(self)@ == old(self)@.remove(pc) && r is None,
                DebugEvent::DumpVram => final(self)@ == old(self)@ && (r matches Some(t) && t@ == dump_text(
                    gb@.bus.ppu.vram,
                    256,
                )),
            },
    {
        match ev {
            DebugEvent::SetBreakpoint(pc) => {
                self.breakpoints.insert(*pc);
                None
            },
            DebugEvent::ClearBreakpoint(pc) => {
                self.breakpoints.remove(pc);
                None
            },
            DebugEvent::DumpVram => {
                Some(gb.ppu().vram_dump())
            },
        }
    }

    /// Whether the emulation stops here: a breakpoint is set at PC.
    pub fn should_break(&self, gb: &GameBoy) -> (r: bool)
        ensures
            r == self@.contains(gb@.cpu.pc),
    {
        let pc = gb.cpu().read_pc();
        self.breakpoints.contains(&pc)
    }

    /// The listing of the twenty lines that start at `pc`.
    #[verifier::rlimit(40)]
    #[verifier::spinoff_prover]
    pub fn disassemble<B: BusAccess>(bus: &B, pc: u16) -> (r: AsmState)
        requires
            bus.inv(),
        ensures
            r@.len() == ASM_LINES,
            forall|k: int| 0 <= k < ASM_LINES ==> listing_line(bus.model(), pc, k as nat, #[trigger] r@[k]),
    {
        let mut disassembly: AsmState = Vec::new();
        let mut p = pc;
        while disassembly.len() < ASM_LINES
            invariant
                bus.inv(),
                disassembly@.len() <= ASM_LINES,
                p == listing_pc(bus.model(), pc, disassembly@.len() as nat),
                forall|k: int| 0 <= k < disassembly@.len() ==> listing_line(bus.model(), pc, k as nat, #[trigger] disassembly@[k]),
            decreases ASM_LINES - disassembly@.len(),
        {
            let ghost n = disassembly@.len();
            match CPU::fetch_instruction(bus, p) {
                Ok(instruction) => {
                    let len = instruction.len();
                    let ghost m = fetch_bytes(bus.model(), p)->Ok_0;
                    assert(len == length_of(m[0]));
                    disassembly.push((p, Some(instruction)));
                    p = p.wrapping_add(len as u16);
                },
                Err(_) => {
                    disassembly.push((p, None));
                    p = p.wrapping_add(1);
                },
            }
            assert(listing_line(bus.model(), pc, n as nat, disassembly@[n as int]));
        }
        disassembly
    }
}

} // verus!
