//! Laws of whole CPU steps, stated over the registers, the flag bits of F
//! and what the bus reads and keeps: conditional branches, relative jumps
//! and the loads and stores through (HL+) and (HL-).
use vstd::prelude::*;

use crate::bits::lemma_signed_byte;
use crate::bus::BusModel;
use crate::cpu::{
    condition_holds, cycles_from, exec_instr_spec, check_interrupts_spec, fetch_bytes, jump_target, pair, post_op_spec,
    step_spec, wrap_add, CpuView,
};
use crate::instruction::opcode::{is_opcode, length_of};
use crate::instruction::{
    decoded_instr, Dest, DoubleRegType, GenericRegType, InstructionType, JumpCondition, JumpType, PostStore,
    SingleRegType, Source,
};
use crate::ErrorView;

verus! {

/// The bytes fetched at `pc` when the bus reads `op`, `b1` and `b2` there:
/// as many as the length of `op` asks for.
proof fn lemma_fetch<B: BusModel>(bus: B, pc: u16, op: u8, b1: u8, b2: u8)
    requires
        is_opcode(op),
        bus.byte_at(pc) == Ok::<u8, ErrorView>(op),
        length_of(op) >= 2 ==> bus.byte_at(((pc + 1) % 0x10000) as u16) == Ok::<u8, ErrorView>(b1),
        length_of(op) == 3 ==> bus.byte_at(((pc + 2) % 0x10000) as u16) == Ok::<u8, ErrorView>(b2),
    ensures
        fetch_bytes(bus, pc) == Ok::<Seq<u8>, ErrorView>(
            if length_of(op) == 1 {
                seq![op]
            } else if length_of(op) == 2 {
                seq![op, b1]
            } else {
                seq![op, b1, b2]
            },
        ),
{
}

/// A running CPU with interrupts off that fetches `m` at PC moves PC past
/// it and carries it out.
proof fn lemma_step_fetched<B: BusModel>(c: CpuView, bus: B, m: Seq<u8>)
    requires
        !c.halted,
        !bus.irq().ime,
        fetch_bytes(bus, c.pc) == Ok::<Seq<u8>, ErrorView>(m),
    ensures
        step_spec(c, bus) == ({
            let c2 = CpuView { pc: wrap_add(c.pc, length_of(m[0]) as int), ..c };
            let x = exec_instr_spec(decoded_instr(m), c2, bus);
            match x.2 {
                Err(f) => (x.0, x.1, Err(f)),
                Ok(j) => (x.0, x.1, Ok(cycles_from(m, j))),
            }
        }),
{
    reveal(check_interrupts_spec);
}

/// What a jump does, and what a call or a return does when its condition
/// fails.
proof fn lemma_exec_flow<B: BusModel>(instr: InstructionType, c: CpuView, bus: B)
    ensures
        instr matches InstructionType::Jump(cond, jt) ==> exec_instr_spec(instr, c, bus) == (if condition_holds(
            c,
            cond,
        ) {
            (CpuView { pc: jump_target(c, jt), ..c }, bus, Ok(true))
        } else {
            (c, bus, Ok::<bool, crate::cpu::Fault>(false))
        }),
        instr matches InstructionType::Call(a, cond) ==> !condition_holds(c, cond) ==> exec_instr_spec(instr, c, bus)
            == (c, bus, Ok::<bool, crate::cpu::Fault>(false)),
        instr matches InstructionType::Ret(cond) ==> !condition_holds(c, cond) ==> exec_instr_spec(instr, c, bus) == (
        c,
        bus,
        Ok::<bool, crate::cpu::Fault>(false),
        ),
{
    reveal(exec_instr_spec);
}

/// HL after moving one up or one down, as the post-operations of (HL+) and
/// (HL-) leave it.
proof fn lemma_post_op(c: CpuView, op: PostStore)
    ensures
        ({
            let hl = c.h * 256 + c.l;
            let hl2 = if op == PostStore::Inc { (hl + 1) % 0x10000 } else { (hl + 0xFFFF) % 0x10000 };
            &&& pair(c, DoubleRegType::HL) == hl as u16
            &&& post_op_spec(c, op) == CpuView { h: (hl2 / 256) as u8, l: (hl2 % 256) as u8, ..c }
        }),
{
}

/// The target of a relative jump by the offset byte `o` from `pc`.
proof fn lemma_offset_target(c: CpuView, o: u8)
    ensures
        ({
            let d: int = if o < 0x80 { o as int } else if o == 0x80 { 128 } else { o - 256 };
            jump_target(c, JumpType::Offset(o as i8)) == ((c.pc + d + 0x10000) % 0x10000) as u16
        }),
{
    lemma_signed_byte(o);
}

/// What a store of A through HL and a load of A through HL do, when the
/// bus accepts the access, followed by the post-operation `op`.
proof fn lemma_exec_hl<B: BusModel>(c: CpuView, bus: B, op: PostStore, v: u8)
    ensures
        bus.write_result(pair(c, DoubleRegType::HL), c.a) is Ok ==> exec_instr_spec(
            InstructionType::StoreWithOp(Dest::RegAddr(DoubleRegType::HL), Source::RegImm(SingleRegType::A), op),
            c,
            bus,
        ) == (post_op_spec(c, op), bus.after_write(pair(c, DoubleRegType::HL), c.a), Ok::<bool, crate::cpu::Fault>(false)),
        bus.byte_at(pair(c, DoubleRegType::HL)) == Ok::<u8, ErrorView>(v) ==> exec_instr_spec(
            InstructionType::LoadWithOp(GenericRegType::Single(SingleRegType::A), Source::RegAddr(DoubleRegType::HL), op),
            c,
            bus,
        ) == (post_op_spec(CpuView { a: v, ..c }, op), bus, Ok::<bool, crate::cpu::Fault>(false)),
{
    reveal(exec_instr_spec);
}

/// The jump conditions read the flags of F: Zero holds when Z (bit 7) is
/// set and NotZero when it is clear; Carry holds when C (bit 4) is set and
/// NotCarry when it is clear; Always always holds.
pub proof fn law_conditions_read_flags(c: CpuView)
    ensures
        condition_holds(c, JumpCondition::Always),
        condition_holds(c, JumpCondition::Zero) == (c.f & 0x80 != 0),
        condition_holds(c, JumpCondition::NotZero) == (c.f & 0x80 == 0),
        condition_holds(c, JumpCondition::Carry) == (c.f & 0x10 != 0),
        condition_holds(c, JumpCondition::NotCarry) == (c.f & 0x10 == 0),
{
}

/// With interrupts off, a running CPU at a conditional jump, call or
/// return whose condition fails (NZ with Z set, Z with Z clear, NC with C
/// set, C with C clear) only moves PC past the instruction: 2 bytes for
/// JR, 3 for JP and CALL, 1 for RET; the bus and every other register are
/// left as they were.
pub proof fn law_branch_not_taken<B: BusModel>(c: CpuView, bus: B, op: u8, b1: u8, b2: u8)
    requires
        !c.halted,
        !bus.irq().ime,
        bus.byte_at(c.pc) == Ok::<u8, ErrorView>(op),
        !(op == 0xC0 || op == 0xC8 || op == 0xD0 || op == 0xD8) ==> bus.byte_at(((c.pc + 1) % 0x10000) as u16)
            == Ok::<u8, ErrorView>(b1),
        (op == 0xC2 || op == 0xCA || op == 0xD2 || op == 0xDA || op == 0xC4 || op == 0xCC || op == 0xD4 || op
            == 0xDC) ==> bus.byte_at(
            ((c.pc + 2) % 0x10000) as u16,
        ) == Ok::<u8, ErrorView>(b2),
        ((op == 0x20 || op == 0xC2 || op == 0xC4 || op == 0xC0) && c.f & 0x80 != 0)
            || ((op == 0x28 || op == 0xCA || op == 0xCC || op == 0xC8) && c.f & 0x80 == 0)
            || ((op == 0x30 || op == 0xD2 || op == 0xD4 || op == 0xD0) && c.f & 0x10 != 0)
            || ((op == 0x38 || op == 0xDA || op == 0xDC || op == 0xD8) && c.f & 0x10 == 0),
    ensures
        ({
            let len: int = if op == 0x20 || op == 0x28 || op == 0x30 || op == 0x38 {
                2
            } else if op == 0xC0 || op == 0xC8 || op == 0xD0 || op == 0xD8 {
                1
            } else {
                3
            };
            let (c2, bus2, r) = step_spec(c, bus);
            &&& r is Ok
            &&& bus2 == bus
            &&& c2 == CpuView { pc: ((c.pc + len) % 0x10000) as u16, ..c }
        }),
{
    lemma_fetch(bus, c.pc, op, b1, b2);
    let m = fetch_bytes(bus, c.pc)->Ok_0;
    lemma_step_fetched(c, bus, m);
    let c2 = CpuView { pc: wrap_add(c.pc, length_of(op) as int), ..c };
    lemma_exec_flow(decoded_instr(m), c2, bus);
    if op == 0x20 {
        assert(decoded_instr(m) matches InstructionType::Jump(JumpCondition::NotZero, _));
    } else if op == 0x28 {
        assert(decoded_instr(m) matches InstructionType::Jump(JumpCondition::Zero, _));
    } else if op == 0x30 {
        assert(decoded_instr(m) matches InstructionType::Jump(JumpCondition::NotCarry, _));
    } else if op == 0x38 {
        assert(decoded_instr(m) matches InstructionType::Jump(JumpCondition::Carry, _));
    } else if op == 0xC0 {
        assert(decoded_instr(m) == InstructionType::Ret(JumpCondition::NotZero));
    } else if op == 0xC8 {
        assert(decoded_instr(m) == InstructionType::Ret(JumpCondition::Zero));
    } else if op == 0xD0 {
        assert(decoded_instr(m) == InstructionType::Ret(JumpCondition::NotCarry));
    } else if op == 0xD8 {
        assert(decoded_instr(m) == InstructionType::Ret(JumpCondition::Carry));
    } else if op == 0xC2 {
        assert(decoded_instr(m) matches InstructionType::Jump(JumpCondition::NotZero, _));
    } else if op == 0xCA {
        assert(decoded_instr(m) matches InstructionType::Jump(JumpCondition::Zero, _));
    } else if op == 0xD2 {
        assert(decoded_instr(m) matches InstructionType::Jump(JumpCondition::NotCarry, _));
    } else if op == 0xDA {
        assert(decoded_instr(m) matches InstructionType::Jump(JumpCondition::Carry, _));
    } else if op == 0xC4 {
        assert(decoded_instr(m) matches InstructionType::Call(_, JumpCondition::NotZero));
    } else if op == 0xCC {
        assert(decoded_instr(m) matches InstructionType::Call(_, JumpCondition::Zero));
    } else if op == 0xD4 {
        assert(decoded_instr(m) matches InstructionType::Call(_, JumpCondition::NotCarry));
    } else {
        assert(decoded_instr(m) matches InstructionType::Call(_, JumpCondition::Carry));
    }
}

/// With interrupts off, a running CPU at JR (0x18) or at JR NZ, JR Z,
/// JR NC, JR C (0x20, 0x28, 0x30, 0x38) whose condition holds by the flags
/// jumps from the end of the instruction by the signed offset `o`, modulo
/// 2^16 (an offset of 0x80 moves 128 forward, as the negation of -128
/// wraps); when the condition fails PC is just past the instruction.
#[verifier::rlimit(60)]
pub proof fn law_relative_jump<B: BusModel>(c: CpuView, bus: B, op: u8, o: u8)
    requires
        !c.halted,
        !bus.irq().ime,
        op == 0x18 || op == 0x20 || op == 0x28 || op == 0x30 || op == 0x38,
        bus.byte_at(c.pc) == Ok::<u8, ErrorView>(op),
        bus.byte_at(((c.pc + 1) % 0x10000) as u16) == Ok::<u8, ErrorView>(o),
    ensures
        ({
            let taken = op == 0x18 || (op == 0x20 && c.f & 0x80 == 0) || (op == 0x28 && c.f & 0x80 != 0) || (op
                == 0x30 && c.f & 0x10 == 0) || (op == 0x38 && c.f & 0x10 != 0);
            let d: int = if o < 0x80 { o as int } else if o == 0x80 { 128 } else { o - 256 };
            let (c2, bus2, r) = step_spec(c, bus);
            &&& r is Ok
            &&& bus2 == bus
            &&& c2 == CpuView {
                pc: (if taken { (c.pc + 2 + d + 0x10000) % 0x10000 } else { (c.pc + 2) % 0x10000 }) as u16,
                ..c
            }
        }),
{
    lemma_fetch(bus, c.pc, op, o, 0);
    let m = fetch_bytes(bus, c.pc)->Ok_0;
    lemma_step_fetched(c, bus, m);
    let c2 = CpuView { pc: wrap_add(c.pc, 2), ..c };
    assert(c2.pc == (c.pc + 2) % 0x10000);
    lemma_offset_target(c2, o);
    let d: int = if o < 0x80 { o as int } else if o == 0x80 { 128 } else { o - 256 };
    assert((c2.pc + d + 0x10000) % 0x10000 == (c.pc + 2 + d + 0x10000) % 0x10000);
    lemma_exec_flow(decoded_instr(m), c2, bus);
    if op == 0x18 {
        assert(decoded_instr(m) == InstructionType::Jump(JumpCondition::Always, JumpType::Offset(o as i8)));
    } else if op == 0x20 {
        assert(decoded_instr(m) == InstructionType::Jump(JumpCondition::NotZero, JumpType::Offset(o as i8)));
    } else if op == 0x28 {
        assert(decoded_instr(m) == InstructionType::Jump(JumpCondition::Zero, JumpType::Offset(o as i8)));
    } else if op == 0x30 {
        assert(decoded_instr(m) == InstructionType::Jump(JumpCondition::NotCarry, JumpType::Offset(o as i8)));
    } else {
        assert(decoded_instr(m) == InstructionType::Jump(JumpCondition::Carry, JumpType::Offset(o as i8)));
    }
}

/// With interrupts off, a running CPU at LD (HL+),A (0x22) or LD (HL-),A
/// (0x32) writes A at the address HL (when the bus accepts the write),
/// then HL moves one up (0x22) or one down (0x32), modulo 2^16, and PC
/// moves past the one-byte instruction; nothing else changes.
pub proof fn law_store_through_hl_moves_hl<B: BusModel>(c: CpuView, bus: B, op: u8)
    requires
        !c.halted,
        !bus.irq().ime,
        op == 0x22 || op == 0x32,
        bus.byte_at(c.pc) == Ok::<u8, ErrorView>(op),
        bus.write_result((c.h * 256 + c.l) as u16, c.a) is Ok,
    ensures
        ({
            let hl = c.h * 256 + c.l;
            let hl2 = if op == 0x22 { (hl + 1) % 0x10000 } else { (hl + 0xFFFF) % 0x10000 };
            let (c2, bus2, r) = step_spec(c, bus);
            &&& r is Ok
            &&& bus2 == bus.after_write(hl as u16, c.a)
            &&& c2 == CpuView { h: (hl2 / 256) as u8, l: (hl2 % 256) as u8, pc: ((c.pc + 1) % 0x10000) as u16, ..c }
        }),
{
    lemma_fetch(bus, c.pc, op, 0, 0);
    let m = fetch_bytes(bus, c.pc)->Ok_0;
    lemma_step_fetched(c, bus, m);
    let c2 = CpuView { pc: wrap_add(c.pc, 1), ..c };
    lemma_post_op(c2, PostStore::Inc);
    lemma_post_op(c2, PostStore::Dec);
    lemma_exec_hl(c2, bus, PostStore::Inc, 0);
    lemma_exec_hl(c2, bus, PostStore::Dec, 0);
    if op == 0x22 {
        assert(decoded_instr(m) == InstructionType::StoreWithOp(
            Dest::RegAddr(DoubleRegType::HL),
            Source::RegImm(SingleRegType::A),
            PostStore::Inc,
        ));
    } else {
        assert(decoded_instr(m) == InstructionType::StoreWithOp(
            Dest::RegAddr(DoubleRegType::HL),
            Source::RegImm(SingleRegType::A),
            PostStore::Dec,
        ));
    }
}

/// With interrupts off, a running CPU at LD A,(HL+) (0x2A) or LD A,(HL-)
/// (0x3A) loads A with the byte the bus reads at HL, then HL moves one up
/// (0x2A) or one down (0x3A), modulo 2^16, and PC moves past the one-byte
/// instruction; the bus and the other registers are kept.
#[verifier::rlimit(40)]
pub proof fn law_load_through_hl_moves_hl<B: BusModel>(c: CpuView, bus: B, op: u8, v: u8)
    requires
        !c.halted,
        !bus.irq().ime,
        op == 0x2A || op == 0x3A,
        bus.byte_at(c.pc) == Ok::<u8, ErrorView>(op),
        bus.byte_at((c.h * 256 + c.l) as u16) == Ok::<u8, ErrorView>(v),
    ensures
        ({
            let hl = c.h * 256 + c.l;
            let hl2 = if op == 0x2A { (hl + 1) % 0x10000 } else { (hl + 0xFFFF) % 0x10000 };
            let (c2, bus2, r) = step_spec(c, bus);
            &&& r is Ok
            &&& bus2 == bus
            &&& c2 == CpuView {
                a: v,
                h: (hl2 / 256) as u8,
                l: (hl2 % 256) as u8,
                pc: ((c.pc + 1) % 0x10000) as u16,
                ..c
            }
        }),
{
    lemma_fetch(bus, c.pc, op, 0, 0);
    let m = fetch_bytes(bus, c.pc)->Ok_0;
    lemma_step_fetched(c, bus, m);
    let c2 = CpuView { pc: wrap_add(c.pc, 1), ..c };
    lemma_post_op(CpuView { a: v, ..c2 }, PostStore::Inc);
    lemma_post_op(CpuView { a: v, ..c2 }, PostStore::Dec);
    assert(pair(c2, DoubleRegType::HL) == (c.h * 256 + c.l) as u16);
    lemma_exec_hl(c2, bus, PostStore::Inc, v);
    lemma_exec_hl(c2, bus, PostStore::Dec, v);
    if op == 0x2A {
        assert(decoded_instr(m) == InstructionType::LoadWithOp(
            GenericRegType::Single(SingleRegType::A),
            Source::RegAddr(DoubleRegType::HL),
            PostStore::Inc,
        ));
    } else {
        assert(decoded_instr(m) == InstructionType::LoadWithOp(
            GenericRegType::Single(SingleRegType::A),
            Source::RegAddr(DoubleRegType::HL),
            PostStore::Dec,
        ));
    }
}

} // verus!
