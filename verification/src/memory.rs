//! A flat 64 KiB memory: every address holds a byte, with no devices
//! mapped. It is a bus in its own right, with an interrupt controller.
use vstd::prelude::*;

use crate::bus::{BusAccess, BusModel};
use crate::cpu::{check_interrupts_spec, hi, lo, pop_spec, push_spec, step_spec, wrap_add, CpuView, Fault};
use crate::interrupts::{line, pending, InterruptType};
use crate::endian::{le_word, read_u16_le};
use crate::interrupts::{InterruptHandler, InterruptHandlerState, IrqView};
use crate::memory_map::BOOT_ROM_SIZE;
use crate::{ErrorView, GbError, same_result};

verus! {

pub const MEMORY_SIZE: usize = 0x10000;

/// What a flat memory holds: its bytes and the interrupt controller.
pub struct MemoryView {
    pub data: Seq<u8>,
    pub irq: IrqView,
}

impl BusModel for MemoryView {
    open spec fn byte_at(&self, addr: u16) -> Result<u8, ErrorView> {
        Ok(self.data[addr as int])
    }

    /// The word at the last address would cross the end of memory, and is
    /// refused.
    open spec fn word_at(&self, addr: u16) -> Result<u16, ErrorView> {
        if addr < 0xFFFF {
            Ok(le_word(self.data[addr as int], self.data[addr + 1]))
        } else {
            Err(ErrorView::AddrOutOfBounds(addr))
        }
    }

    open spec fn write_result(&self, addr: u16, value: u8) -> Result<(), ErrorView> {
        Ok(())
    }

    open spec fn after_write(&self, addr: u16, value: u8) -> MemoryView {
        MemoryView { data: self.data.update(addr as int, value), ..*self }
    }

    open spec fn irq(&self) -> IrqView {
        self.irq
    }

    open spec fn with_irq(&self, v: IrqView) -> MemoryView {
        MemoryView { irq: v, ..*self }
    }
}

/// A flat memory of 64 KiB.
pub struct Memory {
    data: Vec<u8>,
    ir_handler: InterruptHandler,
}

impl Memory {
    pub closed spec fn view_of(&self) -> MemoryView {
        MemoryView { data: self.data@, irq: self.ir_handler@ }
    }

    /// A memory of zeros, with every interrupt off.
    pub fn new() -> (r: Self)
        ensures
            r.inv(),
            r.view_of().data == Seq::new(MEMORY_SIZE as nat, |i: int| 0u8),
            r.view_of().irq == (IrqView { lines: InterruptHandlerState::default_spec(), ime: false }),
    {
        let r = Memory { data: vec![0u8; MEMORY_SIZE], ir_handler: InterruptHandler::new() };
        proof {
            assert(r.data@ =~= Seq::new(MEMORY_SIZE as nat, |i: int| 0u8));
        }
        r
    }

    /// Copies a boot ROM to the first 256 bytes; a ROM of another size is
    /// refused.
    pub fn load_boot_rom(&mut self, rom: &[u8]) -> (r: Result<(), GbError>)
        requires
            old(self).inv(),
        ensures
            final(self).inv(),
            r is Ok <==> rom@.len() == BOOT_ROM_SIZE,
            r is Ok ==> final(self).view_of().data == rom@ + old(self).view_of().data.skip(BOOT_ROM_SIZE as int),
            r is Err ==> final(self).view_of() == old(self).view_of() && (r matches Err(GbError::IllegalOp(m)) && m@
                == "wrong boot rom size"@),
    {
        if rom.len() != BOOT_ROM_SIZE {
            return Err(GbError::IllegalOp("wrong boot rom size".to_owned()));
        }
        let ghost old_data = self.data@;
        let mut i: usize = 0;
        while i < BOOT_ROM_SIZE
            invariant
                i <= BOOT_ROM_SIZE,
                rom@.len() == BOOT_ROM_SIZE,
                self.data@.len() == MEMORY_SIZE,
                old_data.len() == MEMORY_SIZE,
                forall|k: int| 0 <= k < i ==> self.data@[k] == rom@[k],
                forall|k: int| i <= k < MEMORY_SIZE ==> self.data@[k] == old_data[k],
            decreases BOOT_ROM_SIZE - i,
        {
            self.data[i] = rom[i];
            i += 1;
        }
        proof {
            assert(self.data@ =~= rom@ + old_data.skip(BOOT_ROM_SIZE as int));
        }
        Ok(())
    }
}

impl BusAccess for Memory {
    type Model = MemoryView;

    open spec fn model(&self) -> MemoryView {
        self.view_of()
    }

    /// The memory holds 64 KiB.
    closed spec fn inv(&self) -> bool {
        self.data@.len() == MEMORY_SIZE
    }

    fn read_byte(&self, addr: u16) -> (r: Result<u8, GbError>) {
        Ok(self.data[addr as usize])
    }

    fn write_byte(&mut self, addr: u16, value: u8) -> (r: Result<(), GbError>) {
        self.data[addr as usize] = value;
        Ok(())
    }

    fn read_word(&self, addr: u16) -> (r: Result<u16, GbError>) {
        if addr < 0xFFFF {
            let a = addr as usize;
            Ok(read_u16_le(&self.data.as_slice()[a..self.data.len()]))
        } else {
            Err(GbError::AddrOutOfBounds(addr))
        }
    }

    fn ir_handler(&self) -> (r: &InterruptHandler) {
        &self.ir_handler
    }

    fn ir_handler_mut(&mut self) -> (r: &mut InterruptHandler) {
        &mut self.ir_handler
    }
}

/// In a flat memory a byte reads back as written.
pub proof fn law_memory_read_after_write(m: MemoryView, addr: u16, value: u8)
    requires
        m.data.len() == MEMORY_SIZE,
    ensures
        m.write_result(addr, value) == Ok::<(), ErrorView>(()),
        m.after_write(addr, value).byte_at(addr) == Ok::<u8, ErrorView>(value),
        forall|other: u16| other != addr ==> #[trigger] m.after_write(addr, value).byte_at(other) == m.byte_at(other),
{
}

/// What PUSH writes, POP reads back: on a flat memory, a push of `v`
/// followed by a pop gives `v` and restores SP (unless the pushed word
/// would sit at the last address, where a word cannot be read).
pub proof fn law_push_then_pop(c: CpuView, m: MemoryView, v: u16)
    requires
        m.data.len() == MEMORY_SIZE,
        c.sp != 1,
    ensures
        push_spec(c, m, v).2 is Ok,
        pop_spec(push_spec(c, m, v).0, push_spec(c, m, v).1).2 == Ok::<u16, Fault>(v),
        pop_spec(push_spec(c, m, v).0, push_spec(c, m, v).1).0 == c,
{
    let a2 = wrap_add(c.sp, -2);
    let a1 = wrap_add(c.sp, -1);
    assert(a2 < 0xFFFF);
    assert(a2 + 1 == a1);
    assert((lo(v) as int + 256 * (hi(v) as int)) as u16 == v);
    assert(wrap_add(a2, 2) == c.sp);
}

/// Entering an interrupt: with IME set and V-Blank pending, the CPU jumps
/// to 0x40 with IME cleared and the V-Blank request withdrawn, and the
/// address it was at is pushed, so that a return goes back there.
pub proof fn law_vblank_entry(c: CpuView, m: MemoryView)
    requires
        m.data.len() == MEMORY_SIZE,
        m.irq.ime,
        pending(m.irq.lines, InterruptType::VBlank),
        c.sp != 1,
    ensures
        ({
            let (c2, m2, r) = check_interrupts_spec(c, m);
            &&& r == Ok::<bool, Fault>(true)
            &&& c2.pc == 0x40
            &&& c2.sp == wrap_add(c.sp, -2)
            &&& !m2.irq.ime
            &&& !line(m2.irq.lines, InterruptType::VBlank).set
            &&& m2.word_at(c2.sp) == Ok::<u16, ErrorView>(c.pc)
        }),
{
    reveal(check_interrupts_spec);
    let a2 = wrap_add(c.sp, -2);
    let a1 = wrap_add(c.sp, -1);
    assert(a2 < 0xFFFF);
    assert(a2 + 1 == a1);
    assert((lo(c.pc) as int + 256 * (hi(c.pc) as int)) as u16 == c.pc);
}

/// Entering an interrupt, for each of the five sources: with IME set, the
/// source `ir` pending and no source of higher priority pending (V-Blank,
/// then LCD status, timer, serial, joypad), a step of a running CPU jumps
/// to the source's vector (0x40, 0x48, 0x50, 0x58, 0x60) in 5 cycles, with
/// IME cleared and the request of `ir` withdrawn, and the address it was
/// at pushed, so that a return goes back there.
pub proof fn law_interrupt_entry(c: CpuView, m: MemoryView, ir: InterruptType)
    requires
        m.data.len() == MEMORY_SIZE,
        m.irq.ime,
        !c.halted,
        pending(m.irq.lines, ir),
        ir != InterruptType::VBlank ==> !pending(m.irq.lines, InterruptType::VBlank),
        (ir == InterruptType::Timer || ir == InterruptType::Serial || ir == InterruptType::Joypad) ==> !pending(
            m.irq.lines,
            InterruptType::LcdStat,
        ),
        (ir == InterruptType::Serial || ir == InterruptType::Joypad) ==> !pending(m.irq.lines, InterruptType::Timer),
        ir == InterruptType::Joypad ==> !pending(m.irq.lines, InterruptType::Serial),
        c.sp != 1,
    ensures
        ({
            let vector: u16 = match ir {
                InterruptType::VBlank => 0x40,
                InterruptType::LcdStat => 0x48,
                InterruptType::Timer => 0x50,
                InterruptType::Serial => 0x58,
                InterruptType::Joypad => 0x60,
            };
            let (c2, m2, r) = step_spec(c, m);
            &&& r == Ok::<u8, Fault>(5)
            &&& c2.pc == vector
            &&& c2.sp == (c.sp + 0xFFFE) % 0x10000
            &&& !m2.irq.ime
            &&& !line(m2.irq.lines, ir).set
            &&& m2.word_at(c2.sp) == Ok::<u16, ErrorView>(c.pc)
        }),
{
    reveal(check_interrupts_spec);
    let a2 = wrap_add(c.sp, -2);
    let a1 = wrap_add(c.sp, -1);
    assert(a2 < 0xFFFF);
    assert(a2 + 1 == a1);
    assert((lo(c.pc) as int + 256 * (hi(c.pc) as int)) as u16 == c.pc);
}

} // verus!
