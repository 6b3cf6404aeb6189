//! The memory bus that the CPU reads and writes.
use vstd::prelude::*;

use crate::apu::{apu_power_on, apu_write, ApuView, APU, SOUND_ENABLE_REG_ADDR, nr52_text};
use crate::dma::{dma_run, dma_written, DmaView, SourceType, DMA};
use crate::endian::{le_word, read_u16_le};
use crate::interrupts::{
    ie_bits, ie_written, if_bits, if_written, InterruptHandler, InterruptHandlerState, IrqView,
};
use crate::joypad::{joypad_read, Joypad, JoypadView};
use crate::mbc::{mbc_read, mbc_read_word, mbc_write, MbcView, MBC};
use crate::memory_map::{
    map_address, mapped, MappedAddress, BOOT_ROM_SIZE, ECHO_RAM_START, HRAM_SIZE, HRAM_START, WRAM_SIZE,
    WRAM_START,
};
use crate::oam::{ObjAttribute, ObjAttributeMemory};
use crate::ppu::lcd_status_register::mode_text_of;
use crate::ppu::{
    mode_text, ppu_power_on, ppu_reg, ppu_reg_written, ppu_step, vram_read, vram_read_word, vram_written, PpuView,
    PPU, LY_REG_ADDR,
};
use crate::serial::{serial_read, serial_step, serial_write, Serial, SerialView, ShiftClock};
use crate::timer::{timer_read, timer_write, ClockSelect, Timer, TimerView};
use crate::{hex_message, hex_text, result_view, ErrorView, GbError, same_result};

verus! {

/// A model of a bus: what a read returns at each address (`byte_at`,
/// `word_at`), what a write returns and leaves behind (`write_result`,
/// `after_write`), and the interrupt controller (`irq`, `with_irq`).
pub trait BusModel: Sized {
    /// What reading the byte at `addr` returns.
    spec fn byte_at(&self, addr: u16) -> Result<u8, ErrorView>;

    /// What reading the little-endian word at `addr` returns.
    spec fn word_at(&self, addr: u16) -> Result<u16, ErrorView>;

    /// What writing `value` at `addr` returns.
    spec fn write_result(&self, addr: u16, value: u8) -> Result<(), ErrorView>;

    /// The bus after writing `value` at `addr`.
    spec fn after_write(&self, addr: u16, value: u8) -> Self;

    /// The state of the interrupt controller.
    spec fn irq(&self) -> IrqView;

    /// The bus with its interrupt controller in state `v` and all else
    /// unchanged.
    spec fn with_irq(&self, v: IrqView) -> Self;
}

/// What the CPU sees of the machine: a byte-addressed bus with its devices,
/// and the interrupt controller, described by a model.
pub trait BusAccess: Sized {
    type Model: BusModel;

    /// The bus's state, as its model describes it.
    spec fn model(&self) -> Self::Model;

    /// What the bus keeps between accesses.
    spec fn inv(&self) -> bool;

    fn read_byte(&self, addr: u16) -> (r: Result<u8, GbError>)
        requires
            self.inv(),
        ensures
            same_result(r, self.model().byte_at(addr)),
    ;

    fn write_byte(&mut self, addr: u16, value: u8) -> (r: Result<(), GbError>)
        requires
            old(self).inv(),
        ensures
            final(self).inv(),
            same_result(r, old(self).model().write_result(addr, value)),
            final(self).model() == old(self).model().after_write(addr, value),
    ;

    fn read_word(&self, addr: u16) -> (r: Result<u16, GbError>)
        requires
            self.inv(),
        ensures
            same_result(r, self.model().word_at(addr)),
    ;

    fn ir_handler(&self) -> (r: &InterruptHandler)
        ensures
            r@ == self.model().irq(),
    ;

    fn ir_handler_mut(&mut self) -> (r: &mut InterruptHandler)
        requires
            old(self).inv(),
        ensures
            r@ == old(self).model().irq(),
            final(self).inv(),
            final(self).model() == old(self).model().with_irq(final(r)@),
    ;
}

/// What the bus holds: the boot ROM and its lock, the RAMs, and each
/// device.
pub struct BusView {
    pub boot_rom_lock: bool,
    pub boot_rom: Seq<u8>,
    pub hram: Seq<u8>,
    pub wram: Seq<u8>,
    pub oam: Seq<ObjAttribute>,
    pub ppu: PpuView,
    pub apu: ApuView,
    pub irq: IrqView,
    pub timer: TimerView,
    pub mbc: MbcView,
    pub dma: DmaView,
    pub serial: SerialView,
    pub joypad: JoypadView,
}

/// The bus at power-on around the boot ROM `boot_rom` and the cartridge
/// `mbc`: the boot ROM mapped, the RAMs and the sprite table cleared, and
/// every device in the state its constructor gives.
pub open spec fn bus_power_on(boot_rom: Seq<u8>, mbc: MbcView) -> BusView {
    BusView {
        boot_rom_lock: true,
        boot_rom,
        hram: Seq::new(HRAM_SIZE as nat, |i: int| 0u8),
        wram: Seq::new(WRAM_SIZE as nat, |i: int| 0u8),
        oam: Seq::new(40, |i: int| ObjAttribute::zeroed()),
        ppu: ppu_power_on(),
        apu: apu_power_on(),
        irq: IrqView { lines: InterruptHandlerState::default_spec(), ime: false },
        timer: TimerView { divider: 0, counter: 0, modulo: 0, clock_select: ClockSelect::OneTo1024, enable: false },
        mbc,
        dma: DmaView { source_addr: 0, curr_index: 0, source_type: SourceType::Cart, started: false },
        serial: SerialView {
            shift_clock: ShiftClock::External,
            transfer_start: false,
            data: 0,
            out_buffer: Seq::empty(),
            finished_lines: Seq::empty(),
        },
        joypad: JoypadView { select_buttons: true, select_directions: true, buttons: 0, directions: 0 },
    }
}

/// The bus `m` after a reset: the power-on state around its boot ROM and
/// its cartridge, except that the PPU keeps its sprite palettes and its
/// last frame.
pub open spec fn bus_reset(m: BusView) -> BusView {
    let p = bus_power_on(m.boot_rom, m.mbc);
    BusView {
        ppu: PpuView {
            obj_palette0: m.ppu.obj_palette0,
            obj_palette1: m.ppu.obj_palette1,
            frame: m.ppu.frame,
            ..ppu_power_on()
        },
        ..p
    }
}

/// An `IllegalOp` error with the text `format!("{} {:#06X}", text, addr)`.
pub open spec fn illegal_at(text: Seq<char>, addr: u16) -> ErrorView {
    ErrorView::IllegalOp(hex_text(text, addr))
}

/// The little-endian word at `off` of `data`, or the out-of-bounds error
/// for `addr` when the word would cross the end of `data`.
pub open spec fn word_of(data: Seq<u8>, off: int, addr: u16) -> Result<u16, ErrorView> {
    if 0 <= off && off + 1 < data.len() {
        Ok(le_word(data[off], data[off + 1]))
    } else {
        Err(ErrorView::AddrOutOfBounds(addr))
    }
}

impl BusModel for BusView {
    /// While the boot ROM is mapped it answers the first 256 addresses;
    /// each other address reads the device the memory map routes it to.
    /// The timer registers are handed their bus address, which the timer
    /// does not know, so every timer read is refused.
    open spec fn byte_at(&self, addr: u16) -> Result<u8, ErrorView> {
        match mapped(addr) {
            MappedAddress::CartRom => if self.boot_rom_lock && addr < BOOT_ROM_SIZE {
                Ok(self.boot_rom[addr as int])
            } else {
                result_view(mbc_read(self.mbc, addr))
            },
            MappedAddress::VideoRam => Ok(vram_read(self.ppu, addr)),
            MappedAddress::CartRam => result_view(mbc_read(self.mbc, addr)),
            MappedAddress::WorkRam => Ok(self.wram[addr - WRAM_START]),
            MappedAddress::EchoRam => Ok(self.wram[addr - ECHO_RAM_START]),
            MappedAddress::ObjectAttributeTable => Err(ErrorView::Unimplemented("reading object attribute table"@)),
            MappedAddress::NotUsable => Ok(0xFF),
            MappedAddress::JoypadRegister => Ok(joypad_read(self.joypad)),
            MappedAddress::SerialRegisters => match serial_read(self.serial, addr) {
                Some(v) => Ok(v),
                None => Err(illegal_at("Read from unknown serial register"@, addr)),
            },
            MappedAddress::TimerRegisters => match timer_read(self.timer, addr) {
                Some(v) => Ok(v),
                None => Err(illegal_at("Read from timer reg"@, addr)),
            },
            MappedAddress::ApuRegisters => Err(illegal_at("Write to invalid APU reg"@, addr)),
            MappedAddress::PpuRegisters => match ppu_reg(self.ppu, addr) {
                Some(v) => Ok(v),
                None => Err(illegal_at("Write to invalid PPU reg"@, addr)),
            },
            MappedAddress::DmaRegister => Ok((self.dma.source_addr >> 8u16) as u8),
            MappedAddress::BootRomLockRegister => Err(ErrorView::IllegalOp("reading from boot rom lock register"@)),
            MappedAddress::HighRam => Ok(self.hram[addr - HRAM_START]),
            MappedAddress::InterruptFlagRegister => Ok(if_bits(self.irq.lines)),
            MappedAddress::InterruptEnableRegister => Ok(ie_bits(self.irq.lines)),
            MappedAddress::InvalidAddress => Ok(0xFF),
        }
    }

    /// Words are read from memory only; a word that would cross the end
    /// of the boot ROM, VRAM, work RAM or high RAM is refused.
    open spec fn word_at(&self, addr: u16) -> Result<u16, ErrorView> {
        match mapped(addr) {
            MappedAddress::CartRom => if self.boot_rom_lock && addr < BOOT_ROM_SIZE {
                word_of(self.boot_rom, addr as int, addr)
            } else {
                result_view(mbc_read_word(self.mbc, addr))
            },
            MappedAddress::VideoRam => result_view(vram_read_word(self.ppu, addr)),
            MappedAddress::CartRam => result_view(mbc_read_word(self.mbc, addr)),
            MappedAddress::WorkRam => word_of(self.wram, addr - WRAM_START, addr),
            MappedAddress::EchoRam => word_of(self.wram, addr - ECHO_RAM_START, addr),
            MappedAddress::ObjectAttributeTable => Err(ErrorView::Unimplemented("reading sprite attribute table"@)),
            MappedAddress::NotUsable => Ok(0xFFFF),
            MappedAddress::JoypadRegister => Err(ErrorView::IllegalOp("read word from Joypad register"@)),
            MappedAddress::SerialRegisters => Err(ErrorView::IllegalOp("read word from Serial registers"@)),
            MappedAddress::TimerRegisters => Err(ErrorView::IllegalOp("read word from Timer registers"@)),
            MappedAddress::ApuRegisters => Err(ErrorView::IllegalOp("read word from APU registers"@)),
            MappedAddress::PpuRegisters => Err(ErrorView::IllegalOp("read word from PPU registers"@)),
            MappedAddress::DmaRegister => Err(ErrorView::IllegalOp("read word from DMA register"@)),
            MappedAddress::BootRomLockRegister => Err(ErrorView::IllegalOp("reading from boot rom lock register"@)),
            MappedAddress::HighRam => word_of(self.hram, addr - HRAM_START, addr),
            MappedAddress::InterruptFlagRegister => Err(ErrorView::IllegalOp("reading interrupt flag register"@)),
            MappedAddress::InterruptEnableRegister => Err(ErrorView::IllegalOp("reading interrupt enable register"@)),
            MappedAddress::InvalidAddress => Ok(0xFFFF),
        }
    }

    /// Writes to the echo of work RAM are refused; a write to a device is
    /// refused when the device refuses it.
    open spec fn write_result(&self, addr: u16, value: u8) -> Result<(), ErrorView> {
        match mapped(addr) {
            MappedAddress::CartRom | MappedAddress::CartRam => result_view(mbc_write(self.mbc, addr, value).1),
            MappedAddress::EchoRam => Err(illegal_at("Write to echo ram addr"@, addr)),
            MappedAddress::SerialRegisters => if serial_write(self.serial, addr, value) is Some {
                Ok(())
            } else {
                Err(illegal_at("Write to unknown serial register"@, addr))
            },
            MappedAddress::TimerRegisters => if timer_write(self.timer, addr, value) is Some {
                Ok(())
            } else {
                Err(illegal_at("Write to timer reg"@, addr))
            },
            MappedAddress::ApuRegisters => if apu_write(self.apu, addr, value) is Some {
                Ok(())
            } else if addr == SOUND_ENABLE_REG_ADDR {
                Err(ErrorView::IllegalOp(nr52_text(value)))
            } else {
                Err(illegal_at("Write to invalid APU reg"@, addr))
            },
            MappedAddress::PpuRegisters => if ppu_reg_written(self.ppu, addr, value) is Some {
                Ok(())
            } else if addr == LY_REG_ADDR {
                Err(ErrorView::IllegalOp("Cannot write to LY register"@))
            } else {
                Err(illegal_at("Write to invalid PPU reg"@, addr))
            },
            _ => Ok(()),
        }
    }

    /// Each write reaches the memory or device the address is routed to;
    /// a write to DMA starts a copy, a write to 0xFF50 unmaps the boot ROM.
    open spec fn after_write(&self, addr: u16, value: u8) -> BusView {
        match mapped(addr) {
            MappedAddress::CartRom | MappedAddress::CartRam => BusView { mbc: mbc_write(self.mbc, addr, value).0, ..*self },
            MappedAddress::VideoRam => BusView { ppu: vram_written(self.ppu, addr, value), ..*self },
            MappedAddress::WorkRam => BusView { wram: self.wram.update(addr - WRAM_START, value), ..*self },
            MappedAddress::ObjectAttributeTable => {
                let k = addr - 0xFE00;
                BusView { oam: self.oam.update(k / 4, self.oam[k / 4].with_byte(k % 4, value)), ..*self }
            },
            MappedAddress::JoypadRegister => BusView {
                joypad: JoypadView {
                    select_buttons: value & 0x20 == 0,
                    select_directions: value & 0x10 == 0,
                    ..self.joypad
                },
                ..*self
            },
            MappedAddress::SerialRegisters => match serial_write(self.serial, addr, value) {
                Some(s) => BusView { serial: s, ..*self },
                None => *self,
            },
            MappedAddress::TimerRegisters => match timer_write(self.timer, addr, value) {
                Some(t) => BusView { timer: t, ..*self },
                None => *self,
            },
            MappedAddress::ApuRegisters => match apu_write(self.apu, addr, value) {
                Some(a) => BusView { apu: a, ..*self },
                None => *self,
            },
            MappedAddress::PpuRegisters => match ppu_reg_written(self.ppu, addr, value) {
                Some(p) => BusView { ppu: p, ..*self },
                None => *self,
            },
            MappedAddress::DmaRegister => BusView { dma: dma_written(self.dma, value), ..*self },
            MappedAddress::BootRomLockRegister => BusView { boot_rom_lock: false, ..*self },
            MappedAddress::HighRam => BusView { hram: self.hram.update(addr - HRAM_START, value), ..*self },
            MappedAddress::InterruptFlagRegister => BusView {
                irq: IrqView { lines: if_written(self.irq.lines, value), ..self.irq },
                ..*self
            },
            MappedAddress::InterruptEnableRegister => BusView {
                irq: IrqView { lines: ie_written(self.irq.lines, value), ..self.irq },
                ..*self
            },
            _ => *self,
        }
    }

    open spec fn irq(&self) -> IrqView {
        self.irq
    }

    open spec fn with_irq(&self, v: IrqView) -> BusView {
        BusView { irq: v, ..*self }
    }
}

/// A step of the devices for `cycles` cycles: the DMA copy, the serial
/// port, the APU (which does nothing) and the PPU, in that order. The
/// result is whether the PPU completed a frame; a refused DMA read or a
/// refused PPU step stops the step with its error.
pub open spec fn bus_step(m: BusView, cycles: u8) -> (BusView, Result<bool, ErrorView>) {
    let (d, oam, dr) = dma_run(m.dma, m.oam, m.mbc, m.ppu, cycles as int);
    let m1 = BusView { dma: d, oam, ..m };
    match dr {
        Err(e) => (m1, Err(e@)),
        Ok(_) => {
            let (s, irq1) = serial_step(m1.serial, m1.irq);
            let m2 = BusView { serial: s, irq: irq1, ..m1 };
            let (o, p, irq2) = ppu_step(m2.ppu, m2.irq, m2.oam, cycles);
            let m3 = BusView { ppu: p, irq: irq2, ..m2 };
            match o {
                Some(b) => (m3, Ok(b)),
                None => (m3, Err(ErrorView::IllegalOp(mode_text(mode_text_of(m2.ppu.lcd_status.mode.val))))),
            }
        },
    }
}

/// A byte written to work RAM reads back as written, at its address and
/// at its echo 0x2000 higher (where there is one); no other address reads
/// differently.
pub proof fn law_wram_read_after_write(m: BusView, addr: u16, value: u8)
    requires
        m.wram.len() == WRAM_SIZE,
        WRAM_START <= addr <= 0xDFFF,
    ensures
        m.write_result(addr, value) == Ok::<(), ErrorView>(()),
        m.after_write(addr, value).byte_at(addr) == Ok::<u8, ErrorView>(value),
        addr + 0x2000 <= 0xFDFF ==> m.after_write(addr, value).byte_at((addr + 0x2000) as u16) == Ok::<u8, ErrorView>(value),
        forall|other: u16|
            other != addr && other != addr + 0x2000 ==> #[trigger] m.after_write(addr, value).byte_at(other)
                == m.byte_at(other),
{
}

/// The echo of work RAM reads what work RAM holds 0x2000 lower.
pub proof fn law_echo_mirrors_wram(m: BusView, addr: u16)
    requires
        m.wram.len() == WRAM_SIZE,
        ECHO_RAM_START <= addr <= 0xFDFF,
    ensures
        m.byte_at(addr) == m.byte_at((addr - 0x2000) as u16),
{
}

/// A byte written to high RAM reads back as written; no other address
/// reads differently.
pub proof fn law_hram_read_after_write(m: BusView, addr: u16, value: u8)
    requires
        m.hram.len() == HRAM_SIZE,
        HRAM_START <= addr <= 0xFFFE,
    ensures
        m.write_result(addr, value) == Ok::<(), ErrorView>(()),
        m.after_write(addr, value).byte_at(addr) == Ok::<u8, ErrorView>(value),
        forall|other: u16| other != addr ==> #[trigger] m.after_write(addr, value).byte_at(other) == m.byte_at(other),
{
}

/// A word of work or high RAM whose two bytes lie in the same RAM reads as
/// those bytes, low byte first.
pub proof fn law_ram_word_little_endian(m: BusView, addr: u16)
    requires
        m.wram.len() == WRAM_SIZE,
        m.hram.len() == HRAM_SIZE,
        (WRAM_START <= addr < 0xDFFF) || (HRAM_START <= addr < 0xFFFE),
    ensures
        m.byte_at(addr) is Ok,
        m.byte_at((addr + 1) as u16) is Ok,
        m.word_at(addr) == Ok::<u16, ErrorView>(le_word(m.byte_at(addr)->Ok_0, m.byte_at((addr + 1) as u16)->Ok_0)),
{
}

/// The memory bus: the boot ROM, work and high RAM, and the devices.
pub struct Bus {
    boot_rom_lock: bool,
    boot_rom: Vec<u8>,
    hram: Vec<u8>,
    wram: Vec<u8>,
    oam: ObjAttributeMemory,
    ppu: PPU,
    apu: APU,
    ir_handler: InterruptHandler,
    timer: Timer,
    mbc: MBC,
    dma: DMA,
    serial: Serial,
    joypad: Joypad,
}

impl Bus {
    /// The memories have their sizes and the devices keep their own
    /// invariants.
    pub closed spec fn wf(&self) -> bool {
        &&& self.boot_rom@.len() == BOOT_ROM_SIZE
        &&& self.hram@.len() == HRAM_SIZE
        &&& self.wram@.len() == WRAM_SIZE
        &&& self.ppu.inv()
        &&& self.apu.wf()
        &&& self.dma.wf()
    }

    /// Ready to step: the invariant holds and the PPU is within a line.
    pub closed spec fn ready(&self) -> bool {
        &&& self.wf()
        &&& self.ppu.ready()
    }

    /// A bus that keeps its invariant has a boot ROM of 256 bytes, work RAM
    /// of 0x2000 bytes and high RAM of 0x7F bytes (what the RAM laws ask of
    /// its model).
    pub proof fn lemma_sizes(&self)
        requires
            self.wf(),
        ensures
            self.view_of().boot_rom.len() == BOOT_ROM_SIZE,
            self.view_of().wram.len() == WRAM_SIZE,
            self.view_of().hram.len() == HRAM_SIZE,
    {
    }

    pub proof fn lemma_ready(&self)
        requires
            self.ready(),
        ensures
            self.wf(),
    {
    }

    pub closed spec fn view_of(&self) -> BusView {
        BusView {
            boot_rom_lock: self.boot_rom_lock,
            boot_rom: self.boot_rom@,
            hram: self.hram@,
            wram: self.wram@,
            oam: self.oam@,
            ppu: self.ppu@,
            apu: self.apu@,
            irq: self.ir_handler@,
            timer: self.timer@,
            mbc: self.mbc@,
            dma: self.dma@,
            serial: self.serial@,
            joypad: self.joypad@,
        }
    }

    /// A bus with the boot ROM mapped, the RAMs cleared and every device
    /// reset, around the cartridge `mbc`.
    pub fn new(boot_rom: Vec<u8>, mbc: MBC) -> (r: Self)
        requires
            boot_rom@.len() == BOOT_ROM_SIZE,
        ensures
            r.ready(),
            r.view_of() == bus_power_on(boot_rom@, mbc@),
    {
        let r = Bus {
            boot_rom_lock: true,
            boot_rom,
            hram: vec![0u8; HRAM_SIZE],
            wram: vec![0u8; WRAM_SIZE],
            oam: ObjAttributeMemory::new(),
            ppu: PPU::new(),
            apu: APU::new(),
            ir_handler: InterruptHandler::new(),
            timer: Timer::new(),
            mbc,
            dma: DMA::new(),
            serial: Serial::new(),
            joypad: Joypad::default(),
        };
        proof {
            assert(r.wram@ =~= Seq::new(WRAM_SIZE as nat, |i: int| 0u8));
            assert(r.hram@ =~= Seq::new(HRAM_SIZE as nat, |i: int| 0u8));
            r.ppu.lemma_ready();
        }
        r
    }

    /// Steps the devices, as `bus_step` says.
    pub fn step(&mut self, cycles: u8) -> (r: Result<bool, GbError>)
        requires
            old(self).ready(),
        ensures
            final(self).wf(),
            r is Ok ==> final(self).ready(),
            final(self).view_of() == bus_step(old(self).view_of(), cycles).0,
            same_result(r, bus_step(old(self).view_of(), cycles).1),
    {
        let dr = self.dma.step(&self.ppu, &self.mbc, &mut self.oam, cycles);
        match dr {
            Err(e) => {
                return Err(e);
            },
            Ok(_) => {},
        }
        self.serial.step(cycles, &mut self.ir_handler);
        let ar = self.apu.step(cycles);
        match ar {
            Err(e) => {
                return Err(e);
            },
            Ok(_) => {},
        }
        self.ppu.step(&mut self.ir_handler, &self.oam, cycles)
    }

    /// Resets the devices and the RAMs and maps the boot ROM again; the
    /// cartridge is kept as it is.
    pub fn reset(&mut self)
        requires
            old(self).wf(),
        ensures
            final(self).ready(),
            final(self).view_of() == bus_reset(old(self).view_of()),
    {
        self.ppu.reset();
        self.boot_rom_lock = true;
        zero_fill(&mut self.hram);
        zero_fill(&mut self.wram);
        self.oam = ObjAttributeMemory::new();
        self.apu = APU::new();
        self.ir_handler = InterruptHandler::new();
        self.timer = Timer::new();
        self.dma = DMA::new();
        self.serial = Serial::new();
        self.joypad = Joypad::default();
        proof {
            assert(self.wram@ =~= Seq::new(WRAM_SIZE as nat, |i: int| 0u8));
            assert(self.hram@ =~= Seq::new(HRAM_SIZE as nat, |i: int| 0u8));
            self.ppu.lemma_ready();
        }
    }

    pub fn ppu(&self) -> (r: &PPU)
        ensures
            r@ == self.view_of().ppu,
            self.wf() ==> r.inv(),
    {
        &self.ppu
    }

    pub fn mbc(&self) -> (r: &MBC)
        ensures
            r@ == self.view_of().mbc,
    {
        &self.mbc
    }

    pub fn oam(&self) -> (r: &ObjAttributeMemory)
        ensures
            r@ == self.view_of().oam,
    {
        &self.oam
    }

    pub fn joypad(&self) -> (r: &Joypad)
        ensures
            r@ == self.view_of().joypad,
    {
        &self.joypad
    }

    pub fn joypad_mut(&mut self) -> (r: &mut Joypad)
        ensures
            r@ == old(self).view_of().joypad,
            final(self).view_of() == (BusView { joypad: final(r)@, ..old(self).view_of() }),
            final(self).wf() == old(self).wf(),
            final(self).ready() == old(self).ready(),
    {
        &mut self.joypad
    }

    /// Hands out the lines the serial port finished, and forgets them.
    pub fn take_serial_lines(&mut self) -> (r: Vec<Vec<u8>>)
        ensures
            r@.map_values(|l: Vec<u8>| l@) == old(self).view_of().serial.finished_lines,
            final(self).view_of() == (BusView {
                serial: SerialView { finished_lines: Seq::empty(), ..old(self).view_of().serial },
                ..old(self).view_of()
            }),
            final(self).wf() == old(self).wf(),
            final(self).ready() == old(self).ready(),
    {
        self.serial.take_finished_lines()
    }

    /// The serial port, whose line buffer holds what was sent since the
    /// last newline.
    pub fn serial(&self) -> (r: &Serial)
        ensures
            r@ == self.view_of().serial,
    {
        &self.serial
    }
}

impl BusAccess for Bus {
    type Model = BusView;

    open spec fn model(&self) -> BusView {
        self.view_of()
    }

    open spec fn inv(&self) -> bool {
        self.ready()
    }

    fn read_byte(&self, addr: u16) -> (r: Result<u8, GbError>) {
        proof {
            self.ppu.lemma_inv();
        }
        match map_address(addr) {
            MappedAddress::CartRom => {
                if self.boot_rom_lock && (addr as usize) < BOOT_ROM_SIZE {
                    Ok(self.boot_rom[addr as usize])
                } else {
                    self.mbc.read_byte(addr)
                }
            },
            MappedAddress::VideoRam => self.ppu.read_byte(addr),
            MappedAddress::CartRam => self.mbc.read_byte(addr),
            MappedAddress::WorkRam => Ok(self.wram[(addr - WRAM_START) as usize]),
            MappedAddress::EchoRam => Ok(self.wram[(addr - ECHO_RAM_START) as usize]),
            MappedAddress::ObjectAttributeTable => Err(
                GbError::Unimplemented("reading object attribute table".to_owned()),
            ),
            MappedAddress::NotUsable => Ok(0xFF),
            MappedAddress::JoypadRegister => Ok(self.joypad.read()),
            MappedAddress::SerialRegisters => self.serial.read(addr),
            MappedAddress::TimerRegisters => self.timer.read_reg(addr),
            MappedAddress::ApuRegisters => self.apu.read_reg(addr),
            MappedAddress::PpuRegisters => self.ppu.read_reg(addr),
            MappedAddress::DmaRegister => Ok(self.dma.read_reg()),
            MappedAddress::BootRomLockRegister => Err(
                GbError::IllegalOp("reading from boot rom lock register".to_owned()),
            ),
            MappedAddress::HighRam => Ok(self.hram[(addr - HRAM_START) as usize]),
            MappedAddress::InterruptFlagRegister => Ok(self.ir_handler.read_if()),
            MappedAddress::InterruptEnableRegister => Ok(self.ir_handler.read_ie()),
            MappedAddress::InvalidAddress => Ok(0xFF),
        }
    }

    fn write_byte(&mut self, addr: u16, value: u8) -> (r: Result<(), GbError>) {
        proof {
            self.ppu.lemma_inv();
        }
        match map_address(addr) {
            MappedAddress::CartRom => self.mbc.write_byte(addr, value)?,
            MappedAddress::VideoRam => self.ppu.write_byte(addr, value)?,
            MappedAddress::CartRam => self.mbc.write_byte(addr, value)?,
            MappedAddress::WorkRam => {
                self.wram[(addr - WRAM_START) as usize] = value;
            },
            MappedAddress::EchoRam => {
                return Err(GbError::IllegalOp(hex_message("Write to echo ram addr", addr)));
            },
            MappedAddress::ObjectAttributeTable => self.oam.write_byte(addr, value)?,
            MappedAddress::NotUsable => {},
            MappedAddress::JoypadRegister => self.joypad.write(value),
            MappedAddress::SerialRegisters => self.serial.write(addr, value)?,
            MappedAddress::TimerRegisters => self.timer.write_reg(addr, value)?,
            MappedAddress::ApuRegisters => self.apu.write_reg(addr, value)?,
            MappedAddress::PpuRegisters => self.ppu.write_reg(addr, value)?,
            MappedAddress::DmaRegister => self.dma.write_reg(value),
            MappedAddress::BootRomLockRegister => self.boot_rom_lock = false,
            MappedAddress::HighRam => self.hram[(addr - HRAM_START) as usize] = value,
            MappedAddress::InterruptFlagRegister => self.ir_handler.write_if(value),
            MappedAddress::InterruptEnableRegister => self.ir_handler.write_ie(value),
            MappedAddress::InvalidAddress => {},
        }
        Ok(())
    }

    fn read_word(&self, addr: u16) -> (r: Result<u16, GbError>) {
        proof {
            self.ppu.lemma_inv();
        }
        match map_address(addr) {
            MappedAddress::CartRom => {
                if self.boot_rom_lock && (addr as usize) < BOOT_ROM_SIZE {
                    read_word_in(&self.boot_rom, addr as usize, addr)
                } else {
                    self.mbc.read_word(addr)
                }
            },
            MappedAddress::VideoRam => self.ppu.read_word(addr),
            MappedAddress::CartRam => self.mbc.read_word(addr),
            MappedAddress::WorkRam => read_word_in(&self.wram, (addr - WRAM_START) as usize, addr),
            MappedAddress::EchoRam => read_word_in(&self.wram, (addr - ECHO_RAM_START) as usize, addr),
            MappedAddress::ObjectAttributeTable => Err(
                GbError::Unimplemented("reading sprite attribute table".to_owned()),
            ),
            MappedAddress::NotUsable => Ok(0xFFFF),
            MappedAddress::JoypadRegister => Err(GbError::IllegalOp("read word from Joypad register".to_owned())),
            MappedAddress::SerialRegisters => Err(GbError::IllegalOp("read word from Serial registers".to_owned())),
            MappedAddress::TimerRegisters => Err(GbError::IllegalOp("read word from Timer registers".to_owned())),
            MappedAddress::ApuRegisters => Err(GbError::IllegalOp("read word from APU registers".to_owned())),
            MappedAddress::PpuRegisters => Err(GbError::IllegalOp("read word from PPU registers".to_owned())),
            MappedAddress::DmaRegister => Err(GbError::IllegalOp("read word from DMA register".to_owned())),
            MappedAddress::BootRomLockRegister => Err(
                GbError::IllegalOp("reading from boot rom lock register".to_owned()),
            ),
            MappedAddress::HighRam => read_word_in(&self.hram, (addr - HRAM_START) as usize, addr),
            MappedAddress::InterruptFlagRegister => Err(
                GbError::IllegalOp("reading interrupt flag register".to_owned()),
            ),
            MappedAddress::InterruptEnableRegister => Err(
                GbError::IllegalOp("reading interrupt enable register".to_owned()),
            ),
            MappedAddress::InvalidAddress => Ok(0xFFFF),
        }
    }

    fn ir_handler(&self) -> (r: &InterruptHandler) {
        &self.ir_handler
    }

    fn ir_handler_mut(&mut self) -> (r: &mut InterruptHandler) {
        &mut self.ir_handler
    }
}

/// Sets every byte of `v` to zero.
fn zero_fill(v: &mut Vec<u8>)
    ensures
        final(v)@ == Seq::new(old(v)@.len(), |i: int| 0u8),
{
    let mut i: usize = 0;
    while i < v.len()
        invariant
            v@.len() == old(v)@.len(),
            i <= v@.len(),
            forall|k: int| 0 <= k < i ==> v@[k] == 0,
        decreases v@.len() - i,
    {
        v[i] = 0;
        i += 1;
    }
    proof {
        assert(v@ =~= Seq::new(old(v)@.len(), |i: int| 0u8));
    }
}

/// Reads the little-endian word at `off` of `data`; a word that would
/// cross the end of `data` is refused with the address `addr`.
fn read_word_in(data: &Vec<u8>, off: usize, addr: u16) -> (r: Result<u16, GbError>)
    ensures
        same_result(r, word_of(data@, off as int, addr)),
{
    if data.len() >= 2 && off < data.len() - 1 {
        Ok(read_u16_le(&data.as_slice()[off..data.len()]))
    } else {
        Err(GbError::AddrOutOfBounds(addr))
    }
}

} // verus!
