//! The Game Boy address space and the device each address belongs to.
use vstd::prelude::*;

verus! {

pub const BOOT_ROM_SIZE: usize = 0x100;

pub const CART_ROM_BANK0_START: u16 = 0x0000;
pub const CART_ROM_BANK0_END: u16 = 0x3FFF;
pub const CART_ROM_ACTIVE_BANK_START: u16 = 0x4000;
pub const CART_ROM_ACTIVE_BANK_END: u16 = 0x7FFF;

pub const VRAM_START: u16 = 0x8000;
pub const VRAM_END: u16 = 0x9FFF;
pub const VRAM_SIZE: usize = 0x2000;

pub const CART_RAM_START: u16 = 0xA000;
pub const CART_RAM_END: u16 = 0xBFFF;

pub const WRAM_START: u16 = 0xC000;
pub const WRAM_END: u16 = 0xDFFF;
pub const WRAM_SIZE: usize = 0x2000;

pub const ECHO_RAM_START: u16 = 0xE000;
pub const ECHO_RAM_END: u16 = 0xFDFF;

pub const OBJ_ATTRIBUTE_TABLE_START: u16 = 0xFE00;
pub const OBJ_ATTRIBUTE_TABLE_END: u16 = 0xFE9F;
pub const OBJ_ATTRIBUTE_TABLE_SIZE: usize = 0xA0;

pub const NOT_USABLE_RAM_START: u16 = 0xFEA0;
pub const NOT_USABLE_RAM_END: u16 = 0xFEFF;

pub const JOYPAD_REGISTER_ADDR: u16 = 0xFF00;

pub const SERIAL_REGISTERS_START: u16 = 0xFF01;
pub const SERIAL_REGISTERS_END: u16 = 0xFF02;

pub const TIMER_REGISTERS_START: u16 = 0xFF04;
pub const TIMER_REGISTERS_END: u16 = 0xFF07;

pub const APU_REGISTERS_START: u16 = 0xFF10;
pub const APU_REGISTERS_END: u16 = 0xFF3F;

pub const PPU_REGISTERS_LOW_START: u16 = 0xFF40;
pub const PPU_REGISTERS_LOW_END: u16 = 0xFF45;

pub const DMA_REGISTER: u16 = 0xFF46;

pub const PPU_REGISTERS_HIGH_START: u16 = 0xFF47;
pub const PPU_REGISTERS_HIGH_END: u16 = 0xFF4B;

pub const BOOT_ROM_LOCK_REGISTER: u16 = 0xFF50;

pub const INTERRUPTS_FLAG_REGISTER: u16 = 0xFF0F;
pub const INTERRUPTS_ENABLE_REGISTER: u16 = 0xFFFF;

pub const HRAM_START: u16 = 0xFF80;
pub const HRAM_END: u16 = 0xFFFE;
pub const HRAM_SIZE: usize = 0x7F;

/// The device (or memory region) an address is routed to.
#[derive(Debug, PartialEq, Eq, Structural, Clone, Copy)]
pub enum MappedAddress {
    CartRom,
    VideoRam,
    CartRam,
    WorkRam,
    EchoRam,
    ObjectAttributeTable,
    NotUsable,
    TimerRegisters,
    ApuRegisters,
    PpuRegisters,
    DmaRegister,
    BootRomLockRegister,
    JoypadRegister,
    SerialRegisters,
    HighRam,
    InterruptFlagRegister,
    InterruptEnableRegister,
    InvalidAddress,
}

/// The memory map of the Game Boy: which region holds `addr`.
pub open spec fn mapped(addr: u16) -> MappedAddress {
    if addr <= 0x7FFF {
        MappedAddress::CartRom
    } else if addr <= 0x9FFF {
        MappedAddress::VideoRam
    } else if addr <= 0xBFFF {
        MappedAddress::CartRam
    } else if addr <= 0xDFFF {
        MappedAddress::WorkRam
    } else if addr <= 0xFDFF {
        MappedAddress::EchoRam
    } else if addr <= 0xFE9F {
        MappedAddress::ObjectAttributeTable
    } else if addr <= 0xFEFF {
        MappedAddress::NotUsable
    } else if addr == 0xFF00 {
        MappedAddress::JoypadRegister
    } else if 0xFF01 <= addr <= 0xFF02 {
        MappedAddress::SerialRegisters
    } else if 0xFF04 <= addr <= 0xFF07 {
        MappedAddress::TimerRegisters
    } else if 0xFF10 <= addr <= 0xFF3F {
        MappedAddress::ApuRegisters
    } else if 0xFF40 <= addr <= 0xFF45 {
        MappedAddress::PpuRegisters
    } else if addr == 0xFF46 {
        MappedAddress::DmaRegister
    } else if 0xFF47 <= addr <= 0xFF4B {
        MappedAddress::PpuRegisters
    } else if addr == 0xFF50 {
        MappedAddress::BootRomLockRegister
    } else if addr == 0xFF0F {
        MappedAddress::InterruptFlagRegister
    } else if 0xFF80 <= addr <= 0xFFFE {
        MappedAddress::HighRam
    } else if addr == 0xFFFF {
        MappedAddress::InterruptEnableRegister
    } else {
        MappedAddress::InvalidAddress
    }
}

/// Routes an address to the region of the memory map that holds it.
pub fn map_address(addr: u16) -> (r: MappedAddress)
    ensures
        r == mapped(addr),
{
    if addr <= CART_ROM_ACTIVE_BANK_END {
        MappedAddress::CartRom
    } else if addr <= VRAM_END {
        MappedAddress::VideoRam
    } else if addr <= CART_RAM_END {
        MappedAddress::CartRam
    } else if addr <= WRAM_END {
        MappedAddress::WorkRam
    } else if addr <= ECHO_RAM_END {
        MappedAddress::EchoRam
    } else if addr <= OBJ_ATTRIBUTE_TABLE_END {
        MappedAddress::ObjectAttributeTable
    } else if addr <= NOT_USABLE_RAM_END {
        MappedAddress::NotUsable
    } else if addr == JOYPAD_REGISTER_ADDR {
        MappedAddress::JoypadRegister
    } else if SERIAL_REGISTERS_START <= addr && addr <= SERIAL_REGISTERS_END {
        MappedAddress::SerialRegisters
    } else if TIMER_REGISTERS_START <= addr && addr <= TIMER_REGISTERS_END {
        MappedAddress::TimerRegisters
    } else if APU_REGISTERS_START <= addr && addr <= APU_REGISTERS_END {
        MappedAddress::ApuRegisters
    } else if PPU_REGISTERS_LOW_START <= addr && addr <= PPU_REGISTERS_LOW_END {
        MappedAddress::PpuRegisters
    } else if addr == DMA_REGISTER {
        MappedAddress::DmaRegister
    } else if PPU_REGISTERS_HIGH_START <= addr && addr <= PPU_REGISTERS_HIGH_END {
        MappedAddress::PpuRegisters
    } else if addr == BOOT_ROM_LOCK_REGISTER {
        MappedAddress::BootRomLockRegister
    } else if addr == INTERRUPTS_FLAG_REGISTER {
        MappedAddress::InterruptFlagRegister
    } else if HRAM_START <= addr && addr <= HRAM_END {
        MappedAddress::HighRam
    } else if addr == INTERRUPTS_ENABLE_REGISTER {
        MappedAddress::InterruptEnableRegister
    } else {
        MappedAddress::InvalidAddress
    }
}

} // verus!
