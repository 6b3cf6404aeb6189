//! A Game Boy (DMG) emulator core: CPU, ALU, instruction decoder, memory
//! bus and the devices mapped on it, with their behaviour stated as
//! Verus contracts.
use vstd::prelude::*;
use vstd::string::*;

use crate::text::{hex16_text, push_hex16};

pub mod alu;
pub mod apu;
pub mod bits;
pub mod bus;
pub mod cart_header;
pub mod commands;
pub mod cpu;
pub mod cpu_laws;
pub mod debugger;
pub mod dma;
pub mod endian;
pub mod game_boy;
pub mod instruction;
pub mod interrupts;
pub mod joypad;
pub mod mbc;
pub mod memory;
pub mod memory_map;
pub mod oam;
pub mod ppu;
pub mod serial;
pub mod text;
pub mod timer;

verus! {

/// Errors raised by the emulator core.
#[derive(Debug)]
pub enum GbError {
    UnknownInstruction(u8),
    UnknownCbInstruction(u8),
    Unimplemented(String),
    IllegalOp(String),
    AddrOutOfBounds(u16),
    MbcAddrOutOfBounds(u16),
    HeaderParsing(String),
}

/// What an error says: its kind, and its text or value.
pub enum ErrorView {
    UnknownInstruction(u8),
    UnknownCbInstruction(u8),
    Unimplemented(Seq<char>),
    IllegalOp(Seq<char>),
    AddrOutOfBounds(u16),
    MbcAddrOutOfBounds(u16),
    HeaderParsing(Seq<char>),
}

impl View for GbError {
    type V = ErrorView;

    open spec fn view(&self) -> ErrorView {
        match self {
            GbError::UnknownInstruction(b) => ErrorView::UnknownInstruction(*b),
            GbError::UnknownCbInstruction(b) => ErrorView::UnknownCbInstruction(*b),
            GbError::Unimplemented(s) => ErrorView::Unimplemented(s@),
            GbError::IllegalOp(s) => ErrorView::IllegalOp(s@),
            GbError::AddrOutOfBounds(a) => ErrorView::AddrOutOfBounds(*a),
            GbError::MbcAddrOutOfBounds(a) => ErrorView::MbcAddrOutOfBounds(*a),
            GbError::HeaderParsing(s) => ErrorView::HeaderParsing(s@),
        }
    }
}

/// The result `r` is the one `m` describes: the same value, or an error
/// that says the same.
pub open spec fn same_result<T>(r: Result<T, GbError>, m: Result<T, ErrorView>) -> bool {
    match m {
        Ok(v) => r == Ok::<T, GbError>(v),
        Err(e) => match r {
            Err(x) => x@ == e,
            Ok(_) => false,
        },
    }
}

/// The view of a result.
pub open spec fn result_view<T>(r: Result<T, GbError>) -> Result<T, ErrorView> {
    match r {
        Ok(v) => Ok(v),
        Err(e) => Err(e@),
    }
}

/// A message that names a 16-bit value after `text`: the text, a space,
/// and the value as `0x` and four upper-case hexadecimal digits.
pub open spec fn hex_text(text: Seq<char>, value: u16) -> Seq<char> {
    text + " "@ + hex16_text(value)
}

/// Builds the message `hex_text` describes.
pub(crate) fn hex_message(text: &str, value: u16) -> (r: String)
    ensures
        r@ == hex_text(text@, value),
{
    let mut s = String::from_str(text);
    s.append(" ");
    push_hex16(&mut s, value);
    s
}

} // verus!
