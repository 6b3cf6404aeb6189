//! The machine: the CPU and the bus, stepped together, and the decisions of
//! the loop that runs them.
use vstd::prelude::*;

use crate::bus::{bus_power_on, bus_reset, bus_step, Bus, BusAccess, BusView};
use crate::cpu::{cpu_power_on, cpu_state_of, lemma_step_cycles, result_is, step_spec, CpuState, CpuView, Fault, CPU};
use crate::interrupts::InterruptHandlerState;
use crate::joypad::{Buttons, Directions, Joypad, JoypadView};
use crate::mbc::{mbc_state_of, MbcState, MbcView, MBC};
use crate::memory_map::BOOT_ROM_SIZE;
use crate::oam::ObjAttribute;
use crate::serial::SerialView;
use crate::ppu::{state_of_ppu, PpuState, PPU};
use crate::{result_view, ErrorView, GbError};

verus! {

/// A snapshot of the machine, for display.
#[derive(Clone)]
pub struct GbState {
    pub cpu: CpuState,
    pub ir_handler: InterruptHandlerState,
    pub ppu: PpuState,
    pub mbc: MbcState,
    pub oam: Vec<ObjAttribute>,
    pub joypad: Joypad,
}

/// The machine.
pub struct GameBoy {
    cpu: CPU,
    bus: Bus,
}

/// What the machine holds: the CPU and the bus.
pub struct GbView {
    pub cpu: CpuView,
    pub bus: BusView,
}

impl View for GameBoy {
    type V = GbView;

    closed spec fn view(&self) -> GbView {
        GbView { cpu: self.cpu@, bus: self.bus.model() }
    }
}

/// The machine at power-on around the boot ROM `boot_rom` and the
/// cartridge `mbc`.
pub open spec fn gb_power_on(boot_rom: Seq<u8>, mbc: MbcView) -> GbView {
    GbView { cpu: cpu_power_on(), bus: bus_power_on(boot_rom, mbc) }
}

/// The machine `v` after a reset: a CPU at power-on and the bus reset.
pub open spec fn gb_reset(v: GbView) -> GbView {
    GbView { cpu: cpu_power_on(), bus: bus_reset(v.bus) }
}

/// One step of the machine: a step of the CPU, then a step of the devices
/// for four clock cycles per machine cycle it took. The result is whether
/// a frame was completed.
#[verifier::opaque]
pub open spec fn gb_step(v: GbView) -> (GbView, Result<bool, Fault>) {
    let (c, b, r) = step_spec(v.cpu, v.bus);
    match r {
        Err(f) => (GbView { cpu: c, bus: b }, Err(f)),
        Ok(n) => {
            let (b2, r2) = bus_step(b, (4 * n) as u8);
            (
                GbView { cpu: c, bus: b2 },
                match r2 {
                    Ok(f) => Ok(f),
                    Err(e) => Err(Fault::Bus(e)),
                },
            )
        },
    }
}

/// Steps until a frame is completed or a step fails, for at most `fuel`
/// steps.
pub open spec fn run_spec(v: GbView, fuel: nat) -> (GbView, Result<(), Fault>)
    decreases fuel,
{
    if fuel == 0 {
        (v, Ok(()))
    } else {
        let (v2, r) = gb_step(v);
        match r {
            Err(f) => (v2, Err(f)),
            Ok(true) => (v2, Ok(())),
            Ok(false) => run_spec(v2, (fuel - 1) as nat),
        }
    }
}

/// The most steps `run_to_vblank` takes: far more than any frame needs.
pub const RUN_BUDGET: u64 = 0xFFFF_FFFF_FFFF_FFFF;

/// A key of the joypad.
#[derive(Clone, Copy, Debug)]
pub enum GenericInput {
    Button(Buttons),
    Direction(Directions),
}

/// A key pressed or released.
#[derive(Clone, Copy, Debug)]
pub enum InputType {
    Pressed(GenericInput),
    Released(GenericInput),
}

/// The joypad after an input.
pub open spec fn joypad_after(j: JoypadView, input: InputType) -> JoypadView {
    match input {
        InputType::Pressed(GenericInput::Button(b)) => JoypadView { buttons: j.buttons | b@, ..j },
        InputType::Released(GenericInput::Button(b)) => JoypadView { buttons: j.buttons & !b@, ..j },
        InputType::Pressed(GenericInput::Direction(d)) => JoypadView { directions: j.directions | d@, ..j },
        InputType::Released(GenericInput::Direction(d)) => JoypadView { directions: j.directions & !d@, ..j },
    }
}

/// Settings of the emulator.
#[derive(Clone, Copy, Debug)]
pub struct EmuSettings {
    skip_bootrom: bool,
    fps_limiter: bool,
}

/// A request to the debugger.
#[derive(Clone, Copy, Debug, PartialEq, Eq, Structural)]
pub enum DebugEvent {
    SetBreakpoint(u16),
    ClearBreakpoint(u16),
    DumpVram,
}

/// A request to the emulation loop.
#[derive(Clone, Copy, Debug)]
pub enum GbrEvent {
    Start,
    Stop,
    Pause,
    Step,
    Input(InputType),
    UpdateSettings(EmuSettings),
    Debug(DebugEvent),
}

/// What the emulation loop reports.
#[derive(Clone, Copy, Debug, PartialEq, Eq, Structural)]
pub enum EmuState {
    Idle,
    Running,
    Error,
}

impl GameBoy {
    /// The bus is ready for the next step.
    pub closed spec fn ready(&self) -> bool {
        self.bus.ready()
    }

    /// The bus keeps its invariant (also after a failed step).
    pub closed spec fn sound(&self) -> bool {
        self.bus.wf()
    }

    pub proof fn lemma_ready(&self)
        requires
            self.ready(),
        ensures
            self.sound(),
    {
        self.bus.lemma_ready();
    }

    /// A machine with a reset CPU and the boot ROM mapped, around the
    /// cartridge `mbc`.
    pub fn new(boot_rom: Vec<u8>, mbc: MBC) -> (r: Self)
        requires
            boot_rom@.len() == BOOT_ROM_SIZE,
        ensures
            r.ready(),
            r@ == gb_power_on(boot_rom@, mbc@),
    {
        Self { cpu: CPU::new(), bus: Bus::new(boot_rom, mbc) }
    }

    /// One step, as `gb_step` says.
    pub fn step(&mut self) -> (r: Result<bool, GbError>)
        requires
            old(self).ready(),
        ensures
            final(self).sound(),
            r is Ok ==> final(self).ready(),
            final(self)@ == gb_step(old(self)@).0,
            result_is(r, gb_step(old(self)@).1),
    {
        proof {
            reveal(gb_step);
            lemma_step_cycles(self.cpu@, self.bus.model());
        }
        let cycles = match self.cpu.step(&mut self.bus) {
            Ok(c) => c,
            Err(e) => {
                proof {
                    self.bus.lemma_ready();
                }
                return Err(e);
            },
        };
        self.bus.step(4 * cycles)
    }

    /// Steps until a frame is completed, as `run_spec` says for
    /// `RUN_BUDGET` steps; a failed step ends the run with its error.
    pub fn run_to_vblank(&mut self) -> (r: Result<(), GbError>)
        requires
            old(self).ready(),
        ensures
            final(self).sound(),
            r is Ok ==> final(self).ready(),
            final(self)@ == run_spec(old(self)@, RUN_BUDGET as nat).0,
            result_is(r, run_spec(old(self)@, RUN_BUDGET as nat).1),
    {
        let mut budget: u64 = RUN_BUDGET;
        while budget > 0
            invariant
                self.ready(),
                run_spec(self@, budget as nat) == run_spec(old(self)@, RUN_BUDGET as nat),
            decreases budget,
        {
            let done = self.step()?;
            if done {
                return Ok(());
            }
            budget -= 1;
        }
        proof {
            self.bus.lemma_ready();
        }
        Ok(())
    }

    /// Presses or releases a key of the joypad.
    #[verifier::rlimit(40)]
    #[verifier::spinoff_prover]
    pub fn handle_input(&mut self, input: InputType)
        ensures
            final(self).ready() == old(self).ready(),
            final(self).sound() == old(self).sound(),
            final(self)@ == (GbView {
                bus: BusView { joypad: joypad_after(old(self)@.bus.joypad, input), ..old(self)@.bus },
                ..old(self)@
            }),
    {
        let joypad = self.bus.joypad_mut();
        match input {
            InputType::Pressed(GenericInput::Button(button)) => joypad.press_button(button),
            InputType::Released(GenericInput::Button(button)) => joypad.release_button(button),
            InputType::Pressed(GenericInput::Direction(direction)) => joypad.press_direction(direction),
            InputType::Released(GenericInput::Direction(direction)) => joypad.release_direction(direction),
        }
    }

    /// Resets the CPU and the bus (the cartridge is kept).
    pub fn reset(&mut self)
        requires
            old(self).sound(),
        ensures
            final(self).ready(),
            final(self)@ == gb_reset(old(self)@),
    {
        self.cpu = CPU::new();
        self.bus.reset();
    }

    /// Hands out the lines sent on the serial port since the last call, to
    /// be shown.
    pub fn take_serial_lines(&mut self) -> (r: Vec<Vec<u8>>)
        ensures
            r@.map_values(|l: Vec<u8>| l@) == old(self)@.bus.serial.finished_lines,
            final(self)@ == (GbView {
                bus: BusView {
                    serial: SerialView { finished_lines: Seq::empty(), ..old(self)@.bus.serial },
                    ..old(self)@.bus
                },
                ..old(self)@
            }),
            final(self).ready() == old(self).ready(),
            final(self).sound() == old(self).sound(),
    {
        self.bus.take_serial_lines()
    }

    pub fn cpu(&self) -> (r: &CPU)
        ensures
            r@ == self@.cpu,
    {
        &self.cpu
    }

    pub fn bus(&self) -> (r: &Bus)
        ensures
            r.model() == self@.bus,
    {
        &self.bus
    }

    pub fn ppu(&self) -> (r: &PPU)
        ensures
            r@ == self@.bus.ppu,
            self.sound() ==> r.inv(),
    {
        self.bus.ppu()
    }

    /// A snapshot of the CPU, the interrupts, the PPU, the cartridge, the
    /// sprites and the joypad.
    pub fn collect_state(&self) -> (r: GbState)
        ensures
            r.cpu == cpu_state_of(self@.cpu),
            r.ir_handler == self@.bus.irq.lines,
            state_of_ppu(r.ppu, self@.bus.ppu),
            r.mbc == mbc_state_of(self@.bus.mbc),
            r.oam@ == self@.bus.oam,
            r.joypad@ == self@.bus.joypad,
    {
        GbState {
            cpu: self.cpu.state(),
            ir_handler: self.bus.ir_handler().state(),
            ppu: self.bus.ppu().state(),
            mbc: self.bus.mbc().state(),
            oam: self.bus.oam().state(),
            joypad: *self.bus.joypad(),
        }
    }
}

/// What the emulation loop does with an event besides changing its own
/// state: report a state, hand a request to the debugger, or pass settings
/// on.
#[derive(Clone, Copy, Debug)]
pub enum LoopAction {
    Signal(EmuState),
    Debug(DebugEvent),
    UpdateSettings(EmuSettings),
    Nothing,
}

/// What the emulation loop does between events.
#[derive(Clone, Copy, Debug, PartialEq, Eq, Structural)]
pub enum TickAction {
    RunToVblank,
    Step,
    Idle,
}

/// The state of the emulation loop: whether it runs frame after frame, and
/// whether it steps.
#[derive(Clone, Copy, Debug, PartialEq, Eq, Structural)]
pub struct EmuControl {
    pub running: bool,
    pub stepping: bool,
}

impl EmuControl {
    /// A loop that neither runs nor steps.
    pub fn new() -> (r: Self)
        ensures
            !r.running && !r.stepping,
    {
        EmuControl { running: false, stepping: false }
    }

    /// Takes an event: Start runs (reported as Running), Pause stops
    /// running (reported as Idle), Step starts stepping, Stop stops running
    /// and resets the machine (reported as Idle), Input goes to the
    /// joypad; debugger requests and settings are handed back.
    pub fn handle_event(&mut self, gb: &mut GameBoy, ev: GbrEvent) -> (r: LoopAction)
        requires
            old(gb).sound(),
        ensures
            final(gb).sound(),
            old(gb).ready() ==> final(gb).ready(),
            match ev {
                GbrEvent::Start => final(self).running && final(self).stepping == old(self).stepping && r
                    == LoopAction::Signal(EmuState::Running) && final(gb)@ == old(gb)@,
                GbrEvent::Pause => !final(self).running && final(self).stepping == old(self).stepping && r
                    == LoopAction::Signal(EmuState::Idle) && final(gb)@ == old(gb)@,
                GbrEvent::Step => final(self).stepping && final(self).running == old(self).running && r
                    == LoopAction::Nothing && final(gb)@ == old(gb)@,
                GbrEvent::Stop => !final(self).running && final(self).stepping == old(self).stepping && r
                    == LoopAction::Signal(EmuState::Idle) && final(gb).ready() && final(gb)@ == gb_reset(old(gb)@),
                GbrEvent::Input(input) => *final(self) == *old(self) && r == LoopAction::Nothing && final(gb)@
                    == (GbView {
                    bus: BusView { joypad: joypad_after(old(gb)@.bus.joypad, input), ..old(gb)@.bus },
                    ..old(gb)@
                }),
                GbrEvent::UpdateSettings(settings) => *final(self) == *old(self) && r == LoopAction::UpdateSettings(
                    settings,
                ) && final(gb)@ == old(gb)@,
                GbrEvent::Debug(d) => *final(self) == *old(self) && r == LoopAction::Debug(d) && final(gb)@
                    == old(gb)@,
            },
    {
        match ev {
            GbrEvent::Start => {
                self.running = true;
                LoopAction::Signal(EmuState::Running)
            },
            GbrEvent::Pause => {
                self.running = false;
                LoopAction::Signal(EmuState::Idle)
            },
            GbrEvent::Step => {
                self.stepping = true;
                LoopAction::Nothing
            },
            GbrEvent::Stop => {
                self.running = false;
                gb.reset();
                proof {
                    gb.lemma_ready();
                }
                LoopAction::Signal(EmuState::Idle)
            },
            GbrEvent::Input(input) => {
                gb.handle_input(input);
                LoopAction::Nothing
            },
            GbrEvent::UpdateSettings(settings) => LoopAction::UpdateSettings(settings),
            GbrEvent::Debug(d) => LoopAction::Debug(d),
        }
    }

    /// Between events the loop runs to the next frame while running, else
    /// steps while stepping (stepping, once asked for, goes on).
    pub fn tick(&self) -> (r: TickAction)
        ensures
            r == (if self.running {
                TickAction::RunToVblank
            } else if self.stepping {
                TickAction::Step
            } else {
                TickAction::Idle
            }),
    {
        if self.running {
            TickAction::RunToVblank
        } else if self.stepping {
            TickAction::Step
        } else {
            TickAction::Idle
        }
    }

    /// A breakpoint was hit: the loop stops running and reports Idle.
    pub fn on_break(&mut self) -> (r: EmuState)
        ensures
            !final(self).running,
            final(self).stepping == old(self).stepping,
            r == EmuState::Idle,
    {
        self.running = false;
        EmuState::Idle
    }
}

} // verus!
