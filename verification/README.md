# gbr

A Game Boy (DMG) emulator whose core is verified with Verus.

- `src/` is the library: the CPU and its ALU, the instruction decoder and
  its text, the memory bus with the cartridge controller, the PPU and its
  pixel pipeline, the sprite table, DMA, timer, serial port, joypad, APU
  registers, interrupts, the machine that steps them together, the
  emulation loop's decisions and the debugger's breakpoints and listing.
  Each public function states what it does in its `requires`/`ensures`
  over spec functions of the modules; the `law_*` proof functions state
  properties that span calls (read-after-write, round trips of register
  encodings, the push/pop round trip, interrupt entry).
  The cartridge controller switches ROM banks as MBC1 does (the first bank
  register sets bits 0 to 4 of the bank, 0 selecting 1; the second sets
  bits 5 and 6), and OAM DMA copies from the page `value * 0x100` written
  to its register, which reads back that value; the background fetcher's
  row is `(LY + SCY) & 0xFF`.
  Constructors and resets state the whole state they leave
  (`gb_power_on`, `bus_power_on`, `gb_reset`): a reset clears the CPU,
  the RAMs, the sprite table and every device, maps the boot ROM again
  and keeps the cartridge, the PPU's sprite palettes and its last frame.
- `tests/` runs the library on concrete values.
- `app/` is the program around it: it reads the boot ROM and cartridge
  files named on the command line, runs the emulation on a thread, shows
  the screen in a window (`pixels`, `winit`) and reads debugger commands
  (`run`, `step`, `quit`) on standard input;
  F2 in the window logs a VRAM dump.
