# nes_rs

A Nintendo Entertainment System emulator whose core is verified with Verus.

## Layout

- `src/` — the verified library.
  - `cpu` — the 6502 / 2A03 processor: instruction decoding, addressing modes,
    the arithmetic of every official and unofficial instruction, interrupts and the
    cycle-by-cycle clock, all specified over a state model (`CpuState`, `CpuControl`).
  - `bus`, `ram` — address decoding over a list of devices, and mirrored RAM.
  - `nes` — the console: `NES` clocks the parts together (three PPU dots per CPU
    cycle, the APU's interrupt line and the PPU's NMI reaching the CPU). The CPU bus
    holds the 2K of work RAM and the console port (`nes::console_port`) over
    0x2000-0xFFFF, behind which stand the PPU registers, the APU and controller ports
    and the cartridge; the PPU's fetches go to the cartridge. The port answers reads
    from register values brought up to date before each CPU cycle and applies the
    accesses to the parts right after it. `NES::clock` is stated turn by turn
    (`apu_turned`, `cpu_turned`, `ppu_turned`), each over the contracts of the parts.
    - `nes::cartridge` — iNES image loading, banked memory regions, address
      converters and the mappers (NROM, MMC1, UxROM, CNROM, MMC3 and its variants,
      AxROM, Color Dreams, Namcot 108 and its 3446, 3443, 3425 and 3453 boards,
      NES-EVENT, ...).
    - `nes::ppu` — the picture processing unit: registers, VRAM address and scroll
      counters, background shifters, sprite evaluation and the pixel pipeline.
    - `nes::apu` — the audio processing unit: pulse, triangle, noise and DMC
      channels, the frame sequencer, controller ports and sprite DMA.
    - `nes::controllers` — joypads.
  - `ppu`, `cartridge`, `apu`, `device` — the first, simpler versions of the PPU,
    the mapper-0 cartridge and the register-only APU.
- `tests/` — unit tests, run against the compiled library.
- `app/` — the desktop program: window, keyboard, audio output and the mixing of
  the channel levels into samples.

Public functions state their behaviour in `requires`/`ensures`; the laws that
relate several functions (a read gives back a write, mirrorings, the serial port of
MMC1, the MMC3 scanline counter, ...) are public proof functions next to the code
they speak about. The console's model of the CPU bus keeps every read and write made
through the console port, so `NES::clock` states the accesses the CPU and the DMA
units make and what they do to the PPU, the APU and the cartridge.
