pub mod apu;
pub mod cartridge;
pub mod console_port;
pub mod controllers;
pub mod ppu;

use vstd::prelude::*;

use crate::bus::{bus_target, bus_touch, lemma_write_to_port, AddrRange, BusDevice, Device, DeviceModel, InterruptFlags};
use crate::cpu::semantics::executable;
use crate::cpu::flags::Flag;
use crate::cpu::instructions::{Instruction, Mode};
use crate::cpu::{clock_step, flag_of, CPUCycleType, CPUType, CpuControl, CpuState, Interrupt, CPU};
use crate::nes::apu::{oam_dma_written, OamDmaState, ResettingState, APU};
use crate::nes::cartridge::mappers::{AnyMapper, Mapper, NulMapper};
use crate::nes::console_port::{ConsolePort, IoAccess};
use crate::nes::cartridge::{built_from, image_loadable, load_error, Cartridge, CartridgeError};
use crate::nes::controllers::{Controller, JoyPad, NulController};
use crate::nes::ppu::{BusRequest, CPU_ADDR_MASK, PPU};
use crate::ram::RAM;

verus! {

/// The CPU after its IRQ input is raised: the interrupt is taken when none is pending
/// and interrupts are enabled.
pub open spec fn irq_raised(s: CpuState) -> CpuState {
    if s.interrupt.is_none() && !flag_of(s.status, Flag::InterruptDisable) {
        CpuState { trapped: false, interrupt: Some(Interrupt::IRQ), ..s }
    } else {
        s
    }
}

/// The CPU after its NMI input is raised: the NMI is pending unless a reset is.
pub open spec fn nmi_raised(s: CpuState) -> CpuState {
    CpuState {
        trapped: false,
        interrupt: if s.interrupt == Some(Interrupt::RST) { s.interrupt } else { Some(Interrupt::NMI) },
        ..s
    }
}

/// What is plugged into a controller port.
pub enum ControllerPort {
    Nul(NulController),
    JoyPad(JoyPad),
}

impl Controller for ControllerPort {
    open spec fn buttons(&self) -> u8 {
        match self {
            ControllerPort::Nul(c) => c.buttons(),
            ControllerPort::JoyPad(c) => c.buttons(),
        }
    }

    fn read_value(&self) -> (r: u8) {
        match self {
            ControllerPort::Nul(c) => c.read_value(),
            ControllerPort::JoyPad(c) => c.read_value(),
        }
    }
}

/// A CPU state with its memory left out: the registers, the flags and the pending
/// interrupt.
pub open spec fn registers_of(s: CpuState) -> CpuState {
    CpuState { mem: Seq::empty(), ..s }
}

/// The CPU's step in a console cycle: with the registers of `before`, seeing the memory
/// `mem`, its IRQ input raised when `irq`, under `control` with the ready line `rdy`.
pub open spec fn console_step(before: CpuState, mem: Seq<(AddrRange, DeviceModel)>, irq: bool, control: CpuControl,
    rdy: bool) -> (CpuState, CpuControl) {
    let seen = CpuState { mem, ..before };
    clock_step(if irq { irq_raised(seen) } else { seen }, CpuControl { rdy, ..control })
}

/// One CPU clock of the console: the CPU with the registers of `before`, seeing the
/// memory `mem` (whose RAM is that of `before`), its IRQ input raised when `irq`, steps
/// once under `control` with the ready line `rdy`; `after` has the registers, control and RAM of that step, with the
/// NMI input raised after it when the NMI line `nmi_line` is active (low).
pub open spec fn cpu_stepped(before: CpuState, mem: Seq<(AddrRange, DeviceModel)>, irq: bool, control: CpuControl,
    rdy: bool, nmi_line: bool, after: (CpuState, CpuControl)) -> bool {
    let step = console_step(before, mem, irq, control, rdy);
    &&& mem.len() == 2
    &&& mem[0] == before.mem[0]
    &&& registers_of(after.0) == registers_of(if nmi_line { step.0 } else { nmi_raised(step.0) })
    &&& after.0.mem[0] == step.0.mem[0]
    &&& after.1 == step.1
}

/// The register values the console port shows for a PPU and an APU.
pub open spec fn port_registers(ppu: PPU, apu: APU) -> (Seq<u8>, Seq<u8>) {
    (Seq::new(8, |i: int| ppu.register_read((0x2000 + i) as u16).0),
        Seq::new(32, |i: int| apu.register_read((0x4000 + i) as u16).0))
}

/// The console's bus layout: the work RAM over 0x0000-0x1FFF, read through the mask
/// 0x07FF, then the console port over 0x2000-0xFFFF.
pub open spec fn wired_mem(d: Seq<(AddrRange, DeviceModel)>) -> bool {
    &&& d.len() == 2
    &&& d[0].0 == (0x0000u16, 0x1FFFu16)
    &&& (d[0].1 matches DeviceModel::Ram { mask, .. } && mask == 0x07FF)
    &&& d[1].0 == (0x2000u16, 0xFFFFu16)
    &&& d[1].1 is Console
}

/// The accesses the console port (second on the bus) holds.
pub open spec fn port_accesses(d: Seq<(AddrRange, DeviceModel)>) -> Seq<IoAccess> {
    match d[1].1 {
        DeviceModel::Console { accesses, .. } => accesses,
        _ => Seq::empty(),
    }
}

/// The cartridge behind the console port (second on the bus).
pub open spec fn port_cartridge(d: Seq<(AddrRange, DeviceModel)>) -> AnyMapper {
    match d[1].1 {
        DeviceModel::Console { cartridge, .. } => cartridge,
        _ => AnyMapper::Nul(NulMapper {}),
    }
}

/// The bus after the console puts in its port the register values of `ppu` and `apu`;
/// the cartridge and the kept accesses stay.
pub open spec fn port_synced(d: Seq<(AddrRange, DeviceModel)>, ppu: PPU, apu: APU) -> Seq<(AddrRange, DeviceModel)> {
    d.update(1, (d[1].0, DeviceModel::Console {
        ppu: port_registers(ppu, apu).0,
        apu: port_registers(ppu, apu).1,
        cartridge: port_cartridge(d),
        accesses: port_accesses(d),
    }))
}

/// One access made through the console port, applied to the PPU, the APU and the
/// cartridge `before`, giving `after`: a read or a write of a PPU register (0x2000-0x3FFF),
/// of an APU or controller port (0x4000-0x401F), or a write the cartridge takes (from
/// 0x4020); anything else changes nothing.
pub open spec fn access_applied(before: (PPU, APU, AnyMapper), access: IoAccess, after: (PPU, APU, AnyMapper)) -> bool {
    let (ppu, apu, cart) = before;
    match access {
        IoAccess::Read(a) => if 0x2000 <= a <= 0x3FFF {
            after == (ppu.register_read(a & CPU_ADDR_MASK).1, apu, cart)
        } else if 0x4000 <= a <= 0x401F {
            after == (ppu, apu.register_read(a).1, cart)
        } else {
            after == before
        },
        IoAccess::Write(a, d) => if 0x2000 <= a <= 0x3FFF {
            after.1 == apu && after.2 == cart && exists|r: u8| #[trigger] ppu.register_write(a, d, r, after.0)
        } else if 0x4000 <= a <= 0x401F {
            after == (ppu, apu.register_written(a, d).1, cart)
        } else if 0x4020 <= a && cart.cpu_write_ok(a, d) {
            after.0 == ppu && after.1 == apu && exists|r: u8| #[trigger] cart.cpu_write_post(after.2, a, d, r)
        } else {
            after == before
        },
    }
}

/// A list of accesses applied in order, through the states `states`: the first is
/// `before`, the last `after`, and each access takes one state to the next.
pub open spec fn applied_through(before: (PPU, APU, AnyMapper), log: Seq<IoAccess>, states: Seq<(PPU, APU, AnyMapper)>,
    after: (PPU, APU, AnyMapper)) -> bool {
    &&& states.len() == log.len() + 1
    &&& states[0] == before
    &&& states[log.len() as int] == after
    &&& forall|i: int| 0 <= i < log.len() ==> #[trigger] access_applied(states[i], log[i], states[i + 1])
}

/// A list of accesses applied in order.
pub open spec fn accesses_applied(before: (PPU, APU, AnyMapper), log: Seq<IoAccess>, after: (PPU, APU, AnyMapper)) -> bool {
    exists|states: Seq<(PPU, APU, AnyMapper)>| #[trigger] applied_through(before, log, states, after)
}

/// On the console's bus, the port's model holds the accesses it keeps
/// and the cartridge it holds.
pub proof fn lemma_port_model(n: NES)
    requires
        n.wired(),
    ensures
        port_accesses(n.cpu.bus@) == n.port_log(),
        n.cpu.bus.bus_devices@[1].1 is Console,
{
    let d = n.cpu.bus.bus_devices@[1].1;
    assert(n.cpu.bus@[1].1 == d.model());
}

/// A read on the console's bus keeps its layout, its work RAM and the cartridge.
proof fn lemma_touch_wired(d: Seq<(AddrRange, DeviceModel)>, addr: u16)
    requires
        wired_mem(d),
    ensures
        wired_mem(bus_touch(d, addr)),
        bus_touch(d, addr)[0] == d[0],
        port_cartridge(bus_touch(d, addr)) == port_cartridge(d),
{
    crate::bus::lemma_bus_target(d, addr);
    let t = bus_target(d, addr);
    if t == 0 {
        assert(d[0].1.touched(addr) == d[0].1);
    }
}

/// The APU's accesses on the console's bus keep its layout, its work RAM, the cartridge
/// and the CPU's registers.
proof fn lemma_apu_keeps_wired(a: APU, cpu_cycle_type: CPUCycleType, rdy: bool, s: CpuState)
    requires
        wired_mem(s.mem),
    ensures
        wired_mem(a.cpu_after(cpu_cycle_type, rdy, s).mem),
        a.cpu_after(cpu_cycle_type, rdy, s).mem[0] == s.mem[0],
        port_cartridge(a.cpu_after(cpu_cycle_type, rdy, s).mem) == port_cartridge(s.mem),
        registers_of(a.cpu_after(cpu_cycle_type, rdy, s)) == registers_of(s),
{
    let half = a.cycle_type.flipped();
    let dma_cpu = oam_dma_written(a.oam_dma_state, half, a.oam_dma_data, a.oam_dma_page, s);
    lemma_write_to_port(s.mem, 0x2004, a.oam_dma_data);
    match a.oam_dma_state {
        OamDmaState::Ready => {
            lemma_touch_wired(s.mem, ((a.oam_dma_page as u16) << 8u16) | 0u16);
        },
        OamDmaState::Executing(offset) => {
            lemma_touch_wired(s.mem, ((a.oam_dma_page as u16) << 8u16) | (offset as u16));
        },
        _ => {},
    }
    assert(wired_mem(dma_cpu.mem) && dma_cpu.mem[0] == s.mem[0] && port_cartridge(dma_cpu.mem) == port_cartridge(s.mem));
    lemma_touch_wired(dma_cpu.mem, a.dmc_channel.memory_reader.fetch_address());
}

/// The console: the CPU, the APU with the controller ports, the PPU, two controllers
/// and the cartridge slot. The CPU bus holds the 2K of work RAM (mirrored through
/// 0x0000-0x1FFF) and the console port over 0x2000-0xFFFF, behind which stand the PPU
/// registers, the APU and controller ports and the cartridge; the PPU's pattern and
/// nametable fetches (0x0000-0x3EFF) go to the cartridge. The PPU runs three dots per
/// CPU cycle.
///
/// The port answers reads from the register values the console puts in it before each
/// CPU cycle and from the cartridge, and keeps each access; the console applies them to
/// the PPU, the APU and the cartridge, in order, as soon as the cycle is over. Within
/// one instruction, a second read of a PPU or APU register therefore gives what the
/// first read gave, and a read of the cartridge does not see a write to it.
pub struct NES {
    pub cpu: CPU,
    pub apu: APU,
    pub ppu: PPU,
    pub tick: u8,
    pub controller1: ControllerPort,
    pub controller2: ControllerPort,
    pub last_cycle_type: CPUCycleType,
}

impl NES {
    /// The CPU bus holds the work RAM over 0x0000-0x1FFF, read through the mask 0x07FF,
    /// then the console port over 0x2000-0xFFFF.
    pub open spec fn wired(&self) -> bool {
        wired_mem(self.cpu.bus@)
    }

    /// The cartridge in the slot.
    pub open spec fn cartridge(&self) -> AnyMapper {
        port_cartridge(self.cpu.bus@)
    }

    /// The accesses the console port holds.
    pub open spec fn port_log(&self) -> Seq<IoAccess> {
        match self.cpu.bus.bus_devices@[1].1 {
            Device::Console(p) => p.accesses@,
            _ => Seq::empty(),
        }
    }

    /// The PPU, the APU and the cartridge.
    pub open spec fn parts(&self) -> (PPU, APU, AnyMapper) {
        (self.ppu, self.apu, self.cartridge())
    }

    /// The APU's turn in a console cycle, from this console to `n`, with `r` what the
    /// APU's clock returned: the controllers load the APU's input ports, the console port
    /// takes the register values, the APU clocks against the CPU (the sprite DMA and DMC accesses
    /// reaching the port), every access the port holds is applied in order, and the port
    /// takes the register values again.
    #[verifier::opaque]
    pub open spec fn apu_turned(&self, n: NES, r: Option<[u8; 5]>) -> bool {
        let a0 = APU { input_port1: self.controller1.buttons(), input_port2: self.controller2.buttons(), ..self.apu };
        let synced = CpuState { mem: port_synced(self.cpu.bus@, self.ppu, a0), ..self.cpu.state() };
        let dma = a0.cpu_after(self.last_cycle_type, self.cpu.rdy, synced);
        &&& exists|a: APU, log: Seq<IoAccess>| a0.clocked(synced, self.cpu.rdy, self.last_cycle_type, a, n.cpu.rdy, r)
            && log == port_accesses(dma.mem)
            && #[trigger] accesses_applied((self.ppu, a, self.cartridge()), log, n.parts())
        &&& registers_of(n.cpu.state()) == registers_of(self.cpu.state())
        &&& n.cpu.control() == (CpuControl { rdy: n.cpu.rdy, ..self.cpu.control() })
        &&& n.wired()
        &&& n.cpu.bus@[0] == self.cpu.bus@[0]
        &&& n.cpu.bus@[1].1 == (DeviceModel::Console {
            ppu: port_registers(n.ppu, n.apu).0,
            apu: port_registers(n.ppu, n.apu).1,
            cartridge: n.cartridge(),
            accesses: Seq::empty(),
        })
        &&& n.port_log().len() == 0
        &&& n.tick == self.tick
        &&& n.controller1 == self.controller1
        &&& n.controller2 == self.controller2
        &&& n.last_cycle_type == self.last_cycle_type
    }

    /// The CPU's turn in a console cycle, from this console to `n`: the APU's interrupt
    /// line reaches the CPU and the CPU clocks, seeing the bus as it stands; where the
    /// CPU leaves its bus as the console wired it, the accesses it made through the
    /// console port are applied in order to the PPU, the APU and the cartridge, their
    /// reads and writes being those of the CPU's step, in order; `log` is that list.
    #[verifier::opaque]
    pub open spec fn cpu_turned(&self, n: NES, log: Seq<IoAccess>) -> bool {
        let irq = self.apu.lines() & InterruptFlags::IRQ != 0;
        let step = console_step(self.cpu.state(), self.cpu.bus@, irq, self.cpu.control(), self.cpu.rdy);
        &&& cpu_stepped(self.cpu.state(), self.cpu.bus@, irq, self.cpu.control(), self.cpu.rdy, true,
            (n.cpu.state(), n.cpu.control()))
        &&& wired_mem(step.0.mem) ==> log == port_accesses(step.0.mem)
            && accesses_applied((self.ppu, self.apu, port_cartridge(step.0.mem)), log, n.parts())
            && n.wired() && n.port_log().len() == 0
        &&& !wired_mem(step.0.mem) ==> n.ppu == self.ppu && n.apu == self.apu
        &&& n.tick == self.tick
        &&& n.controller1 == self.controller1
        &&& n.controller2 == self.controller2
        &&& n.last_cycle_type == self.last_cycle_type
    }

    /// The PPU's turn in a console dot, from this console to `n`, with `end_of_frame`
    /// what the PPU's clock returned: its pending fetch goes to the cartridge, it clocks,
    /// and its NMI output reaches the CPU while it is active (low).
    #[verifier::opaque]
    pub open spec fn ppu_turned(&self, n: NES, end_of_frame: bool) -> bool {
        &&& exists|p: PPU| p == (PPU { data_buffer: p.data_buffer, bus_request: BusRequest::Idle, ..self.ppu })
            && #[trigger] p.clocked(n.ppu, (end_of_frame, n.ppu.nmi_line()))
        &&& n.cpu.control() == self.cpu.control()
        &&& registers_of(n.cpu.state()) == registers_of(
            if n.ppu.nmi_line() { self.cpu.state() } else { nmi_raised(self.cpu.state()) })
        &&& n.cpu.bus@[0] == self.cpu.bus@[0]
        &&& self.wired() ==> n.wired()
        &&& self.wired() ==> match self.ppu.bus_request {
            BusRequest::Read(a) => if a <= 0x3EFF && self.cartridge().ppu_read_ok(a) {
                self.cartridge().ppu_read_post(n.cartridge(), a, n.ppu.data_buffer)
            } else {
                n.ppu.data_buffer == 0 && n.cartridge() == self.cartridge()
            },
            BusRequest::Write(a, d) => if a <= 0x3EFF && self.cartridge().ppu_write_ok(a) {
                exists|v: u8| #[trigger] self.cartridge().ppu_write_post(n.cartridge(), a, d, v)
            } else {
                n.cartridge() == self.cartridge()
            },
            BusRequest::Idle => n.cartridge() == self.cartridge(),
        }
        &&& n.apu == self.apu
        &&& n.controller1 == self.controller1
        &&& n.controller2 == self.controller2
        &&& n.last_cycle_type == self.last_cycle_type
    }

    /// The parts are consistent and wired, and the next clock is one each part can take.
    pub open spec fn can_clock(&self) -> bool {
        &&& self.wired()
        &&& self.cpu.wf()
        &&& self.cpu.sequencing_ok()
        &&& self.cpu.cycles < usize::MAX
        &&& (self.cpu.remaining_cycles == 1 && !self.cpu.jammed) ==> executable(self.cpu.instruction, self.cpu.mode)
        &&& self.apu.wf()
        &&& self.apu.frame_counter < u16::MAX
        &&& self.apu.dmc_channel.dma_ok()
        &&& self.ppu.wf()
        &&& self.ppu.sprite_row_data.can_shift()
        &&& self.tick < 3
    }

    fn is_wired(&self) -> (r: bool)
        ensures
            r == self.wired(),
    {
        if self.cpu.bus.bus_devices.len() != 2 {
            return false;
        }
        let ram_ok = match &self.cpu.bus.bus_devices[0].1 {
            Device::Ram(r) => r.address_mask == 0x07FF,
            _ => false,
        };
        let port_ok = match &self.cpu.bus.bus_devices[1].1 {
            Device::Console(_) => true,
            _ => false,
        };
        let r0 = self.cpu.bus.bus_devices[0].0;
        let r1 = self.cpu.bus.bus_devices[1].0;
        ram_ok && port_ok && r0.0 == 0x0000 && r0.1 == 0x1FFF && r1.0 == 0x2000 && r1.1 == 0xFFFF
    }

    /// Checks `can_clock`, which `clock` requires.
    pub fn clock_ready(&self) -> (r: bool)
        ensures
            r == self.can_clock(),
    {
        self.is_wired() && self.cpu.clock_ready() && self.apu.clock_ready() && self.ppu.clock_ready() && self.tick < 3
    }

    pub fn new() -> (r: NES)
        ensures
            r.wired(),
            r.cpu.wf(),
            r.cpu.cpu_type == CPUType::RP2A03,
            r.cpu.a == 0 && r.cpu.x == 0 && r.cpu.y == 0 && r.cpu.sp == 0 && r.cpu.pc == 0,
            r.cpu.status == Flag::Break | Flag::Unused,
            r.cpu.jammed && !r.cpu.trapped && r.cpu.interrupt.is_none() && r.cpu.rdy,
            r.cpu.instruction == Instruction::NOP && r.cpu.mode == Mode::Imp && !r.cpu.cycle_on_page_boundary,
            r.cpu.remaining_cycles == 0 && r.cpu.extra_cycles == 0 && r.cpu.cycles == 0,
            r.cpu.bus@[0].1 matches DeviceModel::Ram { memory, .. } && memory == Seq::new(0x0800, |i: int| 0u8),
            r.cpu.bus@[1].1 == (DeviceModel::Console {
                ppu: Seq::new(8, |i: int| 0u8),
                apu: Seq::new(32, |i: int| 0u8),
                cartridge: AnyMapper::Nul(NulMapper {}),
                accesses: Seq::empty(),
            }),
            r.cartridge() is Nul,
            r.apu == APU::power_on(),
            r.ppu.wf(),
            r.ppu.bus@.len() == 0,
            r.tick == 0,
            r.controller1 is Nul,
            r.controller2 is Nul,
            r.last_cycle_type == CPUCycleType::Read,
    {
        let mut cpu = CPU::new(CPUType::RP2A03);
        // 2K of work RAM, mirrored through 0x0000-0x1FFF by masking the address
        let ram = RAM::new(0x0000, 0x1FFF, 0x07FF);
        assert(ram.memory@ =~= Seq::new(0x0800, |i: int| 0u8));
        cpu.add_device(Device::Ram(ram));
        let port = ConsolePort::new(Cartridge::nul_cartridge());
        assert(port.accesses@ =~= Seq::<IoAccess>::empty());
        cpu.add_device(Device::Console(port));
        NES {
            cpu,
            apu: APU::new(),
            ppu: PPU::new(),
            tick: 0,
            controller1: ControllerPort::Nul(NulController::new()),
            controller2: ControllerPort::Nul(NulController::new()),
            last_cycle_type: CPUCycleType::Read,
        }
    }

    /// Presses reset: the CPU, APU and PPU reset and the dot count restarts.
    pub fn reset(&mut self)
        requires
            old(self).ppu.wf(),
        ensures
            final(self).tick == 0,
            final(self).ppu.wf(),
            final(self).ppu.resetting,
            final(self).cpu.state() == (CpuState { trapped: false, interrupt: Some(Interrupt::RST), ..old(self).cpu.state() }),
            final(self).cpu.control() == (CpuControl { jammed: false, cycles: 0, remaining_cycles: 0, extra_cycles: 0, ..old(self).cpu.control() }),
            final(self).cpu.wf() == old(self).cpu.wf(),
            final(self).cpu.bus@ == old(self).cpu.bus@,
            final(self).controller1 == old(self).controller1,
            final(self).controller2 == old(self).controller2,
            final(self).last_cycle_type == old(self).last_cycle_type,
            final(self).ppu.even_frame && !final(self).ppu.write_toggle,
            final(self).ppu.ctrl_high_register == 0 && final(self).ppu.mask_register == 0,
            final(self).ppu.temporary_vram_address == (crate::nes::ppu::vram_address::VramAddress { register: 0, fine_x: 0 }),
            final(self).ppu.bus_request == BusRequest::Idle,
            final(self).ppu.status_register == old(self).ppu.status_register,
            final(self).ppu.palettes == old(self).ppu.palettes,
            final(self).ppu.primary_oam == old(self).ppu.primary_oam,
            final(self).ppu.vram_address == old(self).ppu.vram_address,
            final(self).apu == (APU {
                frame_counter: old(self).apu.frame_counter,
                frame_counter_reset_state: old(self).apu.frame_counter_reset_state,
                frame_counter_control: old(self).apu.frame_counter_control,
                cycle_type: old(self).apu.cycle_type,
                last_read: 0,
                ..APU::power_on()
            }),
            final(self).ppu.scan_line == -1 && final(self).ppu.tick == 0,
    {
        self.cpu.reset();
        self.apu.reset();
        self.ppu.reset();
        self.tick = 0;
    }

    /// Puts in the console port what a read of each PPU and APU register now gives.
    fn sync_port(&mut self)
        requires
            old(self).wired(),
            old(self).cpu.wf(),
            old(self).ppu.wf(),
            old(self).apu.wf(),
        ensures
            final(self).wired(),
            final(self).cpu.wf(),
            final(self).cpu.control() == old(self).cpu.control(),
            registers_of(final(self).cpu.state()) == registers_of(old(self).cpu.state()),
            final(self).cpu.bus@[0] == old(self).cpu.bus@[0],
            final(self).cpu.bus@[1].1 == (DeviceModel::Console {
                ppu: port_registers(old(self).ppu, old(self).apu).0,
                apu: port_registers(old(self).ppu, old(self).apu).1,
                cartridge: old(self).cartridge(),
                accesses: old(self).port_log(),
            }),
            final(self).port_log() == old(self).port_log(),
            final(self).ppu == old(self).ppu,
            final(self).apu == old(self).apu,
            final(self).tick == old(self).tick,
            final(self).controller1 == old(self).controller1,
            final(self).controller2 == old(self).controller2,
            final(self).last_cycle_type == old(self).last_cycle_type,
    {
        let mut ppu_registers = [0u8; 8];
        let mut i: usize = 0;
        while i < 8
            invariant
                i <= 8,
                self.ppu.wf(),
                forall|j: int| 0 <= j < i ==> ppu_registers@[j] == self.ppu.register_read((0x2000 + j) as u16).0,
            decreases 8 - i,
        {
            let v = self.ppu.register_view(0x2000 + i as u16);
            ppu_registers.set(i, v);
            i = i + 1;
        }
        let mut apu_registers = [0u8; 32];
        let mut k: usize = 0;
        while k < 32
            invariant
                k <= 32,
                self.apu.wf(),
                forall|j: int| 0 <= j < k ==> apu_registers@[j] == self.apu.register_read((0x4000 + j) as u16).0,
            decreases 32 - k,
        {
            let v = self.apu.register_view(0x4000 + k as u16);
            apu_registers.set(k, v);
            k = k + 1;
        }
        assert(ppu_registers@ =~= port_registers(self.ppu, self.apu).0);
        assert(apu_registers@ =~= port_registers(self.ppu, self.apu).1);
        match &mut self.cpu.bus.bus_devices[1].1 {
            Device::Console(p) => {
                p.ppu_registers = ppu_registers;
                p.apu_registers = apu_registers;
            },
            _ => {},
        }
    }

    /// A CPU write to the cartridge: it takes it where it can.
    fn write_cartridge(&mut self, addr: u16, data: u8)
        requires
            old(self).wired(),
            old(self).cpu.wf(),
        ensures
            if old(self).cartridge().cpu_write_ok(addr, data) {
                exists|v: u8| #[trigger] old(self).cartridge().cpu_write_post(final(self).cartridge(), addr, data, v)
            } else {
                final(self).cartridge() == old(self).cartridge()
            },
            final(self).port_log() == old(self).port_log(),
            final(self).wired(),
            final(self).cpu.wf(),
            final(self).cpu.control() == old(self).cpu.control(),
            registers_of(final(self).cpu.state()) == registers_of(old(self).cpu.state()),
            final(self).cpu.bus@[0] == old(self).cpu.bus@[0],
            final(self).ppu == old(self).ppu,
            final(self).apu == old(self).apu,
            final(self).tick == old(self).tick,
            final(self).controller1 == old(self).controller1,
            final(self).controller2 == old(self).controller2,
            final(self).last_cycle_type == old(self).last_cycle_type,
    {
        assert(self.cpu.bus.bus_devices@[1].1.wf());
        match &mut self.cpu.bus.bus_devices[1].1 {
            Device::Console(p) => {
                if p.cartridge.cpu_writable(addr, data) {
                    let v = p.cartridge.write_cpu(addr, data);
                }
            },
            _ => {},
        }
    }

    /// Applies the accesses the console port kept, in order, to the PPU, the APU and the
    /// cartridge, and empties the port's list.
    fn apply_accesses(&mut self)
        requires
            old(self).wired(),
            old(self).cpu.wf(),
            old(self).ppu.wf(),
            old(self).ppu.sprite_row_data.can_shift(),
            old(self).apu.wf(),
        ensures
            accesses_applied(old(self).parts(), old(self).port_log(), final(self).parts()),
            final(self).port_log().len() == 0,
            final(self).wired(),
            final(self).cpu.wf(),
            final(self).cpu.control() == old(self).cpu.control(),
            registers_of(final(self).cpu.state()) == registers_of(old(self).cpu.state()),
            final(self).cpu.bus@[0] == old(self).cpu.bus@[0],
            final(self).ppu.wf(),
            final(self).ppu.sprite_row_data.can_shift(),
            (final(self).ppu.tick, final(self).ppu.scan_line, final(self).ppu.even_frame)
                == (old(self).ppu.tick, old(self).ppu.scan_line, old(self).ppu.even_frame),
            final(self).apu.wf(),
            final(self).tick == old(self).tick,
            final(self).controller1 == old(self).controller1,
            final(self).controller2 == old(self).controller2,
            final(self).last_cycle_type == old(self).last_cycle_type,
    {
        let mut accesses: Vec<IoAccess> = Vec::new();
        match &mut self.cpu.bus.bus_devices[1].1 {
            Device::Console(p) => {
                std::mem::swap(&mut accesses, &mut p.accesses);
            },
            _ => {},
        }
        let ghost c0 = self.cpu.control();
        let ghost r0 = registers_of(self.cpu.state());
        let ghost ram = self.cpu.bus@[0];
        let ghost t0 = (self.ppu.tick, self.ppu.scan_line, self.ppu.even_frame);
        let ghost start = old(self).parts();
        let ghost mut states: Seq<(PPU, APU, AnyMapper)> = seq![start];
        assert(accesses@ == old(self).port_log());
        let mut i: usize = 0;
        while i < accesses.len()
            invariant
                i <= accesses@.len(),
                states.len() == i + 1,
                states[0] == start,
                states[i as int] == self.parts(),
                forall|j: int| 0 <= j < i ==> #[trigger] access_applied(states[j], accesses@[j], states[j + 1]),
                self.port_log().len() == 0,
                self.wired(),
                self.cpu.wf(),
                self.cpu.control() == c0,
                registers_of(self.cpu.state()) == r0,
                self.cpu.bus@[0] == ram,
                self.ppu.wf(),
                self.ppu.sprite_row_data.can_shift(),
                (self.ppu.tick, self.ppu.scan_line, self.ppu.even_frame) == t0,
                self.apu.wf(),
                self.tick == old(self).tick,
                self.controller1 == old(self).controller1,
                self.controller2 == old(self).controller2,
                self.last_cycle_type == old(self).last_cycle_type,
            decreases accesses@.len() - i,
        {
            let ghost prev = self.parts();
            self.apply_access(accesses[i]);
            proof {
                let old_states = states;
                states = states.push(self.parts());
                assert forall|j: int| 0 <= j < i + 1 implies #[trigger] access_applied(states[j], accesses@[j], states[j + 1]) by {
                    if j < i {
                        assert(old_states[j] == states[j] && old_states[j + 1] == states[j + 1]);
                    }
                }
            }
            i = i + 1;
        }
        assert(applied_through(start, accesses@, states, self.parts()));
    }

    /// Applies one access made through the console port.
    #[verifier::rlimit(60)]
    fn apply_access(&mut self, access: IoAccess)
        requires
            old(self).wired(),
            old(self).cpu.wf(),
            old(self).ppu.wf(),
            old(self).ppu.sprite_row_data.can_shift(),
            old(self).apu.wf(),
        ensures
            access_applied(old(self).parts(), access, final(self).parts()),
            final(self).port_log() == old(self).port_log(),
            final(self).wired(),
            final(self).cpu.wf(),
            final(self).cpu.control() == old(self).cpu.control(),
            registers_of(final(self).cpu.state()) == registers_of(old(self).cpu.state()),
            final(self).cpu.bus@[0] == old(self).cpu.bus@[0],
            final(self).ppu.wf(),
            final(self).ppu.sprite_row_data.can_shift(),
            (final(self).ppu.tick, final(self).ppu.scan_line, final(self).ppu.even_frame)
                == (old(self).ppu.tick, old(self).ppu.scan_line, old(self).ppu.even_frame),
            final(self).apu.wf(),
            final(self).tick == old(self).tick,
            final(self).controller1 == old(self).controller1,
            final(self).controller2 == old(self).controller2,
            final(self).last_cycle_type == old(self).last_cycle_type,
    {
        let ghost c0 = self.cartridge();
        let (a, data) = match access {
            IoAccess::Read(a) => (a, None),
            IoAccess::Write(a, d) => (a, Some(d)),
        };
        if 0x2000 <= a && a <= 0x3FFF {
            self.ppu.cpu_access(a, data);
            assert(self.cartridge() == c0);
        } else if 0x4000 <= a && a <= 0x401F {
            self.apu.cpu_access(a, data);
            assert(self.cartridge() == c0);
        } else if 0x4020 <= a {
            match data {
                Some(d) => self.write_cartridge(a, d),
                None => {},
            }
        }
    }

    /// A PPU read of the cartridge; 0 where it does not answer.
    fn cartridge_ppu_read(&mut self, a: u16) -> (r: u8)
        requires
            old(self).wired(),
            old(self).cpu.wf(),
        ensures
            final(self).wired(),
            final(self).cpu.wf(),
            final(self).cpu.control() == old(self).cpu.control(),
            registers_of(final(self).cpu.state()) == registers_of(old(self).cpu.state()),
            final(self).cpu.bus@[0] == old(self).cpu.bus@[0],
            if a <= 0x3EFF && old(self).cartridge().ppu_read_ok(a) {
                old(self).cartridge().ppu_read_post(final(self).cartridge(), a, r)
            } else {
                r == 0 && final(self).cartridge() == old(self).cartridge()
            },
            final(self).ppu == old(self).ppu,
            final(self).apu == old(self).apu,
            final(self).tick == old(self).tick,
            final(self).controller1 == old(self).controller1,
            final(self).controller2 == old(self).controller2,
            final(self).last_cycle_type == old(self).last_cycle_type,
    {
        assert(self.cpu.bus.bus_devices@[1].1.wf());
        let mut data: u8 = 0;
        match &mut self.cpu.bus.bus_devices[1].1 {
            Device::Console(p) => {
                if a <= 0x3EFF && p.cartridge.ppu_readable(a) {
                    data = p.cartridge.read_ppu(a);
                }
            },
            _ => {},
        }
        data
    }

    /// A PPU write to the cartridge, where it answers.
    fn cartridge_ppu_write(&mut self, a: u16, d: u8)
        requires
            old(self).wired(),
            old(self).cpu.wf(),
        ensures
            final(self).wired(),
            final(self).cpu.wf(),
            final(self).cpu.control() == old(self).cpu.control(),
            registers_of(final(self).cpu.state()) == registers_of(old(self).cpu.state()),
            final(self).cpu.bus@[0] == old(self).cpu.bus@[0],
            if a <= 0x3EFF && old(self).cartridge().ppu_write_ok(a) {
                exists|v: u8| #[trigger] old(self).cartridge().ppu_write_post(final(self).cartridge(), a, d, v)
            } else {
                final(self).cartridge() == old(self).cartridge()
            },
            final(self).ppu == old(self).ppu,
            final(self).apu == old(self).apu,
            final(self).tick == old(self).tick,
            final(self).controller1 == old(self).controller1,
            final(self).controller2 == old(self).controller2,
            final(self).last_cycle_type == old(self).last_cycle_type,
    {
        assert(self.cpu.bus.bus_devices@[1].1.wf());
        match &mut self.cpu.bus.bus_devices[1].1 {
            Device::Console(p) => {
                if a <= 0x3EFF && p.cartridge.ppu_writable(a) {
                    let v = p.cartridge.write_ppu(a, d);
                }
            },
            _ => {},
        }
    }

    /// Performs the PPU's pending bus access on the cartridge, which answers the PPU's
    /// addresses 0x0000-0x3EFF; a read nothing answers gives 0.
    #[verifier::rlimit(60)]
    fn serve_ppu_bus(&mut self)
        requires
            old(self).wired(),
            old(self).cpu.wf(),
        ensures
            final(self).wired(),
            final(self).cpu.wf(),
            final(self).cpu.control() == old(self).cpu.control(),
            registers_of(final(self).cpu.state()) == registers_of(old(self).cpu.state()),
            final(self).cpu.bus@[0] == old(self).cpu.bus@[0],
            final(self).ppu == (PPU { data_buffer: final(self).ppu.data_buffer, bus_request: BusRequest::Idle, ..old(self).ppu }),
            match old(self).ppu.bus_request {
                BusRequest::Read(a) => if a <= 0x3EFF && old(self).cartridge().ppu_read_ok(a) {
                    old(self).cartridge().ppu_read_post(final(self).cartridge(), a, final(self).ppu.data_buffer)
                } else {
                    final(self).ppu.data_buffer == 0 && final(self).cartridge() == old(self).cartridge()
                },
                BusRequest::Write(a, d) => final(self).ppu.data_buffer == old(self).ppu.data_buffer
                    && if a <= 0x3EFF && old(self).cartridge().ppu_write_ok(a) {
                        exists|v: u8| #[trigger] old(self).cartridge().ppu_write_post(final(self).cartridge(), a, d, v)
                    } else {
                        final(self).cartridge() == old(self).cartridge()
                    },
                BusRequest::Idle => final(self).ppu.data_buffer == old(self).ppu.data_buffer
                    && final(self).cartridge() == old(self).cartridge(),
            },
            final(self).apu == old(self).apu,
            final(self).tick == old(self).tick,
            final(self).controller1 == old(self).controller1,
            final(self).controller2 == old(self).controller2,
            final(self).last_cycle_type == old(self).last_cycle_type,
    {
        match self.ppu.bus_request {
            BusRequest::Read(a) => {
                let data = self.cartridge_ppu_read(a);
                self.ppu.data_buffer = data;
            },
            BusRequest::Write(a, d) => {
                self.cartridge_ppu_write(a, d);
            },
            BusRequest::Idle => {},
        }
        self.ppu.bus_request = BusRequest::Idle;
    }

    /// One PPU dot. On every third dot, starting with the first, the APU takes its turn
    /// (the controllers load its input ports, it clocks and gives its channel levels once
    /// it is running), then the CPU (the APU's interrupt line reaches it and it clocks);
    /// before each of these turns the console port takes the current register values, and
    /// after each the accesses made through it reach the PPU, the APU and the cartridge.
    /// Then the PPU takes its turn: its pending fetch goes to the cartridge, it clocks,
    /// and its NMI output reaches the CPU while it is active (low). Returns whether the
    /// frame ended and the channel levels, if any.
    #[verifier::rlimit(100)]
    pub fn clock(&mut self) -> (r: (bool, Option<[u8; 5]>))
        requires
            old(self).can_clock(),
        ensures
            final(self).tick == if old(self).tick == 2 { 0 } else { old(self).tick + 1 },
            (r.1 is Some) == (old(self).tick == 0 && old(self).apu.resetting_state == ResettingState::Ready),
            old(self).tick == 0 ==> exists|n1: NES, n2: NES, log: Seq<IoAccess>| #[trigger] old(self).apu_turned(n1, r.1)
                && #[trigger] n1.cpu_turned(n2, log) && n2.ppu_turned(*final(self), r.0),
            old(self).tick != 0 ==> old(self).ppu_turned(*final(self), r.0),
            final(self).ppu.wf(),
            final(self).cpu.wf(),
            final(self).cpu.sequencing_ok(),
            final(self).apu.wf(),
            final(self).controller1 == old(self).controller1,
            final(self).controller2 == old(self).controller2,
            final(self).last_cycle_type == old(self).last_cycle_type,
    {
        let mut audio_levels = None;
        let ghost mut n1 = *self;
        let ghost mut n2 = *self;
        let ghost mut log = Seq::<IoAccess>::empty();
        if self.tick == 0 {
            audio_levels = self.apu_turn();
            proof { n1 = *self; }
            let cpu_log = self.cpu_turn();
            proof { n2 = *self; log = cpu_log@; }
        }
        let ghost n3 = *self;
        let (end_of_frame, nmi_line) = self.ppu_turn();
        let ghost n4 = *self;

        self.tick = self.tick + 1;
        if self.tick == 3 {
            self.tick = 0;
        }
        proof {
            assert(n3.ppu_turned(*self, end_of_frame)) by {
                reveal(NES::ppu_turned);
                assert(n3.ppu_turned(n4, end_of_frame));
            }
            if old(self).tick == 0 {
                assert(old(self).apu_turned(n1, audio_levels));
                assert(n1.cpu_turned(n2, log));
            }
        }
        (end_of_frame, audio_levels)
    }

    /// The PPU's turn: its pending fetch goes to the cartridge, it clocks, and its NMI
    /// output reaches the CPU while it is active (low). Returns whether the frame ended
    /// and the NMI line.
    #[verifier::rlimit(60)]
    fn ppu_turn(&mut self) -> (r: (bool, bool))
        requires
            old(self).cpu.wf(),
            old(self).ppu.wf(),
            old(self).ppu.sprite_row_data.can_shift(),
        ensures
            old(self).ppu_turned(*final(self), r.0),
            r.1 == final(self).ppu.nmi_line(),
            final(self).ppu.wf(),
            final(self).cpu.wf(),
            final(self).cpu.control() == old(self).cpu.control(),
            final(self).apu == old(self).apu,
            final(self).tick == old(self).tick,
            final(self).controller1 == old(self).controller1,
            final(self).controller2 == old(self).controller2,
            final(self).last_cycle_type == old(self).last_cycle_type,
    {
        if self.is_wired() {
            self.serve_ppu_bus();
        } else {
            self.ppu.bus_request = BusRequest::Idle;
        }
        let ghost before_ppu = self.ppu;
        assert(before_ppu == (PPU { data_buffer: before_ppu.data_buffer, bus_request: BusRequest::Idle, ..old(self).ppu }));
        let (end_of_frame, nmi_line) = self.ppu.clock();
        assert(before_ppu.clocked(self.ppu, (end_of_frame, self.ppu.nmi_line())));
        if !nmi_line {
            self.cpu.nmi();
        }
        proof { reveal(NES::ppu_turned); }
        (end_of_frame, nmi_line)
    }

    /// The APU's turn: the controllers load its input ports and it clocks, with the
    /// console port brought up to date before and its accesses applied after.
    #[verifier::rlimit(100)]
    fn apu_turn(&mut self) -> (r: Option<[u8; 5]>)
        requires
            old(self).can_clock(),
        ensures
            old(self).apu_turned(*final(self), r),
            final(self).wired(),
            final(self).cpu.wf(),
            final(self).cpu.control() == (CpuControl { rdy: final(self).cpu.rdy, ..old(self).cpu.control() }),
            registers_of(final(self).cpu.state()) == registers_of(old(self).cpu.state()),
            final(self).cpu.bus@[0] == old(self).cpu.bus@[0],
            final(self).tick == old(self).tick,
            final(self).controller1 == old(self).controller1,
            final(self).controller2 == old(self).controller2,
            final(self).last_cycle_type == old(self).last_cycle_type,
            (r is Some) == (old(self).apu.resetting_state == ResettingState::Ready),
            final(self).apu.wf(),
            final(self).ppu.wf(),
            final(self).ppu.sprite_row_data.can_shift(),
            (final(self).ppu.tick, final(self).ppu.scan_line, final(self).ppu.even_frame)
                == (old(self).ppu.tick, old(self).ppu.scan_line, old(self).ppu.even_frame),
    {
        let input1 = self.controller1.read_value();
        let input2 = self.controller2.read_value();
        self.apu.set_input_port1(input1);
        self.apu.set_input_port2(input2);
        let ghost a0 = self.apu;
        proof { lemma_port_model(*self); }
        self.sync_port();
        let ghost synced = self.cpu.state();
        assert(self.cpu.bus@ =~= port_synced(old(self).cpu.bus@, old(self).ppu, a0));
        assert(synced == (CpuState { mem: port_synced(old(self).cpu.bus@, old(self).ppu, a0), ..old(self).cpu.state() }));
        proof { lemma_apu_keeps_wired(a0, self.last_cycle_type, self.cpu.rdy, synced); }
        let audio_levels = self.apu.clock(&mut self.cpu, self.last_cycle_type);
        let ghost a = self.apu;
        let ghost log = self.port_log();
        proof { lemma_port_model(*self); }
        assert(self.cpu.bus@ == a0.cpu_after(old(self).last_cycle_type, old(self).cpu.rdy, synced).mem);
        assert(log == port_accesses(a0.cpu_after(old(self).last_cycle_type, old(self).cpu.rdy, synced).mem));
        let ghost rdy_after = self.cpu.rdy;
        assert(a0.clocked(synced, old(self).cpu.rdy, old(self).last_cycle_type, a, rdy_after, audio_levels));
        assert(self.cartridge() == old(self).cartridge());
        self.apply_accesses();
        self.sync_port();
        proof {
            reveal(NES::apu_turned);
            assert(accesses_applied((old(self).ppu, a, old(self).cartridge()), log, self.parts()));
            assert(self.cpu.rdy == rdy_after);
            assert(self.port_log() =~= Seq::<IoAccess>::empty());
        }
        audio_levels
    }

    /// The CPU's turn: the APU's interrupt line reaches it and it clocks; the accesses
    /// it made through the console port are applied after.
    #[verifier::rlimit(100)]
    fn cpu_turn(&mut self) -> (log: Ghost<Seq<IoAccess>>)
        requires
            old(self).wired(),
            old(self).cpu.wf(),
            old(self).cpu.sequencing_ok(),
            old(self).cpu.cycles < usize::MAX,
            (old(self).cpu.remaining_cycles == 1 && !old(self).cpu.jammed) ==> executable(old(self).cpu.instruction, old(self).cpu.mode),
            old(self).apu.wf(),
            old(self).ppu.wf(),
            old(self).ppu.sprite_row_data.can_shift(),
        ensures
            old(self).cpu_turned(*final(self), log@),
            final(self).cpu.wf(),
            final(self).tick == old(self).tick,
            final(self).controller1 == old(self).controller1,
            final(self).controller2 == old(self).controller2,
            final(self).last_cycle_type == old(self).last_cycle_type,
            final(self).cpu.sequencing_ok(),
            final(self).apu.wf(),
            final(self).ppu.wf(),
            final(self).ppu.sprite_row_data.can_shift(),
            (final(self).ppu.tick, final(self).ppu.scan_line, final(self).ppu.even_frame)
                == (old(self).ppu.tick, old(self).ppu.scan_line, old(self).ppu.even_frame),
    {
        let ghost irq = old(self).apu.lines() & InterruptFlags::IRQ != 0;
        let ghost step = console_step(old(self).cpu.state(), old(self).cpu.bus@, irq, old(self).cpu.control(), old(self).cpu.rdy);
        if self.apu.bus_clock() & InterruptFlags::IRQ != 0 {
            self.cpu.irq();
        }
        self.cpu.clock();
        assert(self.cpu.bus@ == step.0.mem);
        let ghost mut log = Seq::<IoAccess>::empty();
        if self.is_wired() {
            proof { log = self.port_log(); }
            let ghost before = self.parts();
            proof { lemma_port_model(*self); }
            assert(before == (old(self).ppu, old(self).apu, port_cartridge(step.0.mem)));
            self.apply_accesses();
            assert(accesses_applied(before, log, self.parts()));
        }
        proof {
            reveal(NES::cpu_turned);
            assert(self.tick == old(self).tick && self.controller1 == old(self).controller1);
            assert(self.controller2 == old(self).controller2 && self.last_cycle_type == old(self).last_cycle_type);
            assert(cpu_stepped(old(self).cpu.state(), old(self).cpu.bus@, irq, old(self).cpu.control(), old(self).cpu.rdy, true,
                (self.cpu.state(), self.cpu.control())));
            assert(wired_mem(step.0.mem) ==> self.wired() && self.port_log().len() == 0);
            assert(!wired_mem(step.0.mem) ==> self.ppu == old(self).ppu && self.apu == old(self).apu);
        }
        Ghost(log)
    }

    /// Puts the cartridge an iNES image describes in the slot. On an error the slot
    /// keeps what it held.
    pub fn load_cartridge(&mut self, image: &[u8]) -> (r: Result<(), CartridgeError>)
        requires
            image_loadable(image@),
            old(self).wired(),
            old(self).cpu.wf(),
        ensures
            match load_error(image@) {
                Some(e) => r == Err::<(), CartridgeError>(e) && final(self).cartridge() == old(self).cartridge(),
                None => r is Ok && built_from(final(self).cartridge(), image@),
            },
            final(self).wired(),
            final(self).cpu.wf(),
            final(self).cpu.control() == old(self).cpu.control(),
            registers_of(final(self).cpu.state()) == registers_of(old(self).cpu.state()),
            final(self).cpu.bus@[0] == old(self).cpu.bus@[0],
            final(self).apu == old(self).apu,
            final(self).ppu == old(self).ppu,
            final(self).tick == old(self).tick,
    {
        match Cartridge::from_image(image) {
            Ok(cartridge) => {
                match &mut self.cpu.bus.bus_devices[1].1 {
                    Device::Console(p) => {
                        p.cartridge = cartridge;
                    },
                    _ => {},
                }
                Ok(())
            },
            Err(e) => Err(e),
        }
    }

    pub fn plugin_controller1(&mut self, controller: ControllerPort)
        ensures
            final(self).controller1 == controller,
            final(self).controller2 == old(self).controller2,
            final(self).cpu == old(self).cpu,
            final(self).tick == old(self).tick,
    {
        self.controller1 = controller;
    }

    pub fn plugin_controller2(&mut self, controller: ControllerPort)
        ensures
            final(self).controller2 == controller,
            final(self).controller1 == old(self).controller1,
            final(self).cpu == old(self).cpu,
            final(self).tick == old(self).tick,
    {
        self.controller2 = controller;
    }
}

} // verus!
