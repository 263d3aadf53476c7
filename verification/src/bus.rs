use vstd::prelude::*;

use crate::nes::cartridge::mappers::{AnyMapper, Mapper};
use crate::nes::console_port::{console_read, ConsolePort, IoAccess};
use crate::ram::RAM;

verus! {

/// Interrupt lines a device can raise on a bus clock, as bits of a `u8`.
pub struct InterruptFlags;

impl InterruptFlags {
    pub const IRQ: u8 = 0b0000_0001;
    pub const NMI: u8 = 0b0000_0010;

    pub fn empty() -> (r: u8)
        ensures
            r == 0,
    {
        0
    }
}

/// A device that answers a range of addresses on a bus.
pub trait BusDevice {
    /// The device's own consistency condition, kept by every access.
    spec fn device_ok(&self) -> bool;

    /// Whether the device can answer a read of `addr`.
    spec fn can_read(&self, addr: u16) -> bool;

    /// Whether the device can take a write of `data` to `addr`.
    spec fn can_write(&self, addr: u16, data: u8) -> bool;

    /// Whether the device can be clocked.
    spec fn can_clock(&self) -> bool;

    fn get_address_range(&self) -> (u16, u16);

    fn read(&mut self, addr: u16) -> (r: u8)
        requires
            old(self).device_ok(),
            old(self).can_read(addr),
        ensures
            final(self).device_ok(),
    ;

    fn write(&mut self, addr: u16, data: u8) -> (r: u8)
        requires
            old(self).device_ok(),
            old(self).can_write(addr, data),
        ensures
            final(self).device_ok(),
    ;

    fn bus_clock(&mut self) -> (r: u8)
        requires
            old(self).device_ok(),
            old(self).can_clock(),
        ensures
            final(self).device_ok(),
    ;
}

/// A test device that occupies no address and raises the interrupt lines it holds.
pub struct Interruptor {
    pub flags: u8,
}

impl Interruptor {
    pub fn new() -> (r: Interruptor)
        ensures
            r.flags == 0,
    {
        Interruptor { flags: 0 }
    }
}

impl Default for Interruptor {
    fn default() -> (r: Interruptor)
        ensures
            r.flags == 0,
    {
        Interruptor::new()
    }
}

impl BusDevice for Interruptor {
    open spec fn device_ok(&self) -> bool {
        true
    }

    open spec fn can_read(&self, addr: u16) -> bool { true }

    open spec fn can_write(&self, addr: u16, data: u8) -> bool { true }

    open spec fn can_clock(&self) -> bool { true }

    /// An empty range: the start lies above the end.
    fn get_address_range(&self) -> (r: (u16, u16))
        ensures
            r == (0xFFFFu16, 0x0000u16),
    {
        (0xFFFF, 0x0000)
    }

    fn read(&mut self, _addr: u16) -> (r: u8)
        ensures
            r == 0,
            *final(self) == *old(self),
    {
        0
    }

    fn write(&mut self, _addr: u16, _data: u8) -> (r: u8)
        ensures
            r == 0,
            *final(self) == *old(self),
    {
        0
    }

    /// Raises the lines it holds.
    fn bus_clock(&mut self) -> (r: u8)
        ensures
            r == old(self).flags,
            *final(self) == *old(self),
    {
        self.flags
    }
}

/// The devices a bus can hold.
pub enum Device {
    Ram(RAM),
    Interruptor(Interruptor),
    Console(ConsolePort),
}

/// What a device looks like to the bus: memory contents, or the lines it raises.
pub ghost enum DeviceModel {
    Ram { mask: u16, memory: Seq<u8> },
    Interruptor { flags: u8 },
    Console { ppu: Seq<u8>, apu: Seq<u8>, cartridge: AnyMapper, accesses: Seq<IoAccess> },
}

impl Device {
    pub open spec fn model(&self) -> DeviceModel {
        match self {
            Device::Ram(r) => DeviceModel::Ram { mask: r.address_mask, memory: r.memory@ },
            Device::Interruptor(i) => DeviceModel::Interruptor { flags: i.flags },
            Device::Console(p) => DeviceModel::Console {
                ppu: p.ppu_registers@, apu: p.apu_registers@, cartridge: p.cartridge, accesses: p.accesses@,
            },
        }
    }

    pub open spec fn wf(&self) -> bool {
        match self {
            Device::Ram(r) => r.wf(),
            Device::Interruptor(_) => true,
            Device::Console(p) => p.wf(),
        }
    }
}

impl Device {
    /// Checks `wf`.
    pub fn is_wf(&self) -> (r: bool)
        ensures
            r == self.wf(),
    {
        match self {
            Device::Ram(r) => r.memory.len() == (r.address_mask as usize) + 1,
            Device::Interruptor(_) => true,
            Device::Console(p) => p.cartridge.is_consistent(),
        }
    }

    pub fn read_device(&mut self, addr: u16) -> (r: u8)
        requires
            old(self).wf(),
        ensures
            final(self).wf(),
            final(self).model() == old(self).model().touched(addr),
            r == old(self).model().read(addr),
    {
        match self {
            Device::Ram(ram) => ram.read_byte(addr),
            Device::Interruptor(_) => 0,
            Device::Console(p) => p.read(addr),
        }
    }

    /// What a read of `addr` gives, with nothing kept.
    pub fn peek_device(&mut self, addr: u16) -> (r: u8)
        requires
            old(self).wf(),
        ensures
            final(self).wf(),
            final(self).model() == old(self).model(),
            r == old(self).model().read(addr),
    {
        match self {
            Device::Ram(ram) => ram.read_byte(addr),
            Device::Interruptor(_) => 0,
            Device::Console(p) => p.value_of(addr),
        }
    }

    pub fn write_device(&mut self, addr: u16, data: u8) -> (r: u8)
        requires
            old(self).wf(),
        ensures
            final(self).wf(),
            final(self).model() == old(self).model().write(addr, data),
            r == old(self).model().read(addr),
    {
        match self {
            Device::Ram(ram) => ram.write_byte(addr, data),
            Device::Interruptor(_) => 0,
            Device::Console(p) => p.write(addr, data),
        }
    }
}

impl DeviceModel {
    pub open spec fn wf(self) -> bool {
        match self {
            DeviceModel::Ram { mask, memory } => memory.len() == mask as nat + 1,
            DeviceModel::Interruptor { .. } => true,
            DeviceModel::Console { cartridge, .. } => cartridge.inv(),
        }
    }

    pub open spec fn read(self, addr: u16) -> u8 {
        match self {
            DeviceModel::Ram { mask, memory } => memory[(addr & mask) as int],
            DeviceModel::Interruptor { .. } => 0,
            DeviceModel::Console { ppu, apu, cartridge, .. } => console_read(ppu, apu, cartridge, addr),
        }
    }

    pub open spec fn write(self, addr: u16, data: u8) -> DeviceModel {
        match self {
            DeviceModel::Ram { mask, memory } => DeviceModel::Ram {
                mask,
                memory: memory.update((addr & mask) as int, data),
            },
            DeviceModel::Interruptor { flags } => DeviceModel::Interruptor { flags },
            DeviceModel::Console { ppu, apu, cartridge, accesses } => DeviceModel::Console {
                ppu, apu, cartridge, accesses: accesses.push(IoAccess::Write(addr, data)),
            },
        }
    }

    /// The device after a read of `addr`: a console port keeps the access.
    pub open spec fn touched(self, addr: u16) -> DeviceModel {
        match self {
            DeviceModel::Console { ppu, apu, cartridge, accesses } => DeviceModel::Console {
                ppu, apu, cartridge, accesses: accesses.push(IoAccess::Read(addr)),
            },
            _ => self,
        }
    }

    pub open spec fn old_value(self, addr: u16) -> u8 {
        self.read(addr)
    }

    pub open spec fn irq_lines(self) -> u8 {
        match self {
            DeviceModel::Ram { .. } => 0,
            DeviceModel::Interruptor { flags } => flags,
            DeviceModel::Console { .. } => 0,
        }
    }
}

pub type AddrRange = (u16, u16);

pub open spec fn in_range(range: AddrRange, addr: u16) -> bool {
    range.0 <= addr && addr <= range.1
}

/// What a read of `addr` gives on a bus: the first device whose range holds it, or 0.
pub open spec fn bus_read(devices: Seq<(AddrRange, DeviceModel)>, addr: u16) -> u8
    decreases devices.len(),
{
    if devices.len() == 0 {
        0
    } else if in_range(devices[0].0, addr) {
        devices[0].1.read(addr)
    } else {
        bus_read(devices.drop_first(), addr)
    }
}

/// The index of the device that answers `addr`, or the number of devices when none does.
pub open spec fn bus_target(devices: Seq<(AddrRange, DeviceModel)>, addr: u16) -> int
    decreases devices.len(),
{
    if devices.len() == 0 {
        0
    } else if in_range(devices[0].0, addr) {
        0
    } else {
        1 + bus_target(devices.drop_first(), addr)
    }
}

/// The bus after a write of `data` to `addr`: only the answering device changes.
pub open spec fn bus_write(devices: Seq<(AddrRange, DeviceModel)>, addr: u16, data: u8) -> Seq<(AddrRange, DeviceModel)> {
    let t = bus_target(devices, addr);
    if t < devices.len() {
        devices.update(t, (devices[t].0, devices[t].1.write(addr, data)))
    } else {
        devices
    }
}

/// The bus after a read of `addr`: only the answering device changes, and only a
/// console port, which keeps the access.
pub open spec fn bus_touch(devices: Seq<(AddrRange, DeviceModel)>, addr: u16) -> Seq<(AddrRange, DeviceModel)> {
    let t = bus_target(devices, addr);
    if t < devices.len() {
        devices.update(t, (devices[t].0, devices[t].1.touched(addr)))
    } else {
        devices
    }
}

/// A read leaves the number of devices, their ranges and the interrupt lines.
pub broadcast proof fn lemma_touch_layout(devices: Seq<(AddrRange, DeviceModel)>, addr: u16)
    ensures
        #[trigger] bus_touch(devices, addr).len() == devices.len(),
        bus_lines(bus_touch(devices, addr)) == bus_lines(devices),
        forall|i: int| 0 <= i < devices.len() ==> (#[trigger] bus_touch(devices, addr)[i]).0 == devices[i].0,
{
    lemma_touch_keeps(devices, addr, addr);
}

/// A read changes no value a later read gives.
pub broadcast proof fn lemma_touch_read(devices: Seq<(AddrRange, DeviceModel)>, addr: u16, other: u16)
    ensures
        #[trigger] bus_read(bus_touch(devices, addr), other) == bus_read(devices, other),
{
    lemma_touch_keeps(devices, addr, other);
}

/// A read changes no device a later access goes to.
pub broadcast proof fn lemma_touch_target(devices: Seq<(AddrRange, DeviceModel)>, addr: u16, other: u16)
    ensures
        #[trigger] bus_target(bus_touch(devices, addr), other) == bus_target(devices, other),
{
    lemma_touch_keeps(devices, addr, other);
}

pub broadcast group group_touch {
    lemma_touch_layout,
    lemma_touch_read,
    lemma_touch_target,
}

/// A read that RAM answers changes nothing.
pub proof fn lemma_touch_ram(devices: Seq<(AddrRange, DeviceModel)>, addr: u16)
    requires
        bus_target(devices, addr) < devices.len() ==> devices[bus_target(devices, addr)].1 is Ram,
    ensures
        bus_touch(devices, addr) == devices,
{
    lemma_bus_target(devices, addr);
    let t = bus_target(devices, addr);
    if t < devices.len() {
        assert(devices[t].1.touched(addr) == devices[t].1);
        assert(devices.update(t, (devices[t].0, devices[t].1)) =~= devices);
    }
}

/// A read changes no range, no value a read gives and no interrupt line.
pub proof fn lemma_touch_keeps(devices: Seq<(AddrRange, DeviceModel)>, addr: u16, other: u16)
    ensures
        bus_touch(devices, addr).len() == devices.len(),
        bus_read(bus_touch(devices, addr), other) == bus_read(devices, other),
        bus_target(bus_touch(devices, addr), other) == bus_target(devices, other),
        bus_lines(bus_touch(devices, addr)) == bus_lines(devices),
        forall|i: int| 0 <= i < devices.len() ==> (#[trigger] bus_touch(devices, addr)[i]).0 == devices[i].0,
{
    let t = bus_target(devices, addr);
    let d2 = bus_touch(devices, addr);
    lemma_bus_target(devices, addr);
    assert forall|i: int| 0 <= i < devices.len() implies (#[trigger] d2[i]).0 == devices[i].0 by {}
    lemma_target_by_ranges(devices, d2, other);
    lemma_bus_target(devices, other);
    lemma_bus_target(d2, other);
    let u = bus_target(devices, other);
    if t < devices.len() && u < devices.len() && u == t {
        assert(d2[t].1.read(other) == devices[t].1.read(other));
    }
    assert forall|i: int| 0 <= i < devices.len() implies (#[trigger] devices[i]).1.irq_lines() == d2[i].1.irq_lines() by {
        if i == t {
            assert(d2[i].1 == devices[i].1.touched(addr));
        }
    }
    lemma_lines_by_models(devices, d2);
}

/// Devices raising the same lines raise the same lines together.
proof fn lemma_lines_by_models(d1: Seq<(AddrRange, DeviceModel)>, d2: Seq<(AddrRange, DeviceModel)>)
    requires
        d1.len() == d2.len(),
        forall|i: int| 0 <= i < d1.len() ==> (#[trigger] d1[i]).1.irq_lines() == d2[i].1.irq_lines(),
    ensures
        bus_lines(d1) == bus_lines(d2),
    decreases d1.len(),
{
    if d1.len() > 0 {
        assert forall|i: int| 0 <= i < d1.drop_last().len() implies (#[trigger] d1.drop_last()[i]).1.irq_lines()
            == d2.drop_last()[i].1.irq_lines() by {
            assert(d1.drop_last()[i] == d1[i] && d2.drop_last()[i] == d2[i]);
        }
        lemma_lines_by_models(d1.drop_last(), d2.drop_last());
    }
}

/// The interrupt lines raised by all the devices together.
pub open spec fn bus_lines(devices: Seq<(AddrRange, DeviceModel)>) -> u8
    decreases devices.len(),
{
    if devices.len() == 0 {
        0
    } else {
        devices.last().1.irq_lines() | bus_lines(devices.drop_last())
    }
}

pub proof fn lemma_bus_target(devices: Seq<(AddrRange, DeviceModel)>, addr: u16)
    ensures
        0 <= bus_target(devices, addr) <= devices.len(),
        bus_target(devices, addr) < devices.len() ==> {
            &&& in_range(devices[bus_target(devices, addr)].0, addr)
            &&& bus_read(devices, addr) == devices[bus_target(devices, addr)].1.read(addr)
        },
        bus_target(devices, addr) == devices.len() ==> bus_read(devices, addr) == 0,
        forall|j: int| 0 <= j < bus_target(devices, addr) ==> !in_range(#[trigger] devices[j].0, addr),
    decreases devices.len(),
{
    if devices.len() > 0 && !in_range(devices[0].0, addr) {
        lemma_bus_target(devices.drop_first(), addr);
        assert forall|j: int| 0 <= j < bus_target(devices, addr) implies !in_range(#[trigger] devices[j].0, addr) by {
            if j > 0 {
                assert(devices[j] == devices.drop_first()[j - 1]);
            }
        }
    }
}

/// Which device answers an address depends on the ranges alone.
pub proof fn lemma_target_by_ranges(d1: Seq<(AddrRange, DeviceModel)>, d2: Seq<(AddrRange, DeviceModel)>, addr: u16)
    requires
        d1.len() == d2.len(),
        forall|i: int| 0 <= i < d1.len() ==> (#[trigger] d1[i]).0 == d2[i].0,
    ensures
        bus_target(d1, addr) == bus_target(d2, addr),
    decreases d1.len(),
{
    if d1.len() > 0 {
        assert(d1[0].0 == d2[0].0);
        assert forall|i: int| 0 <= i < d1.drop_first().len() implies (#[trigger] d1.drop_first()[i]).0 == d2.drop_first()[i].0 by {
            assert(d1[i + 1].0 == d2[i + 1].0);
        }
        lemma_target_by_ranges(d1.drop_first(), d2.drop_first(), addr);
    }
}

/// A read gives back what a write put at the same address, where RAM answers it.
pub proof fn law_read_after_write(devices: Seq<(AddrRange, DeviceModel)>, addr: u16, data: u8)
    requires
        bus_target(devices, addr) < devices.len(),
        devices[bus_target(devices, addr)].1 is Ram,
        devices[bus_target(devices, addr)].1.wf(),
    ensures
        bus_read(bus_write(devices, addr, data), addr) == data,
{
    let t = bus_target(devices, addr);
    let written = bus_write(devices, addr, data);
    lemma_bus_target(devices, addr);
    assert forall|i: int| 0 <= i < devices.len() implies (#[trigger] devices[i]).0 == written[i].0 by {}
    lemma_target_by_ranges(devices, written, addr);
    lemma_bus_target(written, addr);
    match devices[t].1 {
        DeviceModel::Ram { mask, memory } => {
            crate::bits::lemma_and_bound16(addr, mask);
        },
        _ => {},
    }
}

/// A write leaves every other cell of RAM as it was: a read of an address that
/// selects another cell, or that another device answers, is unchanged.
pub proof fn law_write_elsewhere(devices: Seq<(AddrRange, DeviceModel)>, addr: u16, data: u8, other: u16)
    requires
        bus_target(devices, addr) < devices.len() ==> devices[bus_target(devices, addr)].1.wf(),
        bus_target(devices, other) != bus_target(devices, addr) || ({
            let t = bus_target(devices, addr);
            &&& t < devices.len()
            &&& (devices[t].1 matches DeviceModel::Ram { mask, .. } && (other & mask) != (addr & mask))
        }),
    ensures
        bus_read(bus_write(devices, addr, data), other) == bus_read(devices, other),
{
    let written = bus_write(devices, addr, data);
    lemma_bus_target(devices, addr);
    lemma_bus_target(devices, other);
    assert forall|i: int| 0 <= i < devices.len() implies (#[trigger] devices[i]).0 == written[i].0 by {}
    lemma_target_by_ranges(devices, written, other);
    lemma_bus_target(written, other);
    let t = bus_target(devices, addr);
    let u = bus_target(devices, other);
    if t < devices.len() && u < devices.len() {
        if u != t {
            assert(written[u] == devices[u]);
        } else {
            match devices[t].1 {
                DeviceModel::Ram { mask, memory } => {
                    crate::bits::lemma_and_bound16(addr, mask);
                    crate::bits::lemma_and_bound16(other, mask);
                    assert(written[t].1 == (DeviceModel::Ram { mask, memory: memory.update((addr & mask) as int, data) }));
                },
                _ => {},
            }
        }
    }
}

/// Adding a device leaves every address that an earlier device answers with that
/// device: reads of it give what they gave before.
pub proof fn law_add_device_keeps_earlier(devices: Seq<(AddrRange, DeviceModel)>, added: (AddrRange, DeviceModel), addr: u16)
    requires
        bus_target(devices, addr) < devices.len(),
    ensures
        bus_target(devices.push(added), addr) == bus_target(devices, addr),
        bus_read(devices.push(added), addr) == bus_read(devices, addr),
    decreases devices.len(),
{
    let pushed = devices.push(added);
    if devices.len() > 0 && !in_range(devices[0].0, addr) {
        assert(pushed.drop_first() =~= devices.drop_first().push(added));
        law_add_device_keeps_earlier(devices.drop_first(), added, addr);
    }
}

/// A write that the second of two devices answers, when that device is a console port,
/// changes only the port's list of accesses, which takes it at the end.
pub proof fn lemma_write_to_port(devices: Seq<(AddrRange, DeviceModel)>, addr: u16, data: u8)
    requires
        devices.len() == 2,
        !in_range(devices[0].0, addr),
        in_range(devices[1].0, addr),
        devices[1].1 is Console,
    ensures
        bus_write(devices, addr, data) == devices.update(1, (devices[1].0, devices[1].1.write(addr, data))),
{
    assert(devices.drop_first()[0] == devices[1]);
    assert(bus_target(devices.drop_first(), addr) == 0);
    assert(bus_target(devices, addr) == 1);
}

/// A set of devices, each answering the addresses of its range.
pub struct Bus {
    pub bus_devices: Vec<(AddrRange, Device)>,
}

impl View for Bus {
    type V = Seq<(AddrRange, DeviceModel)>;

    open spec fn view(&self) -> Seq<(AddrRange, DeviceModel)> {
        self.bus_devices@.map_values(|e: (AddrRange, Device)| (e.0, e.1.model()))
    }
}

impl Bus {
    pub open spec fn wf(&self) -> bool {
        forall|i: int| 0 <= i < self.bus_devices@.len() ==> (#[trigger] self.bus_devices@[i]).1.wf()
    }

    /// Checks `wf`.
    pub fn is_wf(&self) -> (r: bool)
        ensures
            r == self.wf(),
    {
        let mut i: usize = 0;
        while i < self.bus_devices.len()
            invariant
                i <= self.bus_devices@.len(),
                forall|j: int| 0 <= j < i ==> (#[trigger] self.bus_devices@[j]).1.wf(),
            decreases self.bus_devices@.len() - i,
        {
            if !self.bus_devices[i].1.is_wf() {
                return false;
            }
            i = i + 1;
        }
        true
    }

    pub fn new() -> (r: Bus)
        ensures
            r.wf(),
            r@ == Seq::<(AddrRange, DeviceModel)>::empty(),
    {
        Bus { bus_devices: Vec::new() }
    }

    /// Adds a device behind the ones already there.
    pub fn add_device(&mut self, device: Device)
        requires
            old(self).wf(),
            device.wf(),
        ensures
            final(self).wf(),
            final(self)@ == old(self)@.push((Bus::range_of(device.model(), device), device.model())),
    {
        let range = match &device {
            Device::Ram(r) => (r.start_address, r.end_address),
            Device::Interruptor(_) => (0xFFFFu16, 0x0000u16),
            Device::Console(_) => (0x2000u16, 0xFFFFu16),
        };
        self.bus_devices.push((range, device));
        assert(self@ =~= old(self)@.push((range, device.model())));
    }

    /// The range a device claims when it is added.
    pub open spec fn range_of(model: DeviceModel, device: Device) -> AddrRange {
        match device {
            Device::Ram(r) => (r.start_address, r.end_address),
            Device::Interruptor(_) => (0xFFFFu16, 0x0000u16),
            Device::Console(_) => (0x2000u16, 0xFFFFu16),
        }
    }

    pub fn read(&mut self, addr: u16) -> (r: u8)
        requires
            old(self).wf(),
        ensures
            final(self).wf(),
            final(self)@ == bus_touch(old(self)@, addr),
            r == bus_read(old(self)@, addr),
    {
        proof { lemma_bus_target(self@, addr); }
        let mut i: usize = 0;
        while i < self.bus_devices.len()
            invariant
                self.wf(),
                self@ == old(self)@,
                i <= self.bus_devices@.len(),
                forall|j: int| 0 <= j < i ==> !in_range(#[trigger] self@[j].0, addr),
                0 <= bus_target(self@, addr) <= self@.len(),
                bus_target(self@, addr) < self@.len() ==> {
                    &&& in_range(self@[bus_target(self@, addr)].0, addr)
                    &&& bus_read(self@, addr) == self@[bus_target(self@, addr)].1.read(addr)
                },
                bus_target(self@, addr) == self@.len() ==> bus_read(self@, addr) == 0,
                forall|j: int| 0 <= j < bus_target(self@, addr) ==> !in_range(#[trigger] self@[j].0, addr),
            decreases self.bus_devices@.len() - i,
        {
            let range = self.bus_devices[i].0;
            if range.0 <= addr && addr <= range.1 {
                proof {
                    assert(in_range(self@[i as int].0, addr));
                    if bus_target(self@, addr) > i {
                        assert(!in_range(self@[i as int].0, addr));
                    }
                    assert(bus_target(self@, addr) == i);
                }
                let ghost before = self@;
                assert(self.bus_devices@[i as int].1.wf());
                assert(self@[i as int].1 == self.bus_devices@[i as int].1.model());
                let r = self.bus_devices[i].1.read_device(addr);
                assert(self@ =~= bus_touch(before, addr));
                return r;
            }
            i = i + 1;
        }
        assert(bus_target(self@, addr) == self@.len());
        assert(self@ =~= bus_touch(old(self)@, addr));
        0
    }

    /// What a read of `addr` gives, leaving every device as it is.
    pub fn peek(&mut self, addr: u16) -> (r: u8)
        requires
            old(self).wf(),
        ensures
            final(self).wf(),
            final(self)@ == old(self)@,
            r == bus_read(old(self)@, addr),
    {
        proof { lemma_bus_target(self@, addr); }
        let mut i: usize = 0;
        while i < self.bus_devices.len()
            invariant
                self.wf(),
                self@ == old(self)@,
                i <= self.bus_devices@.len(),
                forall|j: int| 0 <= j < i ==> !in_range(#[trigger] self@[j].0, addr),
                0 <= bus_target(self@, addr) <= self@.len(),
                bus_target(self@, addr) < self@.len() ==> {
                    &&& in_range(self@[bus_target(self@, addr)].0, addr)
                    &&& bus_read(self@, addr) == self@[bus_target(self@, addr)].1.read(addr)
                },
                bus_target(self@, addr) == self@.len() ==> bus_read(self@, addr) == 0,
                forall|j: int| 0 <= j < bus_target(self@, addr) ==> !in_range(#[trigger] self@[j].0, addr),
            decreases self.bus_devices@.len() - i,
        {
            let range = self.bus_devices[i].0;
            if range.0 <= addr && addr <= range.1 {
                proof {
                    assert(in_range(self@[i as int].0, addr));
                    if bus_target(self@, addr) > i {
                        assert(!in_range(self@[i as int].0, addr));
                    }
                    assert(bus_target(self@, addr) == i);
                }
                let ghost before = self@;
                assert(self.bus_devices@[i as int].1.wf());
                assert(self@[i as int].1 == self.bus_devices@[i as int].1.model());
                let r = self.bus_devices[i].1.peek_device(addr);
                assert(self@ =~= before);
                return r;
            }
            i = i + 1;
        }
        assert(bus_target(self@, addr) == self@.len());
        0
    }

    pub fn write(&mut self, addr: u16, data: u8) -> (r: u8)
        requires
            old(self).wf(),
        ensures
            final(self).wf(),
            final(self)@ == bus_write(old(self)@, addr, data),
            r == bus_read(old(self)@, addr),
    {
        proof { lemma_bus_target(self@, addr); }
        let ghost before = self@;
        let mut i: usize = 0;
        while i < self.bus_devices.len()
            invariant
                self.wf(),
                self@ == before,
                before == old(self)@,
                i <= self.bus_devices@.len(),
                forall|j: int| 0 <= j < i ==> !in_range(#[trigger] self@[j].0, addr),
                0 <= bus_target(self@, addr) <= self@.len(),
                bus_target(self@, addr) < self@.len() ==> {
                    &&& in_range(self@[bus_target(self@, addr)].0, addr)
                    &&& bus_read(self@, addr) == self@[bus_target(self@, addr)].1.read(addr)
                },
                bus_target(self@, addr) == self@.len() ==> bus_read(self@, addr) == 0,
                forall|j: int| 0 <= j < bus_target(self@, addr) ==> !in_range(#[trigger] self@[j].0, addr),
            decreases self.bus_devices@.len() - i,
        {
            let range = self.bus_devices[i].0;
            if range.0 <= addr && addr <= range.1 {
                proof {
                    assert(in_range(self@[i as int].0, addr));
                    if bus_target(self@, addr) > i {
                        assert(!in_range(self@[i as int].0, addr));
                    }
                    assert(bus_target(self@, addr) == i);
                }
                assert(self.bus_devices@[i as int].1.wf());
                assert(self@[i as int].1 == self.bus_devices@[i as int].1.model());
                let r = self.bus_devices[i].1.write_device(addr, data);
                assert(self@ =~= bus_write(before, addr, data));
                return r;
            }
            i = i + 1;
        }
        assert(bus_target(self@, addr) == self@.len());
        assert(self@ =~= bus_write(before, addr, data));
        0
    }

    /// The interrupt lines raised by the devices on this clock.
    pub fn clock(&mut self) -> (r: u8)
        requires
            old(self).wf(),
        ensures
            final(self).wf(),
            final(self)@ == old(self)@,
            r == bus_lines(old(self)@),
    {
        let mut flags: u8 = 0;
        let mut i: usize = 0;
        while i < self.bus_devices.len()
            invariant
                self.wf(),
                i <= self.bus_devices@.len(),
                flags == bus_lines(self@.subrange(0, i as int)),
            decreases self.bus_devices@.len() - i,
        {
            let lines = match &self.bus_devices[i].1 {
                Device::Ram(_) => 0u8,
                Device::Interruptor(d) => d.flags,
                Device::Console(_) => 0u8,
            };
            proof {
                let s = self@.subrange(0, i as int + 1);
                assert(s.drop_last() =~= self@.subrange(0, i as int));
                assert(s.last() == self@[i as int]);
            }
            flags = lines | flags;
            i = i + 1;
        }
        assert(self@.subrange(0, self@.len() as int) =~= self@);
        flags
    }
}

impl Default for Bus {
    fn default() -> (r: Bus)
        ensures
            r.wf(),
            r@ == Seq::<(AddrRange, DeviceModel)>::empty(),
    {
        Bus::new()
    }
}

} // verus!
