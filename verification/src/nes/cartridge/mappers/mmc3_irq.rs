use vstd::prelude::*;

use crate::bus::InterruptFlags;

verus! {

/// Address line A12 is watched for rising edges; after it falls, this many PPU
/// cycles must pass before a rise counts again.
pub const A12_SKIP_COUNT: u8 = 9;

/// Where address line A12 was last seen.
#[derive(Clone, Copy, PartialEq, Eq, Debug, Structural)]
pub enum A12State {
    /// Low, with the PPU cycles still to wait before a rise counts.
    WasLow(u8),
    WasHigh,
}

/// The scanline counter of the MMC3 family: it counts rises of PPU address line A12
/// and raises IRQ when it runs out.
#[derive(Clone, Copy, PartialEq, Eq, Debug, Structural)]
pub struct MMC3Irq {
    pub irq_latch: u8,
    pub irq_count: u8,
    pub irq_reload: bool,
    pub irq_enabled: bool,
    pub irq_occurred: bool,
    pub a12_state: A12State,
}

impl MMC3Irq {
    /// The registers at 0xC000-0xFFFF (even: latch, odd: reload, then disable, enable):
    /// what a write leaves and returns.
    pub open spec fn configured(&self, after: Self, addr: u16, value: u8, r: u8) -> bool {
        if addr <= 0xDFFF && addr % 2 == 0 {
            r == self.irq_latch && after == MMC3Irq { irq_latch: value, ..*self }
        } else if addr <= 0xDFFF {
            &&& r == (if self.irq_reload { 0xFFu8 } else { 0u8 })
            &&& after == MMC3Irq { irq_count: 0, irq_reload: true, ..*self }
        } else if addr % 2 == 0 {
            &&& r == (if !self.irq_enabled { 0xFFu8 } else { 0u8 })
            &&& after == MMC3Irq { irq_enabled: false, irq_occurred: false, ..*self }
        } else {
            &&& r == (if self.irq_enabled { 0xFFu8 } else { 0u8 })
            &&& after == MMC3Irq { irq_enabled: true, ..*self }
        }
    }

    /// A counted scanline: a pending reload or an empty counter loads the latch, else
    /// the counter drops; reaching zero raises the IRQ if it is enabled.
    pub open spec fn scanline_clocked(&self) -> Self {
        let count = if self.irq_reload || self.irq_count == 0 { self.irq_latch } else { (self.irq_count - 1) as u8 };
        MMC3Irq {
            irq_count: count,
            irq_reload: false,
            irq_occurred: if count == 0 { self.irq_enabled } else { self.irq_occurred },
            ..*self
        }
    }

    /// What an access to a PPU address does to the counter.
    pub open spec fn a12_checked(&self, addr: u16) -> Self {
        let high = addr & 0x1000 != 0;
        match self.a12_state {
            A12State::WasLow(n) => if high {
                let s = MMC3Irq { a12_state: A12State::WasHigh, ..*self };
                if n == 0 { s.scanline_clocked() } else { s }
            } else {
                *self
            },
            A12State::WasHigh => if high {
                *self
            } else {
                MMC3Irq { a12_state: A12State::WasLow((A12_SKIP_COUNT - 1) as u8), ..*self }
            },
        }
    }

    /// One PPU cycle: a low A12 waits one cycle less.
    pub open spec fn ppu_clocked(&self) -> Self {
        match self.a12_state {
            A12State::WasLow(n) => if n == 0 { *self } else { MMC3Irq { a12_state: A12State::WasLow((n - 1) as u8), ..*self } },
            A12State::WasHigh => *self,
        }
    }

    /// The interrupt lines the counter raises.
    pub open spec fn lines(&self) -> u8 {
        if self.irq_enabled && self.irq_occurred { InterruptFlags::IRQ } else { 0 }
    }

    /// The counter at power-on.
    pub open spec fn initial() -> MMC3Irq {
        MMC3Irq {
                irq_latch: 0,
                irq_count: 0,
                irq_reload: false,
                irq_enabled: false,
                irq_occurred: false,
                a12_state: A12State::WasLow(0),
            }
    }

    pub fn new() -> (r: MMC3Irq)
        ensures
            r == MMC3Irq::initial(),
    {
        MMC3Irq {
            irq_latch: 0,
            irq_reload: false,
            irq_enabled: false,
            irq_occurred: false,
            irq_count: 0,
            a12_state: A12State::WasLow(0),
        }
    }

    pub fn configure(&mut self, addr: u16, value: u8) -> (r: u8)
        requires
            0xC000 <= addr,
        ensures
            old(self).configured(*final(self), addr, value, r),
    {
        if addr <= 0xDFFF && addr % 2 == 0 {
            let old = self.irq_latch;
            self.irq_latch = value;
            old
        } else if addr <= 0xDFFF {
            let old = if self.irq_reload { 0xFF } else { 0 };
            self.irq_count = 0;
            self.irq_reload = true;
            old
        } else if addr % 2 == 0 {
            let old = if !self.irq_enabled { 0xFF } else { 0 };
            self.irq_enabled = false;
            self.irq_occurred = false;
            old
        } else {
            let old = if self.irq_enabled { 0xFF } else { 0 };
            self.irq_enabled = true;
            old
        }
    }

    pub fn check_a12(&mut self, addr: u16)
        ensures
            *final(self) == old(self).a12_checked(addr),
    {
        let a12_high = addr & 0b0001_0000_0000_0000 != 0;
        match self.a12_state {
            A12State::WasLow(n) => {
                if a12_high {
                    self.a12_state = A12State::WasHigh;
                    if n == 0 {
                        self.clock_scanline();
                    }
                }
            },
            A12State::WasHigh => {
                if !a12_high {
                    self.a12_state = A12State::WasLow(A12_SKIP_COUNT - 1);
                }
            },
        }
    }

    fn clock_scanline(&mut self)
        ensures
            *final(self) == old(self).scanline_clocked(),
    {
        if self.irq_reload || self.irq_count == 0 {
            self.irq_count = self.irq_latch;
            self.irq_reload = false;
        } else {
            self.irq_count = self.irq_count.wrapping_sub(1);
        }

        if self.irq_count == 0 {
            self.irq_occurred = self.irq_enabled;
        }
    }

    pub fn cpu_bus_clock(&mut self) -> (r: u8)
        ensures
            r == old(self).lines(),
            *final(self) == *old(self),
    {
        if self.irq_enabled && self.irq_occurred {
            InterruptFlags::IRQ
        } else {
            InterruptFlags::empty()
        }
    }

    pub fn ppu_bus_clock(&mut self)
        ensures
            *final(self) == old(self).ppu_clocked(),
    {
        match self.a12_state {
            A12State::WasLow(n) => {
                if n != 0 {
                    self.a12_state = A12State::WasLow(n.wrapping_sub(1));
                }
            },
            A12State::WasHigh => {},
        }
    }
}

/// The counter after `n` counted scanlines.
pub open spec fn scanlines_clocked(s: MMC3Irq, n: nat) -> MMC3Irq
    decreases n,
{
    if n == 0 { s } else { scanlines_clocked(s, (n - 1) as nat).scanline_clocked() }
}

/// After a reload with a latch of N (not 0) and with IRQs enabled, the counter counts
/// N, N-1, ... down one per scanline, and the IRQ is raised on scanline N + 1, not
/// before.
pub proof fn law_irq_after_latch_lines(s: MMC3Irq, n: nat)
    requires
        s.irq_reload,
        s.irq_enabled,
        !s.irq_occurred,
        s.irq_latch > 0,
        1 <= n <= s.irq_latch + 1,
    ensures
        scanlines_clocked(s, n).irq_count == s.irq_latch - (n - 1),
        scanlines_clocked(s, n).irq_occurred == (n == s.irq_latch + 1),
        !scanlines_clocked(s, n).irq_reload,
        scanlines_clocked(s, n).irq_enabled == s.irq_enabled,
        scanlines_clocked(s, n).irq_latch == s.irq_latch,
    decreases n,
{
    let prev = scanlines_clocked(s, (n - 1) as nat);
    assert(scanlines_clocked(s, n) == prev.scanline_clocked());
    if n > 1 {
        law_irq_after_latch_lines(s, (n - 1) as nat);
        assert(prev.irq_count > 0);
        assert(prev.scanline_clocked().irq_count == prev.irq_count - 1);
    } else {
        assert(prev == s);
    }
}

} // verus!
