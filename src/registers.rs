//! The SPI controller's register block, held as plain values.
//!
//! The driver owns one `SpiRegisters` value. Control registers are plain
//! fields; the two data FIFOs are byte queues. The transmit queue holds the
//! bytes written to `txdata` that the controller has not shifted out yet; the
//! receive queue holds the bytes shifted in that nobody has read from `rxdata`.
use vstd::prelude::*;

verus! {

/// Number of entries in each hardware FIFO.
pub const FIFO_DEPTH: usize = 8;

/// Number of values a 12-bit register field can hold.
pub const SCKDIV_RANGE: u32 = 4096;

/// Number of values a 3-bit watermark field can hold.
pub const MARK_RANGE: u32 = 8;

/// Chip-select framing mode.
#[derive(Clone, Copy, Debug, PartialEq, Eq, Structural)]
pub enum CsMode {
    /// Chip select is asserted per frame and released after it.
    Auto,
    /// Chip select stays asserted across frames.
    Hold,
    /// Chip select is never asserted.
    Off,
}

/// Number of data lines of a frame.
#[derive(Clone, Copy, Debug, PartialEq, Eq, Structural)]
pub enum Protocol {
    Single,
    Dual,
    Quad,
}

/// Bit order of a frame.
#[derive(Clone, Copy, Debug, PartialEq, Eq, Structural)]
pub enum Endian {
    /// Most significant bit first.
    Big,
    /// Least significant bit first.
    Little,
}

/// Direction of a frame on the data lines.
#[derive(Clone, Copy, Debug, PartialEq, Eq, Structural)]
pub enum Direction {
    Rx,
    Tx,
}

/// The control and status registers: everything but the data FIFOs.
#[derive(Clone, Copy, Debug, PartialEq, Eq, Structural)]
pub struct ControlRegisters {
    /// Serial clock divisor; only the low 12 bits are a field.
    pub sckdiv: u32,
    /// Clock phase bit of `sckmode`.
    pub pha: bool,
    /// Clock polarity bit of `sckmode`.
    pub pol: bool,
    /// Chip select id.
    pub csid: u32,
    /// Chip select default levels.
    pub csdef: u32,
    /// Chip select mode.
    pub csmode: CsMode,
    /// Frame format: protocol.
    pub proto: Protocol,
    /// Frame format: bit order.
    pub endian: Endian,
    /// Frame format: direction.
    pub dir: Direction,
    /// Frame format: bits per frame.
    pub frame_len: u32,
    /// Transmit watermark; only the low 3 bits are a field.
    pub txmark: u32,
    /// Receive watermark; only the low 3 bits are a field.
    pub rxmark: u32,
    /// Transmit watermark interrupt enable.
    pub ie_txwm: bool,
    /// Receive watermark interrupt enable.
    pub ie_rxwm: bool,
}

/// The whole register block of one SPI controller.
pub struct SpiRegisters {
    pub control: ControlRegisters,
    /// Bytes written to `txdata` and not yet shifted out, oldest first.
    pub tx_fifo: Vec<u8>,
    /// Bytes shifted in and not yet read from `rxdata`, oldest first.
    pub rx_fifo: Vec<u8>,
    /// Times chip select was released by switching from hold to auto mode,
    /// counted modulo 2^64.
    pub cs_releases: u64,
}

/// The register block as values: control registers and FIFO contents.
pub struct RegistersView {
    pub control: ControlRegisters,
    pub tx_fifo: Seq<u8>,
    pub rx_fifo: Seq<u8>,
    pub cs_releases: u64,
}

impl View for SpiRegisters {
    type V = RegistersView;

    open spec fn view(&self) -> RegistersView {
        RegistersView {
            control: self.control,
            tx_fifo: self.tx_fifo@,
            rx_fifo: self.rx_fifo@,
            cs_releases: self.cs_releases,
        }
    }
}

impl RegistersView {
    /// The transmit watermark condition: fewer entries in the transmit FIFO
    /// than the transmit watermark.
    pub open spec fn txwm_pending(self) -> bool {
        self.tx_fifo.len() < mark_field(self.control.txmark)
    }

    /// The receive watermark condition: more entries in the receive FIFO
    /// than the receive watermark.
    pub open spec fn rxwm_pending(self) -> bool {
        self.rx_fifo.len() > mark_field(self.control.rxmark)
    }
}

/// `n + 1`, wrapping to 0.
pub open spec fn count_up(n: u64) -> u64 {
    if n == u64::MAX {
        0
    } else {
        (n + 1) as u64
    }
}

/// Registers after `mode` is written to `csmode`. Switching from hold to
/// auto mode releases chip select, ending the frame.
pub open spec fn csmode_written(h: RegistersView, mode: CsMode) -> RegistersView {
    RegistersView {
        control: ControlRegisters { csmode: mode, ..h.control },
        cs_releases: if mode == CsMode::Auto && h.control.csmode == CsMode::Hold {
            count_up(h.cs_releases)
        } else {
            h.cs_releases
        },
        ..h
    }
}

/// Value of the 3-bit watermark field held in a register.
pub open spec fn mark_field(reg: u32) -> nat {
    (reg % MARK_RANGE) as nat
}

/// Value of the 12-bit divisor field held in a register.
pub open spec fn div_field(reg: u32) -> nat {
    (reg % SCKDIV_RANGE) as nat
}

impl SpiRegisters {
    /// The register block as it comes out of reset.
    pub fn new() -> (r: SpiRegisters)
        ensures
            r.control == reset_control(),
            r.tx_fifo@.len() == 0,
            r.rx_fifo@.len() == 0,
            r.cs_releases == 0,
    {
        SpiRegisters {
            control: ControlRegisters {
                sckdiv: 3,
                pha: false,
                pol: false,
                csid: 0,
                csdef: 0xffff_ffff,
                csmode: CsMode::Auto,
                proto: Protocol::Single,
                endian: Endian::Big,
                dir: Direction::Rx,
                frame_len: 8,
                txmark: 0,
                rxmark: 0,
                ie_txwm: false,
                ie_rxwm: false,
            },
            tx_fifo: Vec::new(),
            rx_fifo: Vec::new(),
            cs_releases: 0,
        }
    }

    /// Writes `mode` to `csmode`.
    pub fn write_csmode(&mut self, mode: CsMode)
        ensures
            final(self)@ == csmode_written(old(self)@, mode),
    {
        if mode == CsMode::Auto && self.control.csmode == CsMode::Hold {
            self.cs_releases = if self.cs_releases == u64::MAX {
                0
            } else {
                self.cs_releases + 1
            };
        }
        self.control.csmode = mode;
    }

    /// Pending bit `txwm` of the `ip` register.
    pub fn txwm_pending(&self) -> (r: bool)
        ensures
            r == self@.txwm_pending(),
    {
        self.tx_fifo.len() < (self.control.txmark % MARK_RANGE) as usize
    }

    /// Pending bit `rxwm` of the `ip` register.
    pub fn rxwm_pending(&self) -> (r: bool)
        ensures
            r == self@.rxwm_pending(),
    {
        self.rx_fifo.len() > (self.control.rxmark % MARK_RANGE) as usize
    }

    /// The `empty` flag of `rxdata`.
    pub fn rx_empty(&self) -> (r: bool)
        ensures
            r == (self.rx_fifo@.len() == 0),
    {
        self.rx_fifo.len() == 0
    }

    /// The `full` flag of `txdata`.
    pub fn tx_full(&self) -> (r: bool)
        ensures
            r == (self.tx_fifo@.len() >= FIFO_DEPTH),
    {
        self.tx_fifo.len() >= FIFO_DEPTH
    }

    /// Writes a byte to `txdata`: it joins the transmit FIFO.
    pub fn write_txdata(&mut self, val: u8)
        ensures
            final(self).control == old(self).control,
            final(self).tx_fifo@ == old(self).tx_fifo@.push(val),
            final(self).rx_fifo@ == old(self).rx_fifo@,
            final(self).cs_releases == old(self).cs_releases,
    {
        self.tx_fifo.push(val);
    }

    /// Writes `buf[start..end]` to `txdata`, in order.
    pub fn write_txdata_range(&mut self, buf: &Vec<u8>, start: usize, end: usize)
        requires
            start <= end <= buf@.len(),
        ensures
            final(self).control == old(self).control,
            final(self).tx_fifo@ == old(self).tx_fifo@ + buf@.subrange(start as int, end as int),
            final(self).rx_fifo@ == old(self).rx_fifo@,
            final(self).cs_releases == old(self).cs_releases,
    {
        let ghost tx0 = self.tx_fifo@;
        let mut i: usize = start;
        while i < end
            invariant
                start <= i <= end,
                end <= buf@.len(),
                self.control == old(self).control,
                self.tx_fifo@ == tx0 + buf@.subrange(start as int, i as int),
                self.rx_fifo@ == old(self).rx_fifo@,
                self.cs_releases == old(self).cs_releases,
            decreases end - i,
        {
            self.write_txdata(buf[i]);
            i = i + 1;
            assert(self.tx_fifo@ =~= tx0 + buf@.subrange(start as int, i as int));
        }
    }

    /// Reads `rxdata`: the oldest byte leaves the receive FIFO.
    pub fn read_rxdata(&mut self) -> (r: u8)
        requires
            old(self).rx_fifo@.len() > 0,
        ensures
            r == old(self).rx_fifo@[0],
            final(self).control == old(self).control,
            final(self).tx_fifo@ == old(self).tx_fifo@,
            final(self).rx_fifo@ == old(self).rx_fifo@.drop_first(),
            final(self).cs_releases == old(self).cs_releases,
    {
        self.rx_fifo.remove(0)
    }
}

/// Control register values after reset.
pub open spec fn reset_control() -> ControlRegisters {
    ControlRegisters {
        sckdiv: 3,
        pha: false,
        pol: false,
        csid: 0,
        csdef: 0xffff_ffff,
        csmode: CsMode::Auto,
        proto: Protocol::Single,
        endian: Endian::Big,
        dir: Direction::Rx,
        frame_len: 8,
        txmark: 0,
        rxmark: 0,
        ie_txwm: false,
        ie_rxwm: false,
    }
}

} // verus!
