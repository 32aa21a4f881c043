//! SPI master driver: configuration, blocking single-byte exchange, and the
//! interrupt-driven full-duplex transfer engine.
use vstd::math::min;
use vstd::prelude::*;

use crate::registers::{
    csmode_written, div_field, ControlRegisters, CsMode, Direction, Endian, Protocol, RegistersView, SpiRegisters,
    FIFO_DEPTH, SCKDIV_RANGE,
};

verus! {

/// Frequency of the clock the serial clock divisor divides, in hertz.
pub const REFERENCE_CLOCK_HZ: u32 = 8_000_000;

/// Lowest serial clock rate the 12-bit divisor reaches.
pub const MIN_RATE_HZ: u32 = 1954;

/// Highest serial clock rate: the reference clock itself.
pub const MAX_RATE_HZ: u32 = 8_000_000;

/// Most bytes pushed to the transmit FIFO in one burst: one slot of the FIFO
/// is left free so that the 3-bit receive watermark can count a whole burst.
pub const BURST_LEN: usize = 7;

/// Errors reported to callers.
#[derive(Clone, Copy, Debug, PartialEq, Eq, Structural)]
pub enum ErrorCode {
    /// The hardware does not agree with the driver's accounting.
    Fail,
    /// A transfer is in flight.
    Busy,
    /// An argument is out of range.
    InvalidArgument,
}

/// Level of the serial clock when idle.
#[derive(Clone, Copy, Debug, PartialEq, Eq, Structural)]
pub enum ClockPolarity {
    IdleLow,
    IdleHigh,
}

/// Clock edge on which data is sampled.
#[derive(Clone, Copy, Debug, PartialEq, Eq, Structural)]
pub enum ClockPhase {
    SampleLeading,
    SampleTrailing,
}

/// Function a GPIO pin is switched to.
#[derive(Clone, Copy, Debug, PartialEq, Eq, Structural)]
pub enum PinFunction {
    Gpio,
    Iof0,
    Iof1,
}

/// A GPIO pin that can be handed to a peripheral.
pub struct GpioPin {
    pub function: PinFunction,
}

impl GpioPin {
    /// Switches the pin to its first hardware function.
    pub fn iof0(&mut self)
        ensures
            final(self).function == PinFunction::Iof0,
    {
        self.function = PinFunction::Iof0;
    }
}

/// What a finished transfer hands back to the caller.
pub struct Completion {
    /// The buffer the bytes were sent from.
    pub write_buffer: Vec<u8>,
    /// The buffer the received bytes were stored in, if one was given.
    pub read_buffer: Option<Vec<u8>>,
    /// Number of bytes exchanged.
    pub len: usize,
    /// Outcome of the transfer.
    pub status: Result<(), ErrorCode>,
}

/// Receiver of finished transfers; called in interrupt context, so an
/// implementation must not block.
pub trait SpiMasterClient {
    /// Takes back the buffers of a finished transfer, with the number of
    /// bytes exchanged and the outcome.
    fn read_write_done(
        &mut self,
        write_buffer: Vec<u8>,
        read_buffer: Option<Vec<u8>>,
        len: usize,
        status: Result<(), ErrorCode>,
    );
}

/// Abstract state of the transfer engine.
pub struct TransferView {
    pub busy: bool,
    pub io_len: nat,
    pub tx_offset: nat,
    pub rx_offset: nat,
    pub write_buffer: Option<Seq<u8>>,
    pub read_buffer: Option<Seq<u8>>,
}

impl TransferView {
    /// The engine's invariant: received bytes never outrun sent bytes, sent
    /// bytes never outrun the transfer, and the engine holds buffers exactly
    /// while a transfer is in flight.
    pub open spec fn well_formed(self) -> bool {
        &&& self.rx_offset <= self.tx_offset <= self.io_len
        &&& self.busy == self.write_buffer.is_some()
        &&& self.busy ==> {
            &&& self.io_len <= self.write_buffer.unwrap().len()
            &&& self.read_buffer.is_some() ==> self.io_len <= self.read_buffer.unwrap().len()
        }
        &&& !self.busy ==> self.is_idle()
    }

    /// No transfer in flight, counters zero, no buffer held.
    pub open spec fn is_idle(self) -> bool {
        &&& !self.busy
        &&& self.io_len == 0
        &&& self.tx_offset == 0
        &&& self.rx_offset == 0
        &&& self.write_buffer.is_none()
        &&& self.read_buffer.is_none()
    }
}

/// Number of bytes a transfer exchanges: the requested length, capped by the
/// write buffer and, when there is one, by the read buffer.
pub open spec fn transfer_len(write_len: nat, read_len: Option<nat>, len: nat) -> nat {
    let tx_len = min(len as int, write_len as int) as nat;
    match read_len {
        Some(r) => min(tx_len as int, r as int) as nat,
        None => tx_len,
    }
}

/// Length of the burst that starts at `tx_offset`.
pub open spec fn burst_len(tx_offset: nat, io_len: nat) -> nat {
    min(BURST_LEN as int, io_len - tx_offset) as nat
}

/// `buf` with the bytes from `at` on overwritten by `data`.
pub open spec fn overwrite(buf: Seq<u8>, at: int, data: Seq<u8>) -> Seq<u8> {
    buf.subrange(0, at) + data + buf.subrange(at + data.len(), buf.len() as int)
}

/// Serial clock rate that a divisor field value gives.
pub open spec fn rate_of_div(div: nat) -> nat {
    REFERENCE_CLOCK_HZ as nat / (div + 1)
}

/// Length of an optional buffer, if present.
pub open spec fn opt_len(b: Option<Vec<u8>>) -> Option<nat> {
    match b {
        Some(v) => Some(v@.len()),
        None => None,
    }
}

/// Contents of an optional buffer, if present.
pub open spec fn opt_view(b: Option<Vec<u8>>) -> Option<Seq<u8>> {
    match b {
        Some(v) => Some(v@),
        None => None,
    }
}

/// The idle transfer state.
pub open spec fn idle_view() -> TransferView {
    TransferView {
        busy: false,
        io_len: 0,
        tx_offset: 0,
        rx_offset: 0,
        write_buffer: None,
        read_buffer: None,
    }
}

/// State right after a transfer of `write` (and `read`, if any) capped at
/// `len` is accepted.
pub open spec fn submitted_view(write: Seq<u8>, read: Option<Seq<u8>>, len: nat) -> TransferView {
    let read_len = match read {
        Some(b) => Some(b.len()),
        None => None,
    };
    let io_len = transfer_len(write.len(), read_len, len);
    TransferView {
        busy: true,
        io_len,
        tx_offset: burst_len(0, io_len),
        rx_offset: 0,
        write_buffer: Some(write),
        read_buffer: read,
    }
}

/// Registers right after a transfer is accepted: the first burst is in the
/// transmit FIFO, the receive watermark counts it (0 for a transfer of no
/// bytes), the transmit watermark is armed when more remains, and only the
/// receive interrupt is enabled.
pub open spec fn submitted_registers(h: RegistersView, v: TransferView) -> RegistersView {
    let n = v.tx_offset;
    RegistersView {
        control: ControlRegisters {
            rxmark: if n > 0 {
                (n - 1) as u32
            } else {
                0
            },
            txmark: if n < v.io_len { 1 } else { h.control.txmark },
            ie_txwm: false,
            ie_rxwm: true,
            ..h.control
        },
        tx_fifo: h.tx_fifo + v.write_buffer.unwrap().subrange(0, n as int),
        ..h
    }
}

/// The receive FIFO holds fewer bytes than were sent and not yet received:
/// the watermark accounting disagrees with the hardware.
pub open spec fn receive_fault(v: TransferView, h: RegistersView) -> bool {
    h.rxwm_pending() && h.rx_fifo.len() < v.tx_offset - v.rx_offset
}

/// The receive phase of an interrupt: when the receive watermark is
/// pending, every byte sent and not yet received is taken from the receive
/// FIFO and stored in the read buffer, if any; then, if bytes remain to be
/// sent, the transmit interrupt replaces the receive interrupt.
pub open spec fn receive_step(v: TransferView, h: RegistersView) -> (TransferView, RegistersView) {
    if h.rxwm_pending() {
        let owed = v.tx_offset - v.rx_offset;
        let data = h.rx_fifo.subrange(0, owed);
        let read_buffer = match v.read_buffer {
            Some(b) => Some(overwrite(b, v.rx_offset as int, data)),
            None => None,
        };
        let control = if v.tx_offset != v.io_len {
            ControlRegisters { ie_txwm: true, ie_rxwm: false, ..h.control }
        } else {
            h.control
        };
        (
            TransferView { rx_offset: v.tx_offset, read_buffer, ..v },
            RegistersView {
                control,
                rx_fifo: h.rx_fifo.subrange(owed, h.rx_fifo.len() as int),
                ..h
            },
        )
    } else {
        (v, h)
    }
}

/// Whether the transmit phase of an interrupt has work to do.
pub open spec fn transmit_runs(v: TransferView, h: RegistersView) -> bool {
    h.txwm_pending() && v.tx_offset < v.io_len
}

/// The next burst does not fit in the transmit FIFO.
pub open spec fn transmit_fault(v: TransferView, h: RegistersView) -> bool {
    transmit_runs(v, h) && h.tx_fifo.len() + burst_len(v.tx_offset, v.io_len) > FIFO_DEPTH
}

/// The transmit phase of an interrupt: when the transmit watermark is
/// pending and bytes remain, the next burst goes to the transmit FIFO, the
/// receive watermark is set to count it, and the receive interrupt
/// replaces the transmit interrupt.
pub open spec fn transmit_step(v: TransferView, h: RegistersView) -> (TransferView, RegistersView) {
    if transmit_runs(v, h) {
        let n = burst_len(v.tx_offset, v.io_len);
        let end = v.tx_offset + n;
        (
            TransferView { tx_offset: end, ..v },
            RegistersView {
                control: ControlRegisters {
                    rxmark: (n - 1) as u32,
                    ie_txwm: false,
                    ie_rxwm: true,
                    ..h.control
                },
                tx_fifo: h.tx_fifo + v.write_buffer.unwrap().subrange(v.tx_offset as int, end as int),
                ..h
            },
        )
    } else {
        (v, h)
    }
}

/// Every byte of the transfer in flight has been sent and received.
pub open spec fn completes(v: TransferView) -> bool {
    v.busy && v.tx_offset == v.io_len && v.rx_offset == v.io_len
}

/// The completion phase of an interrupt: a finished transfer ends its
/// frame by writing auto mode, which releases chip select, and then hold
/// mode again for the next transfer; it turns both watermark interrupts off
/// and returns to idle.
pub open spec fn complete_step(v: TransferView, h: RegistersView) -> (TransferView, RegistersView) {
    if completes(v) {
        let framed = csmode_written(csmode_written(h, CsMode::Auto), CsMode::Hold);
        (
            idle_view(),
            RegistersView {
                control: ControlRegisters { ie_txwm: false, ie_rxwm: false, ..framed.control },
                ..framed
            },
        )
    } else {
        (v, h)
    }
}

/// Whether an interrupt finds the hardware out of step with the driver.
pub open spec fn interrupt_fault(v: TransferView, h: RegistersView) -> bool {
    receive_fault(v, h) || transmit_fault(receive_step(v, h).0, receive_step(v, h).1)
}

/// State before the completion phase of an interrupt.
pub open spec fn exchange_step(v: TransferView, h: RegistersView) -> (TransferView, RegistersView) {
    transmit_step(receive_step(v, h).0, receive_step(v, h).1)
}

/// Everything one interrupt does, when the hardware agrees with the driver.
pub open spec fn interrupt_step(v: TransferView, h: RegistersView) -> (TransferView, RegistersView) {
    complete_step(exchange_step(v, h).0, exchange_step(v, h).1)
}

/// An SPI master driver owning its register block.
pub struct Spi {
    registers: SpiRegisters,
    busy: bool,
    tx_buf: Option<Vec<u8>>,
    rx_buf: Option<Vec<u8>>,
    io_len: usize,
    tx_offset: usize,
    rx_offset: usize,
}

impl View for Spi {
    type V = TransferView;

    closed spec fn view(&self) -> TransferView {
        TransferView {
            busy: self.busy,
            io_len: self.io_len as nat,
            tx_offset: self.tx_offset as nat,
            rx_offset: self.rx_offset as nat,
            write_buffer: opt_view(self.tx_buf),
            read_buffer: opt_view(self.rx_buf),
        }
    }
}

impl Spi {
    /// The register block the driver owns.
    pub closed spec fn regs(&self) -> SpiRegisters {
        self.registers
    }

    /// Read access to the register block.
    pub fn registers(&self) -> (r: &SpiRegisters)
        ensures
            *r == self.regs(),
    {
        &self.registers
    }

    /// Write access to the register block, as the hardware itself has: the
    /// transfer state is untouched.
    pub fn registers_mut(&mut self) -> (r: &mut SpiRegisters)
        ensures
            *r == old(self).regs(),
            final(self)@ == old(self)@,
            final(self).regs() == *final(r),
    {
        &mut self.registers
    }

    /// A driver for the given register block, with no transfer in flight.
    pub fn new(base: SpiRegisters) -> (r: Spi)
        ensures
            r@.is_idle(),
            r@.well_formed(),
            r.regs() == base,
    {
        Spi {
            registers: base,
            busy: false,
            tx_buf: None,
            rx_buf: None,
            io_len: 0,
            tx_offset: 0,
            rx_offset: 0,
        }
    }

    /// Puts the controller in its default configuration: clock mode 0,
    /// single-line MSB-first 8-bit frames, watermark interrupts off, every
    /// chip select unselected, chip select 0 chosen and held across frames.
    /// Any transfer state is cleared.
    pub fn init(&mut self) -> (r: Result<(), ErrorCode>)
        ensures
            r is Ok,
            final(self)@.is_idle(),
            final(self)@.well_formed(),
            final(self).regs().control == (ControlRegisters {
                pha: false,
                pol: false,
                proto: Protocol::Single,
                endian: Endian::Big,
                dir: Direction::Rx,
                frame_len: 8,
                ie_txwm: false,
                ie_rxwm: false,
                csdef: 0xffff_ffff,
                csid: 0,
                txmark: 0,
                csmode: CsMode::Hold,
                ..old(self).regs().control
            }),
            final(self).regs()@.tx_fifo == old(self).regs()@.tx_fifo,
            final(self).regs()@.rx_fifo == old(self).regs()@.rx_fifo,
            final(self).regs().cs_releases == old(self).regs().cs_releases,
    {
        self.registers.write_csmode(CsMode::Hold);
        let c = &mut self.registers.control;
        c.pha = false;
        c.pol = false;
        c.proto = Protocol::Single;
        c.endian = Endian::Big;
        c.dir = Direction::Rx;
        c.frame_len = 8;
        c.ie_txwm = false;
        c.ie_rxwm = false;
        c.csdef = 0xffff_ffff;
        c.csid = 0;
        c.txmark = 0;

        self.io_len = 0;
        self.tx_offset = 0;
        self.rx_offset = 0;
        self.tx_buf = None;
        self.rx_buf = None;
        self.busy = false;
        Ok(())
    }

    /// Whether a transfer is in flight.
    pub fn is_busy(&self) -> (r: bool)
        ensures
            r == self@.busy,
    {
        self.busy
    }

    /// First step of a blocking single-byte exchange: `val` joins the
    /// transmit FIFO. Refused with `Busy`, changing nothing, while a transfer
    /// is in flight. The caller then waits with `poll_received` for the byte
    /// shifted in.
    pub fn send_byte(&mut self, val: u8) -> (r: Result<(), ErrorCode>)
        ensures
            final(self)@ == old(self)@,
            old(self)@.busy ==> r == Err::<(), ErrorCode>(ErrorCode::Busy) && final(self).regs()@
                == old(self).regs()@,
            !old(self)@.busy ==> r is Ok && final(self).regs()@ == (RegistersView {
                tx_fifo: old(self).regs()@.tx_fifo.push(val),
                ..old(self).regs()@
            }),
    {
        if self.busy {
            return Err(ErrorCode::Busy);
        }
        self.registers.write_txdata(val);
        Ok(())
    }

    /// One look at the receive FIFO while waiting for the byte of a
    /// single-byte exchange: the oldest byte, which leaves the FIFO, or
    /// `None`, changing nothing, when the FIFO is empty. While a transfer is
    /// in flight its bytes are left to the interrupt handler and `None` is
    /// returned.
    pub fn poll_received(&mut self) -> (r: Option<u8>)
        ensures
            final(self)@ == old(self)@,
            old(self)@.busy || old(self).regs()@.rx_fifo.len() == 0 ==> r is None
                && final(self).regs()@ == old(self).regs()@,
            !old(self)@.busy && old(self).regs()@.rx_fifo.len() > 0 ==> r == Some(
                old(self).regs()@.rx_fifo[0],
            ) && final(self).regs()@ == (RegistersView {
                rx_fifo: old(self).regs()@.rx_fifo.drop_first(),
                ..old(self).regs()@
            }),
    {
        if self.busy || self.registers.rx_empty() {
            return None;
        }
        Some(self.registers.read_rxdata())
    }

    /// Chooses the chip select line of later transfers. There is no busy
    /// check: the id may change while a transfer is in flight.
    pub fn specify_chip_select(&mut self, cs: u8) -> (r: Result<(), ErrorCode>)
        ensures
            r is Ok,
            final(self)@ == old(self)@,
            final(self).regs()@ == (RegistersView {
                control: ControlRegisters { csid: cs as u32, ..old(self).regs()@.control },
                ..old(self).regs()@
            }),
    {
        self.registers.control.csid = cs as u32;
        Ok(())
    }

    /// Sets the serial clock rate. A rate outside
    /// `[MIN_RATE_HZ, MAX_RATE_HZ]` is refused with `InvalidArgument`, any
    /// rate while a transfer is in flight with `Busy`. Otherwise the divisor
    /// becomes `REFERENCE_CLOCK_HZ / rate - 1` and the requested rate is
    /// returned.
    pub fn set_rate(&mut self, rate: u32) -> (r: Result<u32, ErrorCode>)
        ensures
            final(self)@ == old(self)@,
            rate < MIN_RATE_HZ || rate > MAX_RATE_HZ ==> r == Err::<u32, ErrorCode>(
                ErrorCode::InvalidArgument,
            ),
            MIN_RATE_HZ <= rate <= MAX_RATE_HZ && old(self)@.busy ==> r == Err::<u32, ErrorCode>(
                ErrorCode::Busy,
            ),
            r is Err ==> final(self).regs()@ == old(self).regs()@,
            MIN_RATE_HZ <= rate <= MAX_RATE_HZ && !old(self)@.busy ==> {
                &&& r == Ok::<u32, ErrorCode>(rate)
                &&& final(self).regs()@ == (RegistersView {
                    control: ControlRegisters {
                        sckdiv: (REFERENCE_CLOCK_HZ / rate - 1) as u32,
                        ..old(self).regs()@.control
                    },
                    ..old(self).regs()@
                })
            },
    {
        if rate < MIN_RATE_HZ || rate > MAX_RATE_HZ {
            return Err(ErrorCode::InvalidArgument);
        }
        if self.busy {
            return Err(ErrorCode::Busy);
        }
        assert(REFERENCE_CLOCK_HZ / rate >= 1) by (nonlinear_arith)
            requires
                0 < rate <= REFERENCE_CLOCK_HZ,
        ;
        self.registers.control.sckdiv = REFERENCE_CLOCK_HZ / rate - 1;
        Ok(rate)
    }

    /// The serial clock rate the programmed divisor gives.
    pub fn get_rate(&self) -> (r: u32)
        ensures
            r == rate_of_div(div_field(self.regs().control.sckdiv)),
    {
        REFERENCE_CLOCK_HZ / (self.registers.control.sckdiv % SCKDIV_RANGE + 1)
    }

    /// Sets the clock polarity; refused with `Busy`, changing nothing, while
    /// a transfer is in flight.
    pub fn set_polarity(&mut self, polarity: ClockPolarity) -> (r: Result<(), ErrorCode>)
        ensures
            final(self)@ == old(self)@,
            old(self)@.busy ==> r == Err::<(), ErrorCode>(ErrorCode::Busy) && final(self).regs()@
                == old(self).regs()@,
            !old(self)@.busy ==> r is Ok && final(self).regs()@ == (RegistersView {
                control: ControlRegisters {
                    pol: polarity == ClockPolarity::IdleHigh,
                    ..old(self).regs()@.control
                },
                ..old(self).regs()@
            }),
    {
        if self.busy {
            return Err(ErrorCode::Busy);
        }
        self.registers.control.pol = match polarity {
            ClockPolarity::IdleLow => false,
            ClockPolarity::IdleHigh => true,
        };
        Ok(())
    }

    /// The programmed clock polarity.
    pub fn get_polarity(&self) -> (r: ClockPolarity)
        ensures
            r == (if self.regs().control.pol {
                ClockPolarity::IdleHigh
            } else {
                ClockPolarity::IdleLow
            }),
    {
        if self.registers.control.pol {
            ClockPolarity::IdleHigh
        } else {
            ClockPolarity::IdleLow
        }
    }

    /// Sets the clock phase; refused with `Busy`, changing nothing, while a
    /// transfer is in flight.
    pub fn set_phase(&mut self, phase: ClockPhase) -> (r: Result<(), ErrorCode>)
        ensures
            final(self)@ == old(self)@,
            old(self)@.busy ==> r == Err::<(), ErrorCode>(ErrorCode::Busy) && final(self).regs()@
                == old(self).regs()@,
            !old(self)@.busy ==> r is Ok && final(self).regs()@ == (RegistersView {
                control: ControlRegisters {
                    pha: phase == ClockPhase::SampleTrailing,
                    ..old(self).regs()@.control
                },
                ..old(self).regs()@
            }),
    {
        if self.busy {
            return Err(ErrorCode::Busy);
        }
        self.registers.control.pha = match phase {
            ClockPhase::SampleLeading => false,
            ClockPhase::SampleTrailing => true,
        };
        Ok(())
    }

    /// The programmed clock phase.
    pub fn get_phase(&self) -> (r: ClockPhase)
        ensures
            r == (if self.regs().control.pha {
                ClockPhase::SampleTrailing
            } else {
                ClockPhase::SampleLeading
            }),
    {
        if self.registers.control.pha {
            ClockPhase::SampleTrailing
        } else {
            ClockPhase::SampleLeading
        }
    }

    /// Holds chip select asserted across frames.
    pub fn hold_low(&mut self)
        ensures
            final(self)@ == old(self)@,
            final(self).regs()@ == csmode_written(old(self).regs()@, CsMode::Hold),
    {
        self.registers.write_csmode(CsMode::Hold);
    }

    /// Lets the controller release chip select after each frame; a chip
    /// select held until now is released.
    pub fn release_low(&mut self)
        ensures
            final(self)@ == old(self)@,
            final(self).regs()@ == csmode_written(old(self).regs()@, CsMode::Auto),
    {
        self.registers.write_csmode(CsMode::Auto);
    }

    /// Hands the four bus pins to the controller.
    pub fn initialize_gpio_pins(
        &self,
        cs: &mut GpioPin,
        mosi: &mut GpioPin,
        miso: &mut GpioPin,
        sck: &mut GpioPin,
    )
        ensures
            final(cs).function == PinFunction::Iof0,
            final(mosi).function == PinFunction::Iof0,
            final(miso).function == PinFunction::Iof0,
            final(sck).function == PinFunction::Iof0,
    {
        cs.iof0();
        mosi.iof0();
        miso.iof0();
        sck.iof0();
    }

    /// Starts a full-duplex transfer of `min(len, write_buffer.len())` bytes,
    /// capped by the read buffer's length when one is given. The first burst
    /// goes to the transmit FIFO at once; the interrupt handler does the rest
    /// and hands the buffers back on completion. An empty write buffer or a
    /// zero length is refused with `InvalidArgument`; otherwise a transfer
    /// while another is in flight is refused with `Busy`. Either way the
    /// buffers come back untouched and nothing changes. An empty read buffer
    /// makes a transfer of no bytes, which the handler completes at its next
    /// call.
    pub fn read_write_bytes(
        &mut self,
        write_buffer: Vec<u8>,
        read_buffer: Option<Vec<u8>>,
        len: usize,
    ) -> (r: Result<(), (ErrorCode, Vec<u8>, Option<Vec<u8>>)>)
        requires
            old(self)@.well_formed(),
        ensures
            final(self)@.well_formed(),
            min(len as int, write_buffer@.len() as int) == 0 ==> r == Err::<
                (),
                (ErrorCode, Vec<u8>, Option<Vec<u8>>),
            >((ErrorCode::InvalidArgument, write_buffer, read_buffer)),
            min(len as int, write_buffer@.len() as int) > 0 && old(self)@.busy ==> r == Err::<
                (),
                (ErrorCode, Vec<u8>, Option<Vec<u8>>),
            >((ErrorCode::Busy, write_buffer, read_buffer)),
            r is Err ==> final(self)@ == old(self)@ && final(self).regs()@ == old(self).regs()@,
            min(len as int, write_buffer@.len() as int) > 0 && !old(self)@.busy ==> {
                &&& r is Ok
                &&& final(self)@ == submitted_view(write_buffer@, opt_view(read_buffer), len as nat)
                &&& final(self).regs()@ == submitted_registers(old(self).regs()@, final(self)@)
            },
    {
        let tx_len = if len < write_buffer.len() {
            len
        } else {
            write_buffer.len()
        };
        if tx_len == 0 {
            return Err((ErrorCode::InvalidArgument, write_buffer, read_buffer));
        }
        if self.busy {
            return Err((ErrorCode::Busy, write_buffer, read_buffer));
        }
        let io_len = match &read_buffer {
            Some(rb) => if rb.len() < tx_len {
                rb.len()
            } else {
                tx_len
            },
            None => tx_len,
        };
        let burst = if io_len < BURST_LEN {
            io_len
        } else {
            BURST_LEN
        };
        self.registers.write_txdata_range(&write_buffer, 0, burst);

        self.busy = true;
        self.io_len = io_len;
        self.tx_offset = burst;
        self.rx_offset = 0;
        self.tx_buf = Some(write_buffer);
        self.rx_buf = read_buffer;

        // The receive watermark fires once the whole burst has come back.
        self.registers.control.rxmark = if burst > 0 {
            (burst - 1) as u32
        } else {
            0
        };
        // An empty transmit FIFO calls for the next burst.
        if burst < io_len {
            self.registers.control.txmark = 1;
        }
        self.registers.control.ie_txwm = false;
        self.registers.control.ie_rxwm = true;
        Ok(())
    }

    /// Moves every byte sent and not yet received out of the receive FIFO,
    /// into the read buffer when there is one.
    fn drain_rx_fifo(&mut self)
        requires
            old(self)@.well_formed(),
            old(self).regs()@.rxwm_pending(),
            !receive_fault(old(self)@, old(self).regs()@),
        ensures
            final(self)@ == receive_step(old(self)@, old(self).regs()@).0,
            final(self).regs()@.control == old(self).regs()@.control,
            final(self).regs()@.tx_fifo == old(self).regs()@.tx_fifo,
            final(self).regs()@.rx_fifo == receive_step(old(self)@, old(self).regs()@).1.rx_fifo,
            final(self).regs()@.cs_releases == old(self).regs()@.cs_releases,
    {
        let ghost v0 = self@;
        let ghost f0 = self.registers.rx_fifo@;
        let ghost r0 = self.rx_offset as int;
        match self.rx_buf.take() {
            None => {
                while self.rx_offset < self.tx_offset
                    invariant
                        r0 <= self.rx_offset <= self.tx_offset,
                        self.tx_offset == v0.tx_offset,
                        f0.len() >= v0.tx_offset - r0,
                        self.registers.rx_fifo@ == f0.subrange(self.rx_offset - r0, f0.len() as int),
                        self.registers.tx_fifo@ == old(self).regs()@.tx_fifo,
                        self.registers.control == old(self).regs()@.control,
                        self.registers.cs_releases == old(self).regs()@.cs_releases,
                        self.busy == v0.busy,
                        self.io_len == v0.io_len,
                        opt_view(self.tx_buf) == v0.write_buffer,
                        self.rx_buf.is_none(),
                        v0.read_buffer.is_none(),
                    decreases self.tx_offset - self.rx_offset,
                {
                    // Reading discards the byte but frees its FIFO entry.
                    let _ = self.registers.read_rxdata();
                    self.rx_offset = self.rx_offset + 1;
                    assert(self.registers.rx_fifo@ =~= f0.subrange(self.rx_offset - r0, f0.len() as int));
                }
            },
            Some(mut rx_buf) => {
                let ghost b0 = rx_buf@;
                while self.rx_offset < self.tx_offset
                    invariant
                        r0 <= self.rx_offset <= self.tx_offset,
                        self.tx_offset == v0.tx_offset,
                        self.tx_offset <= self.io_len,
                        self.io_len <= b0.len(),
                        f0.len() >= v0.tx_offset - r0,
                        self.registers.rx_fifo@ == f0.subrange(self.rx_offset - r0, f0.len() as int),
                        self.registers.tx_fifo@ == old(self).regs()@.tx_fifo,
                        self.registers.control == old(self).regs()@.control,
                        self.registers.cs_releases == old(self).regs()@.cs_releases,
                        self.busy == v0.busy,
                        self.io_len == v0.io_len,
                        opt_view(self.tx_buf) == v0.write_buffer,
                        self.rx_buf.is_none(),
                        v0.read_buffer == Some(b0),
                        rx_buf@.len() == b0.len(),
                        forall|i: int|
                            0 <= i < b0.len() ==> #[trigger] rx_buf@[i] == if r0 <= i < self.rx_offset {
                                f0[i - r0]
                            } else {
                                b0[i]
                            },
                    decreases self.tx_offset - self.rx_offset,
                {
                    let val = self.registers.read_rxdata();
                    rx_buf.set(self.rx_offset, val);
                    self.rx_offset = self.rx_offset + 1;
                    assert(self.registers.rx_fifo@ =~= f0.subrange(self.rx_offset - r0, f0.len() as int));
                }
                assert(rx_buf@ =~= overwrite(b0, r0, f0.subrange(0, v0.tx_offset - r0)));
                self.rx_buf = Some(rx_buf);
            },
        }
    }

    /// Sends the next burst of the transfer in flight.
    fn refill_tx_fifo(&mut self) -> (r: Result<(), ErrorCode>)
        requires
            old(self)@.well_formed(),
            transmit_runs(old(self)@, old(self).regs()@),
        ensures
            r is Err <==> transmit_fault(old(self)@, old(self).regs()@),
            r is Err ==> r == Err::<(), ErrorCode>(ErrorCode::Fail) && final(self)@ == old(self)@
                && final(self).regs()@ == old(self).regs()@,
            r is Ok ==> final(self)@ == transmit_step(old(self)@, old(self).regs()@).0
                && final(self).regs()@ == transmit_step(old(self)@, old(self).regs()@).1,
    {
        let start = self.tx_offset;
        let remaining = self.io_len - start;
        let n = if remaining < BURST_LEN {
            remaining
        } else {
            BURST_LEN
        };
        if self.registers.tx_full() || self.registers.tx_fifo.len() > FIFO_DEPTH - n {
            return Err(ErrorCode::Fail);
        }
        let end = start + n;
        match self.tx_buf.take() {
            Some(tx_buf) => {
                self.registers.write_txdata_range(&tx_buf, start, end);
                self.tx_buf = Some(tx_buf);
            },
            None => {},
        }
        self.tx_offset = end;
        // The receive watermark fires once the whole burst has come back.
        self.registers.control.rxmark = (n - 1) as u32;
        self.registers.control.ie_txwm = false;
        self.registers.control.ie_rxwm = true;
        Ok(())
    }

    /// Advances the transfer in flight by what the pending watermark
    /// conditions call for: the receive phase, then the transmit phase, then,
    /// when every byte has been sent and received, completion. On completion
    /// the buffers and the number of bytes exchanged come back, once per
    /// transfer, and the driver is idle again. If the FIFOs do not hold what
    /// the driver's accounting says they must, the hardware is out of step
    /// and `Fail` is returned, which callers treat as fatal: a receive fault
    /// leaves everything as it was, a transmit fault leaves the receive phase
    /// done and the transmit phase undone.
    pub fn handle_interrupt(&mut self) -> (r: Result<Option<Completion>, ErrorCode>)
        requires
            old(self)@.well_formed(),
        ensures
            final(self)@.well_formed(),
            r is Err <==> interrupt_fault(old(self)@, old(self).regs()@),
            r is Err ==> r == Err::<Option<Completion>, ErrorCode>(ErrorCode::Fail),
            receive_fault(old(self)@, old(self).regs()@) ==> final(self)@ == old(self)@
                && final(self).regs()@ == old(self).regs()@,
            !receive_fault(old(self)@, old(self).regs()@) && r is Err ==> {
                &&& final(self)@ == receive_step(old(self)@, old(self).regs()@).0
                &&& final(self).regs()@ == receive_step(old(self)@, old(self).regs()@).1
            },
            r is Ok ==> {
                let v = exchange_step(old(self)@, old(self).regs()@).0;
                &&& final(self)@ == interrupt_step(old(self)@, old(self).regs()@).0
                &&& final(self).regs()@ == interrupt_step(old(self)@, old(self).regs()@).1
                &&& r.unwrap() is Some <==> completes(v)
                &&& r.unwrap() is Some ==> {
                    let c = r.unwrap().unwrap();
                    &&& c.len == v.io_len
                    &&& Some(c.write_buffer@) == v.write_buffer
                    &&& opt_view(c.read_buffer) == v.read_buffer
                    &&& c.status is Ok
                }
            },
    {
        if self.registers.rxwm_pending() {
            if self.registers.rx_fifo.len() < self.tx_offset - self.rx_offset {
                return Err(ErrorCode::Fail);
            }
            self.drain_rx_fifo();
            if self.tx_offset != self.io_len {
                self.registers.control.ie_txwm = true;
                self.registers.control.ie_rxwm = false;
            }
        }
        if self.registers.txwm_pending() && self.tx_offset < self.io_len {
            let sent = self.refill_tx_fifo();
            if sent.is_err() {
                return Err(ErrorCode::Fail);
            }
        }
        if self.busy && self.tx_offset == self.io_len && self.rx_offset == self.io_len {
            // Auto mode releases chip select, ending the frame; hold mode
            // then keeps it for the next transfer.
            self.registers.write_csmode(CsMode::Auto);
            self.registers.write_csmode(CsMode::Hold);
            self.registers.control.ie_txwm = false;
            self.registers.control.ie_rxwm = false;

            let len = self.io_len;
            let write_buffer = self.tx_buf.take().unwrap();
            let read_buffer = self.rx_buf.take();
            self.io_len = 0;
            self.rx_offset = 0;
            self.tx_offset = 0;
            self.busy = false;
            return Ok(Some(Completion { write_buffer, read_buffer, len, status: Ok(()) }));
        }
        Ok(None)
    }

    /// Runs `handle_interrupt` and hands a finished transfer to `client`.
    /// Returns whether a transfer finished.
    pub fn handle_interrupt_for<C: SpiMasterClient>(&mut self, client: &mut C) -> (r: Result<
        bool,
        ErrorCode,
    >)
        requires
            old(self)@.well_formed(),
        ensures
            final(self)@.well_formed(),
            r is Err <==> interrupt_fault(old(self)@, old(self).regs()@),
            r is Err ==> r == Err::<bool, ErrorCode>(ErrorCode::Fail),
            r is Ok ==> {
                &&& final(self)@ == interrupt_step(old(self)@, old(self).regs()@).0
                &&& final(self).regs()@ == interrupt_step(old(self)@, old(self).regs()@).1
                &&& r == Ok::<bool, ErrorCode>(
                    completes(exchange_step(old(self)@, old(self).regs()@).0),
                )
            },
    {
        match self.handle_interrupt() {
            Err(e) => Err(e),
            Ok(None) => Ok(false),
            Ok(Some(c)) => {
                client.read_write_done(c.write_buffer, c.read_buffer, c.len, c.status);
                Ok(true)
            },
        }
    }
}

} // verus!
