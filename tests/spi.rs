use sifive_spi::registers::{CsMode, Direction, Endian, Protocol, SpiRegisters, FIFO_DEPTH};
use sifive_spi::spi::{
    ClockPhase, ClockPolarity, Completion, ErrorCode, GpioPin, PinFunction, Spi, SpiMasterClient,
    BURST_LEN,
};

fn ready_spi() -> Spi {
    let mut spi = Spi::new(SpiRegisters::new());
    assert_eq!(spi.init(), Ok(()));
    spi
}

/// The peer echoes every byte: what was shifted out comes back in.
fn echo(spi: &mut Spi) -> Vec<u8> {
    let regs = spi.registers_mut();
    let out: Vec<u8> = regs.tx_fifo.drain(..).collect();
    regs.rx_fifo.extend_from_slice(&out);
    out
}

/// The peer answers every byte with `answer`.
fn answer_with(spi: &mut Spi, answer: u8) -> Vec<u8> {
    let regs = spi.registers_mut();
    let out: Vec<u8> = regs.tx_fifo.drain(..).collect();
    for _ in 0..out.len() {
        regs.rx_fifo.push(answer);
    }
    out
}

fn pattern(n: usize) -> Vec<u8> {
    (0..n).map(|i| (i as u8).wrapping_mul(7).wrapping_add(3)).collect()
}

#[test]
fn new_driver_is_idle() {
    let spi = Spi::new(SpiRegisters::new());
    assert!(!spi.is_busy());
}

#[test]
fn init_sets_default_configuration() {
    let mut spi = Spi::new(SpiRegisters::new());
    {
        let c = &mut spi.registers_mut().control;
        c.pha = true;
        c.pol = true;
        c.csid = 3;
        c.csdef = 0;
        c.ie_rxwm = true;
        c.ie_txwm = true;
        c.txmark = 5;
        c.frame_len = 4;
        c.proto = Protocol::Quad;
        c.endian = Endian::Little;
        c.dir = Direction::Tx;
    }
    assert_eq!(spi.init(), Ok(()));
    let c = spi.registers().control;
    assert!(!c.pha);
    assert!(!c.pol);
    assert_eq!(c.proto, Protocol::Single);
    assert_eq!(c.endian, Endian::Big);
    assert_eq!(c.dir, Direction::Rx);
    assert_eq!(c.frame_len, 8);
    assert!(!c.ie_txwm);
    assert!(!c.ie_rxwm);
    assert_eq!(c.csdef, 0xffff_ffff);
    assert_eq!(c.csid, 0);
    assert_eq!(c.txmark, 0);
    assert_eq!(c.csmode, CsMode::Hold);
    assert!(!spi.is_busy());
    assert_eq!(spi.get_polarity(), ClockPolarity::IdleLow);
    assert_eq!(spi.get_phase(), ClockPhase::SampleLeading);
}

#[test]
fn empty_write_buffer_is_invalid() {
    let mut spi = ready_spi();
    let read = vec![9u8; 4];
    match spi.read_write_bytes(Vec::new(), Some(read), 4) {
        Err((e, w, r)) => {
            assert_eq!(e, ErrorCode::InvalidArgument);
            assert!(w.is_empty());
            assert_eq!(r, Some(vec![9u8; 4]));
        }
        Ok(()) => panic!("accepted an empty write buffer"),
    }
    assert!(!spi.is_busy());
    assert!(spi.registers().tx_fifo.is_empty());
}

#[test]
fn zero_length_is_invalid() {
    let mut spi = ready_spi();
    match spi.read_write_bytes(vec![1, 2, 3], None, 0) {
        Err((e, w, r)) => {
            assert_eq!(e, ErrorCode::InvalidArgument);
            assert_eq!(w, vec![1, 2, 3]);
            assert!(r.is_none());
        }
        Ok(()) => panic!("accepted a zero length"),
    }
    assert!(!spi.is_busy());
    assert!(spi.registers().tx_fifo.is_empty());
}

#[test]
fn empty_read_buffer_makes_empty_transfer() {
    let mut spi = ready_spi();
    assert!(spi.read_write_bytes(vec![1, 2, 3], Some(Vec::new()), 3).is_ok());
    assert!(spi.is_busy());
    assert!(spi.registers().tx_fifo.is_empty());
    assert_eq!(spi.registers().control.rxmark, 0);
    let c = spi.handle_interrupt().unwrap().expect("nothing to exchange");
    assert_eq!(c.len, 0);
    assert_eq!(c.write_buffer, vec![1, 2, 3]);
    assert_eq!(c.read_buffer, Some(Vec::new()));
    assert!(!spi.is_busy());
}

#[test]
fn busy_wins_over_empty_read_buffer() {
    let mut spi = ready_spi();
    assert!(spi.read_write_bytes(pattern(4), None, 4).is_ok());
    match spi.read_write_bytes(vec![1, 2, 3], Some(Vec::new()), 3) {
        Err((e, w, r)) => {
            assert_eq!(e, ErrorCode::Busy);
            assert_eq!(w, vec![1, 2, 3]);
            assert_eq!(r, Some(Vec::new()));
        }
        Ok(()) => panic!("accepted a second transfer"),
    }
    assert_eq!(spi.registers().tx_fifo, pattern(4));
}

#[test]
fn submit_while_busy_is_refused_untouched() {
    let mut spi = ready_spi();
    assert!(spi.read_write_bytes(pattern(10), Some(vec![0; 10]), 10).is_ok());
    let fifo_before = spi.registers().tx_fifo.clone();
    let control_before = spi.registers().control;
    match spi.read_write_bytes(vec![7, 7], Some(vec![1]), 2) {
        Err((e, w, r)) => {
            assert_eq!(e, ErrorCode::Busy);
            assert_eq!(w, vec![7, 7]);
            assert_eq!(r, Some(vec![1]));
        }
        Ok(()) => panic!("accepted a second transfer"),
    }
    assert!(spi.is_busy());
    assert_eq!(spi.registers().tx_fifo, fifo_before);
    assert_eq!(spi.registers().control, control_before);
    // The transfer in flight still finishes as if nothing happened.
    let mut done = None;
    for _ in 0..10 {
        echo(&mut spi);
        if let Some(c) = spi.handle_interrupt().unwrap() {
            done = Some(c);
            break;
        }
    }
    let c = done.expect("transfer did not finish");
    assert_eq!(c.len, 10);
    assert_eq!(c.read_buffer, Some(pattern(10)));
}

#[test]
fn submission_primes_first_burst() {
    let mut spi = ready_spi();
    let data = pattern(10);
    assert!(spi.read_write_bytes(data.clone(), Some(vec![0; 10]), 10).is_ok());
    assert!(spi.is_busy());
    let regs = spi.registers();
    assert_eq!(regs.tx_fifo, data[..BURST_LEN].to_vec());
    assert_eq!(regs.control.rxmark, 6);
    assert_eq!(regs.control.txmark, 1);
    assert!(regs.control.ie_rxwm);
    assert!(!regs.control.ie_txwm);
}

#[test]
fn short_submission_leaves_transmit_watermark() {
    let mut spi = ready_spi();
    assert!(spi.read_write_bytes(vec![1, 2, 3], None, 3).is_ok());
    let regs = spi.registers();
    assert_eq!(regs.tx_fifo, vec![1, 2, 3]);
    assert_eq!(regs.control.rxmark, 2);
    assert_eq!(regs.control.txmark, 0);
}

#[test]
fn loopback_ten_bytes_round_trip() {
    let mut spi = ready_spi();
    let data = pattern(10);
    assert!(spi.read_write_bytes(data.clone(), Some(vec![0; 10]), 10).is_ok());
    let mut bursts: Vec<usize> = Vec::new();
    let mut completion: Option<Completion> = None;
    let mut interrupts = 0;
    while completion.is_none() {
        let sent = echo(&mut spi);
        assert!(sent.len() <= BURST_LEN);
        bursts.push(sent.len());
        completion = spi.handle_interrupt().expect("hardware out of step");
        interrupts += 1;
        assert!(interrupts <= 10);
    }
    assert_eq!(bursts, vec![7, 3]);
    let c = completion.unwrap();
    assert_eq!(c.len, 10);
    assert_eq!(c.status, Ok(()));
    assert_eq!(c.write_buffer, data);
    assert_eq!(c.read_buffer, Some(data));
    assert!(!spi.is_busy());
    let regs = spi.registers();
    assert!(!regs.control.ie_rxwm);
    assert!(!regs.control.ie_txwm);
    assert_eq!(regs.control.csmode, CsMode::Hold);
    assert!(regs.rx_fifo.is_empty());
}

#[test]
fn completion_fires_once() {
    let mut spi = ready_spi();
    assert!(spi.read_write_bytes(vec![4, 5], Some(vec![0, 0]), 2).is_ok());
    echo(&mut spi);
    assert!(spi.handle_interrupt().unwrap().is_some());
    // Further interrupts find nothing to do.
    assert!(spi.handle_interrupt().unwrap().is_none());
    spi.registers_mut().rx_fifo.push(1);
    assert!(spi.handle_interrupt().unwrap().is_none());
    assert!(!spi.is_busy());
}

#[test]
fn io_len_is_smallest_of_lengths() {
    let mut spi = ready_spi();
    assert!(spi.read_write_bytes(pattern(12), Some(vec![0; 9]), 20).is_ok());
    let mut done = None;
    for _ in 0..10 {
        echo(&mut spi);
        if let Some(c) = spi.handle_interrupt().unwrap() {
            done = Some(c);
            break;
        }
    }
    let c = done.expect("transfer did not finish");
    assert_eq!(c.len, 9);
    assert_eq!(c.read_buffer, Some(pattern(9)));
    assert_eq!(c.write_buffer, pattern(12));
}

#[test]
fn requested_length_caps_transfer() {
    let mut spi = ready_spi();
    assert!(spi.read_write_bytes(pattern(12), Some(vec![0xee; 12]), 5).is_ok());
    echo(&mut spi);
    let c = spi.handle_interrupt().unwrap().expect("five bytes fit in one burst");
    assert_eq!(c.len, 5);
    let mut expected = pattern(5);
    expected.extend_from_slice(&[0xee; 7]);
    assert_eq!(c.read_buffer, Some(expected));
}

#[test]
fn write_only_sends_every_byte_once() {
    let mut spi = ready_spi();
    let n = 20;
    let data = pattern(n);
    assert!(spi.read_write_bytes(data.clone(), None, n).is_ok());
    let mut wire: Vec<u8> = Vec::new();
    let mut completion = None;
    for _ in 0..20 {
        wire.extend(answer_with(&mut spi, 0xa5));
        if let Some(c) = spi.handle_interrupt().unwrap() {
            completion = Some(c);
            break;
        }
    }
    let c = completion.expect("transfer did not finish");
    assert_eq!(wire, data);
    assert_eq!(c.len, n);
    assert!(c.read_buffer.is_none());
    assert_eq!(c.write_buffer, data);
    assert!(spi.registers().tx_fifo.is_empty());
}

#[test]
fn receive_fault_when_fifo_short() {
    let mut spi = ready_spi();
    assert!(spi.read_write_bytes(pattern(5), Some(vec![0; 5]), 5).is_ok());
    let regs = spi.registers_mut();
    regs.tx_fifo.clear();
    regs.control.rxmark = 0;
    regs.rx_fifo.push(1);
    regs.rx_fifo.push(2);
    let control_before = spi.registers().control;
    assert!(matches!(spi.handle_interrupt(), Err(ErrorCode::Fail)));
    assert!(spi.is_busy());
    // A receive fault leaves everything as it was.
    assert_eq!(spi.registers().rx_fifo, vec![1, 2]);
    assert_eq!(spi.registers().control, control_before);
}

#[test]
fn transmit_fault_when_fifo_too_full() {
    let mut spi = ready_spi();
    assert!(spi.read_write_bytes(pattern(10), Some(vec![0; 10]), 10).is_ok());
    // All of the first burst comes back, but six stale bytes stay queued.
    echo(&mut spi);
    let regs = spi.registers_mut();
    regs.control.txmark = 7;
    for _ in 0..6 {
        regs.tx_fifo.push(0);
    }
    assert!(regs.tx_fifo.len() < FIFO_DEPTH);
    assert!(matches!(spi.handle_interrupt(), Err(ErrorCode::Fail)));
    assert!(spi.is_busy());
    // The receive phase ran, the burst that did not fit was not queued.
    let regs = spi.registers();
    assert!(regs.rx_fifo.is_empty());
    assert_eq!(regs.tx_fifo, vec![0; 6]);
    assert!(regs.control.ie_txwm);
    assert!(!regs.control.ie_rxwm);
}

#[test]
fn set_rate_then_get_rate() {
    let mut spi = ready_spi();
    assert_eq!(spi.set_rate(1_000_000), Ok(1_000_000));
    assert_eq!(spi.registers().control.sckdiv, 7);
    let rate = spi.get_rate();
    assert!(rate <= 1_000_000);
    assert!(rate > 1_000_000 / 2);
    assert_eq!(rate, 1_000_000);
}

#[test]
fn set_rate_bounds() {
    let mut spi = ready_spi();
    assert_eq!(spi.set_rate(1954), Ok(1954));
    assert_eq!(spi.registers().control.sckdiv, 4093);
    assert_eq!(spi.get_rate(), 1954);
    assert_eq!(spi.set_rate(1953), Err(ErrorCode::InvalidArgument));
    assert_eq!(spi.set_rate(8_000_001), Err(ErrorCode::InvalidArgument));
    assert_eq!(spi.set_rate(0), Err(ErrorCode::InvalidArgument));
    assert_eq!(spi.registers().control.sckdiv, 4093);
    assert_eq!(spi.set_rate(8_000_000), Ok(8_000_000));
    assert_eq!(spi.registers().control.sckdiv, 0);
    assert_eq!(spi.get_rate(), 8_000_000);
}

#[test]
fn set_rate_returns_requested_rate() {
    let mut spi = ready_spi();
    assert_eq!(spi.set_rate(3_000_000), Ok(3_000_000));
    assert_eq!(spi.registers().control.sckdiv, 1);
    assert_eq!(spi.get_rate(), 4_000_000);
}

#[test]
fn get_rate_reads_twelve_bit_field() {
    let mut spi = ready_spi();
    spi.registers_mut().control.sckdiv = 0x1000 + 3;
    assert_eq!(spi.get_rate(), 2_000_000);
}

#[test]
fn setters_refused_while_busy() {
    let mut spi = ready_spi();
    assert!(spi.read_write_bytes(pattern(3), None, 3).is_ok());
    let before = spi.registers().control;
    assert_eq!(spi.set_rate(1_000_000), Err(ErrorCode::Busy));
    assert_eq!(spi.set_polarity(ClockPolarity::IdleHigh), Err(ErrorCode::Busy));
    assert_eq!(spi.set_phase(ClockPhase::SampleTrailing), Err(ErrorCode::Busy));
    assert_eq!(spi.registers().control, before);
    // Choosing the chip select has no busy check.
    assert_eq!(spi.specify_chip_select(2), Ok(()));
    assert_eq!(spi.registers().control.csid, 2);
    assert!(spi.is_busy());
}

#[test]
fn polarity_and_phase_round_trip() {
    let mut spi = ready_spi();
    assert_eq!(spi.set_polarity(ClockPolarity::IdleHigh), Ok(()));
    assert_eq!(spi.get_polarity(), ClockPolarity::IdleHigh);
    assert_eq!(spi.get_phase(), ClockPhase::SampleLeading);
    assert_eq!(spi.set_phase(ClockPhase::SampleTrailing), Ok(()));
    assert_eq!(spi.get_phase(), ClockPhase::SampleTrailing);
    assert_eq!(spi.get_polarity(), ClockPolarity::IdleHigh);
    assert_eq!(spi.set_polarity(ClockPolarity::IdleLow), Ok(()));
    assert_eq!(spi.get_polarity(), ClockPolarity::IdleLow);
    assert!(spi.registers().control.pha);
}

#[test]
fn hold_and_release_chip_select() {
    let mut spi = ready_spi();
    spi.release_low();
    assert_eq!(spi.registers().control.csmode, CsMode::Auto);
    assert_eq!(spi.registers().cs_releases, 1);
    spi.release_low();
    assert_eq!(spi.registers().cs_releases, 1);
    spi.hold_low();
    assert_eq!(spi.registers().control.csmode, CsMode::Hold);
    assert_eq!(spi.registers().cs_releases, 1);
}

#[test]
fn single_byte_exchange() {
    let mut spi = ready_spi();
    assert_eq!(spi.send_byte(0xa5), Ok(()));
    assert_eq!(spi.registers().tx_fifo, vec![0xa5]);
    // Nothing has come back yet: the caller keeps waiting.
    assert_eq!(spi.poll_received(), None);
    echo(&mut spi);
    assert_eq!(spi.poll_received(), Some(0xa5));
    assert!(spi.registers().rx_fifo.is_empty());
    assert_eq!(spi.poll_received(), None);
}

#[test]
fn poll_takes_oldest_byte() {
    let mut spi = ready_spi();
    spi.registers_mut().rx_fifo.push(0x11);
    spi.registers_mut().rx_fifo.push(0x22);
    assert_eq!(spi.poll_received(), Some(0x11));
    assert_eq!(spi.poll_received(), Some(0x22));
    assert_eq!(spi.poll_received(), None);
}

#[test]
fn single_byte_refused_while_busy() {
    let mut spi = ready_spi();
    assert!(spi.read_write_bytes(pattern(3), None, 3).is_ok());
    spi.registers_mut().rx_fifo.push(1);
    assert_eq!(spi.send_byte(1), Err(ErrorCode::Busy));
    assert_eq!(spi.poll_received(), None);
    assert_eq!(spi.registers().tx_fifo, pattern(3));
    assert_eq!(spi.registers().rx_fifo, vec![1]);
}

#[test]
fn completion_releases_chip_select_once() {
    let mut spi = ready_spi();
    assert_eq!(spi.registers().cs_releases, 0);
    assert!(spi.read_write_bytes(pattern(9), Some(vec![0; 9]), 9).is_ok());
    echo(&mut spi);
    assert!(spi.handle_interrupt().unwrap().is_none());
    assert_eq!(spi.registers().cs_releases, 0);
    echo(&mut spi);
    assert!(spi.handle_interrupt().unwrap().is_some());
    assert_eq!(spi.registers().cs_releases, 1);
    assert_eq!(spi.registers().control.csmode, CsMode::Hold);
    assert!(spi.handle_interrupt().unwrap().is_none());
    assert_eq!(spi.registers().cs_releases, 1);
}

struct Recorder {
    calls: Vec<(Vec<u8>, Option<Vec<u8>>, usize, Result<(), ErrorCode>)>,
}

impl SpiMasterClient for Recorder {
    fn read_write_done(
        &mut self,
        write_buffer: Vec<u8>,
        read_buffer: Option<Vec<u8>>,
        len: usize,
        status: Result<(), ErrorCode>,
    ) {
        self.calls.push((write_buffer, read_buffer, len, status));
    }
}

#[test]
fn client_called_once_per_transfer() {
    let mut spi = ready_spi();
    let mut client = Recorder { calls: Vec::new() };
    assert!(spi.read_write_bytes(pattern(8), Some(vec![0; 8]), 8).is_ok());
    echo(&mut spi);
    assert_eq!(spi.handle_interrupt_for(&mut client), Ok(false));
    echo(&mut spi);
    assert_eq!(spi.handle_interrupt_for(&mut client), Ok(true));
    assert_eq!(spi.handle_interrupt_for(&mut client), Ok(false));
    assert_eq!(client.calls.len(), 1);
    let (w, r, len, status) = &client.calls[0];
    assert_eq!(w, &pattern(8));
    assert_eq!(r, &Some(pattern(8)));
    assert_eq!(*len, 8);
    assert_eq!(*status, Ok(()));
}

#[test]
fn gpio_pins_switch_to_peripheral() {
    let spi = ready_spi();
    let mut cs = GpioPin { function: PinFunction::Gpio };
    let mut mosi = GpioPin { function: PinFunction::Gpio };
    let mut miso = GpioPin { function: PinFunction::Iof1 };
    let mut sck = GpioPin { function: PinFunction::Gpio };
    spi.initialize_gpio_pins(&mut cs, &mut mosi, &mut miso, &mut sck);
    for pin in [&cs, &mosi, &miso, &sck] {
        assert_eq!(pin.function, PinFunction::Iof0);
    }
}
