use ra4m1_hal::interrupts::BindingTable;
use ra4m1_hal::interrupts::HandlerKind;
use ra4m1_hal::interrupts::InterruptController;
use ra4m1_hal::uart::TxState;
use ra4m1_hal::uart::Uart;
use ra4m1_hal::uart::SCI2_EVENT_BASE;

const RXI: u8 = 6;
const TXI: u8 = 4;
const TEI: u8 = 5;
const ERI: u8 = 7;

fn make_uart() -> (Uart, InterruptController) {
    let mut bindings = BindingTable::new();
    bindings.bind(RXI, HandlerKind::UartRxi);
    bindings.bind(TXI, HandlerKind::UartTxi);
    bindings.bind(TEI, HandlerKind::UartTei);
    bindings.bind(ERI, HandlerKind::UartEri);
    let mut ic = InterruptController::new(32);
    let uart = Uart::new(&bindings, &mut ic, SCI2_EVENT_BASE, RXI, TXI, TEI, ERI);
    (uart, ic)
}

#[test]
fn new_uart_is_idle_with_receiver_armed() {
    let (uart, ic) = make_uart();
    assert_eq!(uart.tx_state(), TxState::Idle);
    assert!(uart.tx_empty());
    assert!(!uart.read_ready());
    assert!(uart.regs.re && uart.regs.rie);
    // The four events are mapped contiguously from the base and unmasked.
    assert_eq!(ic.slots[RXI as usize].iels, SCI2_EVENT_BASE);
    assert_eq!(ic.slots[TXI as usize].iels, SCI2_EVENT_BASE + 1);
    assert_eq!(ic.slots[TEI as usize].iels, SCI2_EVENT_BASE + 2);
    assert_eq!(ic.slots[ERI as usize].iels, SCI2_EVENT_BASE + 3);
    assert!(ic.slots[RXI as usize].enabled && ic.slots[TXI as usize].enabled);
    assert!(ic.slots[TEI as usize].enabled && ic.slots[ERI as usize].enabled);
    assert!(!ic.slots[0].enabled);
}

#[test]
fn write_queues_and_arms_transmitter() {
    let (mut uart, _ic) = make_uart();
    let n = uart.write(&[10, 20, 30]);
    assert_eq!(n, 3);
    assert_eq!(uart.tx_state(), TxState::Transmitting);
    assert!(!uart.tx_empty());
    // Nothing reaches the transmit-data register without the handler.
    assert!(uart.regs.tdr_log.is_empty());
}

#[test]
fn write_accepts_at_most_the_free_space() {
    let (mut uart, _ic) = make_uart();
    let big = [7u8; 100];
    let n = uart.write(&big);
    assert_eq!(n, 64);
    let m = uart.write(&big[n..]);
    assert_eq!(m, 0);
}

#[test]
fn transmit_stream_is_preserved_in_order() {
    // Queue an arbitrary sequence in pieces, drive the interrupt handlers
    // until everything drained, and compare what the transmit-data
    // register saw: exactly the sequence, in order.
    let (mut uart, mut ic) = make_uart();
    let stream: Vec<u8> = (0u32..200).map(|i| (i * 7 % 251) as u8).collect();
    let mut queued = 0;
    while queued < stream.len() {
        let n = uart.write(&stream[queued..]);
        queued += n;
        if n == 0 {
            // Buffer full: the next transmit-data-empty interrupt frees a
            // byte, as it would on hardware while this side waits.
            assert_eq!(uart.tx_state(), TxState::Transmitting);
            uart.on_txi_interrupt(&mut ic, TXI);
        }
    }
    while !uart.tx_empty() {
        match uart.tx_state() {
            TxState::Transmitting => uart.on_txi_interrupt(&mut ic, TXI),
            TxState::EndPending => uart.on_tei_interrupt(&mut ic, TEI),
            TxState::Idle => uart.start_transmit(),
        }
    }
    if uart.tx_state() == TxState::EndPending {
        uart.on_tei_interrupt(&mut ic, TEI);
    }
    assert_eq!(uart.regs.tdr_log, stream);
    assert_eq!(uart.tx_state(), TxState::Idle);
}

#[test]
fn last_byte_switches_to_end_interrupt() {
    let (mut uart, mut ic) = make_uart();
    uart.write(&[42]);
    assert_eq!(uart.tx_state(), TxState::Transmitting);
    uart.on_txi_interrupt(&mut ic, TXI);
    assert_eq!(uart.regs.tdr_log, vec![42]);
    assert_eq!(uart.tx_state(), TxState::EndPending);
    uart.on_tei_interrupt(&mut ic, TEI);
    assert_eq!(uart.tx_state(), TxState::Idle);
}

#[test]
fn spurious_transmit_interrupt_disables_transmitter() {
    let (mut uart, mut ic) = make_uart();
    // Arm with one byte, drain it, then re-arm with nothing queued.
    uart.write(&[1]);
    uart.on_txi_interrupt(&mut ic, TXI);
    uart.on_tei_interrupt(&mut ic, TEI);
    uart.write(&[]);
    assert_eq!(uart.tx_state(), TxState::Transmitting);
    uart.on_txi_interrupt(&mut ic, TXI);
    // Safety fallback: transmission disabled, nothing written.
    assert_eq!(uart.tx_state(), TxState::Idle);
    assert_eq!(uart.regs.tdr_log, vec![1]);
}

#[test]
fn start_transmit_rearms_only_with_queued_bytes() {
    let (mut uart, mut ic) = make_uart();
    uart.start_transmit();
    assert_eq!(uart.tx_state(), TxState::Idle);
    uart.write(&[9]);
    uart.on_txi_interrupt(&mut ic, TXI);
    // Queue more while the final byte is still shifting out.
    let n = uart.write(&[8]);
    assert_eq!(n, 1);
    assert_eq!(uart.tx_state(), TxState::EndPending);
    uart.on_tei_interrupt(&mut ic, TEI);
    assert_eq!(uart.tx_state(), TxState::Idle);
    uart.start_transmit();
    assert_eq!(uart.tx_state(), TxState::Transmitting);
    uart.on_txi_interrupt(&mut ic, TXI);
    assert_eq!(uart.regs.tdr_log, vec![9, 8]);
}

#[test]
fn receive_interrupt_queues_bytes_in_order() {
    let (mut uart, mut ic) = make_uart();
    for b in [11u8, 22, 33] {
        uart.regs.rdr = b;
        uart.on_rxi_interrupt(&mut ic, RXI);
    }
    assert!(uart.read_ready());
    assert_eq!(uart.read(2), vec![11, 22]);
    assert_eq!(uart.read(10), vec![33]);
    assert!(!uart.read_ready());
    assert_eq!(uart.read(10), Vec::<u8>::new());
}

#[test]
fn receive_overflow_keeps_older_bytes() {
    let (mut uart, mut ic) = make_uart();
    for i in 0u32..80 {
        uart.regs.rdr = i as u8;
        uart.on_rxi_interrupt(&mut ic, RXI);
    }
    let got = uart.read(200);
    let expect: Vec<u8> = (0u32..64).map(|i| i as u8).collect();
    assert_eq!(got, expect);
    assert!(!uart.read_ready());
}

#[test]
fn error_interrupt_clears_error_flags() {
    let (mut uart, mut ic) = make_uart();
    uart.regs.orer = true;
    uart.regs.fer = true;
    uart.regs.per = true;
    ic.slots[ERI as usize].ir = true;
    uart.on_eri_interrupt(&mut ic, ERI);
    assert!(!uart.regs.orer && !uart.regs.fer && !uart.regs.per);
    assert!(!ic.slots[ERI as usize].ir);
}

#[test]
fn handlers_clear_their_own_pending_flag() {
    let (mut uart, mut ic) = make_uart();
    uart.write(&[1]);
    ic.slots[TXI as usize].ir = true;
    ic.slots[TEI as usize].ir = true;
    ic.slots[RXI as usize].ir = true;
    uart.on_txi_interrupt(&mut ic, TXI);
    assert!(!ic.slots[TXI as usize].ir);
    uart.on_tei_interrupt(&mut ic, TEI);
    assert!(!ic.slots[TEI as usize].ir);
    uart.on_rxi_interrupt(&mut ic, RXI);
    assert!(!ic.slots[RXI as usize].ir);
}
