use libkernel::console::{Read, Statistics, Write};
use libkernel::uart::{BlockingMode, PL011EarlyUart, PL011EarlyUartInner, Uart};

#[test]
fn newline_expands_to_cr_lf() {
    let mut uart = PL011EarlyUart::new();
    uart.write_char('\n');
    assert_eq!(uart.transmitted().as_slice(), &[b'\r', b'\n']);
}

#[test]
fn plain_character_passes_unchanged() {
    let mut uart = PL011EarlyUart::new();
    uart.write_char('x');
    assert_eq!(uart.transmitted().as_slice(), &[b'x']);
}

#[test]
fn hi_newline_yields_four_bytes() {
    let mut uart = PL011EarlyUart::new();
    uart.write_fmt("hi\n");
    assert_eq!(uart.transmitted().as_slice(), &[b'h', b'i', b'\r', b'\n']);
}

#[test]
fn write_str_on_inner_expands_each_newline() {
    let mut inner = PL011EarlyUartInner::new();
    inner.write_str("a\nb");
    assert_eq!(inner.transmitted().as_slice(), &[b'a', b'\r', b'\n', b'b']);
}

#[test]
fn nonblocking_read_on_empty_path_returns_no_data() {
    let mut inner = PL011EarlyUartInner::new();
    let polls_before = inner.poll_count();
    let r = inner.read_char(BlockingMode::NonBlocking);
    assert!(r.is_none());
    // No side effects: nothing polled, nothing transmitted, nothing consumed.
    assert_eq!(inner.poll_count(), polls_before);
    assert_eq!(inner.transmitted().len(), 0);
    assert_eq!(inner.rx_len(), 0);
}

#[test]
fn no_data_result_is_not_counted_as_a_read() {
    let mut uart = PL011EarlyUart::new();
    let read_before = uart.chars_read();
    let mut inner = PL011EarlyUartInner::new();
    let r = inner.read_char(BlockingMode::NonBlocking);
    assert!(r.is_none());
    assert_eq!(uart.chars_read(), read_before);
    assert_eq!(uart.chars_written(), 0);
}

#[test]
fn clear_rx_then_nonblocking_read_returns_no_data() {
    let mut inner = PL011EarlyUartInner::new();
    inner.receive_byte(b'a');
    inner.receive_byte(b'b');
    inner.receive_byte(b'c');
    inner.clear_rx();
    assert_eq!(inner.rx_len(), 0);
    let r = inner.read_char(BlockingMode::NonBlocking);
    assert!(r.is_none());
}

#[test]
fn clear_rx_discards_pending_fifo_bytes() {
    let mut uart = PL011EarlyUart::new();
    uart.receive_byte(b'x');
    uart.receive_byte(b'y');
    uart.clear_rx();
    assert_eq!(uart.rx_len(), 0);
    // Draining touches nothing on the transmit side.
    assert_eq!(uart.transmitted().len(), 0);
}

#[test]
fn nonblocking_read_consumes_one_byte() {
    let mut inner = PL011EarlyUartInner::new();
    inner.receive_byte(b'q');
    inner.receive_byte(b'r');
    assert_eq!(inner.read_char(BlockingMode::NonBlocking), Some('q'));
    assert_eq!(inner.read_char(BlockingMode::NonBlocking), Some('r'));
    assert_eq!(inner.read_char(BlockingMode::NonBlocking), None);
}

#[test]
fn blocking_read_returns_fifo_front() {
    let mut uart = PL011EarlyUart::new();
    uart.receive_byte(b'z');
    let c = uart.read_char();
    assert_eq!(c, 'z');
    assert_eq!(uart.rx_len(), 0);
}

#[test]
fn blocking_read_waits_for_an_in_flight_byte() {
    let mut uart = PL011EarlyUart::new();
    uart.queue_arrival(b'w');
    let polls_before = uart.poll_count();
    let c = uart.read_char();
    assert_eq!(c, 'w');
    // The byte was not in the FIFO yet: at least one poll happened.
    assert!(uart.poll_count() > polls_before);
}

#[test]
fn flush_returns_only_after_each_busy_poll() {
    let mut uart = PL011EarlyUart::new();
    uart.set_busy_polls(5);
    assert_eq!(uart.poll_count(), 0);
    uart.flush();
    // The busy flag cleared only after five polls: exactly five iterations.
    assert_eq!(uart.poll_count(), 5);
}

#[test]
fn flush_on_idle_transmitter_polls_nothing() {
    let mut uart = PL011EarlyUart::new();
    uart.flush();
    assert_eq!(uart.poll_count(), 0);
}

#[test]
fn write_waits_out_a_full_transmit_fifo() {
    let mut uart = PL011EarlyUart::new();
    uart.set_txff_polls(3);
    uart.write_char('k');
    assert_eq!(uart.transmitted().as_slice(), &[b'k']);
    assert_eq!(uart.poll_count(), 3);
}

#[test]
fn statistics_are_unimplemented_and_return_zero() {
    let mut uart = PL011EarlyUart::new();
    uart.write_char('a');
    assert_eq!(uart.chars_written(), 0);
    assert_eq!(uart.chars_read(), 0);
}
