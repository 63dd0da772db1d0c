use libkernel::bringup::{echo_once, Sequencer, Stage};
use libkernel::console::{ConsoleHandle, Read, Write};
use libkernel::driver::{DriverManager, ProbeDriver};
use libkernel::memory::{memory_map, BoardVariant};
use libkernel::uart::PL011EarlyUart;

#[test]
fn happy_path_bring_up_reaches_steady_state() {
    // The single legal order: handlers, protection, discovery, driver
    // initialization, steady state.
    let mut sequencer = Sequencer::new();
    sequencer.handlers_installed();
    assert!(sequencer.protection_enabled(Ok(())).is_ok());

    let mut mgr: DriverManager<PL011EarlyUart> = DriverManager::new();
    mgr.register(PL011EarlyUart::new());
    assert!(sequencer.drivers_discovered(Ok(())).is_ok());

    let outcome = mgr.init_drivers();
    assert!(sequencer.drivers_initialized(outcome).is_ok());
    sequencer.enter_steady_state();
    assert!(matches!(sequencer.current_stage(), Stage::Steady));

    // Bring-up is over: the registry hands the initialized transport to the
    // console handle, and the echo path runs over that same device.
    let mut drivers = mgr.into_records();
    let mut uart = drivers.pop().expect("the registered transport");
    uart.receive_byte(b'!');
    let mut handle: ConsoleHandle<PL011EarlyUart> = ConsoleHandle::new();
    handle.bind(uart);
    let c = echo_once(handle.console());
    assert_eq!(c, '!');
    assert_eq!(handle.console().transmitted().as_slice(), &[b'!']);
}

#[test]
fn failed_protection_halts_the_bring_up() {
    let mut sequencer = Sequencer::new();
    sequencer.handlers_installed();
    let r = sequencer.protection_enabled(Err("translation tables misconfigured"));
    assert_eq!(r, Err("translation tables misconfigured"));
    assert!(matches!(sequencer.current_stage(), Stage::Halted));
}

#[test]
fn failed_discovery_halts_the_bring_up() {
    let mut sequencer = Sequencer::new();
    sequencer.handlers_installed();
    assert!(sequencer.protection_enabled(Ok(())).is_ok());
    let r = sequencer.drivers_discovered(Err("no board support"));
    assert_eq!(r, Err("no board support"));
    assert!(matches!(sequencer.current_stage(), Stage::Halted));
}

#[test]
fn failed_driver_init_halts_and_names_the_driver() {
    // End to end: drivers A, B, C where B fails. A is initialized, C is not,
    // and the fatal bring-up failure names B.
    let mut sequencer = Sequencer::new();
    sequencer.handlers_installed();
    assert!(sequencer.protection_enabled(Ok(())).is_ok());

    let mut mgr: DriverManager<ProbeDriver> = DriverManager::new();
    mgr.register(ProbeDriver::new("A", true));
    mgr.register(ProbeDriver::new("B", false));
    mgr.register(ProbeDriver::new("C", true));
    assert!(sequencer.drivers_discovered(Ok(())).is_ok());

    let outcome = mgr.init_drivers();
    let r = sequencer.drivers_initialized(outcome);
    let e = r.err().expect("bring-up must report a fatal failure");
    assert_eq!(e.compatible, "B");
    assert_eq!(e.index, 1);
    assert!(mgr.driver_at(0).is_inited());
    assert!(!mgr.driver_at(1).is_inited());
    assert!(!mgr.driver_at(2).is_inited());
    assert!(matches!(sequencer.current_stage(), Stage::Halted));
}

#[test]
fn steady_state_echoes_input() {
    let mut uart = PL011EarlyUart::new();
    uart.receive_byte(b'h');
    uart.receive_byte(b'i');
    uart.clear_rx();
    // Spurious input was discarded; now real input arrives and is echoed.
    uart.receive_byte(b'o');
    uart.receive_byte(b'k');
    let c1 = echo_once(&mut uart);
    let c2 = echo_once(&mut uart);
    assert_eq!((c1, c2), ('o', 'k'));
    assert_eq!(uart.transmitted().as_slice(), &[b'o', b'k']);
    assert_eq!(uart.rx_len(), 0);
}

#[test]
fn console_handle_serves_the_one_bound_console() {
    let mut handle: ConsoleHandle<PL011EarlyUart> = ConsoleHandle::new();
    let mut uart = PL011EarlyUart::new();
    uart.receive_byte(b'm');
    handle.bind(uart);
    handle.console().write_char('!');
    let c = handle.console().read_char();
    assert_eq!(c, 'm');
    assert_eq!(handle.console().transmitted().as_slice(), &[b'!']);
}

#[test]
fn memory_maps_differ_by_board() {
    let m3 = memory_map(BoardVariant::Rpi3);
    assert_eq!(m3.mmio_start, 0x3F00_0000);
    assert_eq!(m3.uart_start, 0x3F20_1000);
    assert_eq!(m3.end_inclusive, 0x4000_FFFF);

    let m4 = memory_map(BoardVariant::Rpi4);
    assert_eq!(m4.mmio_start, 0xFE00_0000);
    assert_eq!(m4.uart_start, 0xFE20_1000);
    assert_eq!(m4.end_inclusive, 0xFF84_FFFF);

    let m5 = memory_map(BoardVariant::Rpi5);
    assert_eq!(m5.mmio_start, 0x10_7C00_0000);
    assert_eq!(m5.early_uart_start, 0x10_7C00_1000);
    assert_eq!(m5.gpio_start, 0x1F_000D_0000);
}
