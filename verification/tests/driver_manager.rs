use libkernel::driver::{DeviceDriver, DriverManager, ProbeDriver};
use libkernel::uart::PL011EarlyUart;

#[test]
fn enumerate_lists_drivers_in_registration_order() {
    let mut mgr: DriverManager<ProbeDriver> = DriverManager::new();
    mgr.register(ProbeDriver::new("board bus", true));
    mgr.register(ProbeDriver::new("gpio", true));
    mgr.register(ProbeDriver::new("pl011 uart", true));
    let names = mgr.enumerate();
    assert_eq!(names, vec!["board bus", "gpio", "pl011 uart"]);
}

#[test]
fn enumerate_is_read_only_and_repeatable() {
    let mut mgr: DriverManager<ProbeDriver> = DriverManager::new();
    mgr.register(ProbeDriver::new("only", true));
    assert_eq!(mgr.enumerate(), mgr.enumerate());
    assert_eq!(mgr.num_registered(), 1);
}

#[test]
fn init_drivers_initializes_all_in_order_when_healthy() {
    let mut mgr: DriverManager<ProbeDriver> = DriverManager::new();
    mgr.register(ProbeDriver::new("a", true));
    mgr.register(ProbeDriver::new("b", true));
    let r = mgr.init_drivers();
    assert!(r.is_ok());
}

#[test]
fn init_drivers_stops_at_first_failure() {
    // Three drivers A, B, C where B's setup fails: A is initialized, the
    // failure names B, and C is never touched.
    let mut mgr: DriverManager<ProbeDriver> = DriverManager::new();
    mgr.register(ProbeDriver::new("A", true));
    mgr.register(ProbeDriver::new("B", false));
    mgr.register(ProbeDriver::new("C", true));
    let r = mgr.init_drivers();
    let e = r.err().expect("initialization must fail on B");
    assert_eq!(e.index, 1);
    assert_eq!(e.compatible, "B");
    assert!(mgr.driver_at(0).is_inited());
    assert!(!mgr.driver_at(1).is_inited());
    assert!(!mgr.driver_at(2).is_inited());
}

#[test]
fn manager_accepts_the_uart_driver() {
    let mut mgr: DriverManager<PL011EarlyUart> = DriverManager::new();
    mgr.register(PL011EarlyUart::new());
    let names = mgr.enumerate();
    assert_eq!(names, vec!["BCM PL011 UART"]);
    let r = mgr.init_drivers();
    assert!(r.is_ok());
}

#[test]
fn uart_driver_compatible_string_is_stable() {
    let uart = PL011EarlyUart::new();
    assert_eq!(uart.compatible(), "BCM PL011 UART");
    let uart2 = PL011EarlyUart::new();
    assert_eq!(uart.compatible(), uart2.compatible());
}

#[test]
fn probe_driver_reports_its_outcome() {
    let mut good = ProbeDriver::new("good", true);
    let mut bad = ProbeDriver::new("bad", false);
    assert!(good.init().is_ok());
    assert!(good.is_inited());
    assert!(bad.init().is_err());
    assert!(!bad.is_inited());
}
