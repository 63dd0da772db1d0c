//! A minimal bare-metal kernel core for a single-board computer family:
//! bring-up sequencing, a device-driver framework, and a serial console
//! subsystem built on a single-core synchronization primitive.
//!
//! - [`bringup`]: the strict five-step order from reset to steady state,
//!   with a proof that no other order can reach it, and the steady-state
//!   echo step.
//! - [`driver`]: the device-driver capability and the fixed-capacity driver
//!   manager that initializes and enumerates drivers in registration order.
//! - [`console`]: the read/write/statistics capabilities behind the console,
//!   and the process-wide handle to the one active console.
//! - [`uart`]: the PL011 serial driver, a register-polling state machine
//!   over a modeled register block.
//! - [`synchronization`]: the scoped mutual-exclusion wrapper every driver
//!   builds on.
//! - [`memory`]: the boards' physical memory maps.

pub mod bringup;
pub mod console;
pub mod driver;
pub mod memory;
pub mod synchronization;
pub mod uart;
