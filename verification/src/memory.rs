//! The boards' physical memory maps.
//!
//! The same driver code binds to different physical addresses depending on
//! the target board: three known variants differ in their peripheral base
//! addresses and address-space sizes. The map is a per-board constant table
//! chosen once; the serial driver's register addresses are drawn from it.

use vstd::prelude::*;

verus! {

/// Offset of the GPIO block within the peripheral region.
pub const GPIO_OFFSET: u64 = 0x0020_0000;

/// Offset of the PL011 UART within the peripheral region.
pub const UART_OFFSET: u64 = 0x0020_1000;

/// The known board variants of this family.
pub enum BoardVariant {
    Rpi3,
    Rpi4,
    Rpi5,
}

/// One board's physical memory map: where its memory-mapped peripherals sit.
pub struct MemoryMap {
    /// Base of the memory-mapped peripheral region.
    pub mmio_start: u64,
    /// Base of the GPIO block.
    pub gpio_start: u64,
    /// Base of the PL011 UART register block.
    pub uart_start: u64,
    /// Base of the early-boot UART register block, where the board has a
    /// separate one; equal to `uart_start` otherwise.
    pub early_uart_start: u64,
    /// The inclusive end address of the memory map.
    pub end_inclusive: u64,
}

/// The memory map of each board variant.
pub open spec fn map_of(b: BoardVariant) -> MemoryMap {
    match b {
        BoardVariant::Rpi3 => MemoryMap {
            mmio_start: 0x3F00_0000,
            gpio_start: 0x3F20_0000,
            uart_start: 0x3F20_1000,
            early_uart_start: 0x3F20_1000,
            end_inclusive: 0x4000_FFFF,
        },
        BoardVariant::Rpi4 => MemoryMap {
            mmio_start: 0xFE00_0000,
            gpio_start: 0xFE20_0000,
            uart_start: 0xFE20_1000,
            early_uart_start: 0xFE20_1000,
            end_inclusive: 0xFF84_FFFF,
        },
        BoardVariant::Rpi5 => MemoryMap {
            mmio_start: 0x10_7C00_0000,
            gpio_start: 0x1F_000D_0000,
            uart_start: 0x1C_0003_0000,
            early_uart_start: 0x10_7C00_1000,
            end_inclusive: 0x10_7FFF_FFFF,
        },
    }
}

/// The board's memory map, as the constant table gives it.
pub fn memory_map(b: BoardVariant) -> (m: MemoryMap)
    ensures
        m == map_of(b),
{
    match b {
        BoardVariant::Rpi3 => MemoryMap {
            mmio_start: 0x3F00_0000,
            gpio_start: 0x3F20_0000,
            uart_start: 0x3F20_1000,
            early_uart_start: 0x3F20_1000,
            end_inclusive: 0x4000_FFFF,
        },
        BoardVariant::Rpi4 => MemoryMap {
            mmio_start: 0xFE00_0000,
            gpio_start: 0xFE20_0000,
            uart_start: 0xFE20_1000,
            early_uart_start: 0xFE20_1000,
            end_inclusive: 0xFF84_FFFF,
        },
        BoardVariant::Rpi5 => MemoryMap {
            mmio_start: 0x10_7C00_0000,
            gpio_start: 0x1F_000D_0000,
            uart_start: 0x1C_0003_0000,
            early_uart_start: 0x10_7C00_1000,
            end_inclusive: 0x10_7FFF_FFFF,
        },
    }
}

} // verus!
