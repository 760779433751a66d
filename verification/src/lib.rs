//! Verified core of a bare-metal boot loader: USB device and NAND flash
//! controller logic, expressed as register programs over plain values.
pub mod regs;
pub mod descr;
pub mod console;
pub mod cache;
pub mod uart;
pub mod nand;
pub mod usb;
pub mod loader;

