//! Behavioural models of two TI-84 Plus CE memory-mapped peripherals.
//!
//! The library holds the ST7789V LCD panel stub, which absorbs the 9-bit
//! SPI command/parameter stream the boot ROM sends, and the SHA-256
//! accelerator stub, a register file with control-bit side effects.
//! Each peripheral is specified by a ghost view of its register state and
//! by transition functions that its methods are proved to follow.

pub mod panel;
pub mod sha256;
