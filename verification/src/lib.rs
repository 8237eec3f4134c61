//! Core of an interrupt-driven framebuffer console: interrupt-controller
//! bookkeeping, an interrupt vector table model, a keyboard scancode
//! decoding pipeline, a pixel-level text renderer, and the critical-section
//! discipline that guards the shared console state.

pub mod font;
pub mod framebuffer;
pub mod interrupts;
pub mod keyboard;
pub mod pic;
pub mod sync;
pub mod writer;
