//! Timing and dispatch core of an 8-bit handheld console: the dot clock that
//! drives the timers, the memory bus dispatcher, and the background/window
//! pixel fetcher.
pub mod interrupts;
pub mod timers;
pub mod ppu;
pub mod fetcher;
pub mod memory;
pub mod machine;
pub mod instructions;
