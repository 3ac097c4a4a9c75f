//! A CHIP-8 virtual machine: a fixed 4096-byte memory image with the
//! standard hexadecimal font, a pure instruction decoder, a register file
//! with a 16-deep call stack and two 60 Hz timers, a fetch-decode-execute
//! cycle over the full opcode table, a 64x32 monochrome framebuffer with
//! XOR sprite compositing, and a debounced keyboard adapter fed by a
//! channel of key transitions.  Every instruction's effect on the machine
//! is stated as a contract and proved; the window, the audio device and
//! the file system stay outside, behind plain values.

pub mod cpu;
pub mod instruction;
pub mod keyboard;
pub mod memory;
pub mod program_counter;
pub mod renderer;
