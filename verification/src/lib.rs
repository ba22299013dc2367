//! A CHIP-8 virtual machine: memory, display, keypad, timers and the
//! fetch-decode-execute engine, each with a machine-checked contract.

pub mod bus;

pub mod cpu;
pub mod display;
pub mod instruction;
pub mod keyboard;
pub mod laws;
pub mod machine;
pub mod ram;
pub mod render;
pub mod semantics;
