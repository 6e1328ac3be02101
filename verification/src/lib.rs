//! What an operating system installer decides about the machine it runs on.

pub mod cpu;
pub mod gpu;
pub mod keyboard;
pub mod laws;
pub mod locale;
pub mod number;
pub mod outside;
pub mod pci;
pub mod plan;
pub mod text;
pub mod virt;
