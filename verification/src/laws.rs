//! What holds of the library as a whole.

pub mod console;
pub mod devices;
pub mod drivers;
pub mod graphics;
pub mod guests;
pub mod languages;
pub mod machine;
pub mod nixos;
pub mod numbers;
pub mod pci;
pub mod plans;
pub mod processor;
pub mod words;
