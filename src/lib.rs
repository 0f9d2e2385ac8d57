//! One-pulse timer configuration: prescaler and reload derivation, and
//! per-channel delayed output on a modelled timer register block.
pub mod opm;
pub mod pins;
pub mod rcc;
pub mod time;
pub mod timer;
pub mod timing;
