//! Hardware-interface layer: the contracts peripherals present to capsules.

pub mod battery;
pub mod rf_frontend;
pub mod rfcore;
pub mod sky2435l;
pub mod uart;
