pub mod cli;
pub mod conversion;
pub mod temperature;
