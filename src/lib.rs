//! A terminal greeter: gathers facts about the machine and lays them out as a
//! box of fixed-width rows.
pub mod clock;
pub mod config;
pub mod number;
pub mod packages;
pub mod report;
pub mod text;
pub mod weather;
