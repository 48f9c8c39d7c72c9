//! Decision engine for motorised window shutters: which shutter moves, and
//! when, given the local time, the day's solar events, the latest weather
//! observation and the operating mode chosen by the household.

pub mod clock;
pub mod latch;
pub mod shutter;
pub mod weather;
pub mod house;
pub mod history;
