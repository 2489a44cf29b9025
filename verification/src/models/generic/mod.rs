//! Generic models.

pub mod battery;
pub mod level;
pub mod onoff;
