//! Verified core of a small buoy firmware: the serial log transport, the
//! process-wide log sink that guards it, the presence probe's verdict and the
//! control loop's schedule.

pub mod control;
pub mod facade;
pub mod probe;
pub mod sink;
pub mod transport;

pub use control::ControlLoop;
pub use sink::UartGlobalLogger;
pub use transport::UartLogger;
