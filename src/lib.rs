//! Safe access to the GPIO and PWM pins of a single-board computer.
//!
//! Pins are claimed through a [`PinRegistry`](registry::PinRegistry), so that no
//! two live handles own the same pin number. Every hardware operation goes
//! through a [`Board`](hardware::Board), which drives a
//! [`Hardware`](hardware::Hardware) implementation and keeps a record of the
//! calls made, so that contracts can state which calls each operation makes.
pub mod error;
pub mod gpio;
pub mod hardware;
pub mod pwm;
pub mod registry;

pub use error::WiringXError;
pub use gpio::{Input, InterruptTimeOut, IsrMode, Output, Pin, Value};
pub use hardware::{Board, Hardware, HwCall};
pub use pwm::{Polarity, PwmPin};
pub use registry::PinRegistry;
