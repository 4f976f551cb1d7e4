//! Driver logic for character displays built on the Hitachi HD44780 and
//! compatible controllers, wired over the 4-bit parallel bus.
//!
//! The driver keeps the shadow copies of the controller's write-only
//! registers and turns each display operation into the exact sequence of
//! line levels and waits that the controller needs. It never touches
//! hardware itself: every operation hands back the bus operations to be
//! carried out, in order, by whoever owns the pins and the clock.

pub mod bus;
pub mod laws;
pub mod lcd;
pub mod wire;

pub use bus::{Line, Op};
pub use lcd::LiquidCrystal;
