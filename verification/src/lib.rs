//! Serial number arithmetic as defined by RFC 1982.
//!
//! A serial number is a counter of a fixed width that wraps back to zero
//! after its largest number. Two serial numbers are ordered by the shorter
//! way round the circle, so that the order holds across the wrap; two numbers
//! exactly half the circle apart have no order.
//!
//! `serial` holds the type and its operations, `relation` the four outcomes
//! of a comparison and the rule behind them, `width` what depends on the
//! integer type underneath. `arith`, `order` and `convert` put the operators
//! and conversions of the standard library on top, `render` writes a serial
//! number as text, and `laws` states what holds of every width.
pub mod arith;
pub mod convert;
pub mod laws;
pub mod order;
pub mod relation;
pub mod render;
pub mod serial;
pub mod width;

pub use relation::Relation;
pub use serial::SerialNumber;
pub use width::Unsigned;
