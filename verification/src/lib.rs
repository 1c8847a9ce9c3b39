//! Acquisition core for a combined air-quality sensor on a two-wire bus.
//!
//! The sensor delivers one 12-byte payload per measurement. This crate holds
//! the parts of the acquisition that can be stated and proved exactly:
//!
//! * [`codec`] — the bit-exact decoding of the payload into physical
//!   quantities, and the little-endian packing of the two 32-bit fields;
//! * [`monitor`] — the decision logic of the ready-line monitor, which polls
//!   a digital input until the device signals ready (logical low);
//! * [`protocol`] — the linear reset/request/read command sequence, written
//!   as a state machine from protocol state and bus event to the next state
//!   and the next bus action;
//! * [`reading`] — the decoded measurement and the error taxonomy.
//!
//! The surrounding program owns the bus and pin handles: it performs each
//! [`protocol::BusAction`], feeds the outcome back as a
//! [`protocol::BusEvent`], and receives either a [`reading::Readings`] or a
//! [`reading::SensorError`].

pub mod codec;
pub mod monitor;
pub mod protocol;
pub mod reading;
