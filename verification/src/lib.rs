//! Core of a driver for an SSD1351-class colour OLED controller.
//!
//! The library translates a logical, rotation-aware pixel surface into the
//! controller's column/row-addressed write protocol. Every operation that
//! would touch the bus is returned as an explicit sequence of [`bus::BusOp`]
//! values, so the exact wire traffic of initialisation, addressing and
//! flushing is stated in contracts and proved; an embedding layer performs
//! the writes on a real command/data bus and stops at the first transport
//! failure.

pub mod bus;
pub mod command;
pub mod display;
pub mod graphics;
pub mod properties;
