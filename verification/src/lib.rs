//! Coordination core of a two-channel blinking indicator.
//!
//! Three cooperatively scheduled tasks share two small cells: which of the two
//! indicator channels is active, and how long the blink driver sleeps between
//! toggles. This crate holds the decisions each task takes between two
//! suspension points, as total functions on plain values, together with a model
//! of the whole board on which the coordination guarantees are proved.
//!
//! The firmware around it performs the pin writes, the conversions and the
//! waits; it hands this crate what it read and carries out what it gets back.

pub mod board;
pub mod driver;
pub mod output;
pub mod sampler;
pub mod selector;
pub mod shared;
pub mod watcher;
