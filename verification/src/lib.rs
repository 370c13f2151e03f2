//! Bridge between a family of USB/HID macro-keypad devices and a host
//! application that consumes key/encoder events and pushes button images.
//!
//! The crate holds the verified core: the model catalog, the binary input
//! decoder, the position mappers, the connection retry policy, the shared
//! device registry with its error-handling rules, and the per-device task
//! state machine. Actual USB, timer and host-protocol I/O lives outside the
//! library and drives these functions with plain values.

pub mod connect;
pub mod device;
pub mod error;
pub mod images;
pub mod inputs;
pub mod mappings;
pub mod registry;
pub mod watcher;

pub use mappings::Kind;
