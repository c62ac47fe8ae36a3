//! A safe access layer over the MDBM memory-mapped key-value engine.

pub mod datum;
pub mod engine;
pub mod error;
pub mod handle;
pub mod lock;
pub mod options;
pub mod path;
pub mod protocol;

pub use datum::{AsDatum, Datum};
pub use error::Error;
pub use handle::MDBM;
pub use lock::{Lock, Value};
pub use options::{HashFunction, Options, ReadState};
