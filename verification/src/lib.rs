//! A small verified logging core: severity gating, template-based record
//! formatting, and sink dispatch, with every emission decision proved
//! against its contract.
//!
//! The facade decides and renders; writing an [`Emission`] to its sink is
//! the embedding program's I/O.

pub mod decimal;
pub mod logger;
pub mod record;
pub mod severity;
pub mod sink;
pub mod template;
pub mod text;

pub use logger::{Emission, LoggerConfig, Minilog, MinilogError};
pub use record::LogRecord;
pub use severity::Severity;
pub use sink::Sink;
