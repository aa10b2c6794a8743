//! Call-file descriptors for a PBX outbound-call spooler.
//!
//! The record model ([`CallerId`], [`CallFile`]) serializes a call request
//! into the PBX's line-oriented text format; the spool module holds the
//! decision logic of atomic delivery into a spool directory.

pub mod decimal;
pub mod record;
pub mod spool;

pub use record::CallFile;
pub use record::CallerId;
pub use spool::SpoolError;
pub use spool::SpoolStep;
