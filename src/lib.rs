//! Client side of the TCG2 measurement protocol for TPM 2.0 modules.
//!
//! The data model (versions, bitmaps, the capability snapshot), the rules that
//! turn what the module reports into results, and the operations themselves,
//! written against a port that performs the raw calls.

pub mod bitmap;
pub mod capability;
pub mod error;
pub mod event_log;
pub mod pcr_banks;
pub mod protocol;
pub mod version;

pub use bitmap::{EventLogFormat, HashAlgorithm, HashLogExtendEventFlags};
pub use capability::BootServiceCapability;
pub use error::TcgError;
pub use event_log::EventLog;
pub use pcr_banks::PcrBankChangeOutcome;
pub use protocol::{Tcg, Tcg2Firmware};
pub use version::Version;
