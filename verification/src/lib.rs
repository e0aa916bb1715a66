//! Two-phase validation of an agent's configuration.
//!
//! A loosely typed raw configuration tree (every field optional, numbers
//! possibly given as strings) is checked field by field. Failures never
//! abort the pass: each one is recorded together with the dotted path at
//! which it was found, and a fully typed settings value is built only when
//! no failure was recorded.

pub mod base;
pub mod laws;
pub mod path;
pub mod report;
pub mod settings;
pub mod strint;
pub mod subconf;

pub use base::BaseSettings;
pub use base::Domain;
pub use base::RawBaseSettings;
pub use base::RawChainConf;
pub use path::ConfigPath;
pub use settings::Duration;
pub use settings::RawValidatorSettings;
pub use settings::ValidatorSettings;
pub use subconf::CheckpointSyncerConf;
pub use subconf::RawCheckpointSyncerConf;
pub use subconf::RawSignerConf;
pub use subconf::SignerConf;
pub use report::ErrorAggregator;
pub use report::ErrorCause;
pub use report::ErrorEntry;
pub use report::ErrorReport;
pub use strint::CoerceError;
pub use strint::StrOrInt;
