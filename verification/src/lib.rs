//! Bootstrap core for a PowerShell Editor Services language-server plugin:
//! platform gating, install/download planning, archive-entry safety, session
//! path derivation and launch-argument construction, all stated as verified
//! contracts. The host shell around this library performs the actual file,
//! network and process work that the plans here describe.

pub mod archive;
pub mod config;
pub mod launch;
pub mod numerals;
pub mod platform;
pub mod protocol;
pub mod resolve;
pub mod session;
