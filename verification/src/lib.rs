//! Human-readable identity and environment facts about the local machine:
//! the user's login and real names, the device and host names, the operating
//! system distribution string, the desktop environment, the CPU architecture
//! and the preferred languages.
//!
//! The crate is organised as a set of small, independent parsers and
//! classifiers, each covering one text-based system record or native call,
//! unified behind the [`os::Os`] capability facade.  Callers that read
//! system files or environment variables hand the raw text in as plain
//! values; the native user-database, hostname and system-identification
//! lookups are made here through the `nix` crate.

pub mod arch;
pub mod desktop;
pub mod error;
pub mod lang;
pub mod os;
pub mod platform;
pub mod plist;
pub mod record;
mod sys;
pub mod text;

pub use arch::Arch;
pub use desktop::DesktopEnv;
pub use error::Error;
pub use lang::lang;
pub use os::Os;
pub use platform::platform;
pub use platform::Platform;
pub use plist::distro_xml;
pub use record::record_value;
