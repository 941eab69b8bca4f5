//! A small endpoint file-protection library: upload validation against a
//! policy, a signature scan of file content, backup naming, content digests
//! and classification of file operations.

pub mod activity;
pub mod backup;
pub mod clock;
pub mod digest;
pub mod inspect;
pub mod integrity;
pub mod laws;
pub mod outcome;
pub mod paths;
pub mod protection;
pub mod text;
pub mod watcher;

pub use activity::Alert;
pub use backup::{BackupError, BackupRecord};
pub use clock::Timestamp;
pub use outcome::{PolicyViolation, ValidationOutcome};
pub use protection::RansomwareProtection;
pub use watcher::FileSystemWatcher;
