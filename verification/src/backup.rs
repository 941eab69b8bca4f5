//! The backup vault: where the copy of a file is to be written.

use crate::clock::{compact_utc, is_utc_instant, utc_compact_text, utc_now, Timestamp};
use crate::paths::{file_name_of, path_file_name};
use crate::protection::{PolicyView, RansomwareProtection};
use vstd::prelude::*;
use vstd::string::StringExecFns;

verus! {

/// Why no backup could be planned.
#[derive(Clone, Copy, Debug, PartialEq, Eq)]
pub enum BackupError {
    /// The source path has no file name, or the instant of the backup cannot
    /// be written as a date.
    InvalidInput,
}

/// One backup: the file it was taken of, where the copy lies, when it was
/// taken and, once known, the digest of the content.
#[derive(Clone, Debug, PartialEq, Eq)]
pub struct BackupRecord {
    pub original_path: String,
    pub backup_path: String,
    pub timestamp: Timestamp,
    pub content_hash: Option<String>,
}

/// The mathematical value of a [`BackupRecord`].
pub struct BackupRecordView {
    pub original_path: Seq<char>,
    pub backup_path: Seq<char>,
    pub timestamp: Timestamp,
    pub content_hash: Option<Seq<char>>,
}

impl View for BackupRecord {
    type V = BackupRecordView;

    open spec fn view(&self) -> BackupRecordView {
        BackupRecordView {
            original_path: self.original_path@,
            backup_path: self.backup_path@,
            timestamp: self.timestamp,
            content_hash: match self.content_hash {
                Some(hash) => Some(hash@),
                None => None,
            },
        }
    }
}

/// The path of a backup: `{dir}/{tag}_{file_name}`.
pub open spec fn backup_path_text(dir: Seq<char>, tag: Seq<char>, file_name: Seq<char>) -> Seq<char> {
    dir + seq!['/'] + tag + seq!['_'] + file_name
}

/// The record of the backup of `path` taken at `instant`, where one can be
/// made: the path must have a file name and the instant a date.
pub open spec fn backup_at(policy: PolicyView, path: Seq<char>, instant: Timestamp) -> Option<BackupRecordView> {
    match path_file_name(path) {
        Some(file_name) => if is_utc_instant(instant.secs, instant.nanos) {
            Some(
                BackupRecordView {
                    original_path: path,
                    backup_path: backup_path_text(
                        policy.backup_dir,
                        utc_compact_text(instant.secs, instant.nanos),
                        file_name,
                    ),
                    timestamp: instant,
                    content_hash: None,
                },
            )
        } else {
            None
        },
        None => None,
    }
}

impl RansomwareProtection {
    /// The path under the backup directory for a copy with the timestamp tag
    /// `tag` of a file named `file_name`.
    pub fn backup_path(&self, tag: &str, file_name: &str) -> (path: String)
        ensures
            path@ == backup_path_text(self@.backup_dir, tag@, file_name@),
    {
        proof {
            reveal_strlit("/");
            reveal_strlit("_");
        }
        let mut path = String::from_str(self.backup_dir());
        path.append("/");
        path.append(tag);
        path.append("_");
        path.append(file_name);
        assert(path@ =~= backup_path_text(self@.backup_dir, tag@, file_name@));
        path
    }

    /// Plans the backup of `file_path` as taken at `instant`. Nothing is
    /// written: the caller copies the file to the record's `backup_path`.
    pub fn create_backup_at(&self, file_path: &str, instant: Timestamp) -> (planned: Result<
        BackupRecord,
        BackupError,
    >)
        ensures
            planned is Ok <==> backup_at(self@, file_path@, instant) is Some,
            planned matches Ok(record) ==> backup_at(self@, file_path@, instant) == Some(record@),
    {
        let file_name = match file_name_of(file_path) {
            Some(name) => name,
            None => {
                return Err(BackupError::InvalidInput);
            },
        };
        let tag = match compact_utc(instant) {
            Some(tag) => tag,
            None => {
                return Err(BackupError::InvalidInput);
            },
        };
        Ok(
            BackupRecord {
                original_path: String::from_str(file_path),
                backup_path: self.backup_path(tag.as_str(), file_name.as_str()),
                timestamp: instant,
                content_hash: None,
            },
        )
    }

    /// Plans the backup of `file_path` as taken now. It fails exactly where
    /// the path has no file name. Nothing is written: the caller copies the
    /// file to the record's `backup_path`.
    pub fn create_backup(&self, file_path: &str) -> (planned: Result<BackupRecord, BackupError>)
        ensures
            planned is Ok <==> path_file_name(file_path@) is Some,
            planned matches Ok(record) ==> backup_at(self@, file_path@, record.timestamp) == Some(
                record@,
            ),
    {
        self.create_backup_at(file_path, utc_now())
    }
}

} // verus!
