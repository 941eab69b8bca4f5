//! The protection policy and the validation of uploads against it.

use crate::inspect::{find_marker, is_first_marker, is_suspicious_text, suspicious_markers};
use crate::outcome::{OutcomeView, PolicyViolation, ValidationOutcome, ViolationView};
use crate::paths::{extension_of, file_extension, file_name_of, path_file_name};
use crate::text::{decode_lossy, lossy_text, lowercase, lowercase_text};
use vstd::prelude::*;
use vstd::string::StringExecFns;

verus! {

/// The largest content that the default policy admits: 10 MiB.
pub const DEFAULT_MAX_FILE_SIZE: u64 = 10485760;

/// The mathematical value of a [`RansomwareProtection`].
pub struct PolicyView {
    pub backup_dir: Seq<char>,
    pub allowed_extensions: Seq<Seq<char>>,
    pub max_file_size: u64,
}

/// The extensions that the default policy admits.
pub open spec fn default_extensions() -> Seq<Seq<char>> {
    seq!["txt"@, "jpg"@, "png"@, "pdf"@, "doc"@, "docx"@]
}

/// `text` holds no capital letter `A` to `Z`.
pub open spec fn is_lowercase(text: Seq<char>) -> bool {
    forall|i: int| 0 <= i < text.len() ==> !('A' <= #[trigger] text[i] <= 'Z')
}

impl PolicyView {
    /// The allow-list names no extension twice and each in lowercase.
    pub open spec fn well_formed(self) -> bool {
        &&& self.allowed_extensions.no_duplicates()
        &&& forall|i: int|
            0 <= i < self.allowed_extensions.len() ==> is_lowercase(
                #[trigger] self.allowed_extensions[i],
            )
    }

    /// Whether the allow-list holds `extension`, which is compared as it is.
    pub open spec fn allows(self, extension: Seq<char>) -> bool {
        self.allowed_extensions.contains(extension)
    }
}

/// The text of each string of `list`.
pub open spec fn texts(list: Seq<String>) -> Seq<Seq<char>> {
    list.map_values(|s: String| s@)
}

/// The text of `s`, where there is one.
pub open spec fn text_of(s: Option<&str>) -> Option<Seq<char>> {
    match s {
        Some(s) => Some(s@),
        None => None,
    }
}

/// The extension by which an upload to `path` is judged: that of the path's
/// file name, in lowercase.
pub open spec fn upload_extension(path: Seq<char>) -> Option<Seq<char>> {
    match path_file_name(path) {
        Some(name) => match file_extension(name) {
            Some(ext) => Some(lowercase_text(ext)),
            None => None,
        },
        None => None,
    }
}

/// The text in which content is scanned: decoded leniently, then lowercased.
pub open spec fn content_text(content: Seq<u8>) -> Seq<char> {
    lowercase_text(lossy_text(content))
}

/// The first two checks, on extension and size, in this order.
pub open spec fn policy_violation(policy: PolicyView, extension: Option<Seq<char>>, size: nat) -> Option<
    ViolationView,
> {
    if extension is Some && !policy.allows(extension->0) {
        Some(ViolationView::ExtensionDenied(extension->0))
    } else if size > policy.max_file_size {
        Some(ViolationView::TooLarge)
    } else {
        None
    }
}

/// The outcome for an upload with the lowercased `extension`, `size` bytes of
/// content and the scan text `text`: extension, then size, then content, the
/// first failing check deciding.
pub open spec fn judge(policy: PolicyView, extension: Option<Seq<char>>, size: nat, text: Seq<char>) -> OutcomeView {
    match policy_violation(policy, extension, size) {
        Some(violation) => OutcomeView::Rejected(violation),
        None => if is_suspicious_text(text) {
            OutcomeView::Rejected(ViolationView::SuspiciousContent)
        } else {
            OutcomeView::Accepted
        },
    }
}

/// The outcome of validating the upload of `content` to `path`.
pub open spec fn validation_of(policy: PolicyView, path: Seq<char>, content: Seq<u8>) -> OutcomeView {
    judge(policy, upload_extension(path), content.len(), content_text(content))
}

/// The protection policy: where backups go, which extensions uploads may
/// have and how large they may be. It does not change once made.
pub struct RansomwareProtection {
    backup_dir: String,
    whitelist_extensions: Vec<String>,
    max_file_size: u64,
}

impl View for RansomwareProtection {
    type V = PolicyView;

    closed spec fn view(&self) -> PolicyView {
        PolicyView {
            backup_dir: self.backup_dir@,
            allowed_extensions: texts(self.whitelist_extensions@),
            max_file_size: self.max_file_size,
        }
    }
}

/// The default allow-list is well formed.
proof fn lemma_default_extensions_well_formed()
    ensures
        default_extensions().no_duplicates(),
        forall|i: int| 0 <= i < default_extensions().len() ==> is_lowercase(#[trigger] default_extensions()[i]),
{
    reveal_strlit("txt");
    reveal_strlit("jpg");
    reveal_strlit("png");
    reveal_strlit("pdf");
    reveal_strlit("doc");
    reveal_strlit("docx");
    let d = default_extensions();
    assert(d[0][0] == 't' && d[1][0] == 'j' && d[2][1] == 'n' && d[3][1] == 'd' && d[4][0] == 'd');
    assert(d[0].len() == 3 && d[1].len() == 3 && d[2].len() == 3 && d[3].len() == 3 && d[4].len() == 3 && d[5].len() == 4);
    assert(d[2][0] == 'p' && d[3][0] == 'p' && d[5][0] == 'd');
}

impl RansomwareProtection {
    #[verifier::type_invariant]
    spec fn well_formed(&self) -> bool {
        self@.well_formed()
    }

    /// The default policy, with backups under `backup_dir`.
    pub fn new(backup_dir: &str) -> (protection: RansomwareProtection)
        ensures
            protection@.backup_dir == backup_dir@,
            protection@.allowed_extensions == default_extensions(),
            protection@.max_file_size == DEFAULT_MAX_FILE_SIZE,
            protection@.well_formed(),
    {
        let mut extensions: Vec<String> = Vec::new();
        extensions.push(String::from_str("txt"));
        extensions.push(String::from_str("jpg"));
        extensions.push(String::from_str("png"));
        extensions.push(String::from_str("pdf"));
        extensions.push(String::from_str("doc"));
        extensions.push(String::from_str("docx"));
        proof {
            assert(texts(extensions@) =~= default_extensions());
            lemma_default_extensions_well_formed();
        }
        RansomwareProtection {
            backup_dir: String::from_str(backup_dir),
            whitelist_extensions: extensions,
            max_file_size: DEFAULT_MAX_FILE_SIZE,
        }
    }

    /// The directory under which backups are placed.
    pub fn backup_dir(&self) -> (dir: &str)
        ensures
            dir@ == self@.backup_dir,
    {
        self.backup_dir.as_str()
    }

    /// The allow-list of extensions.
    pub fn allowed_extensions(&self) -> (list: &Vec<String>)
        ensures
            texts(list@) == self@.allowed_extensions,
            self@.well_formed(),
    {
        proof {
            use_type_invariant(self);
        }
        &self.whitelist_extensions
    }

    /// The largest content, in bytes, that an upload may have.
    pub fn max_file_size(&self) -> (size: u64)
        ensures
            size == self@.max_file_size,
    {
        self.max_file_size
    }

    /// Whether the allow-list holds `extension`. The comparison is exact, so
    /// the caller lowercases first.
    pub fn allows_extension(&self, extension: &str) -> (allowed: bool)
        ensures
            allowed == self@.allows(extension@),
    {
        let wanted: String = String::from_str(extension);
        let mut i: usize = 0;
        while i < self.whitelist_extensions.len()
            invariant
                i <= self.whitelist_extensions@.len(),
                wanted@ == extension@,
                forall|j: int| 0 <= j < i ==> texts(self.whitelist_extensions@)[j] != extension@,
            decreases self.whitelist_extensions@.len() - i,
        {
            if self.whitelist_extensions[i] == wanted {
                assert(texts(self.whitelist_extensions@)[i as int] == extension@);
                return true;
            }
            i += 1;
        }
        false
    }

    /// The checks on extension and size.
    fn check_policy(&self, extension: Option<&str>, size: u64) -> (violation: Option<PolicyViolation>)
        ensures
            violation is Some <==> policy_violation(self@, text_of(extension), size as nat) is Some,
            violation matches Some(v) ==> policy_violation(self@, text_of(extension), size as nat) == Some(
                v@,
            ),
    {
        if let Some(ext) = extension {
            if !self.allows_extension(ext) {
                return Some(PolicyViolation::ExtensionDenied(String::from_str(ext)));
            }
        }
        if size > self.max_file_size {
            return Some(PolicyViolation::TooLarge);
        }
        None
    }

    /// Judges an upload from what has been read off it: the extension of its
    /// file name in lowercase, if it has one, the size of its content, and
    /// the content as lowercased text.
    pub fn validate_decoded(&self, extension: Option<&str>, size: u64, text: &str) -> (outcome:
        ValidationOutcome)
        ensures
            outcome@ == judge(self@, text_of(extension), size as nat, text@),
    {
        match self.check_policy(extension, size) {
            Some(violation) => ValidationOutcome::Rejected(violation),
            None => {
                if find_marker(text).is_some() {
                    ValidationOutcome::Rejected(PolicyViolation::SuspiciousContent)
                } else {
                    ValidationOutcome::Accepted
                }
            },
        }
    }

    /// Scans `content`, decoded leniently and lowercased, and returns the
    /// first marker of the list that it holds.
    pub fn matched_marker(&self, content: &[u8]) -> (hit: Option<&'static str>)
        ensures
            hit is Some <==> is_suspicious_text(content_text(content@)),
            hit matches Some(m) ==> exists|k: int|
                is_first_marker(content_text(content@), k) && m@ == suspicious_markers()[k],
    {
        let decoded = decode_lossy(content);
        let lowered = lowercase(decoded.as_str());
        find_marker(lowered.as_str())
    }

    /// Whether `content`, decoded leniently and lowercased, holds one of the
    /// suspicious markers.
    pub fn detect_malicious_pattern(&self, content: &[u8]) -> (suspicious: bool)
        ensures
            suspicious == is_suspicious_text(content_text(content@)),
    {
        self.matched_marker(content).is_some()
    }

    /// Validates the upload of `content` to `file_path`: the extension of the
    /// path, if it has one, must be on the allow-list, whatever its case; the
    /// content must not exceed the size limit; and it must hold no suspicious
    /// marker. The first check that fails decides.
    pub fn validate_upload(&self, file_path: &str, content: &[u8]) -> (outcome: ValidationOutcome)
        ensures
            outcome@ == validation_of(self@, file_path@, content@),
    {
        let name = file_name_of(file_path);
        let extension: Option<String> = match &name {
            Some(n) => match extension_of(n.as_str()) {
                Some(ext) => Some(lowercase(ext)),
                None => None,
            },
            None => None,
        };
        let judged: Option<&str> = match &extension {
            Some(ext) => Some(ext.as_str()),
            None => None,
        };
        assert(text_of(judged) == upload_extension(file_path@));
        match self.check_policy(judged, content.len() as u64) {
            Some(violation) => ValidationOutcome::Rejected(violation),
            None => {
                if self.detect_malicious_pattern(content) {
                    ValidationOutcome::Rejected(PolicyViolation::SuspiciousContent)
                } else {
                    ValidationOutcome::Accepted
                }
            },
        }
    }
}

} // verus!
