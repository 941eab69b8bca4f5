//! Laws of the library, proved from the definitions that its contracts use.

use crate::backup::{backup_at, backup_path_text};
use crate::clock::Timestamp;
use crate::digest::{hex_digits, hex_text, sha256};
use crate::inspect::{is_suspicious_text, suspicious_markers};
use crate::integrity::content_hash;
use crate::outcome::{OutcomeView, ViolationView};
use crate::paths::{file_extension, path_file_name};
use crate::protection::{content_text, upload_extension, validation_of, PolicyView};
use crate::text::{has_substring, lowercase_text};
use vstd::prelude::*;

verus! {

/// A file name `stem.ext`, with a stem that is not empty and an `ext` that
/// holds no dot, has the extension `ext`.
pub proof fn law_extension_of_dotted_name(stem: Seq<char>, ext: Seq<char>)
    requires
        stem.len() > 0,
        !ext.contains('.'),
    ensures
        file_extension(stem + seq!['.'] + ext) == Some(ext),
{
    let name = stem + seq!['.'] + ext;
    name.index_of_last_ensures('.');
    assert(name[stem.len() as int] == '.');
    assert(name.contains('.'));
    let at = name.index_of_last('.')->0;
    if at < stem.len() {
        assert(name[stem.len() as int] != '.');
    }
    if at > stem.len() {
        assert(ext[at - stem.len() - 1] == name[at]);
        assert(ext.contains('.'));
    }
    assert(name.subrange(at + 1, name.len() as int) =~= ext);
}

/// An upload whose extension is not on the allow-list is rejected for its
/// extension, whatever its content and size.
pub proof fn law_unlisted_extension_is_denied(policy: PolicyView, path: Seq<char>, content: Seq<u8>)
    requires
        upload_extension(path) matches Some(ext) && !policy.allows(ext),
    ensures
        validation_of(policy, path, content) == OutcomeView::Rejected(
            ViolationView::ExtensionDenied(upload_extension(path)->0),
        ),
{
}

/// An upload to a path whose file name is `stem.ext` is rejected for its
/// extension where the allow-list does not hold `ext` in lowercase, whatever
/// the content and its size.
pub proof fn law_unlisted_dotted_name_is_denied(
    policy: PolicyView,
    path: Seq<char>,
    stem: Seq<char>,
    ext: Seq<char>,
    content: Seq<u8>,
)
    requires
        path_file_name(path) == Some(stem + seq!['.'] + ext),
        stem.len() > 0,
        !ext.contains('.'),
        !policy.allows(lowercase_text(ext)),
    ensures
        validation_of(policy, path, content) == OutcomeView::Rejected(
            ViolationView::ExtensionDenied(lowercase_text(ext)),
        ),
{
    law_extension_of_dotted_name(stem, ext);
}

/// An upload whose extension passes and whose content is longer than the
/// limit is rejected as too large, whatever the content holds.
pub proof fn law_oversized_content_is_too_large(policy: PolicyView, path: Seq<char>, content: Seq<u8>)
    requires
        upload_extension(path) matches Some(ext) ==> policy.allows(ext),
        content.len() > policy.max_file_size,
    ensures
        validation_of(policy, path, content) == OutcomeView::Rejected(ViolationView::TooLarge),
{
}

/// An upload that passes the checks on extension and size and whose content,
/// read without regard to case, holds a suspicious marker is rejected for its
/// content.
pub proof fn law_marked_content_is_suspicious(
    policy: PolicyView,
    path: Seq<char>,
    content: Seq<u8>,
    marker: int,
)
    requires
        upload_extension(path) matches Some(ext) ==> policy.allows(ext),
        content.len() <= policy.max_file_size,
        0 <= marker < suspicious_markers().len(),
        has_substring(content_text(content), suspicious_markers()[marker]),
    ensures
        validation_of(policy, path, content) == OutcomeView::Rejected(
            ViolationView::SuspiciousContent,
        ),
{
    assert(is_suspicious_text(content_text(content)));
}

/// An upload is accepted exactly where all three checks pass.
pub proof fn law_accepted_iff_all_checks_pass(policy: PolicyView, path: Seq<char>, content: Seq<u8>)
    ensures
        validation_of(policy, path, content) is Accepted <==> {
            &&& upload_extension(path) matches Some(ext) ==> policy.allows(ext)
            &&& content.len() <= policy.max_file_size
            &&& !is_suspicious_text(content_text(content))
        },
{
}

/// Backups of one file taken under different timestamp tags lie at different
/// paths, so neither overwrites the other.
pub proof fn law_backup_paths_differ_with_tags(
    dir: Seq<char>,
    tag1: Seq<char>,
    tag2: Seq<char>,
    file_name: Seq<char>,
)
    requires
        tag1 != tag2,
    ensures
        backup_path_text(dir, tag1, file_name) != backup_path_text(dir, tag2, file_name),
{
    let first_path = backup_path_text(dir, tag1, file_name);
    let second_path = backup_path_text(dir, tag2, file_name);
    if first_path == second_path {
        assert(first_path.len() == dir.len() + 1 + tag1.len() + 1 + file_name.len());
        assert(second_path.len() == dir.len() + 1 + tag2.len() + 1 + file_name.len());
        assert forall|i: int| 0 <= i < tag1.len() implies tag1[i] == tag2[i] by {
            assert(first_path[dir.len() + 1 + i] == tag1[i]);
            assert(second_path[dir.len() + 1 + i] == tag2[i]);
        }
        assert(tag1 =~= tag2);
    }
}

/// Two backups of one file, taken at instants whose timestamp tags differ,
/// are recorded at different paths.
pub proof fn law_backups_under_different_tags_are_distinct(
    policy: PolicyView,
    path: Seq<char>,
    first: Timestamp,
    second: Timestamp,
)
    requires
        backup_at(policy, path, first) is Some,
        backup_at(policy, path, second) is Some,
        first.compact_text() != second.compact_text(),
    ensures
        backup_at(policy, path, first)->0.backup_path != backup_at(policy, path, second)->0.backup_path,
{
    law_backup_paths_differ_with_tags(
        policy.backup_dir,
        first.compact_text(),
        second.compact_text(),
        path_file_name(path)->0,
    );
}

/// Hexadecimal text determines the bytes it was written from.
pub proof fn law_hex_text_is_injective(a: Seq<u8>, b: Seq<u8>)
    requires
        hex_text(a) == hex_text(b),
    ensures
        a == b,
{
    assert(hex_text(a).len() == 2 * a.len());
    assert(hex_text(b).len() == 2 * b.len());
    assert forall|i: int| 0 <= i < a.len() implies a[i] == b[i] by {
        let d = hex_digits();
        let (ah, al) = (a[i] as int / 16, a[i] as int % 16);
        let (bh, bl) = (b[i] as int / 16, b[i] as int % 16);
        assert(hex_text(a)[2 * i] == d[ah] && hex_text(a)[2 * i + 1] == d[al]);
        assert(hex_text(b)[2 * i] == d[bh] && hex_text(b)[2 * i + 1] == d[bl]);
        assert(forall|m: int, n: int| 0 <= m < 16 && 0 <= n < 16 && d[m] == d[n] ==> m == n);
    }
    assert(a =~= b);
}

/// The digest of a file depends on its bytes alone: equal content has equal
/// digests, and two digests are equal as text exactly where SHA-256 gives the
/// same value for both contents.
pub proof fn law_hash_is_deterministic(a: Seq<u8>, b: Seq<u8>)
    ensures
        a == b ==> content_hash(a) == content_hash(b),
        content_hash(a) == content_hash(b) <==> sha256(a) == sha256(b),
{
    if content_hash(a) == content_hash(b) {
        law_hex_text_is_injective(sha256(a), sha256(b));
    }
}

} // verus!
