//! Content inspection: a signature scan of lowercased text for the markers
//! that ransom notes and encrypted files tend to carry.

use crate::text::{chars_of, contains_chars, has_substring};
use vstd::prelude::*;

verus! {

/// The markers that the scan looks for, in the order in which it tries them.
pub open spec fn suspicious_markers() -> Seq<Seq<char>> {
    seq![
        "!readme_decrypt"@,
        ".encrypted"@,
        ".locked"@,
        ".crypt"@,
        "ransom"@,
        "bitcoin"@,
        "decrypt"@,
        "pay"@,
        "wallet"@,
    ]
}

/// `text` holds at least one of the markers.
pub open spec fn is_suspicious_text(text: Seq<char>) -> bool {
    exists|k: int| 0 <= k < suspicious_markers().len() && has_substring(text, #[trigger] suspicious_markers()[k])
}

/// Marker `k` is the first in the list that `text` holds.
pub open spec fn is_first_marker(text: Seq<char>, k: int) -> bool {
    &&& 0 <= k < suspicious_markers().len()
    &&& has_substring(text, suspicious_markers()[k])
    &&& forall|j: int| 0 <= j < k ==> !has_substring(text, #[trigger] suspicious_markers()[j])
}

/// The markers of the scan, in order.
pub fn marker_list() -> (list: Vec<&'static str>)
    ensures
        list@.len() == suspicious_markers().len(),
        forall|k: int| 0 <= k < list@.len() ==> (#[trigger] list@[k])@ == suspicious_markers()[k],
{
    let mut list: Vec<&'static str> = Vec::new();
    list.push("!readme_decrypt");
    list.push(".encrypted");
    list.push(".locked");
    list.push(".crypt");
    list.push("ransom");
    list.push("bitcoin");
    list.push("decrypt");
    list.push("pay");
    list.push("wallet");
    list
}

/// Scans `text`, which the caller has lowercased, and returns the first marker
/// of the list that it holds.
pub fn find_marker(text: &str) -> (hit: Option<&'static str>)
    ensures
        hit is Some <==> is_suspicious_text(text@),
        hit matches Some(m) ==> exists|k: int| is_first_marker(text@, k) && m@ == suspicious_markers()[k],
{
    let markers = marker_list();
    let chars = chars_of(text);
    let mut k: usize = 0;
    while k < markers.len()
        invariant
            k <= markers@.len(),
            chars@ == text@,
            markers@.len() == suspicious_markers().len(),
            forall|j: int| 0 <= j < markers@.len() ==> (#[trigger] markers@[j])@ == suspicious_markers()[j],
            forall|j: int| 0 <= j < k ==> !has_substring(text@, #[trigger] suspicious_markers()[j]),
        decreases markers@.len() - k,
    {
        let marker: &'static str = markers[k];
        let needle = chars_of(marker);
        if contains_chars(chars.as_slice(), needle.as_slice()) {
            assert(is_first_marker(text@, k as int));
            return Some(marker);
        }
        k += 1;
    }
    None
}

} // verus!
