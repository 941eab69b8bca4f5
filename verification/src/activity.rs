//! The activity monitor: which file operations are suspicious, and the alert
//! that such an operation raises.

use crate::clock::{rfc3339_utc, utc_now, Timestamp};
use crate::protection::RansomwareProtection;
use vstd::prelude::*;
use vstd::string::StringExecFns;

verus! {

/// The record of a suspicious file operation, for an alert sink.
#[derive(Clone, Debug, PartialEq, Eq)]
pub struct Alert {
    pub timestamp: Timestamp,
    pub event: String,
    pub path: String,
    pub operation: String,
    pub severity: String,
}

/// The mathematical value of an [`Alert`].
pub struct AlertView {
    pub timestamp: Timestamp,
    pub event: Seq<char>,
    pub path: Seq<char>,
    pub operation: Seq<char>,
    pub severity: Seq<char>,
}

impl View for Alert {
    type V = AlertView;

    open spec fn view(&self) -> AlertView {
        AlertView {
            timestamp: self.timestamp,
            event: self.event@,
            path: self.path@,
            operation: self.operation@,
            severity: self.severity@,
        }
    }
}

/// The names of the operations that raise an alert.
pub open spec fn suspicious_operations() -> Seq<Seq<char>> {
    seq!["mass_rename"@, "encrypt"@, "delete_many"@]
}

/// Whether `operation` is, letter for letter, one of the suspicious ones.
pub open spec fn is_suspicious_operation(operation: Seq<char>) -> bool {
    suspicious_operations().contains(operation)
}

/// The alert that `operation` on `path` at `instant` raises, if any.
pub open spec fn alert_for(path: Seq<char>, operation: Seq<char>, instant: Timestamp) -> Option<AlertView> {
    if is_suspicious_operation(operation) {
        Some(
            AlertView {
                timestamp: instant,
                event: "suspicious_file_operation"@,
                path: path,
                operation: operation,
                severity: "high"@,
            },
        )
    } else {
        None
    }
}

/// Whether `operation` is one of the suspicious ones.
pub fn is_suspicious(operation: &str) -> (suspicious: bool)
    ensures
        suspicious == is_suspicious_operation(operation@),
{
    let given: String = String::from_str(operation);
    let suspicious = given == String::from_str("mass_rename") || given == String::from_str("encrypt")
        || given == String::from_str("delete_many");
    proof {
        let ops = suspicious_operations();
        if suspicious {
            assert(ops[0] == "mass_rename"@ && ops[1] == "encrypt"@ && ops[2] == "delete_many"@);
        }
    }
    suspicious
}

/// The text of each pair of `list`.
pub open spec fn pair_texts(list: Seq<(String, String)>) -> Seq<(Seq<char>, Seq<char>)> {
    list.map_values(|pair: (String, String)| (pair.0@, pair.1@))
}

/// The key/value form of an alert whose instant is written as `stamp`.
pub open spec fn alert_entries(alert: AlertView, stamp: Seq<char>) -> Seq<(Seq<char>, Seq<char>)> {
    seq![
        ("timestamp"@, stamp),
        ("event"@, alert.event),
        ("path"@, alert.path),
        ("operation"@, alert.operation),
        ("severity"@, alert.severity),
    ]
}

impl Alert {
    /// The alert as key/value pairs, with `stamp` as the text of its instant.
    pub fn entries_with(&self, stamp: &str) -> (list: Vec<(String, String)>)
        ensures
            pair_texts(list@) == alert_entries(self@, stamp@),
    {
        let mut list: Vec<(String, String)> = Vec::new();
        list.push((String::from_str("timestamp"), String::from_str(stamp)));
        list.push((String::from_str("event"), self.event.clone()));
        list.push((String::from_str("path"), self.path.clone()));
        list.push((String::from_str("operation"), self.operation.clone()));
        list.push((String::from_str("severity"), self.severity.clone()));
        assert(pair_texts(list@) =~= alert_entries(self@, stamp@));
        list
    }

    /// The alert as the key/value pairs that an alert sink expects, the
    /// instant in RFC 3339; `None` where the instant has no date.
    pub fn entries(&self) -> (list: Option<Vec<(String, String)>>)
        ensures
            list is Some <==> self.timestamp.is_representable(),
            list matches Some(l) ==> pair_texts(l@) == alert_entries(
                self@,
                self.timestamp.rfc3339_text(),
            ),
    {
        match rfc3339_utc(self.timestamp) {
            Some(stamp) => Some(self.entries_with(stamp.as_str())),
            None => None,
        }
    }
}

impl RansomwareProtection {
    /// Classifies `operation` on `path`, observed at `instant`: a suspicious
    /// operation raises an alert of severity `high`, any other raises none.
    pub fn alert_at(&self, path: &str, operation: &str, instant: Timestamp) -> (alert: Option<Alert>)
        ensures
            alert is Some <==> alert_for(path@, operation@, instant) is Some,
            alert matches Some(a) ==> alert_for(path@, operation@, instant) == Some(a@),
    {
        if is_suspicious(operation) {
            Some(
                Alert {
                    timestamp: instant,
                    event: String::from_str("suspicious_file_operation"),
                    path: String::from_str(path),
                    operation: String::from_str(operation),
                    severity: String::from_str("high"),
                },
            )
        } else {
            None
        }
    }

    /// Classifies `operation` on `path`, observed now. The alert, if there is
    /// one, is returned for the caller to hand to its sink.
    pub fn monitor_file_activity(&self, path: &str, operation: &str) -> (alert: Option<Alert>)
        ensures
            alert is Some <==> is_suspicious_operation(operation@),
            alert matches Some(a) ==> alert_for(path@, operation@, a.timestamp) == Some(a@)
                && a.timestamp.is_representable(),
    {
        self.alert_at(path, operation, utc_now())
    }
}

} // verus!
