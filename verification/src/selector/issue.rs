use vstd::prelude::*;

use crate::error::{no_devices_text, Error};
use crate::ui::numbers::{digits, usize_decimal};

verus! {

/// Why device discovery found nothing to show.
#[derive(Debug, PartialEq, Eq)]
pub enum DiscoveryIssue {
    /// The device directory could not be read.
    ReadDir { path: String, message: String },
    /// Device nodes exist, but none could be read for lack of permission.
    PermissionDenied { skipped: usize },
    /// Device nodes exist, but none could be opened; the first failure.
    OpenFailed { skipped: usize, path: String, message: String },
    NoDevicesFound,
}

impl DiscoveryIssue {
    pub open spec fn spec_message(self) -> Seq<char> {
        match self {
            DiscoveryIssue::ReadDir { path, message } => "unable to read "@ + path@ + ": "@ + message@,
            DiscoveryIssue::PermissionDenied { skipped } => "found "@ + digits(skipped as nat, 10)
                + " input device node(s), but none were readable; check permissions for /dev/input/event*"@,
            DiscoveryIssue::OpenFailed { skipped, path, message } => "found "@ + digits(
                skipped as nat,
                10,
            ) + " input device node(s), but none could be opened; first error: "@ + path@ + ": "@
                + message@,
            DiscoveryIssue::NoDevicesFound => no_devices_text(),
        }
    }

    /// The text the selector shows for the issue.
    pub fn message(&self) -> (s: String)
        ensures
            s@ == self.spec_message(),
    {
        match self {
            DiscoveryIssue::ReadDir { path, message } => {
                let mut s = String::from_str("unable to read ");
                s.append(path.as_str());
                s.append(": ");
                s.append(message.as_str());
                s
            },
            DiscoveryIssue::PermissionDenied { skipped } => {
                let mut s = String::from_str("found ");
                s.append(usize_decimal(*skipped).as_str());
                s.append(
                    " input device node(s), but none were readable; check permissions for /dev/input/event*",
                );
                s
            },
            DiscoveryIssue::OpenFailed { skipped, path, message } => {
                let mut s = String::from_str("found ");
                s.append(usize_decimal(*skipped).as_str());
                s.append(" input device node(s), but none could be opened; first error: ");
                s.append(path.as_str());
                s.append(": ");
                s.append(message.as_str());
                s
            },
            DiscoveryIssue::NoDevicesFound => Error::NoDevicesFound.message(),
        }
    }
}

/// What device discovery found: the devices it could open, and the issue
/// to report where it found none.
pub struct DiscoveryResult<T> {
    pub devices: Vec<T>,
    pub issue: Option<DiscoveryIssue>,
}

impl<T> DiscoveryResult<T> {
    pub fn new() -> (r: Self)
        ensures
            r.devices@.len() == 0,
            r.issue is None,
    {
        DiscoveryResult { devices: Vec::new(), issue: None }
    }

    pub fn push_device(&mut self, device: T)
        ensures
            final(self).devices@ == old(self).devices@.push(device),
            final(self).issue == old(self).issue,
    {
        self.devices.push(device);
    }

    /// Records an issue; the first one recorded is the one reported.
    pub fn record_issue(&mut self, issue: DiscoveryIssue)
        ensures
            final(self).devices@ == old(self).devices@,
            final(self).issue == (match old(self).issue {
                Some(first) => Some(first),
                None => Some(issue),
            }),
    {
        if self.issue.is_none() {
            self.issue = Some(issue);
        }
    }

    /// Records that the directory at `path` could not be read.
    pub fn record_read_dir_error(&mut self, path: &str, message: &str)
        ensures
            final(self).devices@ == old(self).devices@,
            old(self).issue is Some ==> final(self).issue == old(self).issue,
            old(self).issue is None ==> (final(self).issue matches Some(
                DiscoveryIssue::ReadDir { path: p, message: m },
            ) && p@ == path@ && m@ == message@),
    {
        let issue = DiscoveryIssue::ReadDir { path: String::from_str(path), message: String::from_str(message) };
        self.record_issue(issue);
    }

    pub open spec fn spec_error_message(self) -> Option<Seq<char>> {
        if self.devices@.len() > 0 {
            None
        } else {
            Some(
                match self.issue {
                    Some(issue) => issue.spec_message(),
                    None => no_devices_text(),
                },
            )
        }
    }

    /// The message to show: none while any device was found, even where
    /// some failed; else the recorded issue, or that there were no devices.
    pub fn error_message(&self) -> (m: Option<String>)
        ensures
            match m {
                Some(s) => self.spec_error_message() == Some(s@),
                None => self.spec_error_message() is None,
            },
    {
        if self.devices.len() > 0 {
            return None;
        }
        match &self.issue {
            Some(issue) => Some(issue.message()),
            None => Some(Error::NoDevicesFound.message()),
        }
    }
}

/// A device node that could not be opened, and why.
pub struct OpenFailure {
    pub path: String,
    pub message: String,
    /// The node exists but the user may not read it.
    pub permission_denied: bool,
}

/// The index of the first failure that is not for lack of permission.
pub open spec fn first_other_failure(s: Seq<OpenFailure>) -> Option<int>
    decreases s.len(),
{
    if s.len() == 0 {
        None
    } else {
        match first_other_failure(s.drop_last()) {
            Some(k) => Some(k),
            None => if !s.last().permission_denied { Some(s.len() - 1) } else { None },
        }
    }
}

/// The issue that the nodes which could not be opened make: the first
/// failure other than a refused permission, counting every node skipped;
/// else, where some were refused, the permission issue; else none.
pub open spec fn spec_open_failure_issue(s: Seq<OpenFailure>) -> Option<DiscoveryIssue> {
    match first_other_failure(s) {
        Some(k) => Some(
            DiscoveryIssue::OpenFailed { skipped: s.len() as usize, path: s[k].path, message: s[k].message },
        ),
        None => if s.len() > 0 { Some(DiscoveryIssue::PermissionDenied { skipped: s.len() as usize }) } else { None },
    }
}

/// The issue to record for the device nodes that could not be opened.
pub fn open_failure_issue(failures: &[OpenFailure]) -> (r: Option<DiscoveryIssue>)
    ensures
        r == spec_open_failure_issue(failures@),
{
    let mut first: Option<usize> = None;
    let mut i: usize = 0;
    while i < failures.len()
        invariant
            i <= failures.len(),
            first matches Some(k) ==> k < i,
            match first {
                Some(k) => first_other_failure(failures@.take(i as int)) == Some(k as int),
                None => first_other_failure(failures@.take(i as int)) is None,
            },
        decreases failures.len() - i,
    {
        assert(failures@.take(i as int) == failures@.take((i + 1) as int).drop_last());
        if first.is_none() && !failures[i].permission_denied {
            first = Some(i);
        }
        i = i + 1;
    }
    assert(failures@.take(failures.len() as int) == failures@);
    match first {
        Some(k) => Some(
            DiscoveryIssue::OpenFailed {
                skipped: failures.len(),
                path: failures[k].path.clone(),
                message: failures[k].message.clone(),
            },
        ),
        None => if failures.len() > 0 {
            Some(DiscoveryIssue::PermissionDenied { skipped: failures.len() })
        } else {
            None
        },
    }
}

} // verus!
