use vstd::prelude::*;

verus! {

/// Failures the application reports to its user.
#[derive(Clone, Copy, Debug, PartialEq, Eq)]
pub enum Error {
    /// Discovery found no input device at all.
    NoDevicesFound,
}

pub open spec fn no_devices_text() -> Seq<char> {
    "no input devices found in /dev/input"@
}

impl Error {
    pub open spec fn spec_message(self) -> Seq<char> {
        match self {
            Error::NoDevicesFound => no_devices_text(),
        }
    }

    /// The text shown for the failure.
    pub fn message(&self) -> (s: String)
        ensures
            s@ == self.spec_message(),
    {
        match self {
            Error::NoDevicesFound => String::from_str("no input devices found in /dev/input"),
        }
    }
}

} // verus!
