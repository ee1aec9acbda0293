//! What can go wrong.
use vstd::prelude::*;
use vstd::string::*;

verus! {

/// What can go wrong. An error of the loader, the kernel or the system is kept
/// as the text that describes it.
#[non_exhaustive]
#[derive(Debug, Clone, PartialEq, Eq)]
pub enum Error {
    /// The kernel's type information could not be read.
    Btf(String),
    /// The object file could not be loaded.
    Load(String),
    /// A program could not be loaded or attached.
    Attach(String),
    /// An input or output operation failed.
    Io(String),
    /// A map could not be used.
    MapAccess(String),
    Unsupported,
    InvalidFilter,
    /// The object file has no program of that name.
    ProgramAccess,
    NoActiveSubscriptions,
    FilterMapAccess,
    ConfigMapAccess,
    EventsMapAccess,
}

/// A value, or what went wrong.
pub type Result<T> = core::result::Result<T, Error>;

impl Error {
    /// The text of the error. A failure to load or to attach has a text of its
    /// own; the other errors from outside speak for themselves.
    pub open spec fn spec_text(&self) -> Seq<char> {
        match self {
            Error::Btf(text) => text@,
            Error::Load(_) => "failed to load eBPF program"@,
            Error::Attach(_) => "failed to attach eBPF program"@,
            Error::Io(text) => text@,
            Error::MapAccess(text) => text@,
            Error::Unsupported => "unsupported kernel feature"@,
            Error::InvalidFilter => "invalid filter"@,
            Error::ProgramAccess => "failed to retrieve eBPF program"@,
            Error::NoActiveSubscriptions => "no active event subscriptions remain"@,
            Error::FilterMapAccess => "failed to access FILTER map"@,
            Error::ConfigMapAccess => "failed to access CONFIG map"@,
            Error::EventsMapAccess => "failed to access EVENTS ring buffer"@,
        }
    }

    /// The text of the error.
    pub fn to_string(&self) -> (r: String)
        ensures
            r@ == self.spec_text(),
    {
        let text: &str = match self {
            Error::Btf(text) => text.as_str(),
            Error::Load(_) => "failed to load eBPF program",
            Error::Attach(_) => "failed to attach eBPF program",
            Error::Io(text) => text.as_str(),
            Error::MapAccess(text) => text.as_str(),
            Error::Unsupported => "unsupported kernel feature",
            Error::InvalidFilter => "invalid filter",
            Error::ProgramAccess => "failed to retrieve eBPF program",
            Error::NoActiveSubscriptions => "no active event subscriptions remain",
            Error::FilterMapAccess => "failed to access FILTER map",
            Error::ConfigMapAccess => "failed to access CONFIG map",
            Error::EventsMapAccess => "failed to access EVENTS ring buffer",
        };
        String::from_str(text)
    }
}

} // verus!
