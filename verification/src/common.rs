//! What all events have in common.
use crate::raw::RawEventHeader;
use crate::text;
use core::time::Duration;
use vstd::prelude::*;
use vstd::string::*;

verus! {

/// A thread of a process.
#[derive(Debug, Clone, Copy, PartialEq, Eq, Hash, Structural)]
pub struct ProcessId {
    pub pid: u32,
    pub tid: u32,
}

/// When an event happened, and in which task.
#[derive(Debug, Clone, PartialEq, Eq, Hash, PartialOrd, Ord)]
pub struct EventHeader {
    pub timestamp_ns: u64,
    pub pid: u32,
    pub tid: u32,
    pub ppid: u32,
    pub uid: u32,
    pub gid: u32,
    /// Process name.
    pub comm: String,
}

/// The duration that `Duration::from_nanos` makes of `nanos`.
pub uninterp spec fn duration_of_nanos(nanos: u64) -> Duration;

/// How many nanoseconds a duration lasts: what `Duration::as_nanos` gives.
pub uninterp spec fn nanos_of(duration: Duration) -> nat;

/// Trusted: `Duration::from_nanos` returns a value that depends on the number
/// of nanoseconds alone and lasts that many nanoseconds, so that
/// `Duration::as_nanos` gives them back.
pub assume_specification[ Duration::from_nanos ](nanos: u64) -> (r: Duration)
    ensures
        r == duration_of_nanos(nanos),
        nanos_of(r) == nanos,
;

/// Trusted: `Duration::as_nanos` returns how many nanoseconds the duration
/// lasts.
pub assume_specification[ Duration::as_nanos ](duration: &Duration) -> (r: u128)
    ensures
        r == nanos_of(*duration),
;

impl EventHeader {
    /// The thread that the event happened in.
    pub open spec fn spec_process(&self) -> ProcessId {
        ProcessId { pid: self.pid, tid: self.tid }
    }

    /// The one-line form of a header.
    pub open spec fn spec_text(&self) -> Seq<char> {
        text::dec(self.timestamp_ns as nat) + " pid="@ + text::dec(self.pid as nat)
            + " tid="@ + text::dec(self.tid as nat)
            + " ppid="@ + text::dec(self.ppid as nat)
            + " uid="@ + text::dec(self.uid as nat)
            + " gid="@ + text::dec(self.gid as nat)
            + " comm="@ + self.comm@
    }

    /// This header says what the kernel's header `raw` says.
    pub open spec fn describes(&self, raw: RawEventHeader) -> bool {
        &&& self.timestamp_ns == raw.timestamp_ns
        &&& self.pid == raw.pid
        &&& self.tid == raw.tid
        &&& self.ppid == raw.ppid
        &&& self.uid == raw.uid
        &&& self.gid == raw.gid
        &&& text::reads_as(self.comm@, raw.comm@)
    }

    /// The thread that the event happened in.
    pub fn process(&self) -> (r: ProcessId)
        ensures
            r == self.spec_process(),
    {
        ProcessId { pid: self.pid, tid: self.tid }
    }

    /// The event happened in a kernel thread.
    pub fn is_kernel_thread(&self) -> (r: bool)
        ensures
            r == (self.pid == 0),
    {
        self.pid == 0
    }

    /// When the event happened, counted from boot.
    pub fn timestamp(&self) -> (r: Duration)
        ensures
            r == duration_of_nanos(self.timestamp_ns),
            nanos_of(r) == self.timestamp_ns,
    {
        Duration::from_nanos(self.timestamp_ns)
    }

    /// The one-line form of the header.
    pub fn to_string(&self) -> (r: String)
        ensures
            r@ == self.spec_text(),
    {
        let mut out = String::new();
        text::push_dec(&mut out, self.timestamp_ns);
        out.append(" pid=");
        text::push_dec(&mut out, self.pid as u64);
        out.append(" tid=");
        text::push_dec(&mut out, self.tid as u64);
        out.append(" ppid=");
        text::push_dec(&mut out, self.ppid as u64);
        out.append(" uid=");
        text::push_dec(&mut out, self.uid as u64);
        out.append(" gid=");
        text::push_dec(&mut out, self.gid as u64);
        out.append(" comm=");
        out.append(self.comm.as_str());
        proof {
            assert(Seq::<char>::empty() + text::dec(self.timestamp_ns as nat) =~= text::dec(
                self.timestamp_ns as nat,
            ));
        }
        out
    }
}

/// Timestamps keep the order of events: a later event has a longer timestamp,
/// and only events of one moment have the same.
pub proof fn law_timestamps_keep_order(a: EventHeader, b: EventHeader, at_a: Duration, at_b: Duration)
    requires
        at_a == duration_of_nanos(a.timestamp_ns),
        nanos_of(at_a) == a.timestamp_ns,
        at_b == duration_of_nanos(b.timestamp_ns),
        nanos_of(at_b) == b.timestamp_ns,
    ensures
        a.timestamp_ns < b.timestamp_ns <==> nanos_of(at_a) < nanos_of(at_b),
        a.timestamp_ns == b.timestamp_ns <==> at_a == at_b,
{
}

/// Converts the kernel's header.
pub fn convert_header(header: RawEventHeader) -> (r: EventHeader)
    ensures
        r.describes(header),
{
    EventHeader {
        timestamp_ns: header.timestamp_ns,
        pid: header.pid,
        tid: header.tid,
        ppid: header.ppid,
        uid: header.uid,
        gid: header.gid,
        comm: text::field_text(&header.comm),
    }
}

} // verus!
