//! Process events.
use crate::common;
use crate::common::{EventHeader, ProcessId};
use crate::mask;
use crate::raw::FilterKey;
use crate::text;
use core::ops::{BitOr, BitOrAssign};
use core::time::Duration;
use vstd::prelude::*;
use vstd::std_specs::ops::BitOrSpec;
use vstd::string::*;

verus! {

/// A process began to run a new program image, after a successful call of the
/// `execve` family.
#[derive(Debug, Clone, PartialEq, Eq, Hash, PartialOrd, Ord)]
pub struct ProcessStartEvent {
    pub header: EventHeader,
    pub filename: String,
}

impl ProcessStartEvent {
    /// The one-line form of the event.
    pub open spec fn spec_text(&self) -> Seq<char> {
        self.header.spec_text() + " START "@ + self.filename@
    }

    /// The one-line form of the event.
    pub fn to_string(&self) -> (r: String)
        ensures
            r@ == self.spec_text(),
    {
        let mut out = self.header.to_string();
        out.append(" START ");
        out.append(self.filename.as_str());
        out
    }
}

/// A process exits. `exit_code` is the raw kernel exit status.
#[derive(Debug, Clone, PartialEq, Eq, Hash, PartialOrd, Ord)]
pub struct ProcessExitEvent {
    pub header: EventHeader,
    pub exit_code: i32,
}

impl ProcessExitEvent {
    /// The one-line form of the event.
    pub open spec fn spec_text(&self) -> Seq<char> {
        self.header.spec_text() + " EXIT "@ + text::dec(self.spec_status() as nat)
    }

    /// The low byte of the exit code moved up by a byte.
    pub open spec fn spec_status(&self) -> u8 {
        ((self.exit_code << 8) & 0xff) as u8
    }

    /// The low byte of the exit code moved up by a byte, which is zero.
    pub fn status(&self) -> (r: u8)
        ensures
            r == self.spec_status(),
            r == 0,
    {
        proof {
            let code = self.exit_code;
            assert((code << 8) & 0xff == 0) by (bit_vector);
        }
        ((self.exit_code << 8) & 0xff) as u8
    }

    /// The one-line form of the event.
    pub fn to_string(&self) -> (r: String)
        ensures
            r@ == self.spec_text(),
    {
        let mut out = self.header.to_string();
        out.append(" EXIT ");
        text::push_dec(&mut out, self.status() as u64);
        out
    }
}

/// The kernel created a process.
#[derive(Debug, Clone)]
pub struct ProcessForkEvent {
    pub parent: EventHeader,
    pub child_pid: u32,
    pub child_comm: String,
}

impl ProcessForkEvent {
    /// The one-line form of the event.
    pub open spec fn spec_text(&self) -> Seq<char> {
        self.parent.spec_text() + " FORK "@ + self.child_comm@ + "("@ + text::dec(
            self.child_pid as nat,
        ) + ")"@
    }

    /// The one-line form of the event.
    pub fn to_string(&self) -> (r: String)
        ensures
            r@ == self.spec_text(),
    {
        let mut out = self.parent.to_string();
        out.append(" FORK ");
        out.append(self.child_comm.as_str());
        out.append("(");
        text::push_dec(&mut out, self.child_pid as u64);
        out.append(")");
        out
    }
}

/// A step in the life of a process.
#[non_exhaustive]
#[derive(Debug)]
pub enum ProcessEvent {
    Start(ProcessStartEvent),
    Fork(ProcessForkEvent),
    Exit(ProcessExitEvent),
}

impl ProcessEvent {
    /// The bit that stands for this event in a [`ProcessMask`].
    pub open spec fn spec_bit(&self) -> u8 {
        match self {
            ProcessEvent::Start(_) => 1,
            ProcessEvent::Fork(_) => 2,
            ProcessEvent::Exit(_) => 4,
        }
    }

    /// The header of the event; of a fork it is the parent's.
    pub open spec fn spec_header(&self) -> EventHeader {
        match self {
            ProcessEvent::Start(e) => e.header,
            ProcessEvent::Fork(e) => e.parent,
            ProcessEvent::Exit(e) => e.header,
        }
    }

    /// The one-line form of the event.
    pub open spec fn spec_text(&self) -> Seq<char> {
        match self {
            ProcessEvent::Start(e) => e.spec_text(),
            ProcessEvent::Fork(e) => e.spec_text(),
            ProcessEvent::Exit(e) => e.spec_text(),
        }
    }

    /// The header of the event; of a fork it is the parent's.
    pub fn header(&self) -> (r: &EventHeader)
        ensures
            *r == self.spec_header(),
    {
        match self {
            ProcessEvent::Start(e) => &e.header,
            ProcessEvent::Fork(e) => &e.parent,
            ProcessEvent::Exit(e) => &e.header,
        }
    }

    /// The thread that the event happened in.
    pub fn process(&self) -> (r: ProcessId)
        ensures
            r == self.spec_header().spec_process(),
    {
        self.header().process()
    }

    /// When the event happened.
    pub fn timestamp(&self) -> (r: Duration)
        ensures
            r == common::duration_of_nanos(self.spec_header().timestamp_ns),
            common::nanos_of(r) == self.spec_header().timestamp_ns,
    {
        self.header().timestamp()
    }

    /// The event happened in a kernel thread.
    pub fn is_kernel_thread(&self) -> (r: bool)
        ensures
            r == (self.spec_header().pid == 0),
    {
        self.header().is_kernel_thread()
    }

    pub fn is_start(&self) -> (r: bool)
        ensures
            r == (self is Start),
    {
        matches!(self, ProcessEvent::Start(_))
    }

    pub fn is_fork(&self) -> (r: bool)
        ensures
            r == (self is Fork),
    {
        matches!(self, ProcessEvent::Fork(_))
    }

    pub fn is_exit(&self) -> (r: bool)
        ensures
            r == (self is Exit),
    {
        matches!(self, ProcessEvent::Exit(_))
    }

    /// The one-line form of the event.
    pub fn to_string(&self) -> (r: String)
        ensures
            r@ == self.spec_text(),
    {
        match self {
            ProcessEvent::Start(e) => e.to_string(),
            ProcessEvent::Fork(e) => e.to_string(),
            ProcessEvent::Exit(e) => e.to_string(),
        }
    }
}

/// Which process events are asked for.
#[derive(Debug, Clone, Copy, PartialEq, Eq, Hash, Structural)]
pub struct ProcessMask(u8);

impl ProcessMask {
    /// One bit for each operation asked for.
    pub closed spec fn bits(self) -> u8 {
        self.0
    }

    #[verifier::type_invariant]
    spec fn within_all(self) -> bool {
        mask::covers(7, self.0)
    }

    /// Nothing is asked for that is not an operation.
    pub open spec fn well_formed(self) -> bool {
        mask::covers(7, self.bits())
    }

    /// Process starts.
    pub fn start() -> (r: Self)
        ensures
            r.bits() == 1,
    {
        proof {
            mask::lemma_singles();
        }
        ProcessMask(1)
    }

    /// Forks.
    pub fn fork() -> (r: Self)
        ensures
            r.bits() == 2,
    {
        proof {
            mask::lemma_singles();
        }
        ProcessMask(2)
    }

    /// Process exits.
    pub fn exit() -> (r: Self)
        ensures
            r.bits() == 4,
    {
        proof {
            mask::lemma_singles();
        }
        ProcessMask(4)
    }

    /// Every process event.
    pub fn all() -> (r: Self)
        ensures
            r.bits() == 7,
    {
        proof {
            mask::lemma_singles();
        }
        ProcessMask(7)
    }

    /// Everything that `other` asks for is asked for.
    pub fn contains(&self, other: &Self) -> (r: bool)
        ensures
            r == mask::covers(self.bits(), other.bits()),
            self.well_formed(),
            other.well_formed(),
            self.bits() == 7 ==> r,
    {
        proof {
            use_type_invariant(self);
            use_type_invariant(other);
        }
        self.0 & other.0 == other.0
    }
}

impl BitOr for ProcessMask {
    type Output = Self;

    fn bitor(self, rhs: Self) -> (r: Self)
        ensures
            r.bits() == self.bits() | rhs.bits(),
            r.well_formed(),
    {
        proof {
            use_type_invariant(&self);
            use_type_invariant(&rhs);
            mask::law_union_is_least_cover(self.0, rhs.0, 7);
        }
        ProcessMask(self.0 | rhs.0)
    }
}

impl vstd::std_specs::ops::BitOrSpecImpl for ProcessMask {
    open spec fn obeys_bitor_spec() -> bool {
        true
    }

    open spec fn bitor_req(self, rhs: Self) -> bool {
        true
    }

    closed spec fn bitor_spec(self, rhs: Self) -> Self {
        ProcessMask(self.0 | rhs.0)
    }
}

impl BitOrAssign for ProcessMask {
    fn bitor_assign(&mut self, rhs: Self)
        ensures
            final(self).bits() == old(self).bits() | rhs.bits(),
            final(self).well_formed(),
            *final(self) == old(self).bitor_spec(rhs),
    {
        proof {
            use_type_invariant(&*self);
            use_type_invariant(&rhs);
            mask::law_union_is_least_cover(self.0, rhs.0, 7);
        }
        self.0 = self.0 | rhs.0;
    }
}

/// Two masks that ask for the same are the same, a mask contains another exactly
/// when the union with it is the mask itself, a union contains both of its sides,
/// and the mask of everything contains every mask.
pub proof fn law_process_masks(a: ProcessMask, b: ProcessMask)
    ensures
        a.bits() == b.bits() ==> a == b,
        mask::covers(a.bits(), b.bits()) && mask::covers(b.bits(), a.bits()) ==> a == b,
        mask::covers(a.bits(), b.bits()) <==> a.bitor_spec(b) == a,
        mask::covers(a.bits(), a.bits()),
        mask::covers(a.bitor_spec(b).bits(), a.bits()),
        mask::covers(a.bitor_spec(b).bits(), b.bits()),
        a.well_formed() && b.bits() == 7 ==> mask::covers(b.bits(), a.bits()),
        a.well_formed() && b.well_formed() ==> a.bitor_spec(b).well_formed(),
{
    mask::law_covers_is_an_order(a.bits(), b.bits(), a.bits());
    mask::law_union_is_least_cover(a.bits(), b.bits(), 7);
    mask::law_covered_adds_nothing(a.bits(), b.bits());
}

/// Which process events are delivered: the operations in `mask`, of the tasks
/// that `filter` asks for.
#[derive(Debug)]
pub struct ProcessFilter {
    pub mask: ProcessMask,
    pub filter: FilterKey,
}

impl Default for ProcessFilter {
    fn default() -> (r: Self)
        ensures
            r.mask.bits() == 7,
            r.filter == FilterKey::Any,
    {
        ProcessFilter::all()
    }
}

impl ProcessFilter {
    /// Process starts, of every task.
    pub fn start() -> (r: Self)
        ensures
            r.mask.bits() == 1,
            r.filter == FilterKey::Any,
    {
        ProcessFilter { mask: ProcessMask::start(), filter: FilterKey::Any }
    }

    /// Forks, of every task.
    pub fn fork() -> (r: Self)
        ensures
            r.mask.bits() == 2,
            r.filter == FilterKey::Any,
    {
        ProcessFilter { mask: ProcessMask::fork(), filter: FilterKey::Any }
    }

    /// Process exits, of every task.
    pub fn exit() -> (r: Self)
        ensures
            r.mask.bits() == 4,
            r.filter == FilterKey::Any,
    {
        ProcessFilter { mask: ProcessMask::exit(), filter: FilterKey::Any }
    }

    /// Every process event, of every task.
    pub fn all() -> (r: Self)
        ensures
            r.mask.bits() == 7,
            r.filter == FilterKey::Any,
    {
        ProcessFilter { mask: ProcessMask::all(), filter: FilterKey::Any }
    }
}

} // verus!
