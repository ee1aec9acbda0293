//! Memory events.
use crate::common;
use crate::common::{EventHeader, ProcessId};
use crate::mask;
use crate::raw::FilterKey;
use crate::text;
use core::ops::{BitOr, BitOrAssign};
use core::time::Duration;
use vstd::prelude::*;
use vstd::std_specs::ops::BitOrSpec;
use vstd::string::*;

verus! {

/// The kernel completed a virtual memory mapping.
#[derive(Debug, Clone, PartialEq, Eq, PartialOrd, Ord)]
pub struct MemoryMapEvent {
    pub header: EventHeader,
    pub requested_address: usize,
    pub length: u64,
    pub protection: u32,
    pub flags: u32,
    pub mapped_address: usize,
}

impl MemoryMapEvent {
    /// The one-line form of the event.
    pub open spec fn spec_text(&self) -> Seq<char> {
        self.header.spec_text() + " MMAP addr="@ + text::prefixed_hex(self.requested_address as nat)
            + " len="@ + text::prefixed_hex(self.length as nat) + " -> "@ + text::prefixed_hex(
            self.mapped_address as nat,
        )
    }

    /// The one-line form of the event.
    pub fn to_string(&self) -> (r: String)
        ensures
            r@ == self.spec_text(),
    {
        let mut out = self.header.to_string();
        out.append(" MMAP addr=");
        text::push_hex(&mut out, self.requested_address as u64);
        out.append(" len=");
        text::push_hex(&mut out, self.length);
        out.append(" -> ");
        text::push_hex(&mut out, self.mapped_address as u64);
        out
    }
}

/// The kernel completed the removal of a virtual memory mapping.
#[derive(Debug, Clone, PartialEq, Eq, PartialOrd, Ord)]
pub struct MemoryUnmapEvent {
    pub header: EventHeader,
    pub requested_address: usize,
    pub length: u64,
    pub mapped_address: usize,
}

impl MemoryUnmapEvent {
    /// The one-line form of the event.
    pub open spec fn spec_text(&self) -> Seq<char> {
        self.header.spec_text() + " MUNMAP addr="@ + text::prefixed_hex(
            self.requested_address as nat,
        ) + " len="@ + text::prefixed_hex(self.length as nat)
    }

    /// The one-line form of the event.
    pub fn to_string(&self) -> (r: String)
        ensures
            r@ == self.spec_text(),
    {
        let mut out = self.header.to_string();
        out.append(" MUNMAP addr=");
        text::push_hex(&mut out, self.requested_address as u64);
        out.append(" len=");
        text::push_hex(&mut out, self.length);
        out
    }
}

/// A change of a process's memory mappings.
#[non_exhaustive]
#[derive(Debug, Clone)]
pub enum MemoryEvent {
    MemoryMap(MemoryMapEvent),
    MemoryUnMap(MemoryUnmapEvent),
}

impl MemoryEvent {
    /// The bit that stands for this operation in a [`MemoryMask`].
    pub open spec fn spec_bit(&self) -> u8 {
        match self {
            MemoryEvent::MemoryMap(_) => 1,
            MemoryEvent::MemoryUnMap(_) => 2,
        }
    }

    /// The header of the event.
    pub open spec fn spec_header(&self) -> EventHeader {
        match self {
            MemoryEvent::MemoryMap(e) => e.header,
            MemoryEvent::MemoryUnMap(e) => e.header,
        }
    }

    /// The one-line form of the event.
    pub open spec fn spec_text(&self) -> Seq<char> {
        match self {
            MemoryEvent::MemoryMap(e) => e.spec_text(),
            MemoryEvent::MemoryUnMap(e) => e.spec_text(),
        }
    }

    /// The header of the event.
    pub fn header(&self) -> (r: &EventHeader)
        ensures
            *r == self.spec_header(),
    {
        match self {
            MemoryEvent::MemoryMap(e) => &e.header,
            MemoryEvent::MemoryUnMap(e) => &e.header,
        }
    }

    /// The thread that the event happened in.
    pub fn process(&self) -> (r: ProcessId)
        ensures
            r == self.spec_header().spec_process(),
    {
        self.header().process()
    }

    /// When the event happened.
    pub fn timestamp(&self) -> (r: Duration)
        ensures
            r == common::duration_of_nanos(self.spec_header().timestamp_ns),
            common::nanos_of(r) == self.spec_header().timestamp_ns,
    {
        self.header().timestamp()
    }

    /// The event happened in a kernel thread.
    pub fn is_kernel_thread(&self) -> (r: bool)
        ensures
            r == (self.spec_header().pid == 0),
    {
        self.header().is_kernel_thread()
    }

    /// The one-line form of the event.
    pub fn to_string(&self) -> (r: String)
        ensures
            r@ == self.spec_text(),
    {
        match self {
            MemoryEvent::MemoryMap(e) => e.to_string(),
            MemoryEvent::MemoryUnMap(e) => e.to_string(),
        }
    }

    pub fn is_mmap(&self) -> (r: bool)
        ensures
            r == (self is MemoryMap),
    {
        matches!(self, MemoryEvent::MemoryMap(_))
    }

    pub fn is_unmap(&self) -> (r: bool)
        ensures
            r == (self is MemoryUnMap),
    {
        matches!(self, MemoryEvent::MemoryUnMap(_))
    }
}

/// Which memory events are asked for.
#[derive(Debug, Clone, Copy, PartialEq, Eq, Hash, Structural)]
pub struct MemoryMask(u8);

impl MemoryMask {
    /// One bit for each operation asked for.
    pub closed spec fn bits(self) -> u8 {
        self.0
    }

    #[verifier::type_invariant]
    spec fn within_all(self) -> bool {
        mask::covers(3, self.0)
    }

    /// Nothing is asked for that is not an operation.
    pub open spec fn well_formed(self) -> bool {
        mask::covers(3, self.bits())
    }

    /// New mappings.
    pub fn mmap() -> (r: Self)
        ensures
            r.bits() == 1,
    {
        proof {
            mask::lemma_singles();
        }
        MemoryMask(1)
    }

    /// Removed mappings.
    pub fn unmap() -> (r: Self)
        ensures
            r.bits() == 2,
    {
        proof {
            mask::lemma_singles();
        }
        MemoryMask(2)
    }

    /// Everything.
    pub fn all() -> (r: Self)
        ensures
            r.bits() == 3,
    {
        proof {
            mask::lemma_singles();
        }
        MemoryMask(3)
    }

    /// Everything that `other` asks for is asked for.
    pub fn contains(&self, other: Self) -> (r: bool)
        ensures
            r == mask::covers(self.bits(), other.bits()),
            self.well_formed(),
            other.well_formed(),
            self.bits() == 3 ==> r,
    {
        proof {
            use_type_invariant(self);
            use_type_invariant(&other);
        }
        self.0 & other.0 == other.0
    }
}

impl BitOr for MemoryMask {
    type Output = Self;

    fn bitor(self, rhs: Self) -> (r: Self)
        ensures
            r.bits() == self.bits() | rhs.bits(),
            r.well_formed(),
    {
        proof {
            use_type_invariant(&self);
            use_type_invariant(&rhs);
            mask::law_union_is_least_cover(self.0, rhs.0, 3);
        }
        MemoryMask(self.0 | rhs.0)
    }
}

impl vstd::std_specs::ops::BitOrSpecImpl for MemoryMask {
    open spec fn obeys_bitor_spec() -> bool {
        true
    }

    open spec fn bitor_req(self, rhs: Self) -> bool {
        true
    }

    closed spec fn bitor_spec(self, rhs: Self) -> Self {
        MemoryMask(self.0 | rhs.0)
    }
}

impl BitOrAssign for MemoryMask {
    fn bitor_assign(&mut self, rhs: Self)
        ensures
            final(self).bits() == old(self).bits() | rhs.bits(),
            final(self).well_formed(),
            *final(self) == old(self).bitor_spec(rhs),
    {
        proof {
            use_type_invariant(&*self);
            use_type_invariant(&rhs);
            mask::law_union_is_least_cover(self.0, rhs.0, 3);
        }
        self.0 = self.0 | rhs.0;
    }
}

/// Two masks that ask for the same are the same, a mask contains another exactly
/// when the union with it is the mask itself, a union contains both of its sides,
/// and the mask of everything contains every mask.
pub proof fn law_memory_masks(a: MemoryMask, b: MemoryMask)
    ensures
        a.bits() == b.bits() ==> a == b,
        mask::covers(a.bits(), b.bits()) && mask::covers(b.bits(), a.bits()) ==> a == b,
        mask::covers(a.bits(), b.bits()) <==> a.bitor_spec(b) == a,
        mask::covers(a.bits(), a.bits()),
        mask::covers(a.bitor_spec(b).bits(), a.bits()),
        mask::covers(a.bitor_spec(b).bits(), b.bits()),
        a.well_formed() && b.bits() == 3 ==> mask::covers(b.bits(), a.bits()),
        a.well_formed() && b.well_formed() ==> a.bitor_spec(b).well_formed(),
{
    mask::law_covers_is_an_order(a.bits(), b.bits(), a.bits());
    mask::law_union_is_least_cover(a.bits(), b.bits(), 3);
    mask::law_covered_adds_nothing(a.bits(), b.bits());
}

/// Which memory events are delivered: the operations in `mask`, of the tasks
/// that `filter` asks for.
#[derive(Debug, Clone)]
pub struct MemoryFilter {
    pub mask: MemoryMask,
    pub filter: FilterKey,
}

impl Default for MemoryFilter {
    fn default() -> (r: Self)
        ensures
            r.mask.bits() == 3,
            r.filter == FilterKey::Any,
    {
        MemoryFilter::all()
    }
}

impl MemoryFilter {
    /// Every memory event, of every task.
    pub fn all() -> (r: Self)
        ensures
            r.mask.bits() == 3,
            r.filter == FilterKey::Any,
    {
        MemoryFilter { mask: MemoryMask::all(), filter: FilterKey::Any }
    }

    /// New mappings, of every task.
    pub fn mmap() -> (r: Self)
        ensures
            r.mask.bits() == 1,
            r.filter == FilterKey::Any,
    {
        MemoryFilter { mask: MemoryMask::mmap(), filter: FilterKey::Any }
    }

    /// Removed mappings, of every task.
    pub fn unmap() -> (r: Self)
        ensures
            r.mask.bits() == 2,
            r.filter == FilterKey::Any,
    {
        MemoryFilter { mask: MemoryMask::unmap(), filter: FilterKey::Any }
    }
}

} // verus!
