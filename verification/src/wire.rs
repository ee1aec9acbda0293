//! The byte layout of kernel records: little-endian fields at fixed offsets.
//!
//! For each record there is a relation `held_in` between the record and a run
//! of bytes. `decode` finds the record that some bytes hold, and `encode`
//! makes bytes that hold a record.
use crate::raw::{
    EventType, FileModeFilter, IpVersion, PendingConnect, RawEventHeader, RawFileCloseEvent,
    RawFileDeleteEvent, RawFileOpenEvent, RawFileReadEvent, RawFileRenameEvent, RawFileRtrEvent,
    RawFileWriteEvent, RawMemoryMapEvent, RawMemoryUnmapEvent, RawProcessExitEvent,
    RawProcessForkEvent, RawProcessStartEvent, RawProtocol,
};
use vstd::prelude::*;

verus! {

/// The unsigned 16-bit number at offset `o` of `b`.
pub open spec fn u16_at(b: Seq<u8>, o: int) -> int {
    b[o] + 0x100 * b[o + 1]
}

/// The unsigned 32-bit number at offset `o` of `b`.
pub open spec fn u32_at(b: Seq<u8>, o: int) -> int {
    u16_at(b, o) + 0x1_0000 * u16_at(b, o + 2)
}

/// The unsigned 64-bit number at offset `o` of `b`.
pub open spec fn u64_at(b: Seq<u8>, o: int) -> int {
    u32_at(b, o) + 0x1_0000_0000 * u32_at(b, o + 4)
}

/// The signed 32-bit number at offset `o` of `b`.
pub open spec fn i32_at(b: Seq<u8>, o: int) -> int {
    if u32_at(b, o) < 0x8000_0000 {
        u32_at(b, o)
    } else {
        u32_at(b, o) - 0x1_0000_0000
    }
}

/// The signed 64-bit number at offset `o` of `b`.
pub open spec fn i64_at(b: Seq<u8>, o: int) -> int {
    if u64_at(b, o) < 0x8000_0000_0000_0000 {
        u64_at(b, o)
    } else {
        u64_at(b, o) - 0x1_0000_0000_0000_0000
    }
}

/// The `n` bytes at offset `o` of `b`.
pub open spec fn bytes_at(b: Seq<u8>, o: int, n: int) -> Seq<u8> {
    b.subrange(o, o + n)
}

/// The bytes of `b` from `from` up to `to` are zero.
pub open spec fn zeros_at(b: Seq<u8>, from: int, to: int) -> bool {
    forall|i: int| from <= i < to ==> #[trigger] b[i] == 0
}

fn read_u16(b: &[u8], o: usize) -> (r: u16)
    requires
        o + 2 <= b.len(),
    ensures
        r == u16_at(b@, o as int),
{
    b[o] as u16 + 0x100 * (b[o + 1] as u16)
}

fn read_u32(b: &[u8], o: usize) -> (r: u32)
    requires
        o + 4 <= b.len(),
    ensures
        r == u32_at(b@, o as int),
{
    read_u16(b, o) as u32 + 0x1_0000 * (read_u16(b, o + 2) as u32)
}

fn read_u64(b: &[u8], o: usize) -> (r: u64)
    requires
        o + 8 <= b.len(),
    ensures
        r == u64_at(b@, o as int),
{
    read_u32(b, o) as u64 + 0x1_0000_0000 * (read_u32(b, o + 4) as u64)
}

fn read_i32(b: &[u8], o: usize) -> (r: i32)
    requires
        o + 4 <= b.len(),
    ensures
        r == i32_at(b@, o as int),
{
    let n: u32 = read_u32(b, o);
    if n < 0x8000_0000 {
        n as i32
    } else {
        -((0xffff_ffff - n) as i32) - 1
    }
}

fn read_i64(b: &[u8], o: usize) -> (r: i64)
    requires
        o + 8 <= b.len(),
    ensures
        r == i64_at(b@, o as int),
{
    let n: u64 = read_u64(b, o);
    if n < 0x8000_0000_0000_0000 {
        n as i64
    } else {
        -((0xffff_ffff_ffff_ffff - n) as i64) - 1
    }
}

fn read_16(b: &[u8], o: usize) -> (r: [u8; 16])
    requires
        o + 16 <= b.len(),
    ensures
        r@ == bytes_at(b@, o as int, 16),
{
    let mut out: [u8; 16] = [0; 16];
    let mut i: usize = 0;
    while i < 16
        invariant
            i <= 16,
            o + 16 <= b.len(),
            forall|k: int| 0 <= k < i ==> out@[k] == b@[o + k],
        decreases 16 - i,
    {
        out[i] = b[o + i];
        i += 1;
    }
    assert(out@ =~= bytes_at(b@, o as int, 16));
    out
}

fn read_name(b: &[u8], o: usize) -> (r: [u8; 256])
    requires
        o + 256 <= b.len(),
    ensures
        r@ == bytes_at(b@, o as int, 256),
{
    let mut out: [u8; 256] = [0; 256];
    let mut i: usize = 0;
    while i < 256
        invariant
            i <= 256,
            o + 256 <= b.len(),
            forall|k: int| 0 <= k < i ==> out@[k] == b@[o + k],
        decreases 256 - i,
    {
        out[i] = b[o + i];
        i += 1;
    }
    assert(out@ =~= bytes_at(b@, o as int, 256));
    out
}

/// `new` is `old` with `n` more bytes behind it.
pub open spec fn extends(old: Seq<u8>, new: Seq<u8>, n: int) -> bool {
    &&& new.len() == old.len() + n
    &&& forall|i: int| 0 <= i < old.len() ==> #[trigger] new[i] == old[i]
}

fn push_u16(out: &mut Vec<u8>, x: u16)
    ensures
        extends(old(out)@, final(out)@, 2),
        u16_at(final(out)@, old(out)@.len() as int) == x,
{
    out.push((x % 0x100) as u8);
    out.push((x / 0x100) as u8);
}

fn push_u32(out: &mut Vec<u8>, x: u32)
    ensures
        extends(old(out)@, final(out)@, 4),
        u32_at(final(out)@, old(out)@.len() as int) == x,
{
    push_u16(out, (x % 0x1_0000) as u16);
    push_u16(out, (x / 0x1_0000) as u16);
}

fn push_u64(out: &mut Vec<u8>, x: u64)
    ensures
        extends(old(out)@, final(out)@, 8),
        u64_at(final(out)@, old(out)@.len() as int) == x,
{
    push_u32(out, (x % 0x1_0000_0000) as u32);
    push_u32(out, (x / 0x1_0000_0000) as u32);
}

fn push_i32(out: &mut Vec<u8>, x: i32)
    ensures
        extends(old(out)@, final(out)@, 4),
        i32_at(final(out)@, old(out)@.len() as int) == x,
{
    if x >= 0 {
        push_u32(out, x as u32);
    } else {
        push_u32(out, 0xffff_ffff - (-(x + 1)) as u32);
    }
}

fn push_i64(out: &mut Vec<u8>, x: i64)
    ensures
        extends(old(out)@, final(out)@, 8),
        i64_at(final(out)@, old(out)@.len() as int) == x,
{
    if x >= 0 {
        push_u64(out, x as u64);
    } else {
        push_u64(out, 0xffff_ffff_ffff_ffff - (-(x + 1)) as u64);
    }
}

fn push_zeros(out: &mut Vec<u8>, n: usize)
    ensures
        extends(old(out)@, final(out)@, n as int),
        zeros_at(final(out)@, old(out)@.len() as int, final(out)@.len() as int),
{
    let mut i: usize = 0;
    while i < n
        invariant
            i <= n,
            extends(old(out)@, out@, i as int),
            zeros_at(out@, old(out)@.len() as int, out@.len() as int),
        decreases n - i,
    {
        out.push(0);
        i += 1;
    }
}

fn push_bytes(out: &mut Vec<u8>, bytes: &[u8])
    ensures
        extends(old(out)@, final(out)@, bytes@.len() as int),
        bytes_at(final(out)@, old(out)@.len() as int, bytes@.len() as int) == bytes@,
{
    let mut i: usize = 0;
    while i < bytes.len()
        invariant
            i <= bytes@.len(),
            extends(old(out)@, out@, i as int),
            forall|k: int| 0 <= k < i ==> out@[old(out)@.len() + k] == bytes@[k],
        decreases bytes@.len() - i,
    {
        out.push(bytes[i]);
        i += 1;
    }
    assert(bytes_at(out@, old(out)@.len() as int, bytes@.len() as int) =~= bytes@);
}

/// Size of the common header.
pub const HEADER_SIZE: usize = 56;

impl RawEventHeader {
    /// The bytes `b` start with this record.
    pub open spec fn held_in(self, b: Seq<u8>) -> bool {
        &&& b.len() >= HEADER_SIZE
        &&& b[0] == self.event_type.spec_tag()
        &&& u64_at(b, 8) == self.timestamp_ns
        &&& u32_at(b, 16) == self.pid
        &&& u32_at(b, 20) == self.tid
        &&& u32_at(b, 24) == self.ppid
        &&& u32_at(b, 28) == self.uid
        &&& u32_at(b, 32) == self.gid
        &&& bytes_at(b, 36, 16) == self.comm@
    }

    /// The record that the bytes `b` start with, `None` when they start with no
    /// such record.
    pub open spec fn read_from(b: Seq<u8>) -> Option<RawEventHeader> {
        if exists|record: RawEventHeader| record.held_in(b) {
            Some(choose|record: RawEventHeader| record.held_in(b))
        } else {
            None
        }
    }

    /// The record that `bytes` start with, `None` when they start with no such
    /// record.
    pub fn decode(bytes: &[u8]) -> (r: Option<RawEventHeader>)
        ensures
            r == RawEventHeader::read_from(bytes@),
    {
        if bytes.len() < HEADER_SIZE {
            return None;
        }
        let event_type = match EventType::from_tag(bytes[0]) {
            Some(kind) => kind,
            None => return None,
        };
        let record = RawEventHeader {
            event_type,
            timestamp_ns: read_u64(bytes, 8),
            pid: read_u32(bytes, 16),
            tid: read_u32(bytes, 20),
            ppid: read_u32(bytes, 24),
            uid: read_u32(bytes, 28),
            gid: read_u32(bytes, 32),
            comm: read_16(bytes, 36),
        };
        proof {
            record.law_round_trip(bytes@);
        }
        Some(record)
    }

    /// Bytes that hold this record, and zeros in the gaps between its fields.
    pub fn encode(&self) -> (r: Vec<u8>)
        ensures
            r@.len() == HEADER_SIZE,
            self.held_in(r@),
            zeros_at(r@, 1, 8),
            zeros_at(r@, 52, 56),
    {
        let mut out: Vec<u8> = Vec::new();
        out.push(self.event_type.tag());
        push_zeros(&mut out, 7);
        push_u64(&mut out, self.timestamp_ns);
        push_u32(&mut out, self.pid);
        push_u32(&mut out, self.tid);
        push_u32(&mut out, self.ppid);
        push_u32(&mut out, self.uid);
        push_u32(&mut out, self.gid);
        push_bytes(&mut out, &self.comm);
        push_zeros(&mut out, 4);
        proof {
            assert(bytes_at(out@, 36, 16) =~= self.comm@);
        }
        out
    }

    /// Bytes start with one such record at most.
    pub proof fn law_held_once(self, other: Self, b: Seq<u8>)
        requires
            self.held_in(b),
            other.held_in(b),
        ensures
            self == other,
    {
        assert(self.comm =~= other.comm);
    }

    /// Reading gives back what was written: bytes that hold a record, such as
    /// those that `encode` makes, decode to that record and no other.
    pub proof fn law_round_trip(self, b: Seq<u8>)
        requires
            self.held_in(b),
        ensures
            RawEventHeader::read_from(b) == Some(self),
    {
        self.law_held_once(RawEventHeader::read_from(b)->0, b);
    }
}

/// Size of a socket operation record.
pub const PENDING_CONNECT_SIZE: usize = 112;

impl PendingConnect {
    /// The bytes `b` start with this record.
    pub open spec fn held_in(self, b: Seq<u8>) -> bool {
        &&& b.len() >= PENDING_CONNECT_SIZE
        &&& self.header.held_in(b)
        &&& b[56] == self.protocol.spec_tag()
        &&& u32_at(b, 60) == self.tid
        &&& u16_at(b, 64) == self.src_port
        &&& u16_at(b, 66) == self.dst_port
        &&& u32_at(b, 68) == (if self.ip_version is V4 { 0int } else { 1int })
        &&& bytes_at(b, 72, 16) == self.src_addr@
        &&& bytes_at(b, 88, 16) == self.dst_addr@
        &&& match self.retval {
            None => u32_at(b, 104) == 0,
            Some(value) => u32_at(b, 104) == 1 && i32_at(b, 108) == value,
        }
    }

    /// The record that the bytes `b` start with, `None` when they start with no
    /// such record.
    pub open spec fn read_from(b: Seq<u8>) -> Option<PendingConnect> {
        if exists|record: PendingConnect| record.held_in(b) {
            Some(choose|record: PendingConnect| record.held_in(b))
        } else {
            None
        }
    }

    /// The record that `bytes` start with, `None` when they start with no such
    /// record.
    pub fn decode(bytes: &[u8]) -> (r: Option<PendingConnect>)
        ensures
            r == PendingConnect::read_from(bytes@),
    {
        if bytes.len() < PENDING_CONNECT_SIZE {
            return None;
        }
        let header = match RawEventHeader::decode(bytes) {
            Some(header) => header,
            None => return None,
        };
        let protocol = match bytes[56] {
            1 => RawProtocol::Tcp,
            2 => RawProtocol::Udp,
            _ => return None,
        };
        let ip_version = match read_u32(bytes, 68) {
            0 => IpVersion::V4,
            1 => IpVersion::V6,
            _ => return None,
        };
        let retval = match read_u32(bytes, 104) {
            0 => None,
            1 => Some(read_i32(bytes, 108)),
            _ => return None,
        };
        let record = PendingConnect {
            header,
            protocol,
            tid: read_u32(bytes, 60),
            src_port: read_u16(bytes, 64),
            dst_port: read_u16(bytes, 66),
            ip_version,
            src_addr: read_16(bytes, 72),
            dst_addr: read_16(bytes, 88),
            retval,
        };
        proof {
            record.law_round_trip(bytes@);
        }
        Some(record)
    }

    /// Bytes that hold this record, and zeros in the gaps between its fields.
    pub fn encode(&self) -> (r: Vec<u8>)
        ensures
            r@.len() == PENDING_CONNECT_SIZE,
            self.held_in(r@),
            zeros_at(r@, 1, 8),
            zeros_at(r@, 52, 56),
            zeros_at(r@, 57, 60),
            self.retval is None ==> zeros_at(r@, 108, 112),
    {
        let mut out: Vec<u8> = self.header.encode();
        out.push(self.protocol.tag());
        push_zeros(&mut out, 3);
        push_u32(&mut out, self.tid);
        push_u16(&mut out, self.src_port);
        push_u16(&mut out, self.dst_port);
        match self.ip_version {
            IpVersion::V4 => push_u32(&mut out, 0),
            IpVersion::V6 => push_u32(&mut out, 1),
        }
        push_bytes(&mut out, &self.src_addr);
        push_bytes(&mut out, &self.dst_addr);
        match self.retval {
            None => {
                push_u32(&mut out, 0);
                push_zeros(&mut out, 4);
            },
            Some(value) => {
                push_u32(&mut out, 1);
                push_i32(&mut out, value);
            },
        }
        proof {
            assert(bytes_at(out@, 36, 16) =~= self.header.comm@);
            assert(bytes_at(out@, 72, 16) =~= self.src_addr@);
            assert(bytes_at(out@, 88, 16) =~= self.dst_addr@);
        }
        out
    }

    /// Bytes start with one such record at most.
    pub proof fn law_held_once(self, other: Self, b: Seq<u8>)
        requires
            self.held_in(b),
            other.held_in(b),
        ensures
            self == other,
    {
        self.header.law_held_once(other.header, b);
        assert(self.src_addr =~= other.src_addr);
        assert(self.dst_addr =~= other.dst_addr);
    }

    /// Reading gives back what was written: bytes that hold a record, such as
    /// those that `encode` makes, decode to that record and no other.
    pub proof fn law_round_trip(self, b: Seq<u8>)
        requires
            self.held_in(b),
        ensures
            PendingConnect::read_from(b) == Some(self),
    {
        self.law_held_once(PendingConnect::read_from(b)->0, b);
    }
}

/// Size of a process start record.
pub const PROCESS_START_SIZE: usize = 312;

impl RawProcessStartEvent {
    /// The bytes `b` start with this record.
    pub open spec fn held_in(self, b: Seq<u8>) -> bool {
        &&& b.len() >= PROCESS_START_SIZE
        &&& self.header.held_in(b)
        &&& bytes_at(b, 56, 256) == self.filename@
    }

    /// The record that the bytes `b` start with, `None` when they start with no
    /// such record.
    pub open spec fn read_from(b: Seq<u8>) -> Option<RawProcessStartEvent> {
        if exists|record: RawProcessStartEvent| record.held_in(b) {
            Some(choose|record: RawProcessStartEvent| record.held_in(b))
        } else {
            None
        }
    }

    /// The record that `bytes` start with, `None` when they start with no such
    /// record.
    pub fn decode(bytes: &[u8]) -> (r: Option<RawProcessStartEvent>)
        ensures
            r == RawProcessStartEvent::read_from(bytes@),
    {
        if bytes.len() < PROCESS_START_SIZE {
            return None;
        }
        let header = match RawEventHeader::decode(bytes) {
            Some(header) => header,
            None => return None,
        };
        let record = RawProcessStartEvent {
            header,
            filename: read_name(bytes, 56),
        };
        proof {
            record.law_round_trip(bytes@);
        }
        Some(record)
    }

    /// Bytes that hold this record, and zeros in the gaps between its fields.
    pub fn encode(&self) -> (r: Vec<u8>)
        ensures
            r@.len() == PROCESS_START_SIZE,
            self.held_in(r@),
            zeros_at(r@, 1, 8),
            zeros_at(r@, 52, 56),
    {
        let mut out: Vec<u8> = self.header.encode();
        push_bytes(&mut out, &self.filename);
        proof {
            assert(bytes_at(out@, 36, 16) =~= self.header.comm@);
            assert(bytes_at(out@, 56, 256) =~= self.filename@);
        }
        out
    }

    /// Bytes start with one such record at most.
    pub proof fn law_held_once(self, other: Self, b: Seq<u8>)
        requires
            self.held_in(b),
            other.held_in(b),
        ensures
            self == other,
    {
        self.header.law_held_once(other.header, b);
        assert(self.filename =~= other.filename);
    }

    /// Reading gives back what was written: bytes that hold a record, such as
    /// those that `encode` makes, decode to that record and no other.
    pub proof fn law_round_trip(self, b: Seq<u8>)
        requires
            self.held_in(b),
        ensures
            RawProcessStartEvent::read_from(b) == Some(self),
    {
        self.law_held_once(RawProcessStartEvent::read_from(b)->0, b);
    }
}

/// Size of a process exit record.
pub const PROCESS_EXIT_SIZE: usize = 64;

impl RawProcessExitEvent {
    /// The bytes `b` start with this record.
    pub open spec fn held_in(self, b: Seq<u8>) -> bool {
        &&& b.len() >= PROCESS_EXIT_SIZE
        &&& self.header.held_in(b)
        &&& i32_at(b, 56) == self.exit_code
    }

    /// The record that the bytes `b` start with, `None` when they start with no
    /// such record.
    pub open spec fn read_from(b: Seq<u8>) -> Option<RawProcessExitEvent> {
        if exists|record: RawProcessExitEvent| record.held_in(b) {
            Some(choose|record: RawProcessExitEvent| record.held_in(b))
        } else {
            None
        }
    }

    /// The record that `bytes` start with, `None` when they start with no such
    /// record.
    pub fn decode(bytes: &[u8]) -> (r: Option<RawProcessExitEvent>)
        ensures
            r == RawProcessExitEvent::read_from(bytes@),
    {
        if bytes.len() < PROCESS_EXIT_SIZE {
            return None;
        }
        let header = match RawEventHeader::decode(bytes) {
            Some(header) => header,
            None => return None,
        };
        let record = RawProcessExitEvent {
            header,
            exit_code: read_i32(bytes, 56),
        };
        proof {
            record.law_round_trip(bytes@);
        }
        Some(record)
    }

    /// Bytes that hold this record, and zeros in the gaps between its fields.
    pub fn encode(&self) -> (r: Vec<u8>)
        ensures
            r@.len() == PROCESS_EXIT_SIZE,
            self.held_in(r@),
            zeros_at(r@, 1, 8),
            zeros_at(r@, 52, 56),
            zeros_at(r@, 60, 64),
    {
        let mut out: Vec<u8> = self.header.encode();
        push_i32(&mut out, self.exit_code);
        push_zeros(&mut out, 4);
        proof {
            assert(bytes_at(out@, 36, 16) =~= self.header.comm@);
        }
        out
    }

    /// Bytes start with one such record at most.
    pub proof fn law_held_once(self, other: Self, b: Seq<u8>)
        requires
            self.held_in(b),
            other.held_in(b),
        ensures
            self == other,
    {
        self.header.law_held_once(other.header, b);
    }

    /// Reading gives back what was written: bytes that hold a record, such as
    /// those that `encode` makes, decode to that record and no other.
    pub proof fn law_round_trip(self, b: Seq<u8>)
        requires
            self.held_in(b),
        ensures
            RawProcessExitEvent::read_from(b) == Some(self),
    {
        self.law_held_once(RawProcessExitEvent::read_from(b)->0, b);
    }
}

/// Size of a fork record.
pub const PROCESS_FORK_SIZE: usize = 80;

impl RawProcessForkEvent {
    /// The bytes `b` start with this record.
    pub open spec fn held_in(self, b: Seq<u8>) -> bool {
        &&& b.len() >= PROCESS_FORK_SIZE
        &&& self.parent.held_in(b)
        &&& u32_at(b, 56) == self.child_pid
        &&& bytes_at(b, 60, 16) == self.child_comm@
    }

    /// The record that the bytes `b` start with, `None` when they start with no
    /// such record.
    pub open spec fn read_from(b: Seq<u8>) -> Option<RawProcessForkEvent> {
        if exists|record: RawProcessForkEvent| record.held_in(b) {
            Some(choose|record: RawProcessForkEvent| record.held_in(b))
        } else {
            None
        }
    }

    /// The record that `bytes` start with, `None` when they start with no such
    /// record.
    pub fn decode(bytes: &[u8]) -> (r: Option<RawProcessForkEvent>)
        ensures
            r == RawProcessForkEvent::read_from(bytes@),
    {
        if bytes.len() < PROCESS_FORK_SIZE {
            return None;
        }
        let parent = match RawEventHeader::decode(bytes) {
            Some(header) => header,
            None => return None,
        };
        let record = RawProcessForkEvent {
            parent,
            child_pid: read_u32(bytes, 56),
            child_comm: read_16(bytes, 60),
        };
        proof {
            record.law_round_trip(bytes@);
        }
        Some(record)
    }

    /// Bytes that hold this record, and zeros in the gaps between its fields.
    pub fn encode(&self) -> (r: Vec<u8>)
        ensures
            r@.len() == PROCESS_FORK_SIZE,
            self.held_in(r@),
            zeros_at(r@, 1, 8),
            zeros_at(r@, 52, 56),
            zeros_at(r@, 76, 80),
    {
        let mut out: Vec<u8> = self.parent.encode();
        push_u32(&mut out, self.child_pid);
        push_bytes(&mut out, &self.child_comm);
        push_zeros(&mut out, 4);
        proof {
            assert(bytes_at(out@, 36, 16) =~= self.parent.comm@);
            assert(bytes_at(out@, 60, 16) =~= self.child_comm@);
        }
        out
    }

    /// Bytes start with one such record at most.
    pub proof fn law_held_once(self, other: Self, b: Seq<u8>)
        requires
            self.held_in(b),
            other.held_in(b),
        ensures
            self == other,
    {
        self.parent.law_held_once(other.parent, b);
        assert(self.child_comm =~= other.child_comm);
    }

    /// Reading gives back what was written: bytes that hold a record, such as
    /// those that `encode` makes, decode to that record and no other.
    pub proof fn law_round_trip(self, b: Seq<u8>)
        requires
            self.held_in(b),
        ensures
            RawProcessForkEvent::read_from(b) == Some(self),
    {
        self.law_held_once(RawProcessForkEvent::read_from(b)->0, b);
    }
}

/// Size of a file open record.
pub const FILE_OPEN_SIZE: usize = 336;

impl RawFileOpenEvent {
    /// The bytes `b` start with this record.
    pub open spec fn held_in(self, b: Seq<u8>) -> bool {
        &&& b.len() >= FILE_OPEN_SIZE
        &&& self.header.held_in(b)
        &&& bytes_at(b, 56, 256) == self.filename@
        &&& u16_at(b, 312) == self.file_mode.mode
        &&& i32_at(b, 316) == self.retval
        &&& u64_at(b, 320) == self.inode
        &&& u32_at(b, 328) == self.flags
    }

    /// The record that the bytes `b` start with, `None` when they start with no
    /// such record.
    pub open spec fn read_from(b: Seq<u8>) -> Option<RawFileOpenEvent> {
        if exists|record: RawFileOpenEvent| record.held_in(b) {
            Some(choose|record: RawFileOpenEvent| record.held_in(b))
        } else {
            None
        }
    }

    /// The record that `bytes` start with, `None` when they start with no such
    /// record.
    pub fn decode(bytes: &[u8]) -> (r: Option<RawFileOpenEvent>)
        ensures
            r == RawFileOpenEvent::read_from(bytes@),
    {
        if bytes.len() < FILE_OPEN_SIZE {
            return None;
        }
        let header = match RawEventHeader::decode(bytes) {
            Some(header) => header,
            None => return None,
        };
        let record = RawFileOpenEvent {
            header,
            filename: read_name(bytes, 56),
            file_mode: FileModeFilter { mode: read_u16(bytes, 312) },
            retval: read_i32(bytes, 316),
            inode: read_u64(bytes, 320),
            flags: read_u32(bytes, 328),
        };
        proof {
            record.law_round_trip(bytes@);
        }
        Some(record)
    }

    /// Bytes that hold this record, and zeros in the gaps between its fields.
    pub fn encode(&self) -> (r: Vec<u8>)
        ensures
            r@.len() == FILE_OPEN_SIZE,
            self.held_in(r@),
            zeros_at(r@, 1, 8),
            zeros_at(r@, 52, 56),
            zeros_at(r@, 314, 316),
            zeros_at(r@, 332, 336),
    {
        let mut out: Vec<u8> = self.header.encode();
        push_bytes(&mut out, &self.filename);
        push_u16(&mut out, self.file_mode.mode);
        push_zeros(&mut out, 2);
        push_i32(&mut out, self.retval);
        push_u64(&mut out, self.inode);
        push_u32(&mut out, self.flags);
        push_zeros(&mut out, 4);
        proof {
            assert(bytes_at(out@, 36, 16) =~= self.header.comm@);
            assert(bytes_at(out@, 56, 256) =~= self.filename@);
        }
        out
    }

    /// Bytes start with one such record at most.
    pub proof fn law_held_once(self, other: Self, b: Seq<u8>)
        requires
            self.held_in(b),
            other.held_in(b),
        ensures
            self == other,
    {
        self.header.law_held_once(other.header, b);
        assert(self.filename =~= other.filename);
    }

    /// Reading gives back what was written: bytes that hold a record, such as
    /// those that `encode` makes, decode to that record and no other.
    pub proof fn law_round_trip(self, b: Seq<u8>)
        requires
            self.held_in(b),
        ensures
            RawFileOpenEvent::read_from(b) == Some(self),
    {
        self.law_held_once(RawFileOpenEvent::read_from(b)->0, b);
    }
}

/// Size of a file close record.
pub const FILE_CLOSE_SIZE: usize = 336;

impl RawFileCloseEvent {
    /// The bytes `b` start with this record.
    pub open spec fn held_in(self, b: Seq<u8>) -> bool {
        &&& b.len() >= FILE_CLOSE_SIZE
        &&& self.header.held_in(b)
        &&& bytes_at(b, 56, 256) == self.filename@
        &&& u16_at(b, 312) == self.file_mode.mode
        &&& i32_at(b, 316) == self.retval
        &&& u64_at(b, 320) == self.inode
        &&& u32_at(b, 328) == self.flags
    }

    /// The record that the bytes `b` start with, `None` when they start with no
    /// such record.
    pub open spec fn read_from(b: Seq<u8>) -> Option<RawFileCloseEvent> {
        if exists|record: RawFileCloseEvent| record.held_in(b) {
            Some(choose|record: RawFileCloseEvent| record.held_in(b))
        } else {
            None
        }
    }

    /// The record that `bytes` start with, `None` when they start with no such
    /// record.
    pub fn decode(bytes: &[u8]) -> (r: Option<RawFileCloseEvent>)
        ensures
            r == RawFileCloseEvent::read_from(bytes@),
    {
        if bytes.len() < FILE_CLOSE_SIZE {
            return None;
        }
        let header = match RawEventHeader::decode(bytes) {
            Some(header) => header,
            None => return None,
        };
        let record = RawFileCloseEvent {
            header,
            filename: read_name(bytes, 56),
            file_mode: FileModeFilter { mode: read_u16(bytes, 312) },
            retval: read_i32(bytes, 316),
            inode: read_u64(bytes, 320),
            flags: read_u32(bytes, 328),
        };
        proof {
            record.law_round_trip(bytes@);
        }
        Some(record)
    }

    /// Bytes that hold this record, and zeros in the gaps between its fields.
    pub fn encode(&self) -> (r: Vec<u8>)
        ensures
            r@.len() == FILE_CLOSE_SIZE,
            self.held_in(r@),
            zeros_at(r@, 1, 8),
            zeros_at(r@, 52, 56),
            zeros_at(r@, 314, 316),
            zeros_at(r@, 332, 336),
    {
        let mut out: Vec<u8> = self.header.encode();
        push_bytes(&mut out, &self.filename);
        push_u16(&mut out, self.file_mode.mode);
        push_zeros(&mut out, 2);
        push_i32(&mut out, self.retval);
        push_u64(&mut out, self.inode);
        push_u32(&mut out, self.flags);
        push_zeros(&mut out, 4);
        proof {
            assert(bytes_at(out@, 36, 16) =~= self.header.comm@);
            assert(bytes_at(out@, 56, 256) =~= self.filename@);
        }
        out
    }

    /// Bytes start with one such record at most.
    pub proof fn law_held_once(self, other: Self, b: Seq<u8>)
        requires
            self.held_in(b),
            other.held_in(b),
        ensures
            self == other,
    {
        self.header.law_held_once(other.header, b);
        assert(self.filename =~= other.filename);
    }

    /// Reading gives back what was written: bytes that hold a record, such as
    /// those that `encode` makes, decode to that record and no other.
    pub proof fn law_round_trip(self, b: Seq<u8>)
        requires
            self.held_in(b),
        ensures
            RawFileCloseEvent::read_from(b) == Some(self),
    {
        self.law_held_once(RawFileCloseEvent::read_from(b)->0, b);
    }
}

/// Size of a file read record.
pub const FILE_READ_SIZE: usize = 344;

impl RawFileReadEvent {
    /// The bytes `b` start with this record.
    pub open spec fn held_in(self, b: Seq<u8>) -> bool {
        &&& b.len() >= FILE_READ_SIZE
        &&& self.header.held_in(b)
        &&& bytes_at(b, 56, 256) == self.filename@
        &&& u16_at(b, 312) == self.file_mode.mode
        &&& i64_at(b, 320) == self.retval
        &&& u64_at(b, 328) == self.inode
        &&& u32_at(b, 336) == self.flags
    }

    /// The record that the bytes `b` start with, `None` when they start with no
    /// such record.
    pub open spec fn read_from(b: Seq<u8>) -> Option<RawFileReadEvent> {
        if exists|record: RawFileReadEvent| record.held_in(b) {
            Some(choose|record: RawFileReadEvent| record.held_in(b))
        } else {
            None
        }
    }

    /// The record that `bytes` start with, `None` when they start with no such
    /// record.
    pub fn decode(bytes: &[u8]) -> (r: Option<RawFileReadEvent>)
        ensures
            r == RawFileReadEvent::read_from(bytes@),
    {
        if bytes.len() < FILE_READ_SIZE {
            return None;
        }
        let header = match RawEventHeader::decode(bytes) {
            Some(header) => header,
            None => return None,
        };
        let retval: i64 = read_i64(bytes, 320);
        if retval < isize::MIN as i64 || retval > isize::MAX as i64 {
            return None;
        }
        let record = RawFileReadEvent {
            header,
            filename: read_name(bytes, 56),
            file_mode: FileModeFilter { mode: read_u16(bytes, 312) },
            retval: retval as isize,
            inode: read_u64(bytes, 328),
            flags: read_u32(bytes, 336),
        };
        proof {
            record.law_round_trip(bytes@);
        }
        Some(record)
    }

    /// Bytes that hold this record, and zeros in the gaps between its fields.
    pub fn encode(&self) -> (r: Vec<u8>)
        ensures
            r@.len() == FILE_READ_SIZE,
            self.held_in(r@),
            zeros_at(r@, 1, 8),
            zeros_at(r@, 52, 56),
            zeros_at(r@, 314, 320),
            zeros_at(r@, 340, 344),
    {
        let mut out: Vec<u8> = self.header.encode();
        push_bytes(&mut out, &self.filename);
        push_u16(&mut out, self.file_mode.mode);
        push_zeros(&mut out, 6);
        push_i64(&mut out, self.retval as i64);
        push_u64(&mut out, self.inode);
        push_u32(&mut out, self.flags);
        push_zeros(&mut out, 4);
        proof {
            assert(bytes_at(out@, 36, 16) =~= self.header.comm@);
            assert(bytes_at(out@, 56, 256) =~= self.filename@);
        }
        out
    }

    /// Bytes start with one such record at most.
    pub proof fn law_held_once(self, other: Self, b: Seq<u8>)
        requires
            self.held_in(b),
            other.held_in(b),
        ensures
            self == other,
    {
        self.header.law_held_once(other.header, b);
        assert(self.filename =~= other.filename);
    }

    /// Reading gives back what was written: bytes that hold a record, such as
    /// those that `encode` makes, decode to that record and no other.
    pub proof fn law_round_trip(self, b: Seq<u8>)
        requires
            self.held_in(b),
        ensures
            RawFileReadEvent::read_from(b) == Some(self),
    {
        self.law_held_once(RawFileReadEvent::read_from(b)->0, b);
    }
}

/// Size of a file write record.
pub const FILE_WRITE_SIZE: usize = 344;

impl RawFileWriteEvent {
    /// The bytes `b` start with this record.
    pub open spec fn held_in(self, b: Seq<u8>) -> bool {
        &&& b.len() >= FILE_WRITE_SIZE
        &&& self.header.held_in(b)
        &&& bytes_at(b, 56, 256) == self.filename@
        &&& u16_at(b, 312) == self.file_mode.mode
        &&& i64_at(b, 320) == self.retval
        &&& u64_at(b, 328) == self.inode
        &&& u32_at(b, 336) == self.flags
    }

    /// The record that the bytes `b` start with, `None` when they start with no
    /// such record.
    pub open spec fn read_from(b: Seq<u8>) -> Option<RawFileWriteEvent> {
        if exists|record: RawFileWriteEvent| record.held_in(b) {
            Some(choose|record: RawFileWriteEvent| record.held_in(b))
        } else {
            None
        }
    }

    /// The record that `bytes` start with, `None` when they start with no such
    /// record.
    pub fn decode(bytes: &[u8]) -> (r: Option<RawFileWriteEvent>)
        ensures
            r == RawFileWriteEvent::read_from(bytes@),
    {
        if bytes.len() < FILE_WRITE_SIZE {
            return None;
        }
        let header = match RawEventHeader::decode(bytes) {
            Some(header) => header,
            None => return None,
        };
        let retval: i64 = read_i64(bytes, 320);
        if retval < isize::MIN as i64 || retval > isize::MAX as i64 {
            return None;
        }
        let record = RawFileWriteEvent {
            header,
            filename: read_name(bytes, 56),
            file_mode: FileModeFilter { mode: read_u16(bytes, 312) },
            retval: retval as isize,
            inode: read_u64(bytes, 328),
            flags: read_u32(bytes, 336),
        };
        proof {
            record.law_round_trip(bytes@);
        }
        Some(record)
    }

    /// Bytes that hold this record, and zeros in the gaps between its fields.
    pub fn encode(&self) -> (r: Vec<u8>)
        ensures
            r@.len() == FILE_WRITE_SIZE,
            self.held_in(r@),
            zeros_at(r@, 1, 8),
            zeros_at(r@, 52, 56),
            zeros_at(r@, 314, 320),
            zeros_at(r@, 340, 344),
    {
        let mut out: Vec<u8> = self.header.encode();
        push_bytes(&mut out, &self.filename);
        push_u16(&mut out, self.file_mode.mode);
        push_zeros(&mut out, 6);
        push_i64(&mut out, self.retval as i64);
        push_u64(&mut out, self.inode);
        push_u32(&mut out, self.flags);
        push_zeros(&mut out, 4);
        proof {
            assert(bytes_at(out@, 36, 16) =~= self.header.comm@);
            assert(bytes_at(out@, 56, 256) =~= self.filename@);
        }
        out
    }

    /// Bytes start with one such record at most.
    pub proof fn law_held_once(self, other: Self, b: Seq<u8>)
        requires
            self.held_in(b),
            other.held_in(b),
        ensures
            self == other,
    {
        self.header.law_held_once(other.header, b);
        assert(self.filename =~= other.filename);
    }

    /// Reading gives back what was written: bytes that hold a record, such as
    /// those that `encode` makes, decode to that record and no other.
    pub proof fn law_round_trip(self, b: Seq<u8>)
        requires
            self.held_in(b),
        ensures
            RawFileWriteEvent::read_from(b) == Some(self),
    {
        self.law_held_once(RawFileWriteEvent::read_from(b)->0, b);
    }
}

/// Size of an unlink record.
pub const FILE_DELETE_SIZE: usize = 320;

impl RawFileDeleteEvent {
    /// The bytes `b` start with this record.
    pub open spec fn held_in(self, b: Seq<u8>) -> bool {
        &&& b.len() >= FILE_DELETE_SIZE
        &&& self.header.held_in(b)
        &&& bytes_at(b, 56, 256) == self.filename@
        &&& u16_at(b, 312) == self.file_mode.mode
        &&& i32_at(b, 316) == self.retval
    }

    /// The record that the bytes `b` start with, `None` when they start with no
    /// such record.
    pub open spec fn read_from(b: Seq<u8>) -> Option<RawFileDeleteEvent> {
        if exists|record: RawFileDeleteEvent| record.held_in(b) {
            Some(choose|record: RawFileDeleteEvent| record.held_in(b))
        } else {
            None
        }
    }

    /// The record that `bytes` start with, `None` when they start with no such
    /// record.
    pub fn decode(bytes: &[u8]) -> (r: Option<RawFileDeleteEvent>)
        ensures
            r == RawFileDeleteEvent::read_from(bytes@),
    {
        if bytes.len() < FILE_DELETE_SIZE {
            return None;
        }
        let header = match RawEventHeader::decode(bytes) {
            Some(header) => header,
            None => return None,
        };
        let record = RawFileDeleteEvent {
            header,
            filename: read_name(bytes, 56),
            file_mode: FileModeFilter { mode: read_u16(bytes, 312) },
            retval: read_i32(bytes, 316),
        };
        proof {
            record.law_round_trip(bytes@);
        }
        Some(record)
    }

    /// Bytes that hold this record, and zeros in the gaps between its fields.
    pub fn encode(&self) -> (r: Vec<u8>)
        ensures
            r@.len() == FILE_DELETE_SIZE,
            self.held_in(r@),
            zeros_at(r@, 1, 8),
            zeros_at(r@, 52, 56),
            zeros_at(r@, 314, 316),
    {
        let mut out: Vec<u8> = self.header.encode();
        push_bytes(&mut out, &self.filename);
        push_u16(&mut out, self.file_mode.mode);
        push_zeros(&mut out, 2);
        push_i32(&mut out, self.retval);
        proof {
            assert(bytes_at(out@, 36, 16) =~= self.header.comm@);
            assert(bytes_at(out@, 56, 256) =~= self.filename@);
        }
        out
    }

    /// Bytes start with one such record at most.
    pub proof fn law_held_once(self, other: Self, b: Seq<u8>)
        requires
            self.held_in(b),
            other.held_in(b),
        ensures
            self == other,
    {
        self.header.law_held_once(other.header, b);
        assert(self.filename =~= other.filename);
    }

    /// Reading gives back what was written: bytes that hold a record, such as
    /// those that `encode` makes, decode to that record and no other.
    pub proof fn law_round_trip(self, b: Seq<u8>)
        requires
            self.held_in(b),
        ensures
            RawFileDeleteEvent::read_from(b) == Some(self),
    {
        self.law_held_once(RawFileDeleteEvent::read_from(b)->0, b);
    }
}

/// Size of the start of a rename record.
pub const FILE_RENAME_SIZE: usize = 584;

impl RawFileRenameEvent {
    /// The bytes `b` start with this record.
    pub open spec fn held_in(self, b: Seq<u8>) -> bool {
        &&& b.len() >= FILE_RENAME_SIZE
        &&& self.header.held_in(b)
        &&& bytes_at(b, 56, 256) == self.old_filename@
        &&& bytes_at(b, 312, 256) == self.new_filename@
        &&& u16_at(b, 568) == self.file_mode.mode
        &&& i32_at(b, 572) == self.retval
        &&& u32_at(b, 576) == self.flags
    }

    /// The record that the bytes `b` start with, `None` when they start with no
    /// such record.
    pub open spec fn read_from(b: Seq<u8>) -> Option<RawFileRenameEvent> {
        if exists|record: RawFileRenameEvent| record.held_in(b) {
            Some(choose|record: RawFileRenameEvent| record.held_in(b))
        } else {
            None
        }
    }

    /// The record that `bytes` start with, `None` when they start with no such
    /// record.
    pub fn decode(bytes: &[u8]) -> (r: Option<RawFileRenameEvent>)
        ensures
            r == RawFileRenameEvent::read_from(bytes@),
    {
        if bytes.len() < FILE_RENAME_SIZE {
            return None;
        }
        let header = match RawEventHeader::decode(bytes) {
            Some(header) => header,
            None => return None,
        };
        let record = RawFileRenameEvent {
            header,
            old_filename: read_name(bytes, 56),
            new_filename: read_name(bytes, 312),
            file_mode: FileModeFilter { mode: read_u16(bytes, 568) },
            retval: read_i32(bytes, 572),
            flags: read_u32(bytes, 576),
        };
        proof {
            record.law_round_trip(bytes@);
        }
        Some(record)
    }

    /// Bytes that hold this record, and zeros in the gaps between its fields.
    pub fn encode(&self) -> (r: Vec<u8>)
        ensures
            r@.len() == FILE_RENAME_SIZE,
            self.held_in(r@),
            zeros_at(r@, 1, 8),
            zeros_at(r@, 52, 56),
            zeros_at(r@, 570, 572),
            zeros_at(r@, 580, 584),
    {
        let mut out: Vec<u8> = self.header.encode();
        push_bytes(&mut out, &self.old_filename);
        push_bytes(&mut out, &self.new_filename);
        push_u16(&mut out, self.file_mode.mode);
        push_zeros(&mut out, 2);
        push_i32(&mut out, self.retval);
        push_u32(&mut out, self.flags);
        push_zeros(&mut out, 4);
        proof {
            assert(bytes_at(out@, 36, 16) =~= self.header.comm@);
            assert(bytes_at(out@, 56, 256) =~= self.old_filename@);
            assert(bytes_at(out@, 312, 256) =~= self.new_filename@);
        }
        out
    }

    /// Bytes start with one such record at most.
    pub proof fn law_held_once(self, other: Self, b: Seq<u8>)
        requires
            self.held_in(b),
            other.held_in(b),
        ensures
            self == other,
    {
        self.header.law_held_once(other.header, b);
        assert(self.old_filename =~= other.old_filename);
        assert(self.new_filename =~= other.new_filename);
    }

    /// Reading gives back what was written: bytes that hold a record, such as
    /// those that `encode` makes, decode to that record and no other.
    pub proof fn law_round_trip(self, b: Seq<u8>)
        requires
            self.held_in(b),
        ensures
            RawFileRenameEvent::read_from(b) == Some(self),
    {
        self.law_held_once(RawFileRenameEvent::read_from(b)->0, b);
    }
}

/// Size of the end of a rename record.
pub const FILE_RETURN_SIZE: usize = 64;

impl RawFileRtrEvent {
    /// The bytes `b` start with this record.
    pub open spec fn held_in(self, b: Seq<u8>) -> bool {
        &&& b.len() >= FILE_RETURN_SIZE
        &&& self.header.held_in(b)
        &&& i32_at(b, 56) == self.retval
    }

    /// The record that the bytes `b` start with, `None` when they start with no
    /// such record.
    pub open spec fn read_from(b: Seq<u8>) -> Option<RawFileRtrEvent> {
        if exists|record: RawFileRtrEvent| record.held_in(b) {
            Some(choose|record: RawFileRtrEvent| record.held_in(b))
        } else {
            None
        }
    }

    /// The record that `bytes` start with, `None` when they start with no such
    /// record.
    pub fn decode(bytes: &[u8]) -> (r: Option<RawFileRtrEvent>)
        ensures
            r == RawFileRtrEvent::read_from(bytes@),
    {
        if bytes.len() < FILE_RETURN_SIZE {
            return None;
        }
        let header = match RawEventHeader::decode(bytes) {
            Some(header) => header,
            None => return None,
        };
        let record = RawFileRtrEvent {
            header,
            retval: read_i32(bytes, 56),
        };
        proof {
            record.law_round_trip(bytes@);
        }
        Some(record)
    }

    /// Bytes that hold this record, and zeros in the gaps between its fields.
    pub fn encode(&self) -> (r: Vec<u8>)
        ensures
            r@.len() == FILE_RETURN_SIZE,
            self.held_in(r@),
            zeros_at(r@, 1, 8),
            zeros_at(r@, 52, 56),
            zeros_at(r@, 60, 64),
    {
        let mut out: Vec<u8> = self.header.encode();
        push_i32(&mut out, self.retval);
        push_zeros(&mut out, 4);
        proof {
            assert(bytes_at(out@, 36, 16) =~= self.header.comm@);
        }
        out
    }

    /// Bytes start with one such record at most.
    pub proof fn law_held_once(self, other: Self, b: Seq<u8>)
        requires
            self.held_in(b),
            other.held_in(b),
        ensures
            self == other,
    {
        self.header.law_held_once(other.header, b);
    }

    /// Reading gives back what was written: bytes that hold a record, such as
    /// those that `encode` makes, decode to that record and no other.
    pub proof fn law_round_trip(self, b: Seq<u8>)
        requires
            self.held_in(b),
        ensures
            RawFileRtrEvent::read_from(b) == Some(self),
    {
        self.law_held_once(RawFileRtrEvent::read_from(b)->0, b);
    }
}

/// Size of a new mapping record.
pub const MEMORY_MAP_SIZE: usize = 88;

impl RawMemoryMapEvent {
    /// The bytes `b` start with this record.
    pub open spec fn held_in(self, b: Seq<u8>) -> bool {
        &&& b.len() >= MEMORY_MAP_SIZE
        &&& self.header.held_in(b)
        &&& u64_at(b, 56) == self.requested_address
        &&& u64_at(b, 64) == self.length
        &&& u32_at(b, 72) == self.protection
        &&& u32_at(b, 76) == self.flags
        &&& u64_at(b, 80) == self.mapped_address
    }

    /// The record that the bytes `b` start with, `None` when they start with no
    /// such record.
    pub open spec fn read_from(b: Seq<u8>) -> Option<RawMemoryMapEvent> {
        if exists|record: RawMemoryMapEvent| record.held_in(b) {
            Some(choose|record: RawMemoryMapEvent| record.held_in(b))
        } else {
            None
        }
    }

    /// The record that `bytes` start with, `None` when they start with no such
    /// record.
    pub fn decode(bytes: &[u8]) -> (r: Option<RawMemoryMapEvent>)
        ensures
            r == RawMemoryMapEvent::read_from(bytes@),
    {
        if bytes.len() < MEMORY_MAP_SIZE {
            return None;
        }
        let header = match RawEventHeader::decode(bytes) {
            Some(header) => header,
            None => return None,
        };
        let requested_address: u64 = read_u64(bytes, 56);
        if requested_address > usize::MAX as u64 {
            return None;
        }
        let mapped_address: u64 = read_u64(bytes, 80);
        if mapped_address > usize::MAX as u64 {
            return None;
        }
        let record = RawMemoryMapEvent {
            header,
            requested_address: requested_address as usize,
            length: read_u64(bytes, 64),
            protection: read_u32(bytes, 72),
            flags: read_u32(bytes, 76),
            mapped_address: mapped_address as usize,
        };
        proof {
            record.law_round_trip(bytes@);
        }
        Some(record)
    }

    /// Bytes that hold this record, and zeros in the gaps between its fields.
    pub fn encode(&self) -> (r: Vec<u8>)
        ensures
            r@.len() == MEMORY_MAP_SIZE,
            self.held_in(r@),
            zeros_at(r@, 1, 8),
            zeros_at(r@, 52, 56),
    {
        let mut out: Vec<u8> = self.header.encode();
        push_u64(&mut out, self.requested_address as u64);
        push_u64(&mut out, self.length);
        push_u32(&mut out, self.protection);
        push_u32(&mut out, self.flags);
        push_u64(&mut out, self.mapped_address as u64);
        proof {
            assert(bytes_at(out@, 36, 16) =~= self.header.comm@);
        }
        out
    }

    /// Bytes start with one such record at most.
    pub proof fn law_held_once(self, other: Self, b: Seq<u8>)
        requires
            self.held_in(b),
            other.held_in(b),
        ensures
            self == other,
    {
        self.header.law_held_once(other.header, b);
    }

    /// Reading gives back what was written: bytes that hold a record, such as
    /// those that `encode` makes, decode to that record and no other.
    pub proof fn law_round_trip(self, b: Seq<u8>)
        requires
            self.held_in(b),
        ensures
            RawMemoryMapEvent::read_from(b) == Some(self),
    {
        self.law_held_once(RawMemoryMapEvent::read_from(b)->0, b);
    }
}

/// Size of a removed mapping record.
pub const MEMORY_UNMAP_SIZE: usize = 80;

impl RawMemoryUnmapEvent {
    /// The bytes `b` start with this record.
    pub open spec fn held_in(self, b: Seq<u8>) -> bool {
        &&& b.len() >= MEMORY_UNMAP_SIZE
        &&& self.header.held_in(b)
        &&& u64_at(b, 56) == self.requested_address
        &&& u64_at(b, 64) == self.length
        &&& u64_at(b, 72) == self.mapped_address
    }

    /// The record that the bytes `b` start with, `None` when they start with no
    /// such record.
    pub open spec fn read_from(b: Seq<u8>) -> Option<RawMemoryUnmapEvent> {
        if exists|record: RawMemoryUnmapEvent| record.held_in(b) {
            Some(choose|record: RawMemoryUnmapEvent| record.held_in(b))
        } else {
            None
        }
    }

    /// The record that `bytes` start with, `None` when they start with no such
    /// record.
    pub fn decode(bytes: &[u8]) -> (r: Option<RawMemoryUnmapEvent>)
        ensures
            r == RawMemoryUnmapEvent::read_from(bytes@),
    {
        if bytes.len() < MEMORY_UNMAP_SIZE {
            return None;
        }
        let header = match RawEventHeader::decode(bytes) {
            Some(header) => header,
            None => return None,
        };
        let requested_address: u64 = read_u64(bytes, 56);
        if requested_address > usize::MAX as u64 {
            return None;
        }
        let mapped_address: u64 = read_u64(bytes, 72);
        if mapped_address > usize::MAX as u64 {
            return None;
        }
        let record = RawMemoryUnmapEvent {
            header,
            requested_address: requested_address as usize,
            length: read_u64(bytes, 64),
            mapped_address: mapped_address as usize,
        };
        proof {
            record.law_round_trip(bytes@);
        }
        Some(record)
    }

    /// Bytes that hold this record, and zeros in the gaps between its fields.
    pub fn encode(&self) -> (r: Vec<u8>)
        ensures
            r@.len() == MEMORY_UNMAP_SIZE,
            self.held_in(r@),
            zeros_at(r@, 1, 8),
            zeros_at(r@, 52, 56),
    {
        let mut out: Vec<u8> = self.header.encode();
        push_u64(&mut out, self.requested_address as u64);
        push_u64(&mut out, self.length);
        push_u64(&mut out, self.mapped_address as u64);
        proof {
            assert(bytes_at(out@, 36, 16) =~= self.header.comm@);
        }
        out
    }

    /// Bytes start with one such record at most.
    pub proof fn law_held_once(self, other: Self, b: Seq<u8>)
        requires
            self.held_in(b),
            other.held_in(b),
        ensures
            self == other,
    {
        self.header.law_held_once(other.header, b);
    }

    /// Reading gives back what was written: bytes that hold a record, such as
    /// those that `encode` makes, decode to that record and no other.
    pub proof fn law_round_trip(self, b: Seq<u8>)
        requires
            self.held_in(b),
        ensures
            RawMemoryUnmapEvent::read_from(b) == Some(self),
    {
        self.law_held_once(RawMemoryUnmapEvent::read_from(b)->0, b);
    }
}

} // verus!
