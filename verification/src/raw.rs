//! The records that the kernel probes hand to user space, and the keys and
//! masks that user space hands to the probes.
use core::convert::TryFrom;
use vstd::prelude::*;

verus! {

/// Size of a kernel task name, its terminator included.
pub const TASK_COMM_LEN: usize = 16;

/// Size of a file name field.
pub const NAME_LEN: usize = 256;

/// Regular files.
pub const FILE_REG: u16 = 1;

/// Directories.
pub const FILE_DIR: u16 = 2;

/// Character devices.
pub const FILE_CHR: u16 = 4;

/// Block devices.
pub const FILE_BLK: u16 = 8;

/// Named pipes.
pub const FILE_FIFO: u16 = 16;

/// Symbolic links.
pub const FILE_LNK: u16 = 32;

/// Sockets.
pub const FILE_SOCK: u16 = 64;

/// The access-mode bits of open flags.
pub const O_ACCMODE: u32 = 0o3;

/// Open for reading only.
pub const O_RDONLY: u32 = 0o0;

/// Open for writing only.
pub const O_WRONLY: u32 = 0o1;

/// Open for reading and writing.
pub const O_RDWR: u32 = 0o2;

/// Create the file if it does not exist.
pub const O_CREAT: u32 = 0o100;

/// Fail if the file exists.
pub const O_EXCL: u32 = 0o200;

/// Do not make a terminal the controlling terminal.
pub const O_NOCTTY: u32 = 0o400;

/// Truncate the file.
pub const O_TRUNC: u32 = 0o1000;

/// Write at the end of the file.
pub const O_APPEND: u32 = 0o2000;

/// Do not block.
pub const O_NONBLOCK: u32 = 0o4000;

/// Synchronized data writes.
pub const O_DSYNC: u32 = 0o10000;

/// Signal-driven input and output.
pub const O_ASYNC: u32 = 0o20000;

/// Bypass the page cache.
pub const O_DIRECT: u32 = 0o40000;

/// Fail unless the path is a directory.
pub const O_DIRECTORY: u32 = 0o200000;

/// Do not follow a trailing symbolic link.
pub const O_NOFOLLOW: u32 = 0o400000;

/// Do not update the access time.
pub const O_NOATIME: u32 = 0o1000000;

/// Close the descriptor on exec.
pub const O_CLOEXEC: u32 = 0o2000000;

/// Synchronized file writes; its bits hold those of [`O_DSYNC`].
pub const O_SYNC: u32 = 0o4010000;

/// Obtain a path handle only.
pub const O_PATH: u32 = 0o10000000;

/// Create an unnamed file; its bits hold those of [`O_DIRECTORY`].
pub const O_TMPFILE: u32 = 0o20200000;

/// The kind of a kernel record.
#[derive(Debug, Clone, Copy, PartialEq, Eq, Structural)]
pub enum EventType {
    Connect,
    Accept,
    Close,
    ProcessStart,
    ProcessFork,
    ProcessExit,
    FileOpen,
    FileRead,
    FileClose,
    FileWrite,
    FileDelete,
    FileRename,
    Bind,
    Listen,
    MemoryMap,
    MemoryUnMap,
    PendingFileRename,
}

impl EventType {
    /// The byte that stands for this kind in a record.
    pub open spec fn spec_tag(self) -> u8 {
        match self {
            EventType::Connect => 1,
            EventType::Accept => 2,
            EventType::Close => 3,
            EventType::ProcessStart => 4,
            EventType::ProcessFork => 5,
            EventType::ProcessExit => 6,
            EventType::FileOpen => 7,
            EventType::FileRead => 8,
            EventType::FileClose => 9,
            EventType::FileWrite => 10,
            EventType::FileDelete => 11,
            EventType::FileRename => 12,
            EventType::Bind => 13,
            EventType::Listen => 14,
            EventType::MemoryMap => 15,
            EventType::MemoryUnMap => 16,
            EventType::PendingFileRename => 17,
        }
    }

    /// The byte that stands for this kind in a record.
    pub fn tag(self) -> (r: u8)
        ensures
            r == self.spec_tag(),
    {
        match self {
            EventType::Connect => 1,
            EventType::Accept => 2,
            EventType::Close => 3,
            EventType::ProcessStart => 4,
            EventType::ProcessFork => 5,
            EventType::ProcessExit => 6,
            EventType::FileOpen => 7,
            EventType::FileRead => 8,
            EventType::FileClose => 9,
            EventType::FileWrite => 10,
            EventType::FileDelete => 11,
            EventType::FileRename => 12,
            EventType::Bind => 13,
            EventType::Listen => 14,
            EventType::MemoryMap => 15,
            EventType::MemoryUnMap => 16,
            EventType::PendingFileRename => 17,
        }
    }

    /// The kind that a record's first byte stands for, `None` for a byte that
    /// stands for no kind.
    pub fn from_tag(tag: u8) -> (r: Option<EventType>)
        ensures
            r is Some <==> 1 <= tag <= 17,
            match r {
                Some(kind) => kind.spec_tag() == tag,
                None => forall|kind: EventType| #![trigger kind.spec_tag()] kind.spec_tag() != tag,
            },
    {
        match tag {
            1 => Some(EventType::Connect),
            2 => Some(EventType::Accept),
            3 => Some(EventType::Close),
            4 => Some(EventType::ProcessStart),
            5 => Some(EventType::ProcessFork),
            6 => Some(EventType::ProcessExit),
            7 => Some(EventType::FileOpen),
            8 => Some(EventType::FileRead),
            9 => Some(EventType::FileClose),
            10 => Some(EventType::FileWrite),
            11 => Some(EventType::FileDelete),
            12 => Some(EventType::FileRename),
            13 => Some(EventType::Bind),
            14 => Some(EventType::Listen),
            15 => Some(EventType::MemoryMap),
            16 => Some(EventType::MemoryUnMap),
            17 => Some(EventType::PendingFileRename),
            _ => None,
        }
    }

    /// A socket operation.
    pub open spec fn is_network(self) -> bool {
        self is Connect || self is Accept || self is Close || self is Bind || self is Listen
    }

    /// A step in the life of a process.
    pub open spec fn is_process(self) -> bool {
        self is ProcessStart || self is ProcessFork || self is ProcessExit
    }

    /// A file operation. A rename is reported in two records.
    pub open spec fn is_file(self) -> bool {
        self is FileOpen || self is FileRead || self is FileClose || self is FileWrite
            || self is FileDelete || self is FileRename || self is PendingFileRename
    }

    /// A change of a process's memory mappings.
    pub open spec fn is_memory(self) -> bool {
        self is MemoryMap || self is MemoryUnMap
    }
}

/// Two kinds never share a tag.
pub proof fn law_tags_are_distinct(a: EventType, b: EventType)
    requires
        a.spec_tag() == b.spec_tag(),
    ensures
        a == b,
{
}

/// Every kind belongs to exactly one of the four families.
pub proof fn law_one_family(kind: EventType)
    ensures
        kind.is_network() || kind.is_process() || kind.is_file() || kind.is_memory(),
        !(kind.is_network() && kind.is_process()),
        !(kind.is_network() && kind.is_file()),
        !(kind.is_network() && kind.is_memory()),
        !(kind.is_process() && kind.is_file()),
        !(kind.is_process() && kind.is_memory()),
        !(kind.is_file() && kind.is_memory()),
{
}

impl TryFrom<u8> for EventType {
    type Error = ();

    /// Reads the short numbering of kinds, one to seven: connect, accept,
    /// close, process start, process exit, file open, file close. It is not
    /// the numbering of [`EventType::tag`].
    fn try_from(value: u8) -> (r: Result<Self, Self::Error>) {
        match value {
            1 => Ok(EventType::Connect),
            2 => Ok(EventType::Accept),
            3 => Ok(EventType::Close),
            4 => Ok(EventType::ProcessStart),
            5 => Ok(EventType::ProcessExit),
            6 => Ok(EventType::FileOpen),
            7 => Ok(EventType::FileClose),
            _ => Err(()),
        }
    }
}

impl vstd::std_specs::convert::TryFromSpecImpl<u8> for EventType {
    open spec fn obeys_try_from_spec() -> bool {
        true
    }

    open spec fn try_from_spec(value: u8) -> Result<Self, Self::Error> {
        if value == 1 {
            Ok(EventType::Connect)
        } else if value == 2 {
            Ok(EventType::Accept)
        } else if value == 3 {
            Ok(EventType::Close)
        } else if value == 4 {
            Ok(EventType::ProcessStart)
        } else if value == 5 {
            Ok(EventType::ProcessExit)
        } else if value == 6 {
            Ok(EventType::FileOpen)
        } else if value == 7 {
            Ok(EventType::FileClose)
        } else {
            Err(())
        }
    }
}

/// The short numbering and the tags agree on one to four. Behind four, the
/// short numbering leaves kinds out, and no number means the same in both.
pub proof fn law_short_numbers(value: u8)
    ensures
        1 <= value <= 4 ==> (<EventType as vstd::std_specs::convert::TryFromSpec<u8>>::try_from_spec(
            value,
        ) matches Ok(kind) && kind.spec_tag() == value),
        value > 4 ==> (<EventType as vstd::std_specs::convert::TryFromSpec<u8>>::try_from_spec(
            value,
        ) matches Ok(kind) ==> kind.spec_tag() != value),
{
}

/// The part that every kernel record starts with.
#[derive(Debug, Clone, Copy)]
pub struct RawEventHeader {
    pub event_type: EventType,
    pub timestamp_ns: u64,
    pub pid: u32,
    pub tid: u32,
    pub ppid: u32,
    pub uid: u32,
    pub gid: u32,
    pub comm: [u8; TASK_COMM_LEN],
}

/// A transport protocol, as the probes number it.
#[derive(Debug, Clone, Copy, PartialEq, Eq, Structural)]
pub enum RawProtocol {
    Tcp,
    Udp,
}

impl RawProtocol {
    /// The byte that stands for this protocol in a record.
    pub open spec fn spec_tag(self) -> u8 {
        match self {
            RawProtocol::Tcp => 1,
            RawProtocol::Udp => 2,
        }
    }

    /// The byte that stands for this protocol in a record.
    pub fn tag(self) -> (r: u8)
        ensures
            r == self.spec_tag(),
    {
        match self {
            RawProtocol::Tcp => 1,
            RawProtocol::Udp => 2,
        }
    }
}

impl TryFrom<u8> for RawProtocol {
    type Error = ();

    fn try_from(value: u8) -> (r: Result<Self, Self::Error>) {
        match value {
            1 => Ok(RawProtocol::Tcp),
            2 => Ok(RawProtocol::Udp),
            _ => Err(()),
        }
    }
}

impl vstd::std_specs::convert::TryFromSpecImpl<u8> for RawProtocol {
    open spec fn obeys_try_from_spec() -> bool {
        true
    }

    open spec fn try_from_spec(value: u8) -> Result<Self, Self::Error> {
        if value == RawProtocol::Tcp.spec_tag() {
            Ok(RawProtocol::Tcp)
        } else if value == RawProtocol::Udp.spec_tag() {
            Ok(RawProtocol::Udp)
        } else {
            Err(())
        }
    }
}

/// Which of the two address families a socket record speaks of.
#[derive(Clone, Copy, Debug, PartialEq, Eq, Structural)]
pub enum IpVersion {
    V4,
    V6,
}

/// A socket operation.
#[derive(Clone, Copy, Debug)]
pub struct PendingConnect {
    pub header: RawEventHeader,
    pub protocol: RawProtocol,
    pub tid: u32,
    pub src_port: u16,
    pub dst_port: u16,
    pub ip_version: IpVersion,
    /// The local address; an IPv4 address takes the first four bytes.
    pub src_addr: [u8; 16],
    /// The remote address; an IPv4 address takes the first four bytes.
    pub dst_addr: [u8; 16],
    pub retval: Option<i32>,
}

/// The start of a `connect` system call on an internet socket.
#[derive(Clone, Copy, Debug)]
pub struct RawConnectEvent {
    pub header: RawEventHeader,
    pub family: u16,
}

/// A process began to run a new program image.
#[derive(Debug, Clone, Copy)]
pub struct RawProcessStartEvent {
    pub header: RawEventHeader,
    pub filename: [u8; NAME_LEN],
}

/// A process exits.
#[derive(Debug, Clone, Copy)]
pub struct RawProcessExitEvent {
    pub header: RawEventHeader,
    pub exit_code: i32,
}

/// A process was created.
#[derive(Debug, Clone, Copy)]
pub struct RawProcessForkEvent {
    pub parent: RawEventHeader,
    pub child_pid: u32,
    pub child_comm: [u8; TASK_COMM_LEN],
}

/// A set of file types, one bit each.
#[derive(Debug, Clone, Copy, PartialEq, Eq, PartialOrd, Ord, Hash, Structural)]
pub struct FileModeFilter {
    pub mode: u16,
}

/// A file was opened.
#[derive(Debug, Clone, Copy)]
pub struct RawFileOpenEvent {
    pub header: RawEventHeader,
    pub filename: [u8; NAME_LEN],
    pub file_mode: FileModeFilter,
    pub retval: i32,
    pub inode: u64,
    pub flags: u32,
}

/// A file was closed.
#[derive(Debug, Clone, Copy)]
pub struct RawFileCloseEvent {
    pub header: RawEventHeader,
    pub filename: [u8; NAME_LEN],
    pub file_mode: FileModeFilter,
    pub retval: i32,
    pub inode: u64,
    pub flags: u32,
}

/// A file was read.
#[derive(Debug, Clone, Copy)]
pub struct RawFileReadEvent {
    pub header: RawEventHeader,
    pub filename: [u8; NAME_LEN],
    pub file_mode: FileModeFilter,
    pub retval: isize,
    pub inode: u64,
    pub flags: u32,
}

/// A file was written.
#[derive(Debug, Clone, Copy)]
pub struct RawFileWriteEvent {
    pub header: RawEventHeader,
    pub filename: [u8; NAME_LEN],
    pub file_mode: FileModeFilter,
    pub retval: isize,
    pub inode: u64,
    pub flags: u32,
}

/// A file was unlinked.
#[derive(Debug, Clone, Copy)]
pub struct RawFileDeleteEvent {
    pub header: RawEventHeader,
    pub filename: [u8; NAME_LEN],
    pub file_mode: FileModeFilter,
    pub retval: i32,
}

/// A rename began. Its return value is not known yet: it follows in a
/// [`RawFileRtrEvent`].
#[derive(Debug, Clone, Copy)]
pub struct RawFileRenameEvent {
    pub header: RawEventHeader,
    pub old_filename: [u8; NAME_LEN],
    pub new_filename: [u8; NAME_LEN],
    pub file_mode: FileModeFilter,
    pub retval: i32,
    pub flags: u32,
}

/// A rename returned.
#[derive(Debug, Clone, Copy)]
pub struct RawFileRtrEvent {
    pub header: RawEventHeader,
    pub retval: i32,
}

/// A mapping was created.
#[derive(Debug, Clone, Copy)]
pub struct RawMemoryMapEvent {
    pub header: RawEventHeader,
    pub requested_address: usize,
    pub length: u64,
    pub protection: u32,
    pub flags: u32,
    pub mapped_address: usize,
}

/// A mapping was removed.
#[derive(Debug, Clone, Copy)]
pub struct RawMemoryUnmapEvent {
    pub header: RawEventHeader,
    pub requested_address: usize,
    pub length: u64,
    pub mapped_address: usize,
}

/// Which tasks a subscription is about.
#[derive(Debug, Clone, Copy, PartialEq, Eq, PartialOrd, Ord, Hash, Structural)]
#[non_exhaustive]
pub enum FilterKey {
    /// Every task.
    Any,
    Pid(u32),
    Tid(u32),
    Ppid(u32),
    Uid(u32),
    Gid(u32),
}

impl FilterKey {
    /// The task that `header` describes is one that this key asks for.
    pub open spec fn admits(self, header: RawEventHeader) -> bool {
        match self {
            FilterKey::Any => true,
            FilterKey::Pid(pid) => header.pid == pid,
            FilterKey::Tid(tid) => header.tid == tid,
            FilterKey::Ppid(ppid) => header.ppid == ppid,
            FilterKey::Uid(uid) => header.uid == uid,
            FilterKey::Gid(gid) => header.gid == gid,
        }
    }
}

impl Default for FilterKey {
    fn default() -> (r: Self)
        ensures
            r == FilterKey::Any,
    {
        FilterKey::Any
    }
}

/// The subscription that a filter key was written for.
#[derive(Debug, Clone, Copy, PartialEq, Eq, Structural)]
pub enum FilterOwner {
    Memory,
    Process,
    Network,
    File,
}

impl FilterOwner {
    /// The slot of the kernel's filter map that belongs to this owner.
    pub open spec fn spec_slot(self) -> u32 {
        match self {
            FilterOwner::Memory => 0,
            FilterOwner::Process => 1,
            FilterOwner::Network => 2,
            FilterOwner::File => 3,
        }
    }

    /// The slot of the kernel's filter map that belongs to this owner.
    pub fn slot(self) -> (r: u32)
        ensures
            r == self.spec_slot(),
    {
        match self {
            FilterOwner::Memory => 0,
            FilterOwner::Process => 1,
            FilterOwner::Network => 2,
            FilterOwner::File => 3,
        }
    }
}

/// Two owners never share a slot of the filter map.
pub proof fn law_slots_are_distinct(a: FilterOwner, b: FilterOwner)
    requires
        a.spec_slot() == b.spec_slot(),
    ensures
        a == b,
{
}

} // verus!
