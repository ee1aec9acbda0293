//! What the accessors of events give, variant by variant, and what masks and
//! filters ask for.
use crate::common;
use crate::common::{EventHeader, ProcessId};
use crate::file::{
    FileCloseEvent, FileEvent, FileEventKey, FileFilter, FileInfo, FileMask, FileOpenEvent,
    FileReadEvent, FileRenameEvent, FileType, FileTypeFilter, FileWriteEvent,
};
use crate::memory::{MemoryEvent, MemoryFilter, MemoryMask};
use crate::network::{
    NetworkEvent, NetworkFilter, NetworkMask, Protocol, ProtocolMask, SocketEndpoints,
};
use crate::process::{ProcessEvent, ProcessExitEvent, ProcessFilter, ProcessMask};
use crate::raw::{FileModeFilter, FilterKey};
use crate::text;
use core::time::Duration;
use vstd::prelude::*;

verus! {

/// A header gives its own process and thread, its own time, and tells a kernel
/// thread by the process zero.
pub proof fn law_header_accessors(
    header: EventHeader,
    process: ProcessId,
    at: Duration,
    is_kernel_thread: bool,
)
    requires
        call_ensures(EventHeader::process, (&header,), process),
        call_ensures(EventHeader::timestamp, (&header,), at),
        call_ensures(EventHeader::is_kernel_thread, (&header,), is_kernel_thread),
    ensures
        process.pid == header.pid,
        process.tid == header.tid,
        common::nanos_of(at) == header.timestamp_ns,
        is_kernel_thread <==> header.pid == 0,
{
}

/// Every file event gives the header that it holds, and process,
/// time and kind of thread by that header.
pub proof fn law_file_event_header(
    event: FileEvent,
    header: &EventHeader,
    process: ProcessId,
    at: Duration,
    is_kernel_thread: bool,
)
    requires
        call_ensures(FileEvent::header, (&event,), header),
        call_ensures(FileEvent::process, (&event,), process),
        call_ensures(FileEvent::timestamp, (&event,), at),
        call_ensures(FileEvent::is_kernel_thread, (&event,), is_kernel_thread),
    ensures
        match event {
            FileEvent::Open(e) => *header == e.header,
            FileEvent::Read(e) => *header == e.header,
            FileEvent::Close(e) => *header == e.header,
            FileEvent::Write(e) => *header == e.header,
            FileEvent::Delete(e) => *header == e.header,
            FileEvent::Rename(e) => *header == e.header,
        },
        process.pid == header.pid,
        process.tid == header.tid,
        common::nanos_of(at) == header.timestamp_ns,
        is_kernel_thread <==> header.pid == 0,
        event.spec_header() == *header,
{
}

/// The bit of each file operation.
pub proof fn law_file_event_bit(event: FileEvent)
    ensures
        match event {
            FileEvent::Open(_) => event.spec_bit() == 1,
            FileEvent::Read(_) => event.spec_bit() == 4,
            FileEvent::Close(_) => event.spec_bit() == 2,
            FileEvent::Write(_) => event.spec_bit() == 8,
            FileEvent::Delete(_) => event.spec_bit() == 16,
            FileEvent::Rename(_) => event.spec_bit() == 32,
        },
{
}

/// Every network event gives the header that it holds, and process,
/// time and kind of thread by that header.
pub proof fn law_network_event_header(
    event: NetworkEvent,
    header: &EventHeader,
    process: ProcessId,
    at: Duration,
    is_kernel_thread: bool,
)
    requires
        call_ensures(NetworkEvent::header, (&event,), header),
        call_ensures(NetworkEvent::process, (&event,), process),
        call_ensures(NetworkEvent::timestamp, (&event,), at),
        call_ensures(NetworkEvent::is_kernel_thread, (&event,), is_kernel_thread),
    ensures
        match event {
            NetworkEvent::Connect(e) => *header == e.header,
            NetworkEvent::Accept(e) => *header == e.header,
            NetworkEvent::Close(e) => *header == e.header,
            NetworkEvent::Bind(e) => *header == e.header,
            NetworkEvent::Listen(e) => *header == e.header,
        },
        process.pid == header.pid,
        process.tid == header.tid,
        common::nanos_of(at) == header.timestamp_ns,
        is_kernel_thread <==> header.pid == 0,
        event.spec_header() == *header,
{
}

/// The bit of each network operation.
pub proof fn law_network_event_bit(event: NetworkEvent)
    ensures
        match event {
            NetworkEvent::Connect(_) => event.spec_bit() == 1,
            NetworkEvent::Accept(_) => event.spec_bit() == 2,
            NetworkEvent::Close(_) => event.spec_bit() == 4,
            NetworkEvent::Bind(_) => event.spec_bit() == 8,
            NetworkEvent::Listen(_) => event.spec_bit() == 16,
        },
{
}

/// Every process event gives the header that it holds (a fork gives the parent's),
/// and process, time and kind of thread by that header.
pub proof fn law_process_event_header(
    event: ProcessEvent,
    header: &EventHeader,
    process: ProcessId,
    at: Duration,
    is_kernel_thread: bool,
)
    requires
        call_ensures(ProcessEvent::header, (&event,), header),
        call_ensures(ProcessEvent::process, (&event,), process),
        call_ensures(ProcessEvent::timestamp, (&event,), at),
        call_ensures(ProcessEvent::is_kernel_thread, (&event,), is_kernel_thread),
    ensures
        match event {
            ProcessEvent::Start(e) => *header == e.header,
            ProcessEvent::Fork(e) => *header == e.parent,
            ProcessEvent::Exit(e) => *header == e.header,
        },
        process.pid == header.pid,
        process.tid == header.tid,
        common::nanos_of(at) == header.timestamp_ns,
        is_kernel_thread <==> header.pid == 0,
        event.spec_header() == *header,
{
}

/// The bit of each process operation.
pub proof fn law_process_event_bit(event: ProcessEvent)
    ensures
        match event {
            ProcessEvent::Start(_) => event.spec_bit() == 1,
            ProcessEvent::Fork(_) => event.spec_bit() == 2,
            ProcessEvent::Exit(_) => event.spec_bit() == 4,
        },
{
}

/// Every memory event gives the header that it holds, and process,
/// time and kind of thread by that header.
pub proof fn law_memory_event_header(
    event: MemoryEvent,
    header: &EventHeader,
    process: ProcessId,
    at: Duration,
    is_kernel_thread: bool,
)
    requires
        call_ensures(MemoryEvent::header, (&event,), header),
        call_ensures(MemoryEvent::process, (&event,), process),
        call_ensures(MemoryEvent::timestamp, (&event,), at),
        call_ensures(MemoryEvent::is_kernel_thread, (&event,), is_kernel_thread),
    ensures
        match event {
            MemoryEvent::MemoryMap(e) => *header == e.header,
            MemoryEvent::MemoryUnMap(e) => *header == e.header,
        },
        process.pid == header.pid,
        process.tid == header.tid,
        common::nanos_of(at) == header.timestamp_ns,
        is_kernel_thread <==> header.pid == 0,
        event.spec_header() == *header,
{
}

/// The bit of each memory operation.
pub proof fn law_memory_event_bit(event: MemoryEvent)
    ensures
        match event {
            MemoryEvent::MemoryMap(_) => event.spec_bit() == 1,
            MemoryEvent::MemoryUnMap(_) => event.spec_bit() == 2,
        },
{
}

/// The mask of a file event asks for its operation alone.
pub proof fn law_file_event_mask(event: FileEvent, mask: FileMask)
    requires
        call_ensures(FileEvent::event_type, (&event,), mask),
    ensures
        match event {
            FileEvent::Open(_) => mask.bits() == 1,
            FileEvent::Close(_) => mask.bits() == 2,
            FileEvent::Read(_) => mask.bits() == 4,
            FileEvent::Write(_) => mask.bits() == 8,
            FileEvent::Delete(_) => mask.bits() == 16,
            FileEvent::Rename(_) => mask.bits() == 32,
        },
{
}

/// The key of a file event for deduplication: reads and writes by inode and
/// result, opens by inode and flags, closes by inode, renames and deletions by
/// result.
pub proof fn law_file_event_key(event: FileEvent, key: FileEventKey)
    requires
        call_ensures(FileEvent::dedup_key, (&event,), key),
    ensures
        match event {
            FileEvent::Read(e) => key matches FileEventKey::Read { inode, retval } && inode
                == e.inode && retval == e.retval,
            FileEvent::Write(e) => key matches FileEventKey::Write { inode, retval } && inode
                == e.inode && retval == e.retval,
            FileEvent::Open(e) => key matches FileEventKey::Open { inode, flags }
                && inode == e.inode
                && flags == e.flags,
            FileEvent::Close(e) => key matches FileEventKey::Close { inode } && inode == e.inode,
            FileEvent::Rename(e) => key matches FileEventKey::Rename { retval } && retval
                == e.retval,
            FileEvent::Delete(e) => key matches FileEventKey::Delete { retval } && retval
                == e.retval,
        },
{
}

/// A file event gives its own type and result. It failed exactly when the
/// result is negative.
pub proof fn law_file_event_result(
    event: FileEvent,
    kind: &FileType,
    retval: isize,
    succeeded: bool,
    failed: bool,
)
    requires
        call_ensures(FileEvent::file_type, (&event,), kind),
        call_ensures(FileEvent::retval, (&event,), retval),
        call_ensures(FileEvent::succeeded, (&event,), succeeded),
        call_ensures(FileEvent::failed, (&event,), failed),
    ensures
        match event {
            FileEvent::Open(e) => *kind == e.file_type && retval == e.retval,
            FileEvent::Read(e) => *kind == e.file_type && retval == e.retval,
            FileEvent::Close(e) => *kind == e.file_type && retval == e.retval,
            FileEvent::Write(e) => *kind == e.file_type && retval == e.retval,
            FileEvent::Delete(e) => *kind == e.file_type && retval == e.retval,
            FileEvent::Rename(e) => *kind == e.file_type && retval == e.retval,
        },
        succeeded <==> retval >= 0,
        failed <==> retval < 0,
{
}

/// Opens, reads, closes and writes give their path, its last component and their
/// inode; renames give both names; nothing else gives any of these.
pub proof fn law_file_event_names(
    event: FileEvent,
    path: Option<&str>,
    name: Option<&str>,
    old_name: Option<&str>,
    new_name: Option<&str>,
    inode: Option<u64>,
)
    requires
        call_ensures(FileEvent::file_path, (&event,), path),
        call_ensures(FileEvent::file_name, (&event,), name),
        call_ensures(FileEvent::old_filename, (&event,), old_name),
        call_ensures(FileEvent::new_filename, (&event,), new_name),
        call_ensures(FileEvent::inode, (&event,), inode),
    ensures
        path matches Some(path) ==> name matches Some(name) && name@ == text::path_file_name(path@),
        path is None ==> name is None,
        match event {
            FileEvent::Open(e) => (path matches Some(path) && path@ == e.file_path@) && inode
                == Some(e.inode) && old_name is None && new_name is None,
            FileEvent::Read(e) => (path matches Some(path) && path@ == e.file_path@) && inode
                == Some(e.inode) && old_name is None && new_name is None,
            FileEvent::Close(e) => (path matches Some(path) && path@ == e.file_path@) && inode
                == Some(e.inode) && old_name is None && new_name is None,
            FileEvent::Write(e) => (path matches Some(path) && path@ == e.file_path@) && inode
                == Some(e.inode) && old_name is None && new_name is None,
            FileEvent::Delete(_) => path is None && inode is None && old_name is None
                && new_name is None,
            FileEvent::Rename(e) => path is None && inode is None && (old_name matches Some(name)
                && name@ == e.old_filename@) && (new_name matches Some(name) && name@
                == e.new_filename@),
        },
{
}

/// Every network event gives the endpoints that it holds, and tells TCP from UDP
/// by the protocol that it holds.
pub proof fn law_network_event_accessors(
    event: NetworkEvent,
    endpoints: &SocketEndpoints,
    is_tcp: bool,
    is_udp: bool,
)
    requires
        call_ensures(NetworkEvent::endpoints, (&event,), endpoints),
        call_ensures(NetworkEvent::is_tcp, (&event,), is_tcp),
        call_ensures(NetworkEvent::is_udp, (&event,), is_udp),
    ensures
        match event {
            NetworkEvent::Connect(e) => *endpoints == e.endpoints && is_tcp == (e.protocol
                == Protocol::Tcp) && is_udp == (e.protocol == Protocol::Udp),
            NetworkEvent::Accept(e) => *endpoints == e.endpoints && is_tcp == (e.protocol
                == Protocol::Tcp) && is_udp == (e.protocol == Protocol::Udp),
            NetworkEvent::Close(e) => *endpoints == e.endpoints && is_tcp == (e.protocol
                == Protocol::Tcp) && is_udp == (e.protocol == Protocol::Udp),
            NetworkEvent::Bind(e) => *endpoints == e.endpoints && is_tcp == (e.protocol
                == Protocol::Tcp) && is_udp == (e.protocol == Protocol::Udp),
            NetworkEvent::Listen(e) => *endpoints == e.endpoints && is_tcp == (e.protocol
                == Protocol::Tcp) && is_udp == (e.protocol == Protocol::Udp),
        },
        event.spec_endpoints() == *endpoints,
        is_tcp == (event.spec_protocol() == Protocol::Tcp),
{
}

/// The bits of the two protocols.
pub proof fn law_protocol_bits()
    ensures
        Protocol::Tcp.spec_bit() == 1,
        Protocol::Udp.spec_bit() == 2,
{
}

/// A process event is of exactly one kind.
pub proof fn law_process_event_kinds(
    event: ProcessEvent,
    is_start: bool,
    is_fork: bool,
    is_exit: bool,
)
    requires
        call_ensures(ProcessEvent::is_start, (&event,), is_start),
        call_ensures(ProcessEvent::is_fork, (&event,), is_fork),
        call_ensures(ProcessEvent::is_exit, (&event,), is_exit),
    ensures
        match event {
            ProcessEvent::Start(_) => is_start && !is_fork && !is_exit,
            ProcessEvent::Fork(_) => !is_start && is_fork && !is_exit,
            ProcessEvent::Exit(_) => !is_start && !is_fork && is_exit,
        },
{
}

/// A memory event is of exactly one kind.
pub proof fn law_memory_event_kinds(event: MemoryEvent, is_mmap: bool, is_unmap: bool)
    requires
        call_ensures(MemoryEvent::is_mmap, (&event,), is_mmap),
        call_ensures(MemoryEvent::is_unmap, (&event,), is_unmap),
    ensures
        match event {
            MemoryEvent::MemoryMap(_) => is_mmap && !is_unmap,
            MemoryEvent::MemoryUnMap(_) => !is_mmap && is_unmap,
        },
{
}

/// The status of every exit is zero: the byte that it takes of the exit code is
/// one that the shift has emptied.
pub proof fn law_exit_status(event: ProcessExitEvent, status: u8)
    requires
        call_ensures(ProcessExitEvent::status, (&event,), status),
    ensures
        status == 0,
{
}

/// The flags of an open are those that it holds, and the access mode in their two lowest
/// bits tells reading from writing.
pub proof fn law_open_flags(
    event: FileOpenEvent,
    flags: u32,
    is_read: bool,
    is_write: bool,
    flag: u32,
    has_flag: bool,
)
    requires
        call_ensures(<FileOpenEvent as FileInfo>::flags_raw, (&event,), flags),
        call_ensures(<FileOpenEvent as FileInfo>::is_read, (&event,), is_read),
        call_ensures(<FileOpenEvent as FileInfo>::is_write, (&event,), is_write),
        call_ensures(<FileOpenEvent as FileInfo>::has_flag, (&event, flag), has_flag),
    ensures
        flags == event.flags,
        is_read <==> event.flags & 3 == 0 || event.flags & 3 == 2,
        is_write <==> event.flags & 3 == 1 || event.flags & 3 == 2,
        flag == 0o4010000 || flag == 0o20200000 ==> (has_flag <==> event.flags & flag == flag),
        flag != 0o4010000 && flag != 0o20200000 ==> (has_flag <==> event.flags & flag != 0),
{
}

/// The flags of a read are those that it holds, and the access mode in their two lowest
/// bits tells reading from writing.
pub proof fn law_read_flags(
    event: FileReadEvent,
    flags: u32,
    is_read: bool,
    is_write: bool,
    flag: u32,
    has_flag: bool,
)
    requires
        call_ensures(<FileReadEvent as FileInfo>::flags_raw, (&event,), flags),
        call_ensures(<FileReadEvent as FileInfo>::is_read, (&event,), is_read),
        call_ensures(<FileReadEvent as FileInfo>::is_write, (&event,), is_write),
        call_ensures(<FileReadEvent as FileInfo>::has_flag, (&event, flag), has_flag),
    ensures
        flags == event.flags,
        is_read <==> event.flags & 3 == 0 || event.flags & 3 == 2,
        is_write <==> event.flags & 3 == 1 || event.flags & 3 == 2,
        flag == 0o4010000 || flag == 0o20200000 ==> (has_flag <==> event.flags & flag == flag),
        flag != 0o4010000 && flag != 0o20200000 ==> (has_flag <==> event.flags & flag != 0),
{
}

/// The flags of a close are those that it holds, and the access mode in their two lowest
/// bits tells reading from writing.
pub proof fn law_close_flags(
    event: FileCloseEvent,
    flags: u32,
    is_read: bool,
    is_write: bool,
    flag: u32,
    has_flag: bool,
)
    requires
        call_ensures(<FileCloseEvent as FileInfo>::flags_raw, (&event,), flags),
        call_ensures(<FileCloseEvent as FileInfo>::is_read, (&event,), is_read),
        call_ensures(<FileCloseEvent as FileInfo>::is_write, (&event,), is_write),
        call_ensures(<FileCloseEvent as FileInfo>::has_flag, (&event, flag), has_flag),
    ensures
        flags == event.flags,
        is_read <==> event.flags & 3 == 0 || event.flags & 3 == 2,
        is_write <==> event.flags & 3 == 1 || event.flags & 3 == 2,
        flag == 0o4010000 || flag == 0o20200000 ==> (has_flag <==> event.flags & flag == flag),
        flag != 0o4010000 && flag != 0o20200000 ==> (has_flag <==> event.flags & flag != 0),
{
}

/// The flags of a write are those that it holds, and the access mode in their two lowest
/// bits tells reading from writing.
pub proof fn law_write_flags(
    event: FileWriteEvent,
    flags: u32,
    is_read: bool,
    is_write: bool,
    flag: u32,
    has_flag: bool,
)
    requires
        call_ensures(<FileWriteEvent as FileInfo>::flags_raw, (&event,), flags),
        call_ensures(<FileWriteEvent as FileInfo>::is_read, (&event,), is_read),
        call_ensures(<FileWriteEvent as FileInfo>::is_write, (&event,), is_write),
        call_ensures(<FileWriteEvent as FileInfo>::has_flag, (&event, flag), has_flag),
    ensures
        flags == event.flags,
        is_read <==> event.flags & 3 == 0 || event.flags & 3 == 2,
        is_write <==> event.flags & 3 == 1 || event.flags & 3 == 2,
        flag == 0o4010000 || flag == 0o20200000 ==> (has_flag <==> event.flags & flag == flag),
        flag != 0o4010000 && flag != 0o20200000 ==> (has_flag <==> event.flags & flag != 0),
{
}

/// The flags of a rename are those that it holds, and the access mode in their two lowest
/// bits tells reading from writing.
pub proof fn law_rename_flags(
    event: FileRenameEvent,
    flags: u32,
    is_read: bool,
    is_write: bool,
    flag: u32,
    has_flag: bool,
)
    requires
        call_ensures(<FileRenameEvent as FileInfo>::flags_raw, (&event,), flags),
        call_ensures(<FileRenameEvent as FileInfo>::is_read, (&event,), is_read),
        call_ensures(<FileRenameEvent as FileInfo>::is_write, (&event,), is_write),
        call_ensures(<FileRenameEvent as FileInfo>::has_flag, (&event, flag), has_flag),
    ensures
        flags == event.flags,
        is_read <==> event.flags & 3 == 0 || event.flags & 3 == 2,
        is_write <==> event.flags & 3 == 1 || event.flags & 3 == 2,
        flag == 0o4010000 || flag == 0o20200000 ==> (has_flag <==> event.flags & flag == flag),
        flag != 0o4010000 && flag != 0o20200000 ==> (has_flag <==> event.flags & flag != 0),
{
}

/// An open gives its own path, and the last component of it.
pub proof fn law_open_path(event: FileOpenEvent, path: &str, name: &str)
    requires
        call_ensures(FileOpenEvent::file_path, (&event,), path),
        call_ensures(FileOpenEvent::file_name, (&event,), name),
    ensures
        path@ == event.file_path@,
        name@ == text::path_file_name(event.file_path@),
{
}

/// A read gives its own path, and the last component of it.
pub proof fn law_read_path(event: FileReadEvent, path: &str, name: &str)
    requires
        call_ensures(FileReadEvent::file_path, (&event,), path),
        call_ensures(FileReadEvent::file_name, (&event,), name),
    ensures
        path@ == event.file_path@,
        name@ == text::path_file_name(event.file_path@),
{
}

/// A close gives its own path, and the last component of it.
pub proof fn law_close_path(event: FileCloseEvent, path: &str, name: &str)
    requires
        call_ensures(FileCloseEvent::file_path, (&event,), path),
        call_ensures(FileCloseEvent::file_name, (&event,), name),
    ensures
        path@ == event.file_path@,
        name@ == text::path_file_name(event.file_path@),
{
}

/// A write gives its own path, and the last component of it.
pub proof fn law_write_path(event: FileWriteEvent, path: &str, name: &str)
    requires
        call_ensures(FileWriteEvent::file_path, (&event,), path),
        call_ensures(FileWriteEvent::file_name, (&event,), name),
    ensures
        path@ == event.file_path@,
        name@ == text::path_file_name(event.file_path@),
{
}

/// The mode bits of each type are those of Unix, and the number of a type is its
/// mode bits.
pub proof fn law_mode_bits(kind: FileType, bits: u32, word: u32)
    requires
        call_ensures(FileType::mode_bits, (kind,), bits),
        call_ensures(<u32 as From<FileType>>::from, (kind,), word),
    ensures
        match kind {
            FileType::Regular => bits == 0o100000,
            FileType::Directory => bits == 0o040000,
            FileType::CharDevice => bits == 0o020000,
            FileType::BlockDevice => bits == 0o060000,
            FileType::Fifo => bits == 0o010000,
            FileType::Symlink => bits == 0o120000,
            FileType::Socket => bits == 0o140000,
            FileType::Unknown => bits == 0,
        },
        word == bits,
{
}

/// A mask contains another exactly when it holds every bit of it, and the union of
/// two masks holds the bits of both and no others.
pub proof fn law_file_mask_contains(
    a: FileMask,
    b: FileMask,
    contains: bool,
    union: FileMask,
    bit: u8,
)
    requires
        call_ensures(FileMask::contains, (&a, &b), contains),
        call_ensures(<FileMask as core::ops::BitOr>::bitor, (a, b), union),
        bit < 8,
    ensures
        contains && b.bits() & (1u8 << bit) != 0 ==> a.bits() & (1u8 << bit) != 0,
        !contains ==> exists|i: u8|
            i < 8 && b.bits() & #[trigger] (1u8 << i) != 0 && a.bits() & (1u8 << i) == 0,
        union.bits() & (1u8 << bit) != 0 <==> a.bits() & (1u8 << bit) != 0
            || b.bits() & (1u8 << bit)
            != 0,
{
    lemma_bits(a.bits(), b.bits(), bit);
}

/// A mask contains another exactly when it holds every bit of it, and the union of
/// two masks holds the bits of both and no others.
pub proof fn law_network_mask_contains(
    a: NetworkMask,
    b: NetworkMask,
    contains: bool,
    union: NetworkMask,
    bit: u8,
)
    requires
        call_ensures(NetworkMask::contains, (&a, &b), contains),
        call_ensures(<NetworkMask as core::ops::BitOr>::bitor, (a, b), union),
        bit < 8,
    ensures
        contains && b.bits() & (1u8 << bit) != 0 ==> a.bits() & (1u8 << bit) != 0,
        !contains ==> exists|i: u8|
            i < 8 && b.bits() & #[trigger] (1u8 << i) != 0 && a.bits() & (1u8 << i) == 0,
        union.bits() & (1u8 << bit) != 0 <==> a.bits() & (1u8 << bit) != 0
            || b.bits() & (1u8 << bit)
            != 0,
{
    lemma_bits(a.bits(), b.bits(), bit);
}

/// A mask contains another exactly when it holds every bit of it, and the union of
/// two masks holds the bits of both and no others.
pub proof fn law_protocol_mask_contains(
    a: ProtocolMask,
    b: ProtocolMask,
    contains: bool,
    union: ProtocolMask,
    bit: u8,
)
    requires
        call_ensures(ProtocolMask::contains, (&a, &b), contains),
        call_ensures(<ProtocolMask as core::ops::BitOr>::bitor, (a, b), union),
        bit < 8,
    ensures
        contains && b.bits() & (1u8 << bit) != 0 ==> a.bits() & (1u8 << bit) != 0,
        !contains ==> exists|i: u8|
            i < 8 && b.bits() & #[trigger] (1u8 << i) != 0 && a.bits() & (1u8 << i) == 0,
        union.bits() & (1u8 << bit) != 0 <==> a.bits() & (1u8 << bit) != 0
            || b.bits() & (1u8 << bit)
            != 0,
{
    lemma_bits(a.bits(), b.bits(), bit);
}

/// A mask contains another exactly when it holds every bit of it, and the union of
/// two masks holds the bits of both and no others.
pub proof fn law_process_mask_contains(
    a: ProcessMask,
    b: ProcessMask,
    contains: bool,
    union: ProcessMask,
    bit: u8,
)
    requires
        call_ensures(ProcessMask::contains, (&a, &b), contains),
        call_ensures(<ProcessMask as core::ops::BitOr>::bitor, (a, b), union),
        bit < 8,
    ensures
        contains && b.bits() & (1u8 << bit) != 0 ==> a.bits() & (1u8 << bit) != 0,
        !contains ==> exists|i: u8|
            i < 8 && b.bits() & #[trigger] (1u8 << i) != 0 && a.bits() & (1u8 << i) == 0,
        union.bits() & (1u8 << bit) != 0 <==> a.bits() & (1u8 << bit) != 0
            || b.bits() & (1u8 << bit)
            != 0,
{
    lemma_bits(a.bits(), b.bits(), bit);
}

proof fn lemma_bits(a: u8, b: u8, bit: u8)
    requires
        bit < 8,
    ensures
        a & b == b && b & (1u8 << bit) != 0 ==> a & (1u8 << bit) != 0,
        a & b != b ==> exists|i: u8| i < 8 && b & #[trigger] (1u8 << i) != 0 && a & (1u8 << i) == 0,
        (a | b) & (1u8 << bit) != 0 <==> a & (1u8 << bit) != 0 || b & (1u8 << bit) != 0,
{
    assert(bit < 8 && a & b == b && b & (1u8 << bit) != 0
        ==> a & (1u8 << bit) != 0) by (bit_vector);
    assert(bit < 8 ==> ((a | b) & (1u8 << bit) != 0 <==> a & (1u8 << bit) != 0 || b & (1u8 << bit)
        != 0)) by (bit_vector);
    if a & b != b {
        assert(a & b != b ==> (b & (1u8 << 0u8) != 0 && a & (1u8 << 0u8) == 0) || (b & (1u8 << 1u8)
            != 0 && a & (1u8 << 1u8) == 0) || (b & (1u8 << 2u8) != 0 && a & (1u8 << 2u8) == 0) || (b
            & (1u8 << 3u8) != 0 && a & (1u8 << 3u8) == 0) || (b & (1u8 << 4u8) != 0 && a & (1u8
            << 4u8) == 0) || (b & (1u8 << 5u8) != 0 && a & (1u8 << 5u8) == 0) || (b & (1u8 << 6u8)
            != 0 && a & (1u8 << 6u8) == 0) || (b & (1u8 << 7u8) != 0 && a & (1u8 << 7u8) == 0))
            by (bit_vector);
    }
}

/// A mask contains another exactly when it holds every bit of it, and the union of
/// two masks holds the bits of both and no others.
pub proof fn law_memory_mask_contains(
    a: MemoryMask,
    b: MemoryMask,
    contains: bool,
    union: MemoryMask,
    bit: u8,
)
    requires
        call_ensures(MemoryMask::contains, (&a, b), contains),
        call_ensures(<MemoryMask as core::ops::BitOr>::bitor, (a, b), union),
        bit < 8,
    ensures
        contains && b.bits() & (1u8 << bit) != 0 ==> a.bits() & (1u8 << bit) != 0,
        !contains ==> exists|i: u8|
            i < 8 && b.bits() & #[trigger] (1u8 << i) != 0 && a.bits() & (1u8 << i) == 0,
        union.bits() & (1u8 << bit) != 0 <==> a.bits() & (1u8 << bit) != 0
            || b.bits() & (1u8 << bit)
            != 0,
{
    lemma_bits(a.bits(), b.bits(), bit);
}

/// Each operation has a bit of its own, and the mask of everything has them all.
pub proof fn law_file_mask_bits(
    open_mask: FileMask,
    close_mask: FileMask,
    read_mask: FileMask,
    write_mask: FileMask,
    delete_mask: FileMask,
    rename_mask: FileMask,
    all_mask: FileMask,
)
    requires
        call_ensures(FileMask::open, (), open_mask),
        call_ensures(FileMask::close, (), close_mask),
        call_ensures(FileMask::read, (), read_mask),
        call_ensures(FileMask::write, (), write_mask),
        call_ensures(FileMask::delete, (), delete_mask),
        call_ensures(FileMask::rename, (), rename_mask),
        call_ensures(FileMask::all, (), all_mask),
    ensures
        open_mask.bits() == 1,
        close_mask.bits() == 2,
        read_mask.bits() == 4,
        write_mask.bits() == 8,
        delete_mask.bits() == 16,
        rename_mask.bits() == 32,
        all_mask.bits() == 63,
{
}

/// Each operation has a bit of its own, and the mask of everything has them all.
pub proof fn law_network_mask_bits(
    connect_mask: NetworkMask,
    accept_mask: NetworkMask,
    close_mask: NetworkMask,
    bind_mask: NetworkMask,
    listen_mask: NetworkMask,
    all_mask: NetworkMask,
)
    requires
        call_ensures(NetworkMask::connect, (), connect_mask),
        call_ensures(NetworkMask::accept, (), accept_mask),
        call_ensures(NetworkMask::close, (), close_mask),
        call_ensures(NetworkMask::bind, (), bind_mask),
        call_ensures(NetworkMask::listen, (), listen_mask),
        call_ensures(NetworkMask::all, (), all_mask),
    ensures
        connect_mask.bits() == 1,
        accept_mask.bits() == 2,
        close_mask.bits() == 4,
        bind_mask.bits() == 8,
        listen_mask.bits() == 16,
        all_mask.bits() == 31,
{
}

/// Each protocol has a bit of its own, and the mask of everything has both.
pub proof fn law_protocol_mask_bits(
    tcp_mask: ProtocolMask,
    udp_mask: ProtocolMask,
    all_mask: ProtocolMask,
)
    requires
        call_ensures(ProtocolMask::tcp, (), tcp_mask),
        call_ensures(ProtocolMask::udp, (), udp_mask),
        call_ensures(ProtocolMask::all, (), all_mask),
    ensures
        tcp_mask.bits() == 1,
        udp_mask.bits() == 2,
        all_mask.bits() == 3,
{
}

/// Each operation has a bit of its own, and the mask of everything has them all.
pub proof fn law_process_mask_bits(
    start_mask: ProcessMask,
    fork_mask: ProcessMask,
    exit_mask: ProcessMask,
    all_mask: ProcessMask,
)
    requires
        call_ensures(ProcessMask::start, (), start_mask),
        call_ensures(ProcessMask::fork, (), fork_mask),
        call_ensures(ProcessMask::exit, (), exit_mask),
        call_ensures(ProcessMask::all, (), all_mask),
    ensures
        start_mask.bits() == 1,
        fork_mask.bits() == 2,
        exit_mask.bits() == 4,
        all_mask.bits() == 7,
{
}

/// Each operation has a bit of its own, and the mask of everything has them all.
pub proof fn law_memory_mask_bits(
    mmap_mask: MemoryMask,
    unmap_mask: MemoryMask,
    all_mask: MemoryMask,
)
    requires
        call_ensures(MemoryMask::mmap, (), mmap_mask),
        call_ensures(MemoryMask::unmap, (), unmap_mask),
        call_ensures(MemoryMask::all, (), all_mask),
    ensures
        mmap_mask.bits() == 1,
        unmap_mask.bits() == 2,
        all_mask.bits() == 3,
{
}

/// The filter of an operation asks for that operation alone, on objects of every
/// type and of every task. Unless something else is asked for, every operation is,
/// on regular files alone.
pub proof fn law_file_filters(
    open_filter: FileFilter,
    close_filter: FileFilter,
    read_filter: FileFilter,
    write_filter: FileFilter,
    delete_filter: FileFilter,
    rename_filter: FileFilter,
    all_filter: FileFilter,
    default_filter: FileFilter,
)
    requires
        call_ensures(FileFilter::open, (), open_filter),
        call_ensures(FileFilter::close, (), close_filter),
        call_ensures(FileFilter::read, (), read_filter),
        call_ensures(FileFilter::write, (), write_filter),
        call_ensures(FileFilter::delete, (), delete_filter),
        call_ensures(FileFilter::rename, (), rename_filter),
        call_ensures(FileFilter::all, (), all_filter),
        call_ensures(<FileFilter as Default>::default, (), default_filter),
    ensures
        open_filter.event_type.bits() == 1,
        open_filter.file_mode.0.mode == 127,
        open_filter.filter is Any,
        close_filter.event_type.bits() == 2,
        close_filter.file_mode.0.mode == 127,
        close_filter.filter is Any,
        read_filter.event_type.bits() == 4,
        read_filter.file_mode.0.mode == 127,
        read_filter.filter is Any,
        write_filter.event_type.bits() == 8,
        write_filter.file_mode.0.mode == 127,
        write_filter.filter is Any,
        delete_filter.event_type.bits() == 16,
        delete_filter.file_mode.0.mode == 127,
        delete_filter.filter is Any,
        rename_filter.event_type.bits() == 32,
        rename_filter.file_mode.0.mode == 127,
        rename_filter.filter is Any,
        all_filter.event_type.bits() == 63,
        all_filter.file_mode.0.mode == 127,
        all_filter.filter is Any,
        default_filter.event_type.bits() == 63,
        default_filter.file_mode.0.mode == 1,
        default_filter.filter is Any,
{
}

/// The filter of an event asks for that event alone, of every task. Unless
/// something else is asked for, every event is.
pub proof fn law_process_filters(
    start_filter: ProcessFilter,
    fork_filter: ProcessFilter,
    exit_filter: ProcessFilter,
    all_filter: ProcessFilter,
    default_filter: ProcessFilter,
)
    requires
        call_ensures(ProcessFilter::start, (), start_filter),
        call_ensures(ProcessFilter::fork, (), fork_filter),
        call_ensures(ProcessFilter::exit, (), exit_filter),
        call_ensures(ProcessFilter::all, (), all_filter),
        call_ensures(<ProcessFilter as Default>::default, (), default_filter),
    ensures
        start_filter.mask.bits() == 1,
        start_filter.filter is Any,
        fork_filter.mask.bits() == 2,
        fork_filter.filter is Any,
        exit_filter.mask.bits() == 4,
        exit_filter.filter is Any,
        all_filter.mask.bits() == 7,
        all_filter.filter is Any,
        default_filter.mask.bits() == 7,
        default_filter.filter is Any,
{
}

/// The filter of an operation asks for that operation alone, of every task.
/// Unless something else is asked for, both are.
pub proof fn law_memory_filters(
    mmap_filter: MemoryFilter,
    unmap_filter: MemoryFilter,
    all_filter: MemoryFilter,
    default_filter: MemoryFilter,
)
    requires
        call_ensures(MemoryFilter::mmap, (), mmap_filter),
        call_ensures(MemoryFilter::unmap, (), unmap_filter),
        call_ensures(MemoryFilter::all, (), all_filter),
        call_ensures(<MemoryFilter as Default>::default, (), default_filter),
    ensures
        mmap_filter.mask.bits() == 1,
        mmap_filter.filter is Any,
        unmap_filter.mask.bits() == 2,
        unmap_filter.filter is Any,
        all_filter.mask.bits() == 3,
        all_filter.filter is Any,
        default_filter.mask.bits() == 3,
        default_filter.filter is Any,
{
}

/// The filter of a protocol asks for every operation on its sockets, of every
/// task. Unless something else is asked for, both protocols are.
pub proof fn law_network_filters(
    tcp_filter: NetworkFilter,
    udp_filter: NetworkFilter,
    all_filter: NetworkFilter,
    default_filter: NetworkFilter,
)
    requires
        call_ensures(NetworkFilter::tcp, (), tcp_filter),
        call_ensures(NetworkFilter::udp, (), udp_filter),
        call_ensures(NetworkFilter::all, (), all_filter),
        call_ensures(<NetworkFilter as Default>::default, (), default_filter),
    ensures
        tcp_filter.protocol_mask.bits() == 1,
        tcp_filter.event_mask.bits() == 31,
        tcp_filter.filter is Any,
        udp_filter.protocol_mask.bits() == 2,
        udp_filter.event_mask.bits() == 31,
        udp_filter.filter is Any,
        all_filter.protocol_mask.bits() == 3,
        all_filter.event_mask.bits() == 31,
        all_filter.filter is Any,
        default_filter.protocol_mask.bits() == 3,
        default_filter.event_mask.bits() == 31,
        default_filter.filter is Any,
{
}

/// Each file type has a bit of its own, the filter of all types has them all, and
/// regular files are what is asked for unless something else is.
pub proof fn law_type_filter_bits(
    file_reg: FileTypeFilter,
    file_dir: FileTypeFilter,
    file_chr: FileTypeFilter,
    file_blk: FileTypeFilter,
    file_fifo: FileTypeFilter,
    file_lnk: FileTypeFilter,
    file_sock: FileTypeFilter,
    all: FileTypeFilter,
    default_types: FileTypeFilter,
)
    requires
        call_ensures(FileTypeFilter::file_reg, (), file_reg),
        call_ensures(FileTypeFilter::file_dir, (), file_dir),
        call_ensures(FileTypeFilter::file_chr, (), file_chr),
        call_ensures(FileTypeFilter::file_blk, (), file_blk),
        call_ensures(FileTypeFilter::file_fifo, (), file_fifo),
        call_ensures(FileTypeFilter::file_lnk, (), file_lnk),
        call_ensures(FileTypeFilter::file_sock, (), file_sock),
        call_ensures(FileTypeFilter::all, (), all),
        call_ensures(<FileTypeFilter as Default>::default, (), default_types),
    ensures
        file_reg.0.mode == 1,
        file_dir.0.mode == 2,
        file_chr.0.mode == 4,
        file_blk.0.mode == 8,
        file_fifo.0.mode == 16,
        file_lnk.0.mode == 32,
        file_sock.0.mode == 64,
        all.0.mode == 127,
        default_types.0.mode == 1,
{
}

/// The union of two type filters holds the bits of both, and what is written for
/// the probes is what the filter holds.
pub proof fn law_type_filter_union(
    a: FileTypeFilter,
    b: FileTypeFilter,
    union: FileTypeFilter,
    written: FileModeFilter,
    bit: u16,
)
    requires
        call_ensures(<FileTypeFilter as core::ops::BitOr>::bitor, (a, b), union),
        call_ensures(<FileModeFilter as From<FileTypeFilter>>::from, (a,), written),
        bit < 16,
    ensures
        union.0.mode & (1u16 << bit) != 0 <==> a.0.mode & (1u16 << bit) != 0 || b.0.mode & (1u16
            << bit) != 0,
        written.mode == a.0.mode,
{
    let x: u16 = a.0.mode;
    let y: u16 = b.0.mode;
    assert(bit < 16 ==> ((x | y) & (1u16 << bit) != 0 <==> x & (1u16 << bit) != 0 || y & (1u16
        << bit) != 0)) by (bit_vector);
}

/// The union of two filters adds the operations of the right one; the rest of the
/// filter is that of the left one.
pub proof fn law_filter_unions(
    file_a: FileFilter,
    file_b: FileFilter,
    file: FileFilter,
    network_a: NetworkFilter,
    network_b: NetworkFilter,
    network: NetworkFilter,
)
    requires
        call_ensures(<FileFilter as core::ops::BitOr>::bitor, (file_a, file_b), file),
        call_ensures(<NetworkFilter as core::ops::BitOr>::bitor, (network_a, network_b), network),
    ensures
        file.event_type.bits() == file_a.event_type.bits() | file_b.event_type.bits(),
        file.file_mode == file_a.file_mode,
        file.filter == file_a.filter,
        network.event_mask.bits() == network_a.event_mask.bits() | network_b.event_mask.bits(),
        network.protocol_mask == network_a.protocol_mask,
        network.filter == network_a.filter,
{
}

/// A key that is not chosen asks for every task.
pub proof fn law_default_key(key: FilterKey)
    requires
        call_ensures(<FilterKey as Default>::default, (), key),
    ensures
        key is Any,
{
}

} // verus!
