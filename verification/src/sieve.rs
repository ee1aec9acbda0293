//! What holds of every record that a probe makes or leaves out.
use crate::probe;
use crate::probe::{DentryRead, FileRead, SockAddrIn, SockRead, SockaddrIn6, TaskRead};
use crate::raw::{
    EventType, FileModeFilter, FilterKey, PendingConnect, RawConnectEvent, RawEventHeader,
    RawFileCloseEvent, RawFileDeleteEvent, RawFileOpenEvent, RawFileReadEvent,
    RawFileRtrEvent, RawFileWriteEvent, RawMemoryMapEvent, RawMemoryUnmapEvent, RawProcessExitEvent,
    RawProcessForkEvent, RawProcessStartEvent, NAME_LEN, TASK_COMM_LEN,
};
use vstd::prelude::*;

verus! {

/// The key of a process lets a record through exactly when the record is one of
/// that process, whichever of its threads caused it.
pub proof fn law_process_key(pid: u32, header: RawEventHeader, left_out: bool)
    requires
        call_ensures(probe::filter_events, (Some(FilterKey::Pid(pid)), &header), left_out),
    ensures
        header.pid == pid ==> !left_out,
        header.pid != pid ==> left_out,
        probe::passes(Some(FilterKey::Pid(pid)), header) <==> header.pid == pid,
{
}

/// The key of a thread lets a record through exactly when the record is one of
/// that thread.
pub proof fn law_thread_key(tid: u32, header: RawEventHeader, left_out: bool)
    requires
        call_ensures(probe::filter_events, (Some(FilterKey::Tid(tid)), &header), left_out),
    ensures
        header.tid == tid ==> !left_out,
        header.tid != tid ==> left_out,
        probe::passes(Some(FilterKey::Tid(tid)), header) <==> header.tid == tid,
{
}

/// The key of a parent lets a record through exactly when the record is one of
/// a child of that parent.
pub proof fn law_parent_key(ppid: u32, header: RawEventHeader, left_out: bool)
    requires
        call_ensures(probe::filter_events, (Some(FilterKey::Ppid(ppid)), &header), left_out),
    ensures
        header.ppid == ppid ==> !left_out,
        header.ppid != ppid ==> left_out,
        probe::passes(Some(FilterKey::Ppid(ppid)), header) <==> header.ppid == ppid,
{
}

/// The key of a user lets a record through exactly when the record is one of
/// that user.
pub proof fn law_user_key(uid: u32, header: RawEventHeader, left_out: bool)
    requires
        call_ensures(probe::filter_events, (Some(FilterKey::Uid(uid)), &header), left_out),
    ensures
        header.uid == uid ==> !left_out,
        header.uid != uid ==> left_out,
        probe::passes(Some(FilterKey::Uid(uid)), header) <==> header.uid == uid,
{
}

/// The key of a group lets a record through exactly when the record is one of
/// that group.
pub proof fn law_group_key(gid: u32, header: RawEventHeader, left_out: bool)
    requires
        call_ensures(probe::filter_events, (Some(FilterKey::Gid(gid)), &header), left_out),
    ensures
        header.gid == gid ==> !left_out,
        header.gid != gid ==> left_out,
        probe::passes(Some(FilterKey::Gid(gid)), header) <==> header.gid == gid,
{
}

/// The key for everything, and a slot with no key, let every record through.
pub proof fn law_open_key(header: RawEventHeader, left_out: bool, left_out_unset: bool)
    requires
        call_ensures(probe::filter_events, (Some(FilterKey::Any), &header), left_out),
        call_ensures(probe::filter_events, (None, &header), left_out_unset),
    ensures
        !left_out,
        !left_out_unset,
        probe::passes(Some(FilterKey::Any), header),
        probe::passes(None, header),
{
}

/// An inode of a recognized type is captured exactly when the configuration
/// holds the bit of its type, whatever other bits it holds, and the type of the
/// inode is told by that bit alone. An inode of any other type is not captured.
pub proof fn law_capture_by_type(
    config: FileModeFilter,
    i_mode: u16,
    r: (bool, FileModeFilter),
    file: FileRead,
    r_file: (bool, FileModeFilter),
)
    requires
        call_ensures(probe::capture_inode, (Some(config), i_mode), r),
        file.i_mode == i_mode,
        call_ensures(probe::capture_file, (Some(config), &file), r_file),
    ensures
        i_mode & 0o170000 == 0o100000 ==> (r.0 <==> config.mode & 1 != 0) && r.1.mode == 1,
        i_mode & 0o170000 == 0o040000 ==> (r.0 <==> config.mode & 2 != 0) && r.1.mode == 2,
        i_mode & 0o170000 == 0o020000 ==> (r.0 <==> config.mode & 4 != 0) && r.1.mode == 4,
        i_mode & 0o170000 == 0o060000 ==> (r.0 <==> config.mode & 8 != 0) && r.1.mode == 8,
        i_mode & 0o170000 == 0o010000 ==> (r.0 <==> config.mode & 16 != 0) && r.1.mode == 16,
        i_mode & 0o170000 == 0o120000 ==> (r.0 <==> config.mode & 32 != 0) && r.1.mode == 32,
        i_mode & 0o170000 == 0o140000 ==> (r.0 <==> config.mode & 64 != 0) && r.1.mode == 64,
        i_mode & 0o170000 != 0o100000 && i_mode & 0o170000 != 0o040000 && i_mode & 0o170000
            != 0o020000 && i_mode & 0o170000 != 0o060000 && i_mode & 0o170000 != 0o010000 && i_mode
            & 0o170000 != 0o120000 && i_mode & 0o170000 != 0o140000 ==> !r.0 && r.1.mode == 0,
        r_file.0 == r.0,
        r_file.1.mode == r.1.mode,
        probe::captured(Some(config), i_mode) == r.0,
{
    let mode: u16 = config.mode;
    assert(mode & 0 == 0) by (bit_vector);
}

/// Without a configuration no inode is captured.
pub proof fn law_capture_needs_configuration(i_mode: u16, r: (bool, FileModeFilter))
    requires
        call_ensures(probe::capture_inode, (None, i_mode), r),
    ensures
        !r.0,
        r.1.mode == 0,
{
}

/// A bit that is added to a configuration makes it capture more, never less.
pub proof fn law_capture_grows(small: FileModeFilter, large: FileModeFilter, i_mode: u16)
    requires
        small.mode & large.mode == small.mode,
        probe::captured(Some(small), i_mode),
    ensures
        probe::captured(Some(large), i_mode),
{
    let a: u16 = small.mode;
    let b: u16 = large.mode;
    let bit: u16 = probe::type_bit(i_mode);
    assert(a & b == a && a & bit != 0 ==> b & bit != 0) by (bit_vector);
}

/// The configuration holds the bit of the type of an inode with mode `i_mode`.
pub open spec fn type_asked_for(config: Option<FileModeFilter>, i_mode: u16) -> bool {
    config matches Some(config) && {
        ||| i_mode & 0o170000 == 0o100000 && config.mode & 1 != 0
        ||| i_mode & 0o170000 == 0o040000 && config.mode & 2 != 0
        ||| i_mode & 0o170000 == 0o020000 && config.mode & 4 != 0
        ||| i_mode & 0o170000 == 0o060000 && config.mode & 8 != 0
        ||| i_mode & 0o170000 == 0o010000 && config.mode & 16 != 0
        ||| i_mode & 0o170000 == 0o120000 && config.mode & 32 != 0
        ||| i_mode & 0o170000 == 0o140000 && config.mode & 64 != 0
    }
}

/// `mode` is the bit of the type of an inode with mode `i_mode`.
pub open spec fn names_type(mode: u16, i_mode: u16) -> bool {
    ||| mode == 1 && i_mode & 0o170000 == 0o100000
    ||| mode == 2 && i_mode & 0o170000 == 0o040000
    ||| mode == 4 && i_mode & 0o170000 == 0o020000
    ||| mode == 8 && i_mode & 0o170000 == 0o060000
    ||| mode == 16 && i_mode & 0o170000 == 0o010000
    ||| mode == 32 && i_mode & 0o170000 == 0o120000
    ||| mode == 64 && i_mode & 0o170000 == 0o140000
}

/// The task is one that `key` asks for, by what a probe reads of the task.
pub open spec fn task_asked_for(key: Option<FilterKey>, task: TaskRead) -> bool {
    match key {
        None => true,
        Some(FilterKey::Any) => true,
        Some(FilterKey::Pid(pid)) => task.pid_tgid / 0x1_0000_0000 == pid,
        Some(FilterKey::Tid(tid)) => task.pid_tgid % 0x1_0000_0000 == tid,
        Some(FilterKey::Ppid(ppid)) => match task.parent_tgid {
            Some(tgid) => ppid == tgid || ppid == tgid + 0x1_0000_0000,
            None => ppid == 0,
        },
        Some(FilterKey::Uid(uid)) => task.uid_gid % 0x1_0000_0000 == uid,
        Some(FilterKey::Gid(gid)) => task.uid_gid / 0x1_0000_0000 == gid,
    }
}

/// `header` is that of a record of kind `kind` that `task` caused: nothing of
/// what was read of the task is lost, and what could not be read is zero.
pub open spec fn caused_by(header: RawEventHeader, kind: EventType, task: TaskRead) -> bool {
    &&& header.event_type == kind
    &&& header.timestamp_ns == task.timestamp_ns
    &&& header.pid * 0x1_0000_0000 + header.tid == task.pid_tgid
    &&& header.gid * 0x1_0000_0000 + header.uid == task.uid_gid
    &&& match task.parent_tgid {
        Some(tgid) => header.ppid == tgid || header.ppid == tgid + 0x1_0000_0000,
        None => header.ppid == 0,
    }
    &&& match task.comm {
        Some(comm) => header.comm@ == comm@,
        None => forall|i: int| 0 <= i < 16 ==> #[trigger] header.comm@[i] == 0,
    }
}

/// A header holds what was read of the task, each part in its own field.
pub proof fn law_header_of_task(kind: EventType, task: TaskRead, header: RawEventHeader)
    requires
        call_ensures(probe::build_event_header, (kind, &task), header),
    ensures
        header.event_type == kind,
        header.timestamp_ns == task.timestamp_ns,
        header.pid == task.pid_tgid / 0x1_0000_0000,
        header.tid == task.pid_tgid % 0x1_0000_0000,
        header.uid == task.uid_gid % 0x1_0000_0000,
        header.gid == task.uid_gid / 0x1_0000_0000,
        task.parent_tgid matches Some(tgid) ==> header.ppid == tgid || header.ppid == tgid
            + 0x1_0000_0000,
        task.parent_tgid is None ==> header.ppid == 0,
        task.comm matches Some(comm) ==> header.comm@ == comm@,
        task.comm is None ==> forall|i: int| 0 <= i < 16 ==> #[trigger] header.comm@[i] == 0,
        header == task.header(kind),
{
    lemma_header(kind, task);
}

/// What is collected of a task is what its records say in their headers.
pub proof fn law_collected_context(
    task: TaskRead,
    r: (u64, u32, u32, u32, u32, u32, [u8; TASK_COMM_LEN]),
)
    requires
        call_ensures(probe::collect_process_ctx, (&task,), r),
    ensures
        r.0 == task.timestamp_ns,
        r.1 * 0x1_0000_0000 + r.2 == task.pid_tgid,
        r.5 * 0x1_0000_0000 + r.4 == task.uid_gid,
        match task.parent_tgid {
            Some(tgid) => r.3 == tgid || r.3 == tgid + 0x1_0000_0000,
            None => r.3 == 0,
        },
        match task.comm {
            Some(comm) => r.6@ == comm@,
            None => forall|i: int| 0 <= i < 16 ==> #[trigger] r.6@[i] == 0,
        },
{
    lemma_header(EventType::Connect, task);
    let header = task.header(EventType::Connect);
}

/// A header is built of what was read of the task, and passes a key exactly when
/// the key asks for the task.
pub proof fn lemma_header(kind: EventType, task: TaskRead)
    ensures
        caused_by(task.header(kind), kind, task),
        forall|key: Option<FilterKey>| #[trigger]
            probe::passes(key, task.header(kind)) == task_asked_for(key, task),
{
    assert(task.pid_tgid / 0x1_0000_0000 <= 0xffff_ffff);
    assert(task.uid_gid / 0x1_0000_0000 <= 0xffff_ffff);
    let header = task.header(kind);
    assert(task.comm is None ==> forall|i: int| 0 <= i < 16 ==> #[trigger] header.comm@[i] == 0);
    assert forall|key: Option<FilterKey>| #[trigger]
        probe::passes(key, task.header(kind)) == task_asked_for(key, task) by {
    }
}

/// An inode is captured exactly when the configuration asks for its type, which is
/// then told by its bit.
pub proof fn lemma_captured(config: Option<FileModeFilter>, i_mode: u16)
    ensures
        probe::captured(config, i_mode) == type_asked_for(config, i_mode),
        type_asked_for(config, i_mode) ==> names_type(probe::type_bit(i_mode), i_mode),
{
    if let Some(config) = config {
        let mode: u16 = config.mode;
        assert(mode & 0 == 0) by (bit_vector);
    }
}

/// A start is recorded exactly when the key asks for its task and the field of
/// the name can be read, and the record holds the name.
pub proof fn law_exec_record(
    data_loc: Option<u32>,
    filename: [u8; NAME_LEN],
    task: TaskRead,
    key: Option<FilterKey>,
    r: Option<RawProcessStartEvent>,
)
    requires
        call_ensures(probe::try_sched_process_exec, (data_loc, &filename, &task, key), r),
    ensures
        r is Some <==> task_asked_for(key, task) && data_loc is Some,
        r matches Some(record) ==> {
            &&& caused_by(record.header, EventType::ProcessStart, task)
            &&& record.filename@ == filename@
        },
{
    lemma_header(EventType::ProcessStart, task);
}

/// An exit is recorded exactly when the key asks for its task, and the record
/// holds the exit code.
pub proof fn law_exit_record(
    exit_code: i32,
    task: TaskRead,
    key: Option<FilterKey>,
    r: Option<RawProcessExitEvent>,
)
    requires
        call_ensures(probe::try_do_group_exit, (exit_code, &task, key), r),
    ensures
        r is Some <==> task_asked_for(key, task),
        r matches Some(record) ==> {
            &&& caused_by(record.header, EventType::ProcessExit, task)
            &&& record.exit_code == exit_code
        },
{
    lemma_header(EventType::ProcessExit, task);
}

/// A fork is recorded exactly when the key asks for the parent and both fields
/// of the child can be read, and the record holds these.
pub proof fn law_fork_record(
    data_loc: Option<u32>,
    child_pid: Option<u32>,
    child_comm: [u8; TASK_COMM_LEN],
    task: TaskRead,
    key: Option<FilterKey>,
    r: Option<RawProcessForkEvent>,
)
    requires
        call_ensures(
            probe::try_sched_process_fork,
            (data_loc, child_pid, &child_comm, &task, key),
            r,
        ),
    ensures
        r is Some <==> task_asked_for(key, task) && data_loc is Some && child_pid is Some,
        r matches Some(record) ==> {
            &&& caused_by(record.parent, EventType::ProcessFork, task)
            &&& child_pid == Some(record.child_pid)
            &&& record.child_comm@ == child_comm@
        },
{
    lemma_header(EventType::ProcessFork, task);
}

/// An open is recorded exactly when the key asks for its task, there is a file
/// and the configuration asks for its type. The record holds what was read of
/// the file, and the result.
pub proof fn law_open_record(
    file: Option<&FileRead>,
    retval: i32,
    config: Option<FileModeFilter>,
    task: TaskRead,
    key: Option<FilterKey>,
    r: Option<RawFileOpenEvent>,
)
    requires
        call_ensures(probe::try_vfs_open, (file, retval, config, &task, key), r),
    ensures
        r is Some <==> task_asked_for(key, task) && (file matches Some(file) && type_asked_for(
            config,
            file.i_mode,
        )),
        r matches Some(record) ==> {
            &&& caused_by(record.header, EventType::FileOpen, task)
            &&& file matches Some(file) && record.filename@ == file.name@
                && record.inode == file.inode
                && record.flags == file.flags && names_type(record.file_mode.mode, file.i_mode)
            &&& record.retval == retval
        },
{
    lemma_header(EventType::FileOpen, task);
    if let Some(file) = file {
        lemma_captured(config, file.i_mode);
    }
}

/// A close is recorded exactly when the key asks for its task, there is a file
/// and the configuration asks for its type. The record holds what was read of
/// the file, and the result.
pub proof fn law_close_record(
    file: Option<&FileRead>,
    retval: i32,
    config: Option<FileModeFilter>,
    task: TaskRead,
    key: Option<FilterKey>,
    r: Option<RawFileCloseEvent>,
)
    requires
        call_ensures(probe::try_flip_close, (file, retval, config, &task, key), r),
    ensures
        r is Some <==> task_asked_for(key, task) && (file matches Some(file) && type_asked_for(
            config,
            file.i_mode,
        )),
        r matches Some(record) ==> {
            &&& caused_by(record.header, EventType::FileClose, task)
            &&& file matches Some(file) && record.filename@ == file.name@
                && record.inode == file.inode
                && record.flags == file.flags && names_type(record.file_mode.mode, file.i_mode)
            &&& record.retval == retval
        },
{
    lemma_header(EventType::FileClose, task);
    if let Some(file) = file {
        lemma_captured(config, file.i_mode);
    }
}

/// A read is recorded exactly when the key asks for its task, there is a file
/// and the configuration asks for its type. The record holds what was read of
/// the file, and the result.
pub proof fn law_read_record(
    file: Option<&FileRead>,
    retval: isize,
    config: Option<FileModeFilter>,
    task: TaskRead,
    key: Option<FilterKey>,
    r: Option<RawFileReadEvent>,
)
    requires
        call_ensures(probe::try_vfs_read, (file, retval, config, &task, key), r),
    ensures
        r is Some <==> task_asked_for(key, task) && (file matches Some(file) && type_asked_for(
            config,
            file.i_mode,
        )),
        r matches Some(record) ==> {
            &&& caused_by(record.header, EventType::FileRead, task)
            &&& file matches Some(file) && record.filename@ == file.name@
                && record.inode == file.inode
                && record.flags == file.flags && names_type(record.file_mode.mode, file.i_mode)
            &&& record.retval == retval
        },
{
    lemma_header(EventType::FileRead, task);
    if let Some(file) = file {
        lemma_captured(config, file.i_mode);
    }
}

/// A write is recorded exactly when the key asks for its task, there is a file
/// and the configuration asks for its type. The record holds what was read of
/// the file, and the result.
pub proof fn law_write_record(
    file: Option<&FileRead>,
    retval: isize,
    config: Option<FileModeFilter>,
    task: TaskRead,
    key: Option<FilterKey>,
    r: Option<RawFileWriteEvent>,
)
    requires
        call_ensures(probe::try_vfs_write, (file, retval, config, &task, key), r),
    ensures
        r is Some <==> task_asked_for(key, task) && (file matches Some(file) && type_asked_for(
            config,
            file.i_mode,
        )),
        r matches Some(record) ==> {
            &&& caused_by(record.header, EventType::FileWrite, task)
            &&& file matches Some(file) && record.filename@ == file.name@
                && record.inode == file.inode
                && record.flags == file.flags && names_type(record.file_mode.mode, file.i_mode)
            &&& record.retval == retval
        },
{
    lemma_header(EventType::FileWrite, task);
    if let Some(file) = file {
        lemma_captured(config, file.i_mode);
    }
}

/// A deletion is recorded exactly when the key asks for its task and the
/// configuration for the type of the entry. The record holds what was read of
/// the entry, and the result.
pub proof fn law_deletion_record(
    dentry: DentryRead,
    retval: i32,
    config: Option<FileModeFilter>,
    task: TaskRead,
    key: Option<FilterKey>,
    r: Option<RawFileDeleteEvent>,
)
    requires
        call_ensures(probe::try_vfs_unlink, (&dentry, retval, config, &task, key), r),
    ensures
        r is Some <==> task_asked_for(key, task) && type_asked_for(config, dentry.i_mode),
        r matches Some(record) ==> {
            &&& caused_by(record.header, EventType::FileDelete, task)
            &&& record.filename@ == dentry.name@
            &&& names_type(record.file_mode.mode, dentry.i_mode)
            &&& record.retval == retval
        },
{
    lemma_header(EventType::FileDelete, task);
    lemma_captured(config, dentry.i_mode);
}

/// A mapping is recorded exactly when the key asks for its task, and the record
/// holds where and how the mapping was made.
pub proof fn law_mapping_record(
    requested_address: usize,
    length: u64,
    protection: u32,
    flags: u32,
    mapped_address: usize,
    task: TaskRead,
    key: Option<FilterKey>,
    r: Option<RawMemoryMapEvent>,
)
    requires
        call_ensures(
            probe::try_vm_mmap_pgoff,
            (requested_address, length, protection, flags, mapped_address, &task, key),
            r,
        ),
    ensures
        r is Some <==> task_asked_for(key, task),
        r matches Some(record) ==> {
            &&& caused_by(record.header, EventType::MemoryMap, task)
            &&& record.requested_address == requested_address
            &&& record.length == length
            &&& record.protection == protection
            &&& record.flags == flags
            &&& record.mapped_address == mapped_address
        },
{
    lemma_header(EventType::MemoryMap, task);
}

/// The removal of a mapping is recorded exactly when the key asks for its task,
/// and the record holds where the mapping was.
pub proof fn law_removal_record(
    requested_address: usize,
    length: u64,
    mapped_address: usize,
    task: TaskRead,
    key: Option<FilterKey>,
    r: Option<RawMemoryUnmapEvent>,
)
    requires
        call_ensures(
            probe::try_vm_munmap,
            (requested_address, length, mapped_address, &task, key),
            r,
        ),
    ensures
        r is Some <==> task_asked_for(key, task),
        r matches Some(record) ==> {
            &&& caused_by(record.header, EventType::MemoryUnMap, task)
            &&& record.requested_address == requested_address
            &&& record.length == length
            &&& record.mapped_address == mapped_address
        },
{
    lemma_header(EventType::MemoryUnMap, task);
}

/// The end of a rename is recorded for every task, with the result.
pub proof fn law_rename_end_record(retval: i32, task: TaskRead, record: RawFileRtrEvent)
    requires
        call_ensures(probe::try_vfs_rename_retval, (retval, &task), record),
    ensures
        caused_by(record.header, EventType::PendingFileRename, task),
        record.retval == retval,
{
    lemma_header(EventType::PendingFileRename, task);
}

/// The start of a `connect` call is recorded exactly when its address is of an
/// internet family and can be read, and the record holds the family.
pub proof fn law_connect_call_record(
    family: Option<u16>,
    v4: Option<&SockAddrIn>,
    v6: Option<&SockaddrIn6>,
    task: TaskRead,
    r: Option<RawConnectEvent>,
)
    requires
        call_ensures(probe::try_sys_enter_connect, (family, v4, v6, &task), r),
    ensures
        r is Some <==> (family == Some(2u16) && v4 is Some) || (family == Some(10u16)
            && v6 is Some),
        r matches Some(record) ==> caused_by(record.header, EventType::Connect, task) && family
            == Some(record.family),
{
    lemma_header(EventType::Connect, task);
}

/// `record` is that of an operation `kind` of `task` on the socket `sock`, of
/// the protocol that the probes number `protocol`. A port or an IPv4 address that
/// could not be read is zero.
pub open spec fn records_operation(
    record: PendingConnect,
    kind: EventType,
    protocol: u8,
    retval: Option<i32>,
    sock: SockRead,
    task: TaskRead,
) -> bool {
    &&& caused_by(record.header, kind, task)
    &&& protocol == 1 ==> record.protocol is Tcp
    &&& protocol == 2 ==> record.protocol is Udp
    &&& record.tid == task.pid_tgid % 0x1_0000_0000
    &&& record.retval == retval
    &&& match sock.num {
        Some(port) => record.src_port == port,
        None => record.src_port == 0,
    }
    &&& match sock.dport {
        Some(port) => record.dst_port / 0x100 == port % 0x100 && record.dst_port % 0x100 == port
            / 0x100,
        None => record.dst_port == 0,
    }
}

/// The 16 bytes of `field` hold the IPv4 address `address`, its first byte
/// lowest, and zeros behind it.
pub open spec fn holds_address(field: Seq<u8>, address: Option<u32>) -> bool {
    &&& field.len() == 16
    &&& field[0] + 0x100 * field[1] + 0x1_0000 * field[2]
        + 0x100_0000 * field[3] == (match address {
        Some(address) => address as int,
        None => 0,
    })
    &&& forall|i: int| 4 <= i < 16 ==> #[trigger] field[i] == 0
}

/// `record` is that of an operation on an IPv4 socket: its local address is the
/// source, its remote address the destination.
pub open spec fn records_v4(record: PendingConnect, sock: SockRead) -> bool {
    &&& record.ip_version is V4
    &&& holds_address(record.src_addr@, sock.rcv_saddr)
    &&& holds_address(record.dst_addr@, sock.daddr)
}

/// `record` is that of an operation on an IPv6 socket: its local address is the
/// source, its remote address the destination.
pub open spec fn records_v6(record: PendingConnect, sock: SockRead) -> bool {
    &&& record.ip_version is V6
    &&& sock.v6_rcv_saddr matches Some(address) && record.src_addr@ == address@
    &&& sock.v6_daddr matches Some(address) && record.dst_addr@ == address@
}

proof fn lemma_v4(
    sock: SockRead,
    retval: Option<i32>,
    protocol: u8,
    kind: EventType,
    task: TaskRead,
    key: Option<FilterKey>,
    r: Option<PendingConnect>,
)
    requires
        protocol == 1 || protocol == 2,
        probe::v4_emitted(sock, retval, protocol, task.header(kind), key, r),
    ensures
        r is Some <==> task_asked_for(key, task),
        r matches Some(record) ==> records_operation(record, kind, protocol, retval, sock, task)
            && records_v4(record, sock),
{
    lemma_header(kind, task);
}

proof fn lemma_v6(
    sock: SockRead,
    retval: Option<i32>,
    protocol: u8,
    kind: EventType,
    task: TaskRead,
    key: Option<FilterKey>,
    r: Option<PendingConnect>,
)
    requires
        protocol == 1 || protocol == 2,
        probe::v6_emitted(sock, retval, protocol, task.header(kind), key, r),
    ensures
        r is Some <==> task_asked_for(key, task) && sock.v6_rcv_saddr is Some
            && sock.v6_daddr is Some,
        r matches Some(record) ==> records_operation(record, kind, protocol, retval, sock, task)
            && records_v6(record, sock),
{
    lemma_header(kind, task);
}

proof fn lemma_either(
    sock: Option<&SockRead>,
    retval: Option<i32>,
    protocol: u8,
    kind: EventType,
    task: TaskRead,
    key: Option<FilterKey>,
    r: Option<PendingConnect>,
)
    requires
        protocol == 1 || protocol == 2,
        probe::emitted(sock, retval, protocol, task.header(kind), key, r),
    ensures
        r is Some <==> task_asked_for(key, task) && (sock matches Some(sock)
            && (sock.family == Some(
            2u16,
        ) || (sock.family == Some(10u16) && sock.v6_rcv_saddr is Some && sock.v6_daddr is Some))),
        r matches Some(record) ==> sock matches Some(sock) && records_operation(
            record,
            kind,
            protocol,
            retval,
            *sock,
            task,
        ) && (sock.family == Some(2u16) ==> records_v4(record, *sock))
            && (sock.family == Some(10u16)
            ==> records_v6(record, *sock)),
{
    if let Some(sock) = sock {
        if sock.family == Some(2u16) {
            lemma_v4(*sock, retval, protocol, kind, task, key, r);
        } else if sock.family == Some(10u16) {
            lemma_v6(*sock, retval, protocol, kind, task, key, r);
        }
    }
}

/// A TCP connect over IPv4 is recorded exactly when the key asks for its task and
/// there is a socket. The record says what was read of the socket, and the
/// result.
pub proof fn law_tcp_v4_connect_record(
    sock: Option<&SockRead>,
    retval: i32,
    task: TaskRead,
    key: Option<FilterKey>,
    r: Option<PendingConnect>,
)
    requires
        call_ensures(probe::try_tcp_v4_connect, (sock, retval, &task, key), r),
    ensures
        r is Some <==> task_asked_for(key, task) && sock is Some,
        r matches Some(record) ==> sock matches Some(sock) && records_operation(
            record,
            EventType::Connect,
            1,
            Some(retval),
            *sock,
            task,
        ) && records_v4(record, *sock),
{
    if let Some(sock) = sock {
        lemma_v4(*sock, Some(retval), 1, EventType::Connect, task, key, r);
    }
}

/// A TCP connect over IPv6 is recorded exactly when the key asks for its task and
/// there is a socket whose
/// addresses can be read. The record says what was read of the socket, and the
/// result.
pub proof fn law_tcp_v6_connect_record(
    sock: Option<&SockRead>,
    retval: i32,
    task: TaskRead,
    key: Option<FilterKey>,
    r: Option<PendingConnect>,
)
    requires
        call_ensures(probe::try_tcp_v6_connect, (sock, retval, &task, key), r),
    ensures
        r is Some <==> task_asked_for(key, task) && (sock matches Some(sock)
            && sock.v6_rcv_saddr is Some
            && sock.v6_daddr is Some),
        r matches Some(record) ==> sock matches Some(sock) && records_operation(
            record,
            EventType::Connect,
            1,
            Some(retval),
            *sock,
            task,
        ) && records_v6(record, *sock),
{
    if let Some(sock) = sock {
        lemma_v6(*sock, Some(retval), 1, EventType::Connect, task, key, r);
    }
}

/// A UDP connect over IPv4 is recorded exactly when the key asks for its task and
/// there is a socket. The record says what was read of the socket, and the
/// result.
pub proof fn law_udp_connect_record(
    sock: Option<&SockRead>,
    retval: i32,
    task: TaskRead,
    key: Option<FilterKey>,
    r: Option<PendingConnect>,
)
    requires
        call_ensures(probe::try_udp_connect, (sock, retval, &task, key), r),
    ensures
        r is Some <==> task_asked_for(key, task) && sock is Some,
        r matches Some(record) ==> sock matches Some(sock) && records_operation(
            record,
            EventType::Connect,
            2,
            Some(retval),
            *sock,
            task,
        ) && records_v4(record, *sock),
{
    if let Some(sock) = sock {
        lemma_v4(*sock, Some(retval), 2, EventType::Connect, task, key, r);
    }
}

/// A UDP connect over IPv6 is recorded exactly when the key asks for its task and
/// there is a socket whose
/// addresses can be read. The record says what was read of the socket, and the
/// result.
pub proof fn law_udpv6_connect_record(
    sock: Option<&SockRead>,
    retval: i32,
    task: TaskRead,
    key: Option<FilterKey>,
    r: Option<PendingConnect>,
)
    requires
        call_ensures(probe::try_udpv6_connect, (sock, retval, &task, key), r),
    ensures
        r is Some <==> task_asked_for(key, task) && (sock matches Some(sock)
            && sock.v6_rcv_saddr is Some
            && sock.v6_daddr is Some),
        r matches Some(record) ==> sock matches Some(sock) && records_operation(
            record,
            EventType::Connect,
            2,
            Some(retval),
            *sock,
            task,
        ) && records_v6(record, *sock),
{
    if let Some(sock) = sock {
        lemma_v6(*sock, Some(retval), 2, EventType::Connect, task, key, r);
    }
}

/// An accept is recorded exactly when the key asks for its task and there is a
/// socket of an internet family; of an IPv6 socket both addresses must be
/// readable. The record says what was read of the socket.
pub proof fn law_accept_record(
    sock: Option<&SockRead>,
    task: TaskRead,
    key: Option<FilterKey>,
    r: Option<PendingConnect>,
)
    requires
        call_ensures(probe::try_inet_csk_accept_impl, (sock, &task, key), r),
    ensures
        r is Some <==> task_asked_for(key, task) && (sock matches Some(sock)
            && (sock.family == Some(
            2u16,
        ) || (sock.family == Some(10u16) && sock.v6_rcv_saddr is Some && sock.v6_daddr is Some))),
        r matches Some(record) ==> sock matches Some(sock) && records_operation(
            record,
            EventType::Accept,
            1,
            None,
            *sock,
            task,
        ) && (sock.family == Some(2u16) ==> records_v4(record, *sock))
            && (sock.family == Some(10u16)
            ==> records_v6(record, *sock)),
{
    lemma_either(sock, None, 1, EventType::Accept, task, key, r);
}

/// A close of a TCP socket is recorded exactly when the key asks for its task and there is a
/// socket of an internet family; of an IPv6 socket both addresses must be
/// readable. The record says what was read of the socket.
pub proof fn law_tcp_close_record(
    sock: Option<&SockRead>,
    task: TaskRead,
    key: Option<FilterKey>,
    r: Option<PendingConnect>,
)
    requires
        call_ensures(probe::try_tcp_close, (sock, &task, key), r),
    ensures
        r is Some <==> task_asked_for(key, task) && (sock matches Some(sock)
            && (sock.family == Some(
            2u16,
        ) || (sock.family == Some(10u16) && sock.v6_rcv_saddr is Some && sock.v6_daddr is Some))),
        r matches Some(record) ==> sock matches Some(sock) && records_operation(
            record,
            EventType::Close,
            1,
            None,
            *sock,
            task,
        ) && (sock.family == Some(2u16) ==> records_v4(record, *sock))
            && (sock.family == Some(10u16)
            ==> records_v6(record, *sock)),
{
    lemma_either(sock, None, 1, EventType::Close, task, key, r);
}

/// A close of a UDP socket is recorded exactly when the key asks for its task and there is a
/// socket of an internet family; of an IPv6 socket both addresses must be
/// readable. The record says what was read of the socket.
pub proof fn law_udp_close_record(
    sock: Option<&SockRead>,
    task: TaskRead,
    key: Option<FilterKey>,
    r: Option<PendingConnect>,
)
    requires
        call_ensures(probe::try_udp_destroy_sock, (sock, &task, key), r),
    ensures
        r is Some <==> task_asked_for(key, task) && (sock matches Some(sock)
            && (sock.family == Some(
            2u16,
        ) || (sock.family == Some(10u16) && sock.v6_rcv_saddr is Some && sock.v6_daddr is Some))),
        r matches Some(record) ==> sock matches Some(sock) && records_operation(
            record,
            EventType::Close,
            2,
            None,
            *sock,
            task,
        ) && (sock.family == Some(2u16) ==> records_v4(record, *sock))
            && (sock.family == Some(10u16)
            ==> records_v6(record, *sock)),
{
    lemma_either(sock, None, 2, EventType::Close, task, key, r);
}

/// A bind is recorded exactly when the key asks for its task and there is a
/// socket of an internet family; of an IPv6 socket both addresses must be
/// readable. The record says what was read of the socket, and
/// the result.
pub proof fn law_bind_record(
    sock: Option<&SockRead>,
    retval: i32,
    task: TaskRead,
    key: Option<FilterKey>,
    r: Option<PendingConnect>,
)
    requires
        call_ensures(probe::try_inet_bind, (sock, retval, &task, key), r),
    ensures
        r is Some <==> task_asked_for(key, task) && (sock matches Some(sock)
            && (sock.family == Some(
            2u16,
        ) || (sock.family == Some(10u16) && sock.v6_rcv_saddr is Some && sock.v6_daddr is Some))),
        r matches Some(record) ==> sock matches Some(sock) && records_operation(
            record,
            EventType::Bind,
            1,
            Some(retval),
            *sock,
            task,
        ) && (sock.family == Some(2u16) ==> records_v4(record, *sock))
            && (sock.family == Some(10u16)
            ==> records_v6(record, *sock)),
{
    lemma_either(sock, Some(retval), 1, EventType::Bind, task, key, r);
}

/// A listen is recorded exactly when the key asks for its task and there is a
/// socket of an internet family; of an IPv6 socket both addresses must be
/// readable. The record says what was read of the socket, and
/// the result.
pub proof fn law_listen_record(
    sock: Option<&SockRead>,
    retval: i32,
    task: TaskRead,
    key: Option<FilterKey>,
    r: Option<PendingConnect>,
)
    requires
        call_ensures(probe::try_inet_listen, (sock, retval, &task, key), r),
    ensures
        r is Some <==> task_asked_for(key, task) && (sock matches Some(sock)
            && (sock.family == Some(
            2u16,
        ) || (sock.family == Some(10u16) && sock.v6_rcv_saddr is Some && sock.v6_daddr is Some))),
        r matches Some(record) ==> sock matches Some(sock) && records_operation(
            record,
            EventType::Listen,
            1,
            Some(retval),
            *sock,
            task,
        ) && (sock.family == Some(2u16) ==> records_v4(record, *sock))
            && (sock.family == Some(10u16)
            ==> records_v6(record, *sock)),
{
    lemma_either(sock, Some(retval), 1, EventType::Listen, task, key, r);
}

/// An operation on an IPv4 socket is recorded exactly when the key asks for its
/// task, and the record says what was read of the socket.
pub proof fn law_v4_record(
    sock: SockRead,
    retval: Option<i32>,
    protocol: u8,
    kind: EventType,
    task: TaskRead,
    key: Option<FilterKey>,
    r: Option<PendingConnect>,
)
    requires
        protocol == 1 || protocol == 2,
        call_ensures(probe::emit_v4, (&sock, retval, protocol, kind, &task, key), r),
    ensures
        r is Some <==> task_asked_for(key, task),
        r matches Some(record) ==> records_operation(record, kind, protocol, retval, sock, task)
            && records_v4(record, sock),
{
    lemma_v4(sock, retval, protocol, kind, task, key, r);
}

/// An operation on an IPv6 socket is recorded exactly when the key asks for its
/// task and both addresses can be read, and the record says what was read of the socket.
pub proof fn law_v6_record(
    sock: SockRead,
    retval: Option<i32>,
    protocol: u8,
    kind: EventType,
    task: TaskRead,
    key: Option<FilterKey>,
    r: Option<PendingConnect>,
)
    requires
        protocol == 1 || protocol == 2,
        call_ensures(probe::emit_v6, (&sock, retval, protocol, kind, &task, key), r),
    ensures
        r is Some <==> task_asked_for(key, task) && sock.v6_rcv_saddr is Some
            && sock.v6_daddr is Some,
        r matches Some(record) ==> records_operation(record, kind, protocol, retval, sock, task)
            && records_v6(record, sock),
{
    lemma_v6(sock, retval, protocol, kind, task, key, r);
}

/// What cannot be read of a socket is zero, and what can be is kept. A port that
/// is turned from network byte order has its two bytes exchanged.
pub proof fn law_socket_reads(
    sock: SockRead,
    daddr: u32,
    saddr: u32,
    dport: u16,
    num: u16,
    word: u16,
    port: u16,
)
    requires
        call_ensures(probe::sock_daddr, (&sock,), daddr),
        call_ensures(probe::sock_rcv_saddr, (&sock,), saddr),
        call_ensures(probe::sock_dport, (&sock,), dport),
        call_ensures(probe::sock_num, (&sock,), num),
        call_ensures(probe::port_from_network, (word,), port),
    ensures
        sock.daddr is Some ==> sock.daddr == Some(daddr),
        sock.daddr is None ==> daddr == 0,
        sock.rcv_saddr is Some ==> sock.rcv_saddr == Some(saddr),
        sock.rcv_saddr is None ==> saddr == 0,
        sock.dport is Some ==> sock.dport == Some(dport),
        sock.dport is None ==> dport == 0,
        sock.num is Some ==> sock.num == Some(num),
        sock.num is None ==> num == 0,
        port / 0x100 == word % 0x100,
        port % 0x100 == word / 0x100,
{
}

/// An IPv6 address that can be read is kept, and one that cannot is an error.
pub proof fn law_v6_address_read(field: Option<[u8; 16]>, r: Result<[u8; 16], i32>)
    requires
        call_ensures(probe::read_v6_addr, (field,), r),
    ensures
        field matches Some(address) ==> r == Ok::<[u8; 16], i32>(address),
        field is None ==> r == Err::<[u8; 16], i32>(0i32),
{
}

/// The data of a dynamic field starts at the number in the lower half of the
/// field, whatever its upper half holds.
pub proof fn law_data_offset(data_loc: u32, r: usize)
    requires
        call_ensures(probe::data_loc_offset, (data_loc,), r),
    ensures
        r < 0x1_0000,
        (data_loc - r) % 0x1_0000 == 0,
{
}

} // verus!
