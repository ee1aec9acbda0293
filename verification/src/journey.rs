//! What a filter asks for reaches its subscriber.
//!
//! The probes of a filter are set up, a task does what the filter asks for, the
//! probe records it, and the event loop takes the bytes of the record: each law
//! here says of one operation that its event is then handed to the subscriber, and
//! what the event says of the task and of the operation.
use crate::arrival;
use crate::attach;
use crate::common::EventHeader;
use crate::file::FileEvent;
use crate::handoff;
use crate::ip::IpAddr;
use crate::laws;
use crate::memory::MemoryEvent;
use crate::network::{NetworkEvent, SocketEndpoints};
use crate::probe;
use crate::probe::{DentryRead, FileRead, SockRead, TaskRead};
use crate::process::ProcessEvent;
use crate::raw::{
    EventType, FileModeFilter, FilterKey, FilterOwner, PendingConnect, RawEventHeader,
    RawFileCloseEvent, RawFileDeleteEvent, RawFileOpenEvent, RawFileReadEvent, RawFileRenameEvent,
    RawFileRtrEvent, RawFileWriteEvent, RawMemoryMapEvent, RawMemoryUnmapEvent, RawProcessExitEvent,
    RawProcessForkEvent, RawProcessStartEvent, NAME_LEN, TASK_COMM_LEN,
};
use crate::runtime::{
    Bpfx, Delivery, FileRegister, MemRegister, NetworkRegister, ProcessRegister,
};
use crate::sieve;
use vstd::prelude::*;

verus! {

/// `header` is that of an event in `task`: it says when the task did it, and all
/// that was read of the task.
pub open spec fn happened_in(header: EventHeader, task: TaskRead) -> bool {
    &&& header.timestamp_ns == task.timestamp_ns
    &&& header.pid * 0x1_0000_0000 + header.tid == task.pid_tgid
    &&& header.gid * 0x1_0000_0000 + header.uid == task.uid_gid
    &&& match task.parent_tgid {
        Some(tgid) => header.ppid == tgid || header.ppid == tgid + 0x1_0000_0000,
        None => header.ppid == 0,
    }
    &&& match task.comm {
        Some(comm) => arrival::spells(header.comm@, comm@),
        None => header.comm@.len() == 0,
    }
}

proof fn lemma_happened(header: EventHeader, raw: RawEventHeader, kind: EventType, task: TaskRead)
    requires
        header.describes(raw),
        sieve::caused_by(raw, kind, task),
    ensures
        happened_in(header, task),
{
    arrival::lemma_header(raw, header);
    if task.comm is None {
        let field = raw.comm@;
        let n = choose|n: int|
            {
                &&& 0 <= n <= field.len()
                &&& n < field.len() ==> field[n] == 0
                &&& forall|i: int| 0 <= i < n ==> #[trigger] field[i] != 0
                &&& header.comm@ == crate::text::utf8_lossy(#[trigger] field.take(n))
                &&& (forall|i: int| 0 <= i < n ==> #[trigger] field[i] < 128) ==> {
                    &&& header.comm@.len() == n
                    &&& forall|i: int| 0 <= i < n ==> #[trigger] header.comm@[i] as int == field[i]
                }
            };
        if n > 0 {
            assert(field[0] == 0);
        }
    }
}

/// The address `ip` is the IPv4 address `address`, its first byte lowest, zero when
/// it could not be read.
pub open spec fn is_v4(ip: IpAddr, address: Option<u32>) -> bool {
    ip matches IpAddr::V4(bytes) && bytes@[0] + 0x100 * bytes@[1] + 0x1_0000 * bytes@[2]
        + 0x100_0000
        * bytes@[3] == (match address {
        Some(address) => address as int,
        None => 0,
    })
}

/// The address `ip` is the IPv6 address `address`.
pub open spec fn is_v6(ip: IpAddr, address: Option<[u8; 16]>) -> bool {
    ip matches IpAddr::V6(bytes) && address matches Some(address) && bytes@ == address@
}

/// The endpoints are those of the socket `sock`: its own address and port are the
/// local ones.
pub open spec fn ends_of(endpoints: SocketEndpoints, sock: SockRead) -> bool {
    &&& match sock.num {
        Some(port) => endpoints.local_port == port,
        None => endpoints.local_port == 0,
    }
    &&& match sock.dport {
        Some(port) => endpoints.remote_port / 0x100 == port % 0x100 && endpoints.remote_port % 0x100
            == port / 0x100,
        None => endpoints.remote_port == 0,
    }
}

proof fn lemma_ends(endpoints: SocketEndpoints, record: PendingConnect, sock: SockRead)
    requires
        endpoints.describes(record),
    ensures
        sieve::records_v4(record, sock) ==> is_v4(endpoints.local_ip, sock.rcv_saddr) && is_v4(
            endpoints.remote_ip,
            sock.daddr,
        ),
        sieve::records_v6(record, sock) ==> is_v6(endpoints.local_ip, sock.v6_rcv_saddr) && is_v6(
            endpoints.remote_ip,
            sock.v6_daddr,
        ),
{
    arrival::lemma_address(endpoints.local_ip, record.ip_version, record.src_addr@);
    arrival::lemma_address(endpoints.remote_ip, record.ip_version, record.dst_addr@);
    if sieve::records_v6(record, sock) {
        assert(endpoints.local_ip->V6_0@ =~= sock.v6_rcv_saddr->0@);
        assert(endpoints.remote_ip->V6_0@ =~= sock.v6_daddr->0@);
    }
}

/// An open of a file that the filter asks for, by task and type, reaches the
/// subscriber.
pub proof fn law_open_reaches_its_subscriber(
    register: FileRegister,
    file: FileRead,
    retval: i32,
    config: Option<FileModeFilter>,
    filters: Map<u32, FilterKey>,
    task: TaskRead,
    record: Option<RawFileOpenEvent>,
    bytes: Vec<u8>,
    before: Bpfx,
    after: Bpfx,
    delivery: Delivery,
)
    requires
        sieve::task_asked_for(Some(register.filter.filter), task),
        sieve::type_asked_for(Some(register.filter.file_mode.0), file.i_mode),
        call_ensures(
            probe::try_vfs_open,
            (
                Some(&file),
                retval,
                attach::config_after(attach::file_steps(&register.filter), config),
                &task,
                laws::key_of(
                    attach::filters_after(attach::file_steps(&register.filter), filters),
                    FilterOwner::File,
                ),
            ),
            record,
        ),
        record matches Some(record) ==> call_ensures(RawFileOpenEvent::encode, (&record,), bytes),
        before.spec_file() == Some(register),
        Bpfx::dispatched(before, bytes@, after, delivery),
    ensures
        !(delivery.file is Nothing),
        after.spec_file() matches Some(to) && to.tx.log().len() == register.tx.log().len() + 1
            && to.tx.log().last().1 == delivery.file,
        after.spec_file()->0.tx.log().last().0 matches FileEvent::Open(event) && {
            &&& happened_in(event.header, task)
            &&& arrival::spells(event.file_path@, file.name@)
            &&& event.file_type.spec_mode_bits() == file.i_mode & 0o170000
            &&& event.inode == file.inode
            &&& event.flags == file.flags
            &&& event.retval == retval
        },
{
    attach::law_file_steps_write_the_filter(&register.filter, filters, config);
    sieve::law_open_record(
        Some(&file),
        retval,
        Some(register.filter.file_mode.0),
        task,
        Some(register.filter.filter),
        record,
    );
    let record = record->0;
    record.law_round_trip(bytes@);
    record.header.law_round_trip(bytes@);
    let event = choose|event: Option<FileEvent>| #[trigger]
        FileEvent::converted(bytes@, before.pending(), after.pending(), event) && handoff::offered(
            register.tx,
            event,
            after.spec_file()->0.tx,
            delivery.file,
        );
    let event = event->0->Open_0;
    lemma_happened(event.header, record.header, EventType::FileOpen, task);
    arrival::lemma_spells(event.file_path@, record.filename@);
}

/// A close of a file that the filter asks for, by task and type, reaches the
/// subscriber.
pub proof fn law_close_reaches_its_subscriber(
    register: FileRegister,
    file: FileRead,
    retval: i32,
    config: Option<FileModeFilter>,
    filters: Map<u32, FilterKey>,
    task: TaskRead,
    record: Option<RawFileCloseEvent>,
    bytes: Vec<u8>,
    before: Bpfx,
    after: Bpfx,
    delivery: Delivery,
)
    requires
        sieve::task_asked_for(Some(register.filter.filter), task),
        sieve::type_asked_for(Some(register.filter.file_mode.0), file.i_mode),
        call_ensures(
            probe::try_flip_close,
            (
                Some(&file),
                retval,
                attach::config_after(attach::file_steps(&register.filter), config),
                &task,
                laws::key_of(
                    attach::filters_after(attach::file_steps(&register.filter), filters),
                    FilterOwner::File,
                ),
            ),
            record,
        ),
        record matches Some(record) ==> call_ensures(RawFileCloseEvent::encode, (&record,), bytes),
        before.spec_file() == Some(register),
        Bpfx::dispatched(before, bytes@, after, delivery),
    ensures
        !(delivery.file is Nothing),
        after.spec_file() matches Some(to) && to.tx.log().len() == register.tx.log().len() + 1
            && to.tx.log().last().1 == delivery.file,
        after.spec_file()->0.tx.log().last().0 matches FileEvent::Close(event) && {
            &&& happened_in(event.header, task)
            &&& arrival::spells(event.file_path@, file.name@)
            &&& event.file_type.spec_mode_bits() == file.i_mode & 0o170000
            &&& event.inode == file.inode
            &&& event.flags == file.flags
            &&& event.retval == retval
        },
{
    attach::law_file_steps_write_the_filter(&register.filter, filters, config);
    sieve::law_close_record(
        Some(&file),
        retval,
        Some(register.filter.file_mode.0),
        task,
        Some(register.filter.filter),
        record,
    );
    let record = record->0;
    record.law_round_trip(bytes@);
    record.header.law_round_trip(bytes@);
    let event = choose|event: Option<FileEvent>| #[trigger]
        FileEvent::converted(bytes@, before.pending(), after.pending(), event) && handoff::offered(
            register.tx,
            event,
            after.spec_file()->0.tx,
            delivery.file,
        );
    let event = event->0->Close_0;
    lemma_happened(event.header, record.header, EventType::FileClose, task);
    arrival::lemma_spells(event.file_path@, record.filename@);
}

/// A read of a file that the filter asks for, by task and type, reaches the
/// subscriber.
pub proof fn law_read_reaches_its_subscriber(
    register: FileRegister,
    file: FileRead,
    retval: isize,
    config: Option<FileModeFilter>,
    filters: Map<u32, FilterKey>,
    task: TaskRead,
    record: Option<RawFileReadEvent>,
    bytes: Vec<u8>,
    before: Bpfx,
    after: Bpfx,
    delivery: Delivery,
)
    requires
        sieve::task_asked_for(Some(register.filter.filter), task),
        sieve::type_asked_for(Some(register.filter.file_mode.0), file.i_mode),
        call_ensures(
            probe::try_vfs_read,
            (
                Some(&file),
                retval,
                attach::config_after(attach::file_steps(&register.filter), config),
                &task,
                laws::key_of(
                    attach::filters_after(attach::file_steps(&register.filter), filters),
                    FilterOwner::File,
                ),
            ),
            record,
        ),
        record matches Some(record) ==> call_ensures(RawFileReadEvent::encode, (&record,), bytes),
        before.spec_file() == Some(register),
        Bpfx::dispatched(before, bytes@, after, delivery),
    ensures
        !(delivery.file is Nothing),
        after.spec_file() matches Some(to) && to.tx.log().len() == register.tx.log().len() + 1
            && to.tx.log().last().1 == delivery.file,
        after.spec_file()->0.tx.log().last().0 matches FileEvent::Read(event) && {
            &&& happened_in(event.header, task)
            &&& arrival::spells(event.file_path@, file.name@)
            &&& event.file_type.spec_mode_bits() == file.i_mode & 0o170000
            &&& event.inode == file.inode
            &&& event.flags == file.flags
            &&& event.retval == retval
        },
{
    attach::law_file_steps_write_the_filter(&register.filter, filters, config);
    sieve::law_read_record(
        Some(&file),
        retval,
        Some(register.filter.file_mode.0),
        task,
        Some(register.filter.filter),
        record,
    );
    let record = record->0;
    record.law_round_trip(bytes@);
    record.header.law_round_trip(bytes@);
    let event = choose|event: Option<FileEvent>| #[trigger]
        FileEvent::converted(bytes@, before.pending(), after.pending(), event) && handoff::offered(
            register.tx,
            event,
            after.spec_file()->0.tx,
            delivery.file,
        );
    let event = event->0->Read_0;
    lemma_happened(event.header, record.header, EventType::FileRead, task);
    arrival::lemma_spells(event.file_path@, record.filename@);
}

/// A write of a file that the filter asks for, by task and type, reaches the
/// subscriber.
pub proof fn law_write_reaches_its_subscriber(
    register: FileRegister,
    file: FileRead,
    retval: isize,
    config: Option<FileModeFilter>,
    filters: Map<u32, FilterKey>,
    task: TaskRead,
    record: Option<RawFileWriteEvent>,
    bytes: Vec<u8>,
    before: Bpfx,
    after: Bpfx,
    delivery: Delivery,
)
    requires
        sieve::task_asked_for(Some(register.filter.filter), task),
        sieve::type_asked_for(Some(register.filter.file_mode.0), file.i_mode),
        call_ensures(
            probe::try_vfs_write,
            (
                Some(&file),
                retval,
                attach::config_after(attach::file_steps(&register.filter), config),
                &task,
                laws::key_of(
                    attach::filters_after(attach::file_steps(&register.filter), filters),
                    FilterOwner::File,
                ),
            ),
            record,
        ),
        record matches Some(record) ==> call_ensures(RawFileWriteEvent::encode, (&record,), bytes),
        before.spec_file() == Some(register),
        Bpfx::dispatched(before, bytes@, after, delivery),
    ensures
        !(delivery.file is Nothing),
        after.spec_file() matches Some(to) && to.tx.log().len() == register.tx.log().len() + 1
            && to.tx.log().last().1 == delivery.file,
        after.spec_file()->0.tx.log().last().0 matches FileEvent::Write(event) && {
            &&& happened_in(event.header, task)
            &&& arrival::spells(event.file_path@, file.name@)
            &&& event.file_type.spec_mode_bits() == file.i_mode & 0o170000
            &&& event.inode == file.inode
            &&& event.flags == file.flags
            &&& event.retval == retval
        },
{
    attach::law_file_steps_write_the_filter(&register.filter, filters, config);
    sieve::law_write_record(
        Some(&file),
        retval,
        Some(register.filter.file_mode.0),
        task,
        Some(register.filter.filter),
        record,
    );
    let record = record->0;
    record.law_round_trip(bytes@);
    record.header.law_round_trip(bytes@);
    let event = choose|event: Option<FileEvent>| #[trigger]
        FileEvent::converted(bytes@, before.pending(), after.pending(), event) && handoff::offered(
            register.tx,
            event,
            after.spec_file()->0.tx,
            delivery.file,
        );
    let event = event->0->Write_0;
    lemma_happened(event.header, record.header, EventType::FileWrite, task);
    arrival::lemma_spells(event.file_path@, record.filename@);
}

/// A deletion that the filter asks for, by task and type, reaches the subscriber.
pub proof fn law_deletion_reaches_its_subscriber(
    register: FileRegister,
    dentry: DentryRead,
    retval: i32,
    config: Option<FileModeFilter>,
    filters: Map<u32, FilterKey>,
    task: TaskRead,
    record: Option<RawFileDeleteEvent>,
    bytes: Vec<u8>,
    before: Bpfx,
    after: Bpfx,
    delivery: Delivery,
)
    requires
        sieve::task_asked_for(Some(register.filter.filter), task),
        sieve::type_asked_for(Some(register.filter.file_mode.0), dentry.i_mode),
        call_ensures(
            probe::try_vfs_unlink,
            (
                &dentry,
                retval,
                attach::config_after(attach::file_steps(&register.filter), config),
                &task,
                laws::key_of(
                    attach::filters_after(attach::file_steps(&register.filter), filters),
                    FilterOwner::File,
                ),
            ),
            record,
        ),
        record matches Some(record) ==> call_ensures(RawFileDeleteEvent::encode, (&record,), bytes),
        before.spec_file() == Some(register),
        Bpfx::dispatched(before, bytes@, after, delivery),
    ensures
        !(delivery.file is Nothing),
        after.spec_file() matches Some(to) && to.tx.log().len() == register.tx.log().len() + 1
            && to.tx.log().last().1 == delivery.file,
        after.spec_file()->0.tx.log().last().0 matches FileEvent::Delete(event) && {
            &&& happened_in(event.header, task)
            &&& arrival::spells(event.filename@, dentry.name@)
            &&& event.file_type.spec_mode_bits() == dentry.i_mode & 0o170000
            &&& event.retval == retval
        },
{
    attach::law_file_steps_write_the_filter(&register.filter, filters, config);
    sieve::law_deletion_record(
        dentry,
        retval,
        Some(register.filter.file_mode.0),
        task,
        Some(register.filter.filter),
        record,
    );
    let record = record->0;
    record.law_round_trip(bytes@);
    record.header.law_round_trip(bytes@);
    let event = choose|event: Option<FileEvent>| #[trigger]
        FileEvent::converted(bytes@, before.pending(), after.pending(), event) && handoff::offered(
            register.tx,
            event,
            after.spec_file()->0.tx,
            delivery.file,
        );
    let event = event->0->Delete_0;
    lemma_happened(event.header, record.header, EventType::FileDelete, task);
    arrival::lemma_spells(event.filename@, record.filename@);
}

/// A process start that the filter asks for, whose name can be found, reaches the
/// subscriber.
pub proof fn law_start_reaches_its_subscriber(
    register: ProcessRegister,
    data_loc: u32,
    filename: [u8; NAME_LEN],
    filters: Map<u32, FilterKey>,
    task: TaskRead,
    record: Option<RawProcessStartEvent>,
    bytes: Vec<u8>,
    before: Bpfx,
    after: Bpfx,
    delivery: Delivery,
)
    requires
        sieve::task_asked_for(Some(register.filter.filter), task),
        call_ensures(
            probe::try_sched_process_exec,
            (
                Some(data_loc),
                &filename,
                &task,
                laws::key_of(
                    attach::filters_after(attach::process_steps(&register.filter), filters),
                    FilterOwner::Process,
                ),
            ),
            record,
        ),
        record matches Some(record)
            ==> call_ensures(RawProcessStartEvent::encode, (&record,), bytes),
        before.spec_process() == Some(register),
        Bpfx::dispatched(before, bytes@, after, delivery),
    ensures
        !(delivery.process is Nothing),
        after.spec_process() matches Some(to) && to.tx.log().len() == register.tx.log().len() + 1
            && to.tx.log().last().1 == delivery.process,
        after.spec_process()->0.tx.log().last().0 matches ProcessEvent::Start(event) && {
            &&& happened_in(event.header, task)
            &&& arrival::spells(event.filename@, filename@)
        },
{
    attach::law_process_steps_write_the_filter(&register.filter, filters, None);
    sieve::law_exec_record(
        Some(data_loc),
        filename,
        task,
        Some(register.filter.filter),
        record,
    );
    let record = record->0;
    record.law_round_trip(bytes@);
    record.header.law_round_trip(bytes@);
    let event = choose|event: Option<ProcessEvent>| #[trigger]
        ProcessEvent::converted(bytes@, event) && handoff::offered(
            register.tx,
            event,
            after.spec_process()->0.tx,
            delivery.process,
        );
    let event = event->0->Start_0;
    lemma_happened(event.header, record.header, EventType::ProcessStart, task);
    arrival::lemma_spells(event.filename@, record.filename@);
}

/// A process exit that the filter asks for reaches the subscriber.
pub proof fn law_exit_reaches_its_subscriber(
    register: ProcessRegister,
    exit_code: i32,
    filters: Map<u32, FilterKey>,
    task: TaskRead,
    record: Option<RawProcessExitEvent>,
    bytes: Vec<u8>,
    before: Bpfx,
    after: Bpfx,
    delivery: Delivery,
)
    requires
        sieve::task_asked_for(Some(register.filter.filter), task),
        call_ensures(
            probe::try_do_group_exit,
            (
                exit_code,
                &task,
                laws::key_of(
                    attach::filters_after(attach::process_steps(&register.filter), filters),
                    FilterOwner::Process,
                ),
            ),
            record,
        ),
        record matches Some(record)
            ==> call_ensures(RawProcessExitEvent::encode, (&record,), bytes),
        before.spec_process() == Some(register),
        Bpfx::dispatched(before, bytes@, after, delivery),
    ensures
        !(delivery.process is Nothing),
        after.spec_process() matches Some(to) && to.tx.log().len() == register.tx.log().len() + 1
            && to.tx.log().last().1 == delivery.process,
        after.spec_process()->0.tx.log().last().0 matches ProcessEvent::Exit(event) && {
            &&& happened_in(event.header, task)
            &&& event.exit_code == exit_code
        },
{
    attach::law_process_steps_write_the_filter(&register.filter, filters, None);
    sieve::law_exit_record(exit_code, task, Some(register.filter.filter), record);
    let record = record->0;
    record.law_round_trip(bytes@);
    record.header.law_round_trip(bytes@);
    let event = choose|event: Option<ProcessEvent>| #[trigger]
        ProcessEvent::converted(bytes@, event) && handoff::offered(
            register.tx,
            event,
            after.spec_process()->0.tx,
            delivery.process,
        );
    let event = event->0->Exit_0;
    lemma_happened(event.header, record.header, EventType::ProcessExit, task);
}

/// A fork that the filter asks for, whose child can be read, reaches the
/// subscriber.
pub proof fn law_fork_reaches_its_subscriber(
    register: ProcessRegister,
    data_loc: u32,
    child_pid: u32,
    child_comm: [u8; TASK_COMM_LEN],
    filters: Map<u32, FilterKey>,
    task: TaskRead,
    record: Option<RawProcessForkEvent>,
    bytes: Vec<u8>,
    before: Bpfx,
    after: Bpfx,
    delivery: Delivery,
)
    requires
        sieve::task_asked_for(Some(register.filter.filter), task),
        call_ensures(
            probe::try_sched_process_fork,
            (
                Some(data_loc),
                Some(child_pid),
                &child_comm,
                &task,
                laws::key_of(
                    attach::filters_after(attach::process_steps(&register.filter), filters),
                    FilterOwner::Process,
                ),
            ),
            record,
        ),
        record matches Some(record)
            ==> call_ensures(RawProcessForkEvent::encode, (&record,), bytes),
        before.spec_process() == Some(register),
        Bpfx::dispatched(before, bytes@, after, delivery),
    ensures
        !(delivery.process is Nothing),
        after.spec_process() matches Some(to) && to.tx.log().len() == register.tx.log().len() + 1
            && to.tx.log().last().1 == delivery.process,
        after.spec_process()->0.tx.log().last().0 matches ProcessEvent::Fork(event) && {
            &&& happened_in(event.parent, task)
            &&& event.child_pid == child_pid
            &&& arrival::spells(event.child_comm@, child_comm@)
        },
{
    attach::law_process_steps_write_the_filter(&register.filter, filters, None);
    sieve::law_fork_record(
        Some(data_loc),
        Some(child_pid),
        child_comm,
        task,
        Some(register.filter.filter),
        record,
    );
    let record = record->0;
    record.law_round_trip(bytes@);
    record.parent.law_round_trip(bytes@);
    let event = choose|event: Option<ProcessEvent>| #[trigger]
        ProcessEvent::converted(bytes@, event) && handoff::offered(
            register.tx,
            event,
            after.spec_process()->0.tx,
            delivery.process,
        );
    let event = event->0->Fork_0;
    lemma_happened(event.parent, record.parent, EventType::ProcessFork, task);
    arrival::lemma_spells(event.child_comm@, record.child_comm@);
}

/// A mapping that the filter asks for reaches the subscriber.
pub proof fn law_mapping_reaches_its_subscriber(
    register: MemRegister,
    requested_address: usize,
    length: u64,
    protection: u32,
    flags: u32,
    mapped_address: usize,
    filters: Map<u32, FilterKey>,
    task: TaskRead,
    record: Option<RawMemoryMapEvent>,
    bytes: Vec<u8>,
    before: Bpfx,
    after: Bpfx,
    delivery: Delivery,
)
    requires
        sieve::task_asked_for(Some(register.filter.filter), task),
        call_ensures(
            probe::try_vm_mmap_pgoff,
            (
                requested_address,
                length,
                protection,
                flags,
                mapped_address,
                &task,
                laws::key_of(
                    attach::filters_after(attach::mem_steps(&register.filter), filters),
                    FilterOwner::Memory,
                ),
            ),
            record,
        ),
        record matches Some(record) ==> call_ensures(RawMemoryMapEvent::encode, (&record,), bytes),
        before.spec_mem() == Some(register),
        Bpfx::dispatched(before, bytes@, after, delivery),
    ensures
        !(delivery.memory is Nothing),
        after.spec_mem() matches Some(to) && to.tx.log().len() == register.tx.log().len() + 1
            && to.tx.log().last().1 == delivery.memory,
        after.spec_mem()->0.tx.log().last().0 matches MemoryEvent::MemoryMap(event) && {
            &&& happened_in(event.header, task)
            &&& event.requested_address == requested_address
            &&& event.length == length
            &&& event.protection == protection
            &&& event.flags == flags
            &&& event.mapped_address == mapped_address
        },
{
    attach::law_mem_steps_write_the_filter(&register.filter, filters, None);
    sieve::law_mapping_record(
        requested_address,
        length,
        protection,
        flags,
        mapped_address,
        task,
        Some(register.filter.filter),
        record,
    );
    let record = record->0;
    record.law_round_trip(bytes@);
    record.header.law_round_trip(bytes@);
    let event = choose|event: Option<MemoryEvent>| #[trigger]
        MemoryEvent::converted(bytes@, event) && handoff::offered(
            register.tx,
            event,
            after.spec_mem()->0.tx,
            delivery.memory,
        );
    let event = event->0->MemoryMap_0;
    lemma_happened(event.header, record.header, EventType::MemoryMap, task);
}

/// The removal of a mapping that the filter asks for reaches the subscriber.
pub proof fn law_removal_reaches_its_subscriber(
    register: MemRegister,
    requested_address: usize,
    length: u64,
    mapped_address: usize,
    filters: Map<u32, FilterKey>,
    task: TaskRead,
    record: Option<RawMemoryUnmapEvent>,
    bytes: Vec<u8>,
    before: Bpfx,
    after: Bpfx,
    delivery: Delivery,
)
    requires
        sieve::task_asked_for(Some(register.filter.filter), task),
        call_ensures(
            probe::try_vm_munmap,
            (
                requested_address,
                length,
                mapped_address,
                &task,
                laws::key_of(
                    attach::filters_after(attach::mem_steps(&register.filter), filters),
                    FilterOwner::Memory,
                ),
            ),
            record,
        ),
        record matches Some(record)
            ==> call_ensures(RawMemoryUnmapEvent::encode, (&record,), bytes),
        before.spec_mem() == Some(register),
        Bpfx::dispatched(before, bytes@, after, delivery),
    ensures
        !(delivery.memory is Nothing),
        after.spec_mem() matches Some(to) && to.tx.log().len() == register.tx.log().len() + 1
            && to.tx.log().last().1 == delivery.memory,
        after.spec_mem()->0.tx.log().last().0 matches MemoryEvent::MemoryUnMap(event) && {
            &&& happened_in(event.header, task)
            &&& event.requested_address == requested_address
            &&& event.length == length
            &&& event.mapped_address == mapped_address
        },
{
    attach::law_mem_steps_write_the_filter(&register.filter, filters, None);
    sieve::law_removal_record(
        requested_address,
        length,
        mapped_address,
        task,
        Some(register.filter.filter),
        record,
    );
    let record = record->0;
    record.law_round_trip(bytes@);
    record.header.law_round_trip(bytes@);
    let event = choose|event: Option<MemoryEvent>| #[trigger]
        MemoryEvent::converted(bytes@, event) && handoff::offered(
            register.tx,
            event,
            after.spec_mem()->0.tx,
            delivery.memory,
        );
    let event = event->0->MemoryUnMap_0;
    lemma_happened(event.header, record.header, EventType::MemoryUnMap, task);
}

/// A TCP connect over IPv4 that did not fail reaches the subscriber whose filter asks
/// for its task.
pub proof fn law_tcp_v4_connect_reaches_its_subscriber(
    register: NetworkRegister,
    sock: SockRead,
    retval: i32,
    filters: Map<u32, FilterKey>,
    task: TaskRead,
    record: Option<PendingConnect>,
    bytes: Vec<u8>,
    before: Bpfx,
    after: Bpfx,
    delivery: Delivery,
)
    requires
        sieve::task_asked_for(Some(register.filter.filter), task),
        retval >= 0,
        call_ensures(
            probe::try_tcp_v4_connect,
            (
                Some(&sock),
                retval,
                &task,
                laws::key_of(
                    attach::filters_after(attach::network_steps(&register.filter), filters),
                    FilterOwner::Network,
                ),
            ),
            record,
        ),
        record matches Some(record) ==> call_ensures(PendingConnect::encode, (&record,), bytes),
        before.spec_network() == Some(register),
        Bpfx::dispatched(before, bytes@, after, delivery),
    ensures
        !(delivery.network is Nothing),
        after.spec_network() matches Some(to) && to.tx.log().len() == register.tx.log().len() + 1
            && to.tx.log().last().1 == delivery.network,
        after.spec_network()->0.tx.log().last().0 matches NetworkEvent::Connect(event) && {
            &&& happened_in(event.header, task)
            &&& event.protocol is Tcp
            &&& ends_of(event.endpoints, sock)
            &&& is_v4(event.endpoints.local_ip, sock.rcv_saddr) && is_v4(
                event.endpoints.remote_ip,
                sock.daddr,
            )
            &&& event.retval == retval
        },
{
    attach::law_network_steps_write_the_filter(&register.filter, filters, None);
    sieve::law_tcp_v4_connect_record(
        Some(&sock),
        retval,
        task,
        Some(register.filter.filter),
        record,
    );
    let record = record->0;
    record.law_round_trip(bytes@);
    record.header.law_round_trip(bytes@);
    let event = choose|event: Option<NetworkEvent>| #[trigger]
        NetworkEvent::converted(bytes@, event) && handoff::offered(
            register.tx,
            event,
            after.spec_network()->0.tx,
            delivery.network,
        );
    let event = event->0->Connect_0;
    lemma_happened(event.header, record.header, EventType::Connect, task);
    lemma_ends(event.endpoints, record, sock);
}

/// A TCP connect over IPv6 that did not fail reaches the subscriber whose filter asks
/// for its task, when its addresses
/// can be read.
pub proof fn law_tcp_v6_connect_reaches_its_subscriber(
    register: NetworkRegister,
    sock: SockRead,
    retval: i32,
    filters: Map<u32, FilterKey>,
    task: TaskRead,
    record: Option<PendingConnect>,
    bytes: Vec<u8>,
    before: Bpfx,
    after: Bpfx,
    delivery: Delivery,
)
    requires
        sieve::task_asked_for(Some(register.filter.filter), task),
        retval >= 0,
        sock.v6_rcv_saddr is Some,
        sock.v6_daddr is Some,
        call_ensures(
            probe::try_tcp_v6_connect,
            (
                Some(&sock),
                retval,
                &task,
                laws::key_of(
                    attach::filters_after(attach::network_steps(&register.filter), filters),
                    FilterOwner::Network,
                ),
            ),
            record,
        ),
        record matches Some(record) ==> call_ensures(PendingConnect::encode, (&record,), bytes),
        before.spec_network() == Some(register),
        Bpfx::dispatched(before, bytes@, after, delivery),
    ensures
        !(delivery.network is Nothing),
        after.spec_network() matches Some(to) && to.tx.log().len() == register.tx.log().len() + 1
            && to.tx.log().last().1 == delivery.network,
        after.spec_network()->0.tx.log().last().0 matches NetworkEvent::Connect(event) && {
            &&& happened_in(event.header, task)
            &&& event.protocol is Tcp
            &&& ends_of(event.endpoints, sock)
            &&& is_v6(event.endpoints.local_ip, sock.v6_rcv_saddr) && is_v6(
                event.endpoints.remote_ip,
                sock.v6_daddr,
            )
            &&& event.retval == retval
        },
{
    attach::law_network_steps_write_the_filter(&register.filter, filters, None);
    sieve::law_tcp_v6_connect_record(
        Some(&sock),
        retval,
        task,
        Some(register.filter.filter),
        record,
    );
    let record = record->0;
    record.law_round_trip(bytes@);
    record.header.law_round_trip(bytes@);
    let event = choose|event: Option<NetworkEvent>| #[trigger]
        NetworkEvent::converted(bytes@, event) && handoff::offered(
            register.tx,
            event,
            after.spec_network()->0.tx,
            delivery.network,
        );
    let event = event->0->Connect_0;
    lemma_happened(event.header, record.header, EventType::Connect, task);
    lemma_ends(event.endpoints, record, sock);
}

/// A UDP connect over IPv4 that did not fail reaches the subscriber whose filter asks
/// for its task.
pub proof fn law_udp_connect_reaches_its_subscriber(
    register: NetworkRegister,
    sock: SockRead,
    retval: i32,
    filters: Map<u32, FilterKey>,
    task: TaskRead,
    record: Option<PendingConnect>,
    bytes: Vec<u8>,
    before: Bpfx,
    after: Bpfx,
    delivery: Delivery,
)
    requires
        sieve::task_asked_for(Some(register.filter.filter), task),
        retval >= 0,
        call_ensures(
            probe::try_udp_connect,
            (
                Some(&sock),
                retval,
                &task,
                laws::key_of(
                    attach::filters_after(attach::network_steps(&register.filter), filters),
                    FilterOwner::Network,
                ),
            ),
            record,
        ),
        record matches Some(record) ==> call_ensures(PendingConnect::encode, (&record,), bytes),
        before.spec_network() == Some(register),
        Bpfx::dispatched(before, bytes@, after, delivery),
    ensures
        !(delivery.network is Nothing),
        after.spec_network() matches Some(to) && to.tx.log().len() == register.tx.log().len() + 1
            && to.tx.log().last().1 == delivery.network,
        after.spec_network()->0.tx.log().last().0 matches NetworkEvent::Connect(event) && {
            &&& happened_in(event.header, task)
            &&& event.protocol is Udp
            &&& ends_of(event.endpoints, sock)
            &&& is_v4(event.endpoints.local_ip, sock.rcv_saddr) && is_v4(
                event.endpoints.remote_ip,
                sock.daddr,
            )
            &&& event.retval == retval
        },
{
    attach::law_network_steps_write_the_filter(&register.filter, filters, None);
    sieve::law_udp_connect_record(
        Some(&sock),
        retval,
        task,
        Some(register.filter.filter),
        record,
    );
    let record = record->0;
    record.law_round_trip(bytes@);
    record.header.law_round_trip(bytes@);
    let event = choose|event: Option<NetworkEvent>| #[trigger]
        NetworkEvent::converted(bytes@, event) && handoff::offered(
            register.tx,
            event,
            after.spec_network()->0.tx,
            delivery.network,
        );
    let event = event->0->Connect_0;
    lemma_happened(event.header, record.header, EventType::Connect, task);
    lemma_ends(event.endpoints, record, sock);
}

/// A UDP connect over IPv6 that did not fail reaches the subscriber whose filter asks
/// for its task, when its addresses
/// can be read.
pub proof fn law_udpv6_connect_reaches_its_subscriber(
    register: NetworkRegister,
    sock: SockRead,
    retval: i32,
    filters: Map<u32, FilterKey>,
    task: TaskRead,
    record: Option<PendingConnect>,
    bytes: Vec<u8>,
    before: Bpfx,
    after: Bpfx,
    delivery: Delivery,
)
    requires
        sieve::task_asked_for(Some(register.filter.filter), task),
        retval >= 0,
        sock.v6_rcv_saddr is Some,
        sock.v6_daddr is Some,
        call_ensures(
            probe::try_udpv6_connect,
            (
                Some(&sock),
                retval,
                &task,
                laws::key_of(
                    attach::filters_after(attach::network_steps(&register.filter), filters),
                    FilterOwner::Network,
                ),
            ),
            record,
        ),
        record matches Some(record) ==> call_ensures(PendingConnect::encode, (&record,), bytes),
        before.spec_network() == Some(register),
        Bpfx::dispatched(before, bytes@, after, delivery),
    ensures
        !(delivery.network is Nothing),
        after.spec_network() matches Some(to) && to.tx.log().len() == register.tx.log().len() + 1
            && to.tx.log().last().1 == delivery.network,
        after.spec_network()->0.tx.log().last().0 matches NetworkEvent::Connect(event) && {
            &&& happened_in(event.header, task)
            &&& event.protocol is Udp
            &&& ends_of(event.endpoints, sock)
            &&& is_v6(event.endpoints.local_ip, sock.v6_rcv_saddr) && is_v6(
                event.endpoints.remote_ip,
                sock.v6_daddr,
            )
            &&& event.retval == retval
        },
{
    attach::law_network_steps_write_the_filter(&register.filter, filters, None);
    sieve::law_udpv6_connect_record(
        Some(&sock),
        retval,
        task,
        Some(register.filter.filter),
        record,
    );
    let record = record->0;
    record.law_round_trip(bytes@);
    record.header.law_round_trip(bytes@);
    let event = choose|event: Option<NetworkEvent>| #[trigger]
        NetworkEvent::converted(bytes@, event) && handoff::offered(
            register.tx,
            event,
            after.spec_network()->0.tx,
            delivery.network,
        );
    let event = event->0->Connect_0;
    lemma_happened(event.header, record.header, EventType::Connect, task);
    lemma_ends(event.endpoints, record, sock);
}

/// An accept reaches the subscriber whose filter asks
/// for its task.
pub proof fn law_accept_reaches_its_subscriber(
    register: NetworkRegister,
    sock: SockRead,
    filters: Map<u32, FilterKey>,
    task: TaskRead,
    record: Option<PendingConnect>,
    bytes: Vec<u8>,
    before: Bpfx,
    after: Bpfx,
    delivery: Delivery,
)
    requires
        sieve::task_asked_for(Some(register.filter.filter), task),
        sock.family == Some(2u16) || (sock.family == Some(10u16) && sock.v6_rcv_saddr is Some
            && sock.v6_daddr is Some),
        call_ensures(
            probe::try_inet_csk_accept_impl,
            (
                Some(&sock),
                &task,
                laws::key_of(
                    attach::filters_after(attach::network_steps(&register.filter), filters),
                    FilterOwner::Network,
                ),
            ),
            record,
        ),
        record matches Some(record) ==> call_ensures(PendingConnect::encode, (&record,), bytes),
        before.spec_network() == Some(register),
        Bpfx::dispatched(before, bytes@, after, delivery),
    ensures
        !(delivery.network is Nothing),
        after.spec_network() matches Some(to) && to.tx.log().len() == register.tx.log().len() + 1
            && to.tx.log().last().1 == delivery.network,
        after.spec_network()->0.tx.log().last().0 matches NetworkEvent::Accept(event) && {
            &&& happened_in(event.header, task)
            &&& event.protocol is Tcp
            &&& ends_of(event.endpoints, sock)
            &&& sock.family == Some(2u16) ==> is_v4(event.endpoints.local_ip, sock.rcv_saddr)
                && is_v4(
                event.endpoints.remote_ip,
                sock.daddr,
            )
            &&& sock.family == Some(10u16)
                ==> is_v6(event.endpoints.local_ip, sock.v6_rcv_saddr) && is_v6(
                event.endpoints.remote_ip,
                sock.v6_daddr,
            )
        },
{
    attach::law_network_steps_write_the_filter(&register.filter, filters, None);
    sieve::law_accept_record(
        Some(&sock),
        task,
        Some(register.filter.filter),
        record,
    );
    let record = record->0;
    record.law_round_trip(bytes@);
    record.header.law_round_trip(bytes@);
    let event = choose|event: Option<NetworkEvent>| #[trigger]
        NetworkEvent::converted(bytes@, event) && handoff::offered(
            register.tx,
            event,
            after.spec_network()->0.tx,
            delivery.network,
        );
    let event = event->0->Accept_0;
    lemma_happened(event.header, record.header, EventType::Accept, task);
    lemma_ends(event.endpoints, record, sock);
}

/// A close of a TCP socket reaches the subscriber whose filter asks
/// for its task.
pub proof fn law_tcp_close_reaches_its_subscriber(
    register: NetworkRegister,
    sock: SockRead,
    filters: Map<u32, FilterKey>,
    task: TaskRead,
    record: Option<PendingConnect>,
    bytes: Vec<u8>,
    before: Bpfx,
    after: Bpfx,
    delivery: Delivery,
)
    requires
        sieve::task_asked_for(Some(register.filter.filter), task),
        sock.family == Some(2u16) || (sock.family == Some(10u16) && sock.v6_rcv_saddr is Some
            && sock.v6_daddr is Some),
        call_ensures(
            probe::try_tcp_close,
            (
                Some(&sock),
                &task,
                laws::key_of(
                    attach::filters_after(attach::network_steps(&register.filter), filters),
                    FilterOwner::Network,
                ),
            ),
            record,
        ),
        record matches Some(record) ==> call_ensures(PendingConnect::encode, (&record,), bytes),
        before.spec_network() == Some(register),
        Bpfx::dispatched(before, bytes@, after, delivery),
    ensures
        !(delivery.network is Nothing),
        after.spec_network() matches Some(to) && to.tx.log().len() == register.tx.log().len() + 1
            && to.tx.log().last().1 == delivery.network,
        after.spec_network()->0.tx.log().last().0 matches NetworkEvent::Close(event) && {
            &&& happened_in(event.header, task)
            &&& event.protocol is Tcp
            &&& ends_of(event.endpoints, sock)
            &&& sock.family == Some(2u16) ==> is_v4(event.endpoints.local_ip, sock.rcv_saddr)
                && is_v4(
                event.endpoints.remote_ip,
                sock.daddr,
            )
            &&& sock.family == Some(10u16)
                ==> is_v6(event.endpoints.local_ip, sock.v6_rcv_saddr) && is_v6(
                event.endpoints.remote_ip,
                sock.v6_daddr,
            )
        },
{
    attach::law_network_steps_write_the_filter(&register.filter, filters, None);
    sieve::law_tcp_close_record(
        Some(&sock),
        task,
        Some(register.filter.filter),
        record,
    );
    let record = record->0;
    record.law_round_trip(bytes@);
    record.header.law_round_trip(bytes@);
    let event = choose|event: Option<NetworkEvent>| #[trigger]
        NetworkEvent::converted(bytes@, event) && handoff::offered(
            register.tx,
            event,
            after.spec_network()->0.tx,
            delivery.network,
        );
    let event = event->0->Close_0;
    lemma_happened(event.header, record.header, EventType::Close, task);
    lemma_ends(event.endpoints, record, sock);
}

/// A close of a UDP socket reaches the subscriber whose filter asks
/// for its task.
pub proof fn law_udp_close_reaches_its_subscriber(
    register: NetworkRegister,
    sock: SockRead,
    filters: Map<u32, FilterKey>,
    task: TaskRead,
    record: Option<PendingConnect>,
    bytes: Vec<u8>,
    before: Bpfx,
    after: Bpfx,
    delivery: Delivery,
)
    requires
        sieve::task_asked_for(Some(register.filter.filter), task),
        sock.family == Some(2u16) || (sock.family == Some(10u16) && sock.v6_rcv_saddr is Some
            && sock.v6_daddr is Some),
        call_ensures(
            probe::try_udp_destroy_sock,
            (
                Some(&sock),
                &task,
                laws::key_of(
                    attach::filters_after(attach::network_steps(&register.filter), filters),
                    FilterOwner::Network,
                ),
            ),
            record,
        ),
        record matches Some(record) ==> call_ensures(PendingConnect::encode, (&record,), bytes),
        before.spec_network() == Some(register),
        Bpfx::dispatched(before, bytes@, after, delivery),
    ensures
        !(delivery.network is Nothing),
        after.spec_network() matches Some(to) && to.tx.log().len() == register.tx.log().len() + 1
            && to.tx.log().last().1 == delivery.network,
        after.spec_network()->0.tx.log().last().0 matches NetworkEvent::Close(event) && {
            &&& happened_in(event.header, task)
            &&& event.protocol is Udp
            &&& ends_of(event.endpoints, sock)
            &&& sock.family == Some(2u16) ==> is_v4(event.endpoints.local_ip, sock.rcv_saddr)
                && is_v4(
                event.endpoints.remote_ip,
                sock.daddr,
            )
            &&& sock.family == Some(10u16)
                ==> is_v6(event.endpoints.local_ip, sock.v6_rcv_saddr) && is_v6(
                event.endpoints.remote_ip,
                sock.v6_daddr,
            )
        },
{
    attach::law_network_steps_write_the_filter(&register.filter, filters, None);
    sieve::law_udp_close_record(
        Some(&sock),
        task,
        Some(register.filter.filter),
        record,
    );
    let record = record->0;
    record.law_round_trip(bytes@);
    record.header.law_round_trip(bytes@);
    let event = choose|event: Option<NetworkEvent>| #[trigger]
        NetworkEvent::converted(bytes@, event) && handoff::offered(
            register.tx,
            event,
            after.spec_network()->0.tx,
            delivery.network,
        );
    let event = event->0->Close_0;
    lemma_happened(event.header, record.header, EventType::Close, task);
    lemma_ends(event.endpoints, record, sock);
}

/// A bind reaches the subscriber whose filter asks
/// for its task.
pub proof fn law_bind_reaches_its_subscriber(
    register: NetworkRegister,
    sock: SockRead,
    retval: i32,
    filters: Map<u32, FilterKey>,
    task: TaskRead,
    record: Option<PendingConnect>,
    bytes: Vec<u8>,
    before: Bpfx,
    after: Bpfx,
    delivery: Delivery,
)
    requires
        sieve::task_asked_for(Some(register.filter.filter), task),
        sock.family == Some(2u16) || (sock.family == Some(10u16) && sock.v6_rcv_saddr is Some
            && sock.v6_daddr is Some),
        call_ensures(
            probe::try_inet_bind,
            (
                Some(&sock),
                retval,
                &task,
                laws::key_of(
                    attach::filters_after(attach::network_steps(&register.filter), filters),
                    FilterOwner::Network,
                ),
            ),
            record,
        ),
        record matches Some(record) ==> call_ensures(PendingConnect::encode, (&record,), bytes),
        before.spec_network() == Some(register),
        Bpfx::dispatched(before, bytes@, after, delivery),
    ensures
        !(delivery.network is Nothing),
        after.spec_network() matches Some(to) && to.tx.log().len() == register.tx.log().len() + 1
            && to.tx.log().last().1 == delivery.network,
        after.spec_network()->0.tx.log().last().0 matches NetworkEvent::Bind(event) && {
            &&& happened_in(event.header, task)
            &&& event.protocol is Tcp
            &&& ends_of(event.endpoints, sock)
            &&& sock.family == Some(2u16) ==> is_v4(event.endpoints.local_ip, sock.rcv_saddr)
                && is_v4(
                event.endpoints.remote_ip,
                sock.daddr,
            )
            &&& sock.family == Some(10u16)
                ==> is_v6(event.endpoints.local_ip, sock.v6_rcv_saddr) && is_v6(
                event.endpoints.remote_ip,
                sock.v6_daddr,
            )
            &&& event.retval == retval
        },
{
    attach::law_network_steps_write_the_filter(&register.filter, filters, None);
    sieve::law_bind_record(
        Some(&sock),
        retval,
        task,
        Some(register.filter.filter),
        record,
    );
    let record = record->0;
    record.law_round_trip(bytes@);
    record.header.law_round_trip(bytes@);
    let event = choose|event: Option<NetworkEvent>| #[trigger]
        NetworkEvent::converted(bytes@, event) && handoff::offered(
            register.tx,
            event,
            after.spec_network()->0.tx,
            delivery.network,
        );
    let event = event->0->Bind_0;
    lemma_happened(event.header, record.header, EventType::Bind, task);
    lemma_ends(event.endpoints, record, sock);
}

/// A listen reaches the subscriber whose filter asks
/// for its task.
pub proof fn law_listen_reaches_its_subscriber(
    register: NetworkRegister,
    sock: SockRead,
    retval: i32,
    filters: Map<u32, FilterKey>,
    task: TaskRead,
    record: Option<PendingConnect>,
    bytes: Vec<u8>,
    before: Bpfx,
    after: Bpfx,
    delivery: Delivery,
)
    requires
        sieve::task_asked_for(Some(register.filter.filter), task),
        sock.family == Some(2u16) || (sock.family == Some(10u16) && sock.v6_rcv_saddr is Some
            && sock.v6_daddr is Some),
        call_ensures(
            probe::try_inet_listen,
            (
                Some(&sock),
                retval,
                &task,
                laws::key_of(
                    attach::filters_after(attach::network_steps(&register.filter), filters),
                    FilterOwner::Network,
                ),
            ),
            record,
        ),
        record matches Some(record) ==> call_ensures(PendingConnect::encode, (&record,), bytes),
        before.spec_network() == Some(register),
        Bpfx::dispatched(before, bytes@, after, delivery),
    ensures
        !(delivery.network is Nothing),
        after.spec_network() matches Some(to) && to.tx.log().len() == register.tx.log().len() + 1
            && to.tx.log().last().1 == delivery.network,
        after.spec_network()->0.tx.log().last().0 matches NetworkEvent::Listen(event) && {
            &&& happened_in(event.header, task)
            &&& event.protocol is Tcp
            &&& ends_of(event.endpoints, sock)
            &&& sock.family == Some(2u16) ==> is_v4(event.endpoints.local_ip, sock.rcv_saddr)
                && is_v4(
                event.endpoints.remote_ip,
                sock.daddr,
            )
            &&& sock.family == Some(10u16)
                ==> is_v6(event.endpoints.local_ip, sock.v6_rcv_saddr) && is_v6(
                event.endpoints.remote_ip,
                sock.v6_daddr,
            )
            &&& event.retval == retval
        },
{
    attach::law_network_steps_write_the_filter(&register.filter, filters, None);
    sieve::law_listen_record(
        Some(&sock),
        retval,
        task,
        Some(register.filter.filter),
        record,
    );
    let record = record->0;
    record.law_round_trip(bytes@);
    record.header.law_round_trip(bytes@);
    let event = choose|event: Option<NetworkEvent>| #[trigger]
        NetworkEvent::converted(bytes@, event) && handoff::offered(
            register.tx,
            event,
            after.spec_network()->0.tx,
            delivery.network,
        );
    let event = event->0->Listen_0;
    lemma_happened(event.header, record.header, EventType::Listen, task);
    lemma_ends(event.endpoints, record, sock);
}

/// A rename that has room to be kept reaches the subscriber once it returns, with
/// the names of its start and the result of its end, whatever the result is.
pub proof fn law_rename_reaches_its_subscriber(
    register: FileRegister,
    start: RawFileRenameEvent,
    retval: i32,
    task: TaskRead,
    end: RawFileRtrEvent,
    start_bytes: Vec<u8>,
    end_bytes: Vec<u8>,
    before: Bpfx,
    between: Bpfx,
    after: Bpfx,
    first: Delivery,
    second: Delivery,
)
    requires
        sieve::caused_by(start.header, EventType::FileRename, task),
        call_ensures(RawFileRenameEvent::encode, (&start,), start_bytes),
        call_ensures(probe::try_vfs_rename_retval, (retval, &task), end),
        call_ensures(RawFileRtrEvent::encode, (&end,), end_bytes),
        before.spec_file() == Some(register),
        before.pending()@.dom().len() < 1024,
        Bpfx::dispatched(before, start_bytes@, between, first),
        Bpfx::dispatched(between, end_bytes@, after, second),
    ensures
        first.file is Nothing,
        !(second.file is Nothing),
        after.spec_file() matches Some(to) && to.tx.log().len() == register.tx.log().len() + 1
            && to.tx.log().last().1 == second.file,
        after.spec_file()->0.tx.log().last().0 matches FileEvent::Rename(event) && {
            &&& happened_in(event.header, task)
            &&& arrival::spells(event.old_filename@, start.old_filename@)
            &&& arrival::spells(event.new_filename@, start.new_filename@)
            &&& arrival::type_of_bit(event.file_type, start.file_mode.mode)
            &&& event.flags == start.flags
            &&& event.retval == retval
        },
{
    sieve::law_rename_end_record(retval, task, end);
    start.law_round_trip(start_bytes@);
    start.header.law_round_trip(start_bytes@);
    end.law_round_trip(end_bytes@);
    end.header.law_round_trip(end_bytes@);
    let middle = between.spec_file()->0;
    let none = choose|event: Option<FileEvent>| #[trigger]
        FileEvent::converted(start_bytes@, before.pending(), between.pending(), event)
            && handoff::offered(register.tx, event, middle.tx, first.file);
    let event = choose|event: Option<FileEvent>| #[trigger]
        FileEvent::converted(end_bytes@, between.pending(), after.pending(), event)
            && handoff::offered(middle.tx, event, after.spec_file()->0.tx, second.file);
    assert(start.header.pid == end.header.pid && start.header.tid == end.header.tid);
    let event = event->0->Rename_0;
    lemma_happened(event.header, start.header, EventType::FileRename, task);
    arrival::lemma_spells(event.old_filename@, start.old_filename@);
    arrival::lemma_spells(event.new_filename@, start.new_filename@);
}

} // verus!
