//! What the kernel probes decide and record, given what they read.
//!
//! A probe reads a few values from the kernel. From these, and from the maps
//! that user space wrote, it makes a record or leaves the event out.
use crate::attach::Program;
use crate::file::FileType;
use crate::raw::{
    EventType, FileModeFilter, FilterKey, IpVersion, PendingConnect, RawConnectEvent,
    RawEventHeader, RawFileCloseEvent, RawFileDeleteEvent, RawFileOpenEvent, RawFileReadEvent,
    RawFileRenameEvent, RawFileRtrEvent, RawFileWriteEvent, RawMemoryMapEvent, RawMemoryUnmapEvent,
    RawProcessExitEvent, RawProcessForkEvent, RawProcessStartEvent, RawProtocol, FILE_BLK, FILE_CHR,
    FILE_DIR, FILE_FIFO, FILE_LNK, FILE_REG, FILE_SOCK, NAME_LEN, TASK_COMM_LEN,
};
use crate::sieve;
use crate::wire;
use vstd::prelude::*;

verus! {

/// The address family of IPv4.
pub const AF_INET: u16 = 2;

/// The address family of IPv6.
pub const AF_INET6: u16 = 10;

/// The bits of an inode's mode that hold its type.
pub const S_IFMT: u16 = 0o170000;

/// The type of a named pipe.
pub const S_IFIFO: u16 = 0o010000;

/// The type of a character device.
pub const S_IFCHR: u16 = 0o020000;

/// The type of a directory.
pub const S_IFDIR: u16 = 0o040000;

/// The type of a block device.
pub const S_IFBLK: u16 = 0o060000;

/// The type of a regular file.
pub const S_IFREG: u16 = 0o100000;

/// The type of a symbolic link.
pub const S_IFLNK: u16 = 0o120000;

/// The type of a socket.
pub const S_IFSOCK: u16 = 0o140000;

/// What a probe reads of the task that it runs in.
#[derive(Debug, Clone, Copy)]
pub struct TaskRead {
    /// The process in the upper half, the thread in the lower.
    pub pid_tgid: u64,
    /// Nanoseconds since boot.
    pub timestamp_ns: u64,
    /// The group in the upper half, the user in the lower.
    pub uid_gid: u64,
    /// The process of the parent, `None` when it cannot be read.
    pub parent_tgid: Option<i32>,
    /// The name of the task, `None` when it cannot be read.
    pub comm: Option<[u8; TASK_COMM_LEN]>,
}

impl TaskRead {
    /// The header of a record of kind `event_type` that the running task causes.
    pub open spec fn header(self, event_type: EventType) -> RawEventHeader {
        RawEventHeader {
            event_type,
            timestamp_ns: self.timestamp_ns,
            pid: (self.pid_tgid / 0x1_0000_0000) as u32,
            tid: (self.pid_tgid % 0x1_0000_0000) as u32,
            ppid: match self.parent_tgid {
                Some(tgid) => if tgid >= 0 {
                    tgid as u32
                } else {
                    (tgid + 0x1_0000_0000) as u32
                },
                None => 0,
            },
            uid: (self.uid_gid % 0x1_0000_0000) as u32,
            gid: (self.uid_gid / 0x1_0000_0000) as u32,
            comm: match self.comm {
                Some(comm) => comm,
                None => [0u8, 0, 0, 0, 0, 0, 0, 0, 0, 0, 0, 0, 0, 0, 0, 0],
            },
        }
    }
}

fn halves(word: u64) -> (r: (u32, u32))
    ensures
        r.0 == word / 0x1_0000_0000,
        r.1 == word % 0x1_0000_0000,
{
    assert(word / 0x1_0000_0000 <= 0xffff_ffff);
    ((word / 0x1_0000_0000) as u32, (word % 0x1_0000_0000) as u32)
}

/// Time, process, thread, parent, user, group and name of the task.
pub fn collect_process_ctx(task: &TaskRead) -> (r: (
    u64,
    u32,
    u32,
    u32,
    u32,
    u32,
    [u8; TASK_COMM_LEN],
))
    ensures
        forall|kind: EventType|
            #![trigger task.header(kind)]
            {
                let header = task.header(kind);
                r == (
                    header.timestamp_ns,
                    header.pid,
                    header.tid,
                    header.ppid,
                    header.uid,
                    header.gid,
                    header.comm,
                )
            },
{
    let (pid, tid) = halves(task.pid_tgid);
    let (gid, uid) = halves(task.uid_gid);
    let ppid: u32 = match task.parent_tgid {
        Some(tgid) => {
            assert(tgid < 0 ==> tgid as u32 == tgid + 0x1_0000_0000) by (bit_vector);
            tgid as u32
        },
        None => 0,
    };
    let comm = match task.comm {
        Some(comm) => comm,
        None => {
            let unnamed: [u8; TASK_COMM_LEN] = [0; TASK_COMM_LEN];
            assert(unnamed =~= [0u8, 0, 0, 0, 0, 0, 0, 0, 0, 0, 0, 0, 0, 0, 0, 0]);
            unnamed
        },
    };
    (task.timestamp_ns, pid, tid, ppid, uid, gid, comm)
}

/// The header of a record of kind `event_type`.
pub fn build_event_header(event_type: EventType, task: &TaskRead) -> (r: RawEventHeader)
    ensures
        r == task.header(event_type),
{
    let (timestamp_ns, pid, tid, ppid, uid, gid, comm) = collect_process_ctx(task);
    assert(task.header(event_type).pid == pid);
    RawEventHeader { event_type, timestamp_ns, pid, tid, ppid, uid, gid, comm }
}

/// A record with `header` is one that the key in the filter map asks for. An
/// empty slot asks for everything.
pub open spec fn passes(key: Option<FilterKey>, header: RawEventHeader) -> bool {
    match key {
        Some(key) => key.admits(header),
        None => true,
    }
}

/// The record is to be left out, given the key in the owner's slot of the
/// filter map.
pub fn filter_events(key: Option<FilterKey>, header: &RawEventHeader) -> (r: bool)
    ensures
        r == !passes(key, *header),
{
    match key {
        Some(FilterKey::Pid(pid)) => header.pid != pid,
        Some(FilterKey::Tid(tid)) => header.tid != tid,
        Some(FilterKey::Uid(uid)) => header.uid != uid,
        Some(FilterKey::Ppid(ppid)) => header.ppid != ppid,
        Some(FilterKey::Gid(gid)) => header.gid != gid,
        _ => false,
    }
}

/// What a probe reads of a socket; `None` stands for what cannot be read.
#[derive(Debug, Clone, Copy)]
pub struct SockRead {
    pub family: Option<u16>,
    /// The remote IPv4 address, its first byte lowest.
    pub daddr: Option<u32>,
    /// The local IPv4 address, its first byte lowest.
    pub rcv_saddr: Option<u32>,
    /// The remote port in network byte order: the high byte of the port number
    /// is the low byte of this word.
    pub dport: Option<u16>,
    /// The local port, as a number.
    pub num: Option<u16>,
    pub v6_daddr: Option<[u8; 16]>,
    pub v6_rcv_saddr: Option<[u8; 16]>,
}

/// A word that was read, zero when it could not be.
pub open spec fn word_or_zero(word: Option<u32>) -> u32 {
    match word {
        Some(word) => word,
        None => 0,
    }
}

/// A port that was read, zero when it could not be.
pub open spec fn port_or_zero(port: Option<u16>) -> u16 {
    match port {
        Some(port) => port,
        None => 0,
    }
}

/// The remote IPv4 address of a socket.
pub fn sock_daddr(sock: &SockRead) -> (r: u32)
    ensures
        r == word_or_zero(sock.daddr),
{
    match sock.daddr {
        Some(value) => value,
        None => 0,
    }
}

/// The local IPv4 address of a socket.
pub fn sock_rcv_saddr(sock: &SockRead) -> (r: u32)
    ensures
        r == word_or_zero(sock.rcv_saddr),
{
    match sock.rcv_saddr {
        Some(value) => value,
        None => 0,
    }
}

/// The port number that `word` holds in network byte order.
pub open spec fn port_number(word: u16) -> int {
    (word % 0x100) * 0x100 + word / 0x100
}

/// The port number that `word` holds in network byte order.
pub fn port_from_network(word: u16) -> (r: u16)
    ensures
        r == port_number(word),
{
    (word % 0x100) * 0x100 + word / 0x100
}

/// The remote port of a socket, in network byte order.
pub fn sock_dport(sock: &SockRead) -> (r: u16)
    ensures
        r == port_or_zero(sock.dport),
{
    match sock.dport {
        Some(value) => value,
        None => 0,
    }
}

/// The local port of a socket.
pub fn sock_num(sock: &SockRead) -> (r: u16)
    ensures
        r == port_or_zero(sock.num),
{
    match sock.num {
        Some(value) => value,
        None => 0,
    }
}

/// An IPv6 address that was read; the number stands for a failed read.
pub fn read_v6_addr(field: Option<[u8; 16]>) -> (r: Result<[u8; 16], i32>)
    ensures
        r == (match field {
            Some(address) => Ok::<[u8; 16], i32>(address),
            None => Err(0i32),
        }),
{
    match field {
        Some(address) => Ok(address),
        None => Err(0),
    }
}

/// `field` starts with the four bytes of `address`, lowest first, and is zero
/// behind them.
pub open spec fn holds_v4(field: Seq<u8>, address: u32) -> bool {
    &&& field.len() == 16
    &&& wire::u32_at(field, 0) == address
    &&& wire::zeros_at(field, 4, 16)
}

fn v4_field(address: u32) -> (r: [u8; 16])
    ensures
        holds_v4(r@, address),
{
    let mut field: [u8; 16] = [0; 16];
    field[0] = (address % 0x100) as u8;
    field[1] = (address / 0x100 % 0x100) as u8;
    field[2] = (address / 0x1_0000 % 0x100) as u8;
    field[3] = (address / 0x100_0000) as u8;
    field
}

/// `record` says of the socket what holds for both IP versions.
pub open spec fn records_socket(
    record: PendingConnect,
    sock: SockRead,
    retval: Option<i32>,
    protocol: u8,
    header: RawEventHeader,
) -> bool {
    &&& record.header == header
    &&& record.protocol.spec_tag() == protocol
    &&& record.tid == header.tid
    &&& record.src_port == port_or_zero(sock.num)
    &&& record.dst_port == port_number(port_or_zero(sock.dport))
    &&& record.retval == retval
}

/// `r` is what comes of an IPv4 socket operation: its record if the key asks
/// for it, nothing otherwise.
pub open spec fn v4_emitted(
    sock: SockRead,
    retval: Option<i32>,
    protocol: u8,
    header: RawEventHeader,
    key: Option<FilterKey>,
    r: Option<PendingConnect>,
) -> bool {
    match r {
        Some(record) => {
            &&& passes(key, header)
            &&& records_socket(record, sock, retval, protocol, header)
            &&& record.ip_version is V4
            &&& holds_v4(record.src_addr@, word_or_zero(sock.rcv_saddr))
            &&& holds_v4(record.dst_addr@, word_or_zero(sock.daddr))
        },
        None => !passes(key, header),
    }
}

/// `r` is what comes of an IPv6 socket operation: its record if the key asks
/// for it and both addresses can be read, nothing otherwise.
pub open spec fn v6_emitted(
    sock: SockRead,
    retval: Option<i32>,
    protocol: u8,
    header: RawEventHeader,
    key: Option<FilterKey>,
    r: Option<PendingConnect>,
) -> bool {
    match r {
        Some(record) => {
            &&& passes(key, header)
            &&& records_socket(record, sock, retval, protocol, header)
            &&& record.ip_version is V6
            &&& sock.v6_rcv_saddr == Some(record.src_addr)
            &&& sock.v6_daddr == Some(record.dst_addr)
        },
        None => !passes(key, header) || sock.v6_rcv_saddr is None || sock.v6_daddr is None,
    }
}

/// `r` is what comes of a socket operation, by the family of the socket. A
/// socket of another family, or of none that can be read, is left out.
pub open spec fn emitted(
    sock: Option<&SockRead>,
    retval: Option<i32>,
    protocol: u8,
    header: RawEventHeader,
    key: Option<FilterKey>,
    r: Option<PendingConnect>,
) -> bool {
    match sock {
        Some(sock) => if sock.family == Some(AF_INET) {
            v4_emitted(*sock, retval, protocol, header, key, r)
        } else if sock.family == Some(AF_INET6) {
            v6_emitted(*sock, retval, protocol, header, key, r)
        } else {
            r is None
        },
        None => r is None,
    }
}

/// The record of an IPv4 socket operation.
pub fn emit_v4(
    sock: &SockRead,
    retval: Option<i32>,
    protocol: u8,
    event_type: EventType,
    task: &TaskRead,
    key: Option<FilterKey>,
) -> (r: Option<PendingConnect>)
    requires
        protocol == 1 || protocol == 2,
    ensures
        v4_emitted(*sock, retval, protocol, task.header(event_type), key, r),
{
    let header = build_event_header(event_type, task);
    if filter_events(key, &header) {
        return None;
    }
    let protocol = match protocol {
        1 => RawProtocol::Tcp,
        _ => RawProtocol::Udp,
    };
    let dst_addr = v4_field(sock_daddr(sock));
    let src_addr = v4_field(sock_rcv_saddr(sock));
    Some(
        PendingConnect {
            header,
            protocol,
            tid: header.tid,
            src_port: sock_num(sock),
            dst_port: port_from_network(sock_dport(sock)),
            ip_version: IpVersion::V4,
            src_addr,
            dst_addr,
            retval,
        },
    )
}

/// The record of an IPv6 socket operation.
pub fn emit_v6(
    sock: &SockRead,
    retval: Option<i32>,
    protocol: u8,
    event_type: EventType,
    task: &TaskRead,
    key: Option<FilterKey>,
) -> (r: Option<PendingConnect>)
    requires
        protocol == 1 || protocol == 2,
    ensures
        v6_emitted(*sock, retval, protocol, task.header(event_type), key, r),
{
    let header = build_event_header(event_type, task);
    if filter_events(key, &header) {
        return None;
    }
    let protocol = match protocol {
        1 => RawProtocol::Tcp,
        _ => RawProtocol::Udp,
    };
    let dst_addr = match read_v6_addr(sock.v6_daddr) {
        Ok(address) => address,
        Err(_) => return None,
    };
    let src_addr = match read_v6_addr(sock.v6_rcv_saddr) {
        Ok(address) => address,
        Err(_) => return None,
    };
    Some(
        PendingConnect {
            header,
            protocol,
            tid: header.tid,
            src_port: sock_num(sock),
            dst_port: port_from_network(sock_dport(sock)),
            ip_version: IpVersion::V6,
            src_addr,
            dst_addr,
            retval,
        },
    )
}

fn emit(
    sock: Option<&SockRead>,
    retval: Option<i32>,
    protocol: u8,
    event_type: EventType,
    task: &TaskRead,
    key: Option<FilterKey>,
) -> (r: Option<PendingConnect>)
    requires
        protocol == 1 || protocol == 2,
    ensures
        emitted(sock, retval, protocol, task.header(event_type), key, r),
{
    let sock = match sock {
        Some(sock) => sock,
        None => return None,
    };
    match sock.family {
        Some(AF_INET) => emit_v4(sock, retval, protocol, event_type, task, key),
        Some(AF_INET6) => emit_v6(sock, retval, protocol, event_type, task, key),
        _ => None,
    }
}

/// The record of an IPv4 TCP connect that returned `retval`. No socket, no record.
pub fn try_tcp_v4_connect(
    sock: Option<&SockRead>,
    retval: i32,
    task: &TaskRead,
    key: Option<FilterKey>,
) -> (r: Option<PendingConnect>)
    ensures
        match sock {
            Some(sock) => v4_emitted(
                *sock,
                Some(retval),
                Program::TcpV4Connect.protocol(),
                task.header(Program::TcpV4Connect.kind()),
                key,
                r,
            ),
            None => r is None,
        },
{
    match sock {
        Some(sock) => emit_v4(sock, Some(retval), 1, EventType::Connect, task, key),
        None => None,
    }
}

/// The record of an IPv6 TCP connect that returned `retval`. No socket, no record.
pub fn try_tcp_v6_connect(
    sock: Option<&SockRead>,
    retval: i32,
    task: &TaskRead,
    key: Option<FilterKey>,
) -> (r: Option<PendingConnect>)
    ensures
        match sock {
            Some(sock) => v6_emitted(
                *sock,
                Some(retval),
                Program::TcpV6Connect.protocol(),
                task.header(Program::TcpV6Connect.kind()),
                key,
                r,
            ),
            None => r is None,
        },
{
    match sock {
        Some(sock) => emit_v6(sock, Some(retval), 1, EventType::Connect, task, key),
        None => None,
    }
}

/// The record of an IPv4 UDP connect that returned `retval`. No socket, no record.
pub fn try_udp_connect(
    sock: Option<&SockRead>,
    retval: i32,
    task: &TaskRead,
    key: Option<FilterKey>,
) -> (r: Option<PendingConnect>)
    ensures
        match sock {
            Some(sock) => v4_emitted(
                *sock,
                Some(retval),
                Program::UdpConnect.protocol(),
                task.header(Program::UdpConnect.kind()),
                key,
                r,
            ),
            None => r is None,
        },
{
    match sock {
        Some(sock) => emit_v4(sock, Some(retval), 2, EventType::Connect, task, key),
        None => None,
    }
}

/// The record of an IPv6 UDP connect that returned `retval`. No socket, no record.
pub fn try_udpv6_connect(
    sock: Option<&SockRead>,
    retval: i32,
    task: &TaskRead,
    key: Option<FilterKey>,
) -> (r: Option<PendingConnect>)
    ensures
        match sock {
            Some(sock) => v6_emitted(
                *sock,
                Some(retval),
                Program::Udpv6Connect.protocol(),
                task.header(Program::Udpv6Connect.kind()),
                key,
                r,
            ),
            None => r is None,
        },
{
    match sock {
        Some(sock) => emit_v6(sock, Some(retval), 2, EventType::Connect, task, key),
        None => None,
    }
}

/// The record of an accept on a TCP socket. No socket, no record.
pub fn try_inet_csk_accept_impl(
    sock: Option<&SockRead>,
    task: &TaskRead,
    key: Option<FilterKey>,
) -> (r: Option<PendingConnect>)
    ensures
        emitted(
            sock,
            None,
            Program::InetCskAccept.protocol(),
            task.header(Program::InetCskAccept.kind()),
            key,
            r,
        ),
{
    emit(sock, None, 1, EventType::Accept, task, key)
}

/// The record of a close of a TCP socket. No socket, no record.
pub fn try_tcp_close(
    sock: Option<&SockRead>,
    task: &TaskRead,
    key: Option<FilterKey>,
) -> (r: Option<PendingConnect>)
    ensures
        emitted(
            sock,
            None,
            Program::TcpClose.protocol(),
            task.header(Program::TcpClose.kind()),
            key,
            r,
        ),
{
    emit(sock, None, 1, EventType::Close, task, key)
}

/// The record of a close of a UDP socket. No socket, no record.
pub fn try_udp_destroy_sock(
    sock: Option<&SockRead>,
    task: &TaskRead,
    key: Option<FilterKey>,
) -> (r: Option<PendingConnect>)
    ensures
        emitted(
            sock,
            None,
            Program::UdpDestroySock.protocol(),
            task.header(Program::UdpDestroySock.kind()),
            key,
            r,
        ),
{
    emit(sock, None, 2, EventType::Close, task, key)
}

/// The record of a bind that returned `retval`. No socket, no record.
pub fn try_inet_bind(
    sock: Option<&SockRead>,
    retval: i32,
    task: &TaskRead,
    key: Option<FilterKey>,
) -> (r: Option<PendingConnect>)
    ensures
        emitted(
            sock,
            Some(retval),
            Program::InetBind.protocol(),
            task.header(Program::InetBind.kind()),
            key,
            r,
        ),
{
    emit(sock, Some(retval), 1, EventType::Bind, task, key)
}

/// The record of a listen that returned `retval`. No socket, no record.
pub fn try_inet_listen(
    sock: Option<&SockRead>,
    retval: i32,
    task: &TaskRead,
    key: Option<FilterKey>,
) -> (r: Option<PendingConnect>)
    ensures
        emitted(
            sock,
            Some(retval),
            Program::InetListen.protocol(),
            task.header(Program::InetListen.kind()),
            key,
            r,
        ),
{
    emit(sock, Some(retval), 1, EventType::Listen, task, key)
}

/// An IPv4 socket address of user space.
#[derive(Debug, Clone, Copy)]
pub struct SockAddrIn {
    pub sin_family: u16,
    pub sin_port: u16,
    pub sin_addr: [u8; 4],
    pub _pad: [u8; 8],
}

/// An IPv6 socket address of user space.
#[derive(Debug, Clone, Copy)]
pub struct SockaddrIn6 {
    pub sin6_family: u16,
    pub sin6_port: u16,
    pub sin6_flowinfo: u32,
    pub sin6_addr: [u8; 16],
    pub sin6_scope_id: u32,
}

/// The record of the start of a `connect` system call: of the family of the
/// socket address, if that is an internet family and the address of that family
/// can be read.
pub fn try_sys_enter_connect(
    family: Option<u16>,
    v4: Option<&SockAddrIn>,
    v6: Option<&SockaddrIn6>,
    task: &TaskRead,
) -> (r: Option<RawConnectEvent>)
    ensures
        r is Some <==> (family == Some(AF_INET) && v4 is Some) || (family == Some(AF_INET6)
            && v6 is Some),
        r matches Some(record) ==> record.header == task.header(EventType::Connect) && Some(
            record.family,
        ) == family,
{
    let family: u16 = match family {
        Some(family) => family,
        None => return None,
    };
    if family != AF_INET && family != AF_INET6 {
        return None;
    }
    let readable = if family == AF_INET {
        v4.is_some()
    } else {
        v6.is_some()
    };
    if !readable {
        return None;
    }
    Some(RawConnectEvent { header: build_event_header(EventType::Connect, task), family })
}

/// Where the data of a dynamic tracepoint field starts: the lower half of the
/// field.
pub fn data_loc_offset(data_loc: u32) -> (r: usize)
    ensures
        r == data_loc % 0x1_0000,
{
    (data_loc % 0x1_0000) as usize
}

/// The record of a process that started to run `filename`. Nothing is recorded
/// when the field that leads to the name cannot be read.
pub fn try_sched_process_exec(
    data_loc: Option<u32>,
    filename: &[u8; NAME_LEN],
    task: &TaskRead,
    key: Option<FilterKey>,
) -> (r: Option<RawProcessStartEvent>)
    ensures
        r is Some <==> passes(key, task.header(Program::SchedProcessExec.kind())) && data_loc is Some,
        r matches Some(record) ==> record.header == task.header(Program::SchedProcessExec.kind())
            && record.filename == *filename,
{
    let header = build_event_header(EventType::ProcessStart, task);
    if filter_events(key, &header) {
        return None;
    }
    if data_loc.is_none() {
        return None;
    }
    Some(RawProcessStartEvent { header, filename: *filename })
}

/// The record of a process that exits with `exit_code`.
pub fn try_do_group_exit(exit_code: i32, task: &TaskRead, key: Option<FilterKey>) -> (r: Option<
    RawProcessExitEvent,
>)
    ensures
        r is Some <==> passes(key, task.header(Program::DoGroupExit.kind())),
        r matches Some(record) ==> record.header == task.header(Program::DoGroupExit.kind())
            && record.exit_code == exit_code,
{
    let header = build_event_header(EventType::ProcessExit, task);
    if filter_events(key, &header) {
        return None;
    }
    Some(RawProcessExitEvent { header, exit_code })
}

/// The record of a process that created the process `child_pid`. Nothing is
/// recorded when a field cannot be read.
pub fn try_sched_process_fork(
    data_loc: Option<u32>,
    child_pid: Option<u32>,
    child_comm: &[u8; TASK_COMM_LEN],
    task: &TaskRead,
    key: Option<FilterKey>,
) -> (r: Option<RawProcessForkEvent>)
    ensures
        r is Some <==> passes(key, task.header(Program::SchedProcessFork.kind())) && data_loc is Some
            && child_pid is Some,
        r matches Some(record) ==> record.parent == task.header(Program::SchedProcessFork.kind()) && Some(
            record.child_pid,
        ) == child_pid && record.child_comm == *child_comm,
{
    let header = build_event_header(EventType::ProcessFork, task);
    if filter_events(key, &header) {
        return None;
    }
    if data_loc.is_none() {
        return None;
    }
    match child_pid {
        Some(child_pid) => Some(
            RawProcessForkEvent { parent: header, child_pid, child_comm: *child_comm },
        ),
        None => None,
    }
}

/// The bit of the file type in an inode's mode, zero for an unrecognized type.
pub open spec fn type_bit(i_mode: u16) -> u16 {
    let kind = i_mode & S_IFMT;
    if kind == S_IFREG {
        FILE_REG
    } else if kind == S_IFDIR {
        FILE_DIR
    } else if kind == S_IFCHR {
        FILE_CHR
    } else if kind == S_IFBLK {
        FILE_BLK
    } else if kind == S_IFIFO {
        FILE_FIFO
    } else if kind == S_IFLNK {
        FILE_LNK
    } else if kind == S_IFSOCK {
        FILE_SOCK
    } else {
        0
    }
}

/// The file type in an inode's mode is one that the configuration asks for.
pub open spec fn captured(config: Option<FileModeFilter>, i_mode: u16) -> bool {
    config matches Some(config) && config.mode & type_bit(i_mode) != 0
}

/// What a probe reads of an open file.
#[derive(Debug, Clone, Copy)]
pub struct FileRead {
    /// The mode of the inode.
    pub i_mode: u16,
    /// The number of the inode.
    pub inode: u64,
    /// The flags that the file was opened with.
    pub flags: u32,
    pub name: [u8; NAME_LEN],
}

/// What a probe reads of a directory entry.
#[derive(Debug, Clone, Copy)]
pub struct DentryRead {
    /// The mode of the inode.
    pub i_mode: u16,
    pub name: [u8; NAME_LEN],
}

/// Whether an inode is of a type that the configuration asks for, and its type.
/// Without a configuration nothing is asked for.
pub fn capture_inode(config: Option<FileModeFilter>, i_mode: u16) -> (r: (bool, FileModeFilter))
    ensures
        r.0 == captured(config, i_mode),
        r.1.mode == (if config is Some {
            type_bit(i_mode)
        } else {
            0
        }),
{
    let config = match config {
        Some(config) => config,
        None => return (false, FileModeFilter { mode: 0 }),
    };
    let bit: u16 = match i_mode & S_IFMT {
        S_IFREG => FILE_REG,
        S_IFDIR => FILE_DIR,
        S_IFCHR => FILE_CHR,
        S_IFBLK => FILE_BLK,
        S_IFIFO => FILE_FIFO,
        S_IFLNK => FILE_LNK,
        S_IFSOCK => FILE_SOCK,
        _ => 0,
    };
    (config.mode & bit != 0, FileModeFilter { mode: bit })
}

/// Whether an open file is of a type that the configuration asks for, and its
/// type.
pub fn capture_file(config: Option<FileModeFilter>, file: &FileRead) -> (r: (bool, FileModeFilter))
    ensures
        r.0 == captured(config, file.i_mode),
        r.1.mode == (if config is Some {
            type_bit(file.i_mode)
        } else {
            0
        }),
{
    capture_inode(config, file.i_mode)
}

/// The record of an open that returned `retval`. No file, no record.
pub fn try_vfs_open(
    file: Option<&FileRead>,
    retval: i32,
    config: Option<FileModeFilter>,
    task: &TaskRead,
    key: Option<FilterKey>,
) -> (r: Option<RawFileOpenEvent>)
    ensures
        r is Some <==> passes(key, task.header(Program::VfsOpen.kind())) && file is Some && captured(
            config,
            file->0.i_mode,
        ),
        r matches Some(record) ==> {
            &&& record.header == task.header(Program::VfsOpen.kind())
            &&& record.filename == file->0.name
            &&& record.file_mode.mode == type_bit(file->0.i_mode)
            &&& record.retval == retval
            &&& record.inode == file->0.inode
            &&& record.flags == file->0.flags
        },
{
    let header = build_event_header(EventType::FileOpen, task);
    if filter_events(key, &header) {
        return None;
    }
    let file = match file {
        Some(file) => file,
        None => return None,
    };
    let (asked_for, file_mode) = capture_file(config, file);
    if !asked_for {
        return None;
    }
    Some(
        RawFileOpenEvent {
            header,
            filename: file.name,
            file_mode,
            retval,
            inode: file.inode,
            flags: file.flags,
        },
    )
}

/// The record of a close that returned `retval`. No file, no record.
pub fn try_flip_close(
    file: Option<&FileRead>,
    retval: i32,
    config: Option<FileModeFilter>,
    task: &TaskRead,
    key: Option<FilterKey>,
) -> (r: Option<RawFileCloseEvent>)
    ensures
        r is Some <==> passes(key, task.header(Program::FilpClose.kind())) && file is Some && captured(
            config,
            file->0.i_mode,
        ),
        r matches Some(record) ==> {
            &&& record.header == task.header(Program::FilpClose.kind())
            &&& record.filename == file->0.name
            &&& record.file_mode.mode == type_bit(file->0.i_mode)
            &&& record.retval == retval
            &&& record.inode == file->0.inode
            &&& record.flags == file->0.flags
        },
{
    let header = build_event_header(EventType::FileClose, task);
    if filter_events(key, &header) {
        return None;
    }
    let file = match file {
        Some(file) => file,
        None => return None,
    };
    let (asked_for, file_mode) = capture_file(config, file);
    if !asked_for {
        return None;
    }
    Some(
        RawFileCloseEvent {
            header,
            filename: file.name,
            file_mode,
            retval,
            inode: file.inode,
            flags: file.flags,
        },
    )
}

/// The record of a read that returned `retval`. No file, no record.
pub fn try_vfs_read(
    file: Option<&FileRead>,
    retval: isize,
    config: Option<FileModeFilter>,
    task: &TaskRead,
    key: Option<FilterKey>,
) -> (r: Option<RawFileReadEvent>)
    ensures
        r is Some <==> passes(key, task.header(Program::VfsRead.kind())) && file is Some && captured(
            config,
            file->0.i_mode,
        ),
        r matches Some(record) ==> {
            &&& record.header == task.header(Program::VfsRead.kind())
            &&& record.filename == file->0.name
            &&& record.file_mode.mode == type_bit(file->0.i_mode)
            &&& record.retval == retval
            &&& record.inode == file->0.inode
            &&& record.flags == file->0.flags
        },
{
    let header = build_event_header(EventType::FileRead, task);
    if filter_events(key, &header) {
        return None;
    }
    let file = match file {
        Some(file) => file,
        None => return None,
    };
    let (asked_for, file_mode) = capture_file(config, file);
    if !asked_for {
        return None;
    }
    Some(
        RawFileReadEvent {
            header,
            filename: file.name,
            file_mode,
            retval,
            inode: file.inode,
            flags: file.flags,
        },
    )
}

/// The record of a write that returned `retval`. No file, no record.
pub fn try_vfs_write(
    file: Option<&FileRead>,
    retval: isize,
    config: Option<FileModeFilter>,
    task: &TaskRead,
    key: Option<FilterKey>,
) -> (r: Option<RawFileWriteEvent>)
    ensures
        r is Some <==> passes(key, task.header(Program::VfsWrite.kind())) && file is Some && captured(
            config,
            file->0.i_mode,
        ),
        r matches Some(record) ==> {
            &&& record.header == task.header(Program::VfsWrite.kind())
            &&& record.filename == file->0.name
            &&& record.file_mode.mode == type_bit(file->0.i_mode)
            &&& record.retval == retval
            &&& record.inode == file->0.inode
            &&& record.flags == file->0.flags
        },
{
    let header = build_event_header(EventType::FileWrite, task);
    if filter_events(key, &header) {
        return None;
    }
    let file = match file {
        Some(file) => file,
        None => return None,
    };
    let (asked_for, file_mode) = capture_file(config, file);
    if !asked_for {
        return None;
    }
    Some(
        RawFileWriteEvent {
            header,
            filename: file.name,
            file_mode,
            retval,
            inode: file.inode,
            flags: file.flags,
        },
    )
}

/// The record of a deletion that returned `retval`.
pub fn try_vfs_unlink(
    dentry: &DentryRead,
    retval: i32,
    config: Option<FileModeFilter>,
    task: &TaskRead,
    key: Option<FilterKey>,
) -> (r: Option<RawFileDeleteEvent>)
    ensures
        r is Some <==> passes(key, task.header(Program::VfsUnlink.kind())) && captured(
            config,
            dentry.i_mode,
        ),
        r matches Some(record) ==> {
            &&& record.header == task.header(Program::VfsUnlink.kind())
            &&& record.filename == dentry.name
            &&& record.file_mode.mode == type_bit(dentry.i_mode)
            &&& record.retval == retval
        },
{
    let header = build_event_header(EventType::FileDelete, task);
    if filter_events(key, &header) {
        return None;
    }
    let (asked_for, file_mode) = capture_inode(config, dentry.i_mode);
    if !asked_for {
        return None;
    }
    Some(RawFileDeleteEvent { header, filename: dentry.name, file_mode, retval })
}

/// Makes the record of the start of a rename in `temp`, and says whether to
/// submit it. The return value is not known yet: that field is left as it is.
pub fn try_vfs_rename(
    old_dentry: &DentryRead,
    new_dentry: &DentryRead,
    flags: u32,
    config: Option<FileModeFilter>,
    task: &TaskRead,
    key: Option<FilterKey>,
    temp: &mut RawFileRenameEvent,
) -> (r: bool)
    ensures
        r == (passes(key, task.header(Program::VfsRename.kind())) && captured(
            config,
            old_dentry.i_mode,
        )),
        r ==> {
            &&& final(temp).header == task.header(Program::VfsRename.kind())
            &&& final(temp).old_filename == old_dentry.name
            &&& final(temp).new_filename == new_dentry.name
            &&& final(temp).file_mode.mode == type_bit(old_dentry.i_mode)
            &&& final(temp).retval == old(temp).retval
            &&& final(temp).flags == flags
        },
        !r ==> *final(temp) == *old(temp),
        r <==> sieve::task_asked_for(key, *task) && sieve::type_asked_for(config, old_dentry.i_mode),
        r ==> {
            &&& sieve::caused_by(final(temp).header, EventType::FileRename, *task)
            &&& sieve::names_type(final(temp).file_mode.mode, old_dentry.i_mode)
        },
{
    proof {
        sieve::lemma_header(EventType::FileRename, *task);
        sieve::lemma_captured(config, old_dentry.i_mode);
    }
    let header = build_event_header(EventType::FileRename, task);
    if filter_events(key, &header) {
        return false;
    }
    let (asked_for, file_mode) = capture_inode(config, old_dentry.i_mode);
    if !asked_for {
        return false;
    }
    temp.header = header;
    temp.file_mode = file_mode;
    temp.old_filename = old_dentry.name;
    temp.new_filename = new_dentry.name;
    temp.flags = flags;
    true
}

/// The record of a rename that returned `retval`. It is made for every task:
/// user space drops it when it knows of no rename of that task.
pub fn try_vfs_rename_retval(retval: i32, task: &TaskRead) -> (r: RawFileRtrEvent)
    ensures
        r.header == task.header(Program::VfsRenameRetval.kind()),
        r.retval == retval,
{
    RawFileRtrEvent { header: build_event_header(EventType::PendingFileRename, task), retval }
}

/// The record of a mapping that was created at `mapped_address`.
pub fn try_vm_mmap_pgoff(
    requested_address: usize,
    length: u64,
    protection: u32,
    flags: u32,
    mapped_address: usize,
    task: &TaskRead,
    key: Option<FilterKey>,
) -> (r: Option<RawMemoryMapEvent>)
    ensures
        r is Some <==> passes(key, task.header(Program::VmMmapPgoff.kind())),
        r matches Some(record) ==> {
            &&& record.header == task.header(Program::VmMmapPgoff.kind())
            &&& record.requested_address == requested_address
            &&& record.length == length
            &&& record.protection == protection
            &&& record.flags == flags
            &&& record.mapped_address == mapped_address
        },
{
    let header = build_event_header(EventType::MemoryMap, task);
    if filter_events(key, &header) {
        return None;
    }
    Some(
        RawMemoryMapEvent { header, requested_address, length, protection, flags, mapped_address },
    )
}

/// The record of a mapping that was removed.
pub fn try_vm_munmap(
    requested_address: usize,
    length: u64,
    mapped_address: usize,
    task: &TaskRead,
    key: Option<FilterKey>,
) -> (r: Option<RawMemoryUnmapEvent>)
    ensures
        r is Some <==> passes(key, task.header(Program::VmMunmap.kind())),
        r matches Some(record) ==> {
            &&& record.header == task.header(Program::VmMunmap.kind())
            &&& record.requested_address == requested_address
            &&& record.length == length
            &&& record.mapped_address == mapped_address
        },
{
    let header = build_event_header(EventType::MemoryUnMap, task);
    if filter_events(key, &header) {
        return None;
    }
    Some(RawMemoryUnmapEvent { header, requested_address, length, mapped_address })
}

/// A port number survives the change of byte order: the word that holds `port`
/// in network byte order is read as `port`.
pub proof fn law_port_number(port: u16, word: u16)
    requires
        word % 0x100 == port / 0x100,
        word / 0x100 == port % 0x100,
    ensures
        port_number(word) == port,
{
}

/// The type that user space reads from a record is the type in the mode of the
/// inode: a recognized type keeps its mode bits, and any other is unknown.
pub proof fn law_type_is_kept(i_mode: u16)
    ensures
        FileType::of_mode(type_bit(i_mode)).spec_mode_bits() == (if type_bit(i_mode) != 0 {
            (i_mode & S_IFMT) as u32
        } else {
            0
        }),
{
}

/// A configuration that asks for regular files alone captures regular files and
/// nothing else; one that asks for every type captures every recognized type.
pub proof fn law_capture(i_mode: u16)
    ensures
        captured(Some(FileModeFilter { mode: FILE_REG }), i_mode) <==> i_mode & S_IFMT == S_IFREG,
        captured(Some(FileModeFilter { mode: 127 }), i_mode) <==> type_bit(i_mode) != 0,
{
    assert(1u16 & 1 == 1 && 1u16 & 2 == 0 && 1u16 & 4 == 0 && 1u16 & 8 == 0 && 1u16 & 16 == 0 && 1u16
        & 32 == 0 && 1u16 & 64 == 0 && 1u16 & 0 == 0) by (bit_vector);
    assert(127u16 & 1 == 1 && 127u16 & 2 == 2 && 127u16 & 4 == 4 && 127u16 & 8 == 8 && 127u16 & 16
        == 16 && 127u16 & 32 == 32 && 127u16 & 64 == 64 && 127u16 & 0 == 0) by (bit_vector);
}

} // verus!
