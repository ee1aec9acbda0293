//! Turning kernel records into typed events, and handing them to subscribers.
use crate::handoff;
use crate::handoff::{Handoff, Producer};
use crate::common::{convert_header, EventHeader};
use crate::file::{
    FileCloseEvent, FileDeleteEvent, FileEvent, FileOpenEvent, FileReadEvent, FileRenameEvent,
    FileType, FileWriteEvent,
};
use crate::ip::IpAddr;
use crate::memory::{MemoryEvent, MemoryMapEvent, MemoryUnmapEvent};
use crate::network::{
    AcceptEvent, BindEvent, CloseEvent, ConnectEvent, ListenEvent, NetworkEvent, Protocol,
    SocketEndpoints,
};
use crate::process::{ProcessEvent, ProcessExitEvent, ProcessForkEvent, ProcessStartEvent};
use crate::raw::{
    EventType, IpVersion, PendingConnect, RawEventHeader, RawFileCloseEvent, RawFileDeleteEvent,
    RawFileOpenEvent, RawFileReadEvent, RawFileRenameEvent, RawFileRtrEvent, RawFileWriteEvent,
    RawMemoryMapEvent, RawMemoryUnmapEvent, RawProcessExitEvent, RawProcessForkEvent,
    RawProcessStartEvent, RawProtocol,
};
use crate::rename::PendingRenames;
use crate::text;
use vstd::prelude::*;

verus! {

/// The transport protocol that the kernel's `protocol` stands for.
pub open spec fn protocol_of(protocol: RawProtocol) -> Protocol {
    match protocol {
        RawProtocol::Tcp => Protocol::Tcp,
        RawProtocol::Udp => Protocol::Udp,
    }
}

/// `ip` is the address in `field`: its first four bytes for IPv4, all of it for
/// IPv6.
pub open spec fn is_address(ip: IpAddr, version: IpVersion, field: Seq<u8>) -> bool {
    match (ip, version) {
        (IpAddr::V4(bytes), IpVersion::V4) => bytes@ == field.take(4),
        (IpAddr::V6(bytes), IpVersion::V6) => bytes@ == field,
        _ => false,
    }
}

impl SocketEndpoints {
    /// These are the endpoints of the socket that `record` is about: the source
    /// is the local one, the destination the remote one.
    pub open spec fn describes(&self, record: PendingConnect) -> bool {
        &&& is_address(self.local_ip, record.ip_version, record.src_addr@)
        &&& is_address(self.remote_ip, record.ip_version, record.dst_addr@)
        &&& self.local_port == record.src_port
        &&& self.remote_port == record.dst_port
    }
}

impl PendingConnect {
    /// The record is one of a socket operation, and has the operation's result
    /// where the operation has one: a connect, a bind or a listen.
    pub open spec fn well_formed(self) -> bool {
        match self.header.event_type {
            EventType::Connect => self.retval is Some,
            EventType::Bind => self.retval is Some,
            EventType::Listen => self.retval is Some,
            EventType::Accept => true,
            EventType::Close => true,
            _ => false,
        }
    }

    /// An event comes of the record: it is well-formed, and not that of a connect
    /// that failed.
    pub open spec fn reported(self) -> bool {
        self.well_formed() && (self.header.event_type is Connect ==> self.retval->0 >= 0)
    }
}

impl ConnectEvent {
    /// The event says what `record` says.
    pub open spec fn describes(&self, record: PendingConnect) -> bool {
        &&& self.header.describes(record.header)
        &&& self.protocol == protocol_of(record.protocol)
        &&& self.endpoints.describes(record)
        &&& record.retval == Some(self.retval)
    }
}

impl AcceptEvent {
    /// The event says what `record` says of a TCP socket.
    pub open spec fn describes(&self, record: PendingConnect) -> bool {
        &&& self.header.describes(record.header)
        &&& self.protocol == Protocol::Tcp
        &&& self.endpoints.describes(record)
    }
}

impl CloseEvent {
    /// The event says what `record` says.
    pub open spec fn describes(&self, record: PendingConnect) -> bool {
        &&& self.header.describes(record.header)
        &&& self.protocol == protocol_of(record.protocol)
        &&& self.endpoints.describes(record)
    }
}

impl BindEvent {
    /// The event says what `record` says of a TCP socket.
    pub open spec fn describes(&self, record: PendingConnect) -> bool {
        &&& self.header.describes(record.header)
        &&& self.protocol == Protocol::Tcp
        &&& self.endpoints.describes(record)
        &&& record.retval == Some(self.retval)
    }
}

impl ListenEvent {
    /// The event says what `record` says of a TCP socket.
    pub open spec fn describes(&self, record: PendingConnect) -> bool {
        &&& self.header.describes(record.header)
        &&& self.protocol == Protocol::Tcp
        &&& self.endpoints.describes(record)
        &&& record.retval == Some(self.retval)
    }
}

impl NetworkEvent {
    /// The event says what `record` says.
    pub open spec fn describes(&self, record: PendingConnect) -> bool {
        match record.header.event_type {
            EventType::Connect => self matches NetworkEvent::Connect(event) && event.describes(record),
            EventType::Accept => self matches NetworkEvent::Accept(event) && event.describes(record),
            EventType::Close => self matches NetworkEvent::Close(event) && event.describes(record),
            EventType::Bind => self matches NetworkEvent::Bind(event) && event.describes(record),
            EventType::Listen => self matches NetworkEvent::Listen(event) && event.describes(record),
            _ => false,
        }
    }

    /// `r` is the event that comes of the bytes `b`, `None` when they hold no
    /// record of a socket operation that is reported.
    pub open spec fn converted(b: Seq<u8>, r: Option<NetworkEvent>) -> bool {
        match PendingConnect::read_from(b) {
            Some(record) => if record.reported() {
                r matches Some(event) && event.describes(record)
            } else {
                r is None
            },
            None => r is None,
        }
    }
}

fn convert_protocol(protocol: RawProtocol) -> (r: Protocol)
    ensures
        r == protocol_of(protocol),
{
    match protocol {
        RawProtocol::Tcp => Protocol::Tcp,
        RawProtocol::Udp => Protocol::Udp,
    }
}

fn convert_address(version: IpVersion, field: &[u8; 16]) -> (r: IpAddr)
    ensures
        is_address(r, version, field@),
{
    match version {
        IpVersion::V4 => {
            let bytes: [u8; 4] = [field[0], field[1], field[2], field[3]];
            assert(bytes@ =~= field@.take(4));
            IpAddr::V4(bytes)
        },
        IpVersion::V6 => IpAddr::V6(*field),
    }
}

/// The header and the endpoints of a socket operation.
pub fn parse_network_event(event: &PendingConnect) -> (r: (EventHeader, SocketEndpoints))
    ensures
        r.0.describes(event.header),
        r.1.describes(*event),
{
    let header = convert_header(event.header);
    let endpoints = SocketEndpoints {
        local_ip: convert_address(event.ip_version, &event.src_addr),
        local_port: event.src_port,
        remote_ip: convert_address(event.ip_version, &event.dst_addr),
        remote_port: event.dst_port,
    };
    (header, endpoints)
}

/// The event of a connect. A connect that failed has none.
pub fn handle_connect(record: &PendingConnect) -> (r: Option<NetworkEvent>)
    requires
        record.retval is Some,
    ensures
        if record.retval->0 < 0 {
            r is None
        } else {
            r matches Some(NetworkEvent::Connect(event)) && event.describes(*record)
        },
{
    let retval: i32 = record.retval.unwrap();
    if retval < 0 {
        return None;
    }
    let (header, endpoints) = parse_network_event(record);
    let protocol = convert_protocol(record.protocol);
    Some(NetworkEvent::Connect(ConnectEvent { header, protocol, endpoints, retval }))
}

/// The event of an accept, which is always one on a TCP socket.
pub fn handle_tcp_accept(record: &PendingConnect) -> (r: NetworkEvent)
    ensures
        r matches NetworkEvent::Accept(event) && event.describes(*record),
{
    let (header, endpoints) = parse_network_event(record);
    NetworkEvent::Accept(AcceptEvent { header, protocol: Protocol::Tcp, endpoints })
}

/// The event of a close.
pub fn handle_close(record: &PendingConnect) -> (r: NetworkEvent)
    ensures
        r matches NetworkEvent::Close(event) && event.describes(*record),
{
    let (header, endpoints) = parse_network_event(record);
    let protocol = convert_protocol(record.protocol);
    NetworkEvent::Close(CloseEvent { header, protocol, endpoints })
}

/// The event of a bind, taken as one of a TCP socket.
pub fn handle_bind(record: &PendingConnect) -> (r: NetworkEvent)
    requires
        record.retval is Some,
    ensures
        r matches NetworkEvent::Bind(event) && event.describes(*record),
{
    let (header, endpoints) = parse_network_event(record);
    let retval: i32 = record.retval.unwrap();
    NetworkEvent::Bind(BindEvent { header, protocol: Protocol::Tcp, endpoints, retval })
}

/// The event of a listen, taken as one of a TCP socket.
pub fn handle_listen(record: &PendingConnect) -> (r: NetworkEvent)
    requires
        record.retval is Some,
    ensures
        r matches NetworkEvent::Listen(event) && event.describes(*record),
{
    let (header, endpoints) = parse_network_event(record);
    let retval: i32 = record.retval.unwrap();
    NetworkEvent::Listen(ListenEvent { header, protocol: Protocol::Tcp, endpoints, retval })
}

/// The network event that a ring buffer item holds, if it holds one.
pub fn network_event(bytes: &[u8]) -> (r: Option<NetworkEvent>)
    ensures
        NetworkEvent::converted(bytes@, r),
{
    let record = match PendingConnect::decode(bytes) {
        Some(record) => record,
        None => return None,
    };
    match record.header.event_type {
        EventType::Connect => if record.retval.is_some() {
            handle_connect(&record)
        } else {
            None
        },
        EventType::Accept => Some(handle_tcp_accept(&record)),
        EventType::Close => Some(handle_close(&record)),
        EventType::Bind => if record.retval.is_some() {
            Some(handle_bind(&record))
        } else {
            None
        },
        EventType::Listen => if record.retval.is_some() {
            Some(handle_listen(&record))
        } else {
            None
        },
        _ => None,
    }
}

impl ProcessStartEvent {
    /// The event says what `record` says.
    pub open spec fn describes(&self, record: RawProcessStartEvent) -> bool {
        &&& self.header.describes(record.header)
        &&& text::reads_as(self.filename@, record.filename@)
    }
}

impl ProcessExitEvent {
    /// The event says what `record` says.
    pub open spec fn describes(&self, record: RawProcessExitEvent) -> bool {
        &&& self.header.describes(record.header)
        &&& self.exit_code == record.exit_code
    }
}

impl ProcessForkEvent {
    /// The event says what `record` says.
    pub open spec fn describes(&self, record: RawProcessForkEvent) -> bool {
        &&& self.parent.describes(record.parent)
        &&& self.child_pid == record.child_pid
        &&& text::reads_as(self.child_comm@, record.child_comm@)
    }
}

impl ProcessEvent {
    /// `r` is the event that the bytes `b` hold, `None` when they hold no record
    /// of a process.
    pub open spec fn converted(b: Seq<u8>, r: Option<ProcessEvent>) -> bool {
        match kind_of(b) {
            Some(EventType::ProcessStart) => match RawProcessStartEvent::read_from(b) {
                Some(record) => r matches Some(ProcessEvent::Start(event)) && event.describes(record),
                None => r is None,
            },
            Some(EventType::ProcessExit) => match RawProcessExitEvent::read_from(b) {
                Some(record) => r matches Some(ProcessEvent::Exit(event)) && event.describes(record),
                None => r is None,
            },
            Some(EventType::ProcessFork) => match RawProcessForkEvent::read_from(b) {
                Some(record) => r matches Some(ProcessEvent::Fork(event)) && event.describes(record),
                None => r is None,
            },
            _ => r is None,
        }
    }
}

/// The kind of record that the bytes `b` claim to hold.
pub open spec fn kind_of(b: Seq<u8>) -> Option<EventType> {
    match RawEventHeader::read_from(b) {
        Some(header) => Some(header.event_type),
        None => None,
    }
}

/// The process event that a ring buffer item holds, if it holds one.
pub fn process_event(bytes: &[u8]) -> (r: Option<ProcessEvent>)
    ensures
        ProcessEvent::converted(bytes@, r),
{
    let header = match RawEventHeader::decode(bytes) {
        Some(header) => header,
        None => return None,
    };
    match header.event_type {
        EventType::ProcessStart => match RawProcessStartEvent::decode(bytes) {
            Some(record) => Some(
                ProcessEvent::Start(
                    ProcessStartEvent {
                        header: convert_header(record.header),
                        filename: text::field_text(&record.filename),
                    },
                ),
            ),
            None => None,
        },
        EventType::ProcessExit => match RawProcessExitEvent::decode(bytes) {
            Some(record) => Some(
                ProcessEvent::Exit(
                    ProcessExitEvent {
                        header: convert_header(record.header),
                        exit_code: record.exit_code,
                    },
                ),
            ),
            None => None,
        },
        EventType::ProcessFork => match RawProcessForkEvent::decode(bytes) {
            Some(record) => Some(
                ProcessEvent::Fork(
                    ProcessForkEvent {
                        parent: convert_header(record.parent),
                        child_pid: record.child_pid,
                        child_comm: text::field_text(&record.child_comm),
                    },
                ),
            ),
            None => None,
        },
        _ => None,
    }
}

impl FileOpenEvent {
    /// The event says what `record` says.
    pub open spec fn describes(&self, record: RawFileOpenEvent) -> bool {
        &&& self.header.describes(record.header)
        &&& text::reads_as(self.file_path@, record.filename@)
        &&& self.file_type == FileType::of_mode(record.file_mode.mode)
        &&& self.inode == record.inode
        &&& self.retval == record.retval
        &&& self.flags == record.flags
    }

    fn of_record(record: &RawFileOpenEvent) -> (r: Self)
        ensures
            r.describes(*record),
    {
        FileOpenEvent {
            header: convert_header(record.header),
            file_path: text::field_text(&record.filename),
            file_type: FileType::from(record.file_mode),
            inode: record.inode,
            retval: record.retval,
            flags: record.flags,
        }
    }
}

impl FileCloseEvent {
    /// The event says what `record` says.
    pub open spec fn describes(&self, record: RawFileCloseEvent) -> bool {
        &&& self.header.describes(record.header)
        &&& text::reads_as(self.file_path@, record.filename@)
        &&& self.file_type == FileType::of_mode(record.file_mode.mode)
        &&& self.inode == record.inode
        &&& self.retval == record.retval
        &&& self.flags == record.flags
    }

    fn of_record(record: &RawFileCloseEvent) -> (r: Self)
        ensures
            r.describes(*record),
    {
        FileCloseEvent {
            header: convert_header(record.header),
            file_path: text::field_text(&record.filename),
            file_type: FileType::from(record.file_mode),
            inode: record.inode,
            retval: record.retval,
            flags: record.flags,
        }
    }
}

impl FileReadEvent {
    /// The event says what `record` says.
    pub open spec fn describes(&self, record: RawFileReadEvent) -> bool {
        &&& self.header.describes(record.header)
        &&& text::reads_as(self.file_path@, record.filename@)
        &&& self.file_type == FileType::of_mode(record.file_mode.mode)
        &&& self.inode == record.inode
        &&& self.retval == record.retval
        &&& self.flags == record.flags
    }

    fn of_record(record: &RawFileReadEvent) -> (r: Self)
        ensures
            r.describes(*record),
    {
        FileReadEvent {
            header: convert_header(record.header),
            file_path: text::field_text(&record.filename),
            file_type: FileType::from(record.file_mode),
            inode: record.inode,
            retval: record.retval,
            flags: record.flags,
        }
    }
}

impl FileWriteEvent {
    /// The event says what `record` says.
    pub open spec fn describes(&self, record: RawFileWriteEvent) -> bool {
        &&& self.header.describes(record.header)
        &&& text::reads_as(self.file_path@, record.filename@)
        &&& self.file_type == FileType::of_mode(record.file_mode.mode)
        &&& self.inode == record.inode
        &&& self.retval == record.retval
        &&& self.flags == record.flags
    }

    fn of_record(record: &RawFileWriteEvent) -> (r: Self)
        ensures
            r.describes(*record),
    {
        FileWriteEvent {
            header: convert_header(record.header),
            file_path: text::field_text(&record.filename),
            file_type: FileType::from(record.file_mode),
            inode: record.inode,
            retval: record.retval,
            flags: record.flags,
        }
    }
}

impl FileDeleteEvent {
    /// The event says what `record` says.
    pub open spec fn describes(&self, record: RawFileDeleteEvent) -> bool {
        &&& self.header.describes(record.header)
        &&& text::reads_as(self.filename@, record.filename@)
        &&& self.file_type == FileType::of_mode(record.file_mode.mode)
        &&& self.retval == record.retval
    }

    fn of_record(record: &RawFileDeleteEvent) -> (r: Self)
        ensures
            r.describes(*record),
    {
        FileDeleteEvent {
            header: convert_header(record.header),
            filename: text::field_text(&record.filename),
            file_type: FileType::from(record.file_mode),
            retval: record.retval,
        }
    }
}

impl FileRenameEvent {
    /// The event says what `record` says of a rename that returned `retval`.
    pub open spec fn describes(&self, record: RawFileRenameEvent, retval: i32) -> bool {
        &&& self.header.describes(record.header)
        &&& text::reads_as(self.old_filename@, record.old_filename@)
        &&& text::reads_as(self.new_filename@, record.new_filename@)
        &&& self.file_type == FileType::of_mode(record.file_mode.mode)
        &&& self.flags == record.flags
        &&& self.retval == retval
    }

    fn of_record(record: &RawFileRenameEvent, retval: i32) -> (r: Self)
        ensures
            r.describes(*record, retval),
    {
        FileRenameEvent {
            header: convert_header(record.header),
            old_filename: text::field_text(&record.old_filename),
            new_filename: text::field_text(&record.new_filename),
            file_type: FileType::from(record.file_mode),
            flags: record.flags,
            retval,
        }
    }
}

impl FileEvent {
    /// What the bytes `b` do: `r` is the event that comes of them, and the pending
    /// renames go from `before` to `after`.
    ///
    /// A record of an open, close, read, write or deletion is an event of its
    /// own. The record that starts a rename is only kept, under its task. The
    /// record that ends one gives the event of the rename that its task began,
    /// and none when the task has no rename pending.
    pub open spec fn converted(
        b: Seq<u8>,
        before: PendingRenames,
        after: PendingRenames,
        r: Option<FileEvent>,
    ) -> bool {
        match kind_of(b) {
            Some(EventType::FileOpen) => after@ == before@ && match RawFileOpenEvent::read_from(b) {
                Some(record) => r matches Some(FileEvent::Open(event)) && event.describes(record),
                None => r is None,
            },
            Some(EventType::FileClose) => after@ == before@ && match RawFileCloseEvent::read_from(b) {
                Some(record) => r matches Some(FileEvent::Close(event)) && event.describes(record),
                None => r is None,
            },
            Some(EventType::FileRead) => after@ == before@ && match RawFileReadEvent::read_from(b) {
                Some(record) => r matches Some(FileEvent::Read(event)) && event.describes(record),
                None => r is None,
            },
            Some(EventType::FileWrite) => after@ == before@ && match RawFileWriteEvent::read_from(b) {
                Some(record) => r matches Some(FileEvent::Write(event)) && event.describes(record),
                None => r is None,
            },
            Some(EventType::FileDelete) => after@ == before@ && match RawFileDeleteEvent::read_from(b) {
                Some(record) => r matches Some(FileEvent::Delete(event)) && event.describes(record),
                None => r is None,
            },
            Some(EventType::FileRename) => r is None && match RawFileRenameEvent::read_from(b) {
                Some(record) => after@ == before.with(record),
                None => after@ == before@,
            },
            Some(EventType::PendingFileRename) => match RawFileRtrEvent::read_from(b) {
                Some(end) => {
                    let task = PendingRenames::task(end.header);
                    &&& after@ == before@.remove(task)
                    &&& if before@.contains_key(task) {
                        r matches Some(FileEvent::Rename(event)) && event.describes(
                            before@[task],
                            end.retval,
                        )
                    } else {
                        r is None
                    }
                },
                None => r is None && after@ == before@,
            },
            _ => r is None && after@ == before@,
        }
    }
}

/// The file event that comes of a ring buffer item, if one does.
pub fn file_event(bytes: &[u8], pending: &mut PendingRenames) -> (r: Option<FileEvent>)
    ensures
        FileEvent::converted(bytes@, *old(pending), *final(pending), r),
        old(pending).well_formed() ==> final(pending).well_formed(),
{
    let header = match RawEventHeader::decode(bytes) {
        Some(header) => header,
        None => return None,
    };
    match header.event_type {
        EventType::FileOpen => match RawFileOpenEvent::decode(bytes) {
            Some(record) => Some(FileEvent::Open(FileOpenEvent::of_record(&record))),
            None => None,
        },
        EventType::FileClose => match RawFileCloseEvent::decode(bytes) {
            Some(record) => Some(FileEvent::Close(FileCloseEvent::of_record(&record))),
            None => None,
        },
        EventType::FileRead => match RawFileReadEvent::decode(bytes) {
            Some(record) => Some(FileEvent::Read(FileReadEvent::of_record(&record))),
            None => None,
        },
        EventType::FileWrite => match RawFileWriteEvent::decode(bytes) {
            Some(record) => Some(FileEvent::Write(FileWriteEvent::of_record(&record))),
            None => None,
        },
        EventType::FileDelete => match RawFileDeleteEvent::decode(bytes) {
            Some(record) => Some(FileEvent::Delete(FileDeleteEvent::of_record(&record))),
            None => None,
        },
        EventType::FileRename => {
            if let Some(record) = RawFileRenameEvent::decode(bytes) {
                pending.insert(record);
            }
            None
        },
        EventType::PendingFileRename => match RawFileRtrEvent::decode(bytes) {
            Some(end) => match pending.take(&end.header) {
                Some(record) => Some(
                    FileEvent::Rename(FileRenameEvent::of_record(&record, end.retval)),
                ),
                None => None,
            },
            None => None,
        },
        _ => None,
    }
}

impl MemoryMapEvent {
    /// The event says what `record` says.
    pub open spec fn describes(&self, record: RawMemoryMapEvent) -> bool {
        &&& self.header.describes(record.header)
        &&& self.requested_address == record.requested_address
        &&& self.length == record.length
        &&& self.protection == record.protection
        &&& self.flags == record.flags
        &&& self.mapped_address == record.mapped_address
    }
}

impl MemoryUnmapEvent {
    /// The event says what `record` says.
    pub open spec fn describes(&self, record: RawMemoryUnmapEvent) -> bool {
        &&& self.header.describes(record.header)
        &&& self.requested_address == record.requested_address
        &&& self.length == record.length
        &&& self.mapped_address == record.mapped_address
    }
}

impl MemoryEvent {
    /// `r` is the event that the bytes `b` hold, `None` when they hold no record
    /// of a mapping.
    pub open spec fn converted(b: Seq<u8>, r: Option<MemoryEvent>) -> bool {
        match kind_of(b) {
            Some(EventType::MemoryMap) => match RawMemoryMapEvent::read_from(b) {
                Some(record) => r matches Some(MemoryEvent::MemoryMap(event)) && event.describes(
                    record,
                ),
                None => r is None,
            },
            Some(EventType::MemoryUnMap) => match RawMemoryUnmapEvent::read_from(b) {
                Some(record) => r matches Some(MemoryEvent::MemoryUnMap(event)) && event.describes(
                    record,
                ),
                None => r is None,
            },
            _ => r is None,
        }
    }
}

/// The memory event that a ring buffer item holds, if it holds one.
pub fn memory_event(bytes: &[u8]) -> (r: Option<MemoryEvent>)
    ensures
        MemoryEvent::converted(bytes@, r),
{
    let header = match RawEventHeader::decode(bytes) {
        Some(header) => header,
        None => return None,
    };
    match header.event_type {
        EventType::MemoryMap => match RawMemoryMapEvent::decode(bytes) {
            Some(record) => Some(
                MemoryEvent::MemoryMap(
                    MemoryMapEvent {
                        header: convert_header(record.header),
                        requested_address: record.requested_address,
                        length: record.length,
                        protection: record.protection,
                        flags: record.flags,
                        mapped_address: record.mapped_address,
                    },
                ),
            ),
            None => None,
        },
        EventType::MemoryUnMap => match RawMemoryUnmapEvent::decode(bytes) {
            Some(record) => Some(
                MemoryEvent::MemoryUnMap(
                    MemoryUnmapEvent {
                        header: convert_header(record.header),
                        requested_address: record.requested_address,
                        length: record.length,
                        mapped_address: record.mapped_address,
                    },
                ),
            ),
            None => None,
        },
        _ => None,
    }
}

/// Offers the network event that a ring buffer item holds to the subscriber.
pub fn convert_network_events(producer: &mut Producer<NetworkEvent>, bytes: &[u8]) -> (r: Handoff<
    NetworkEvent,
>)
    ensures
        exists|event: Option<NetworkEvent>| #[trigger]
            NetworkEvent::converted(bytes@, event) && handoff::offered(
                *old(producer),
                event,
                *final(producer),
                r,
            ),
{
    producer.offer(network_event(bytes))
}

/// Offers the process event that a ring buffer item holds to the subscriber.
pub fn convert_process_events(producer: &mut Producer<ProcessEvent>, bytes: &[u8]) -> (r: Handoff<
    ProcessEvent,
>)
    ensures
        exists|event: Option<ProcessEvent>| #[trigger]
            ProcessEvent::converted(bytes@, event) && handoff::offered(
                *old(producer),
                event,
                *final(producer),
                r,
            ),
{
    producer.offer(process_event(bytes))
}

/// Offers the memory event that a ring buffer item holds to the subscriber.
pub fn convert_mem_events(producer: &mut Producer<MemoryEvent>, bytes: &[u8]) -> (r: Handoff<
    MemoryEvent,
>)
    ensures
        exists|event: Option<MemoryEvent>| #[trigger]
            MemoryEvent::converted(bytes@, event) && handoff::offered(
                *old(producer),
                event,
                *final(producer),
                r,
            ),
{
    producer.offer(memory_event(bytes))
}

/// Offers the file event that comes of a ring buffer item to the subscriber.
pub fn convert_file_events(
    producer: &mut Producer<FileEvent>,
    bytes: &[u8],
    pending: &mut PendingRenames,
) -> (r: Handoff<FileEvent>)
    ensures
        exists|event: Option<FileEvent>| #[trigger]
            FileEvent::converted(bytes@, *old(pending), *final(pending), event) && handoff::offered(
                *old(producer),
                event,
                *final(producer),
                r,
            ),
        old(pending).well_formed() ==> final(pending).well_formed(),
{
    let event = file_event(bytes, pending);
    producer.offer(event)
}

} // verus!
