//! What every event says of the record that it comes of, field by field.
use crate::common;
use crate::common::EventHeader;
use crate::convert;
use crate::file::{FileEvent, FileType};
use crate::ip::IpAddr;
use crate::memory::MemoryEvent;
use crate::network::{NetworkEvent, Protocol, SocketEndpoints};
use crate::process::ProcessEvent;
use crate::raw::{
    EventType, FileModeFilter, IpVersion, PendingConnect, RawEventHeader, RawFileCloseEvent,
    RawFileDeleteEvent, RawFileOpenEvent, RawFileReadEvent, RawFileRenameEvent, RawFileRtrEvent,
    RawFileWriteEvent, RawMemoryMapEvent, RawMemoryUnmapEvent, RawProcessExitEvent,
    RawProcessForkEvent, RawProcessStartEvent, RawProtocol,
};
use crate::rename::PendingRenames;
use crate::text;
use vstd::prelude::*;

verus! {

/// `text` is the name in the zero-terminated field `field`: what stands in front
/// of the first zero byte, or in all of the field when it has none. A name in
/// ASCII has one character for each byte.
pub open spec fn spells(text: Seq<char>, field: Seq<u8>) -> bool {
    exists|n: int|
        {
            &&& 0 <= n <= field.len()
            &&& n < field.len() ==> field[n] == 0
            &&& forall|i: int| 0 <= i < n ==> #[trigger] field[i] != 0
            &&& text == text::utf8_lossy(#[trigger] field.take(n))
            &&& (forall|i: int| 0 <= i < n ==> #[trigger] field[i] < 128) ==> {
                &&& text.len() == n
                &&& forall|i: int| 0 <= i < n ==> #[trigger] text[i] as int == field[i]
            }
        }
}

/// The text of a name field is the name in it.
pub proof fn law_field_text(field: &[u8], name: String)
    requires
        call_ensures(text::field_text, (field,), name),
    ensures
        spells(name@, field@),
{
    lemma_spells(name@, field@);
}

/// A field holds one name: two texts that it spells are the same.
pub proof fn law_one_name(field: Seq<u8>, a: Seq<char>, b: Seq<char>)
    requires
        spells(a, field),
        spells(b, field),
    ensures
        a == b,
{
    let m = choose|n: int|
        {
            &&& 0 <= n <= field.len()
            &&& n < field.len() ==> field[n] == 0
            &&& forall|i: int| 0 <= i < n ==> #[trigger] field[i] != 0
            &&& a == text::utf8_lossy(#[trigger] field.take(n))
            &&& (forall|i: int| 0 <= i < n ==> #[trigger] field[i] < 128) ==> {
                &&& a.len() == n
                &&& forall|i: int| 0 <= i < n ==> #[trigger] a[i] as int == field[i]
            }
        };
    let n = choose|n: int|
        {
            &&& 0 <= n <= field.len()
            &&& n < field.len() ==> field[n] == 0
            &&& forall|i: int| 0 <= i < n ==> #[trigger] field[i] != 0
            &&& b == text::utf8_lossy(#[trigger] field.take(n))
            &&& (forall|i: int| 0 <= i < n ==> #[trigger] field[i] < 128) ==> {
                &&& b.len() == n
                &&& forall|i: int| 0 <= i < n ==> #[trigger] b[i] as int == field[i]
            }
        };
    assert(m == n);
}

/// What a field reads as is the name in it.
pub proof fn lemma_spells(text: Seq<char>, field: Seq<u8>)
    requires
        text::reads_as(text, field),
    ensures
        spells(text, field),
{
    text::law_until_nul(field);
    let name = text::until_nul(field);
    let n = name.len() as int;
    assert(field.take(n) == name);
    assert forall|i: int| 0 <= i < n implies #[trigger] field[i] != 0 by {
        assert(name[i] == field[i]);
    }
    if forall|i: int| 0 <= i < n ==> #[trigger] field[i] < 128 {
        assert forall|i: int| 0 <= i < name.len() implies #[trigger] name[i] < 128 by {
            assert(name[i] == field[i]);
        }
        assert(text::ascii_bytes(name));
        assert forall|i: int| 0 <= i < n implies #[trigger] text[i] as int == field[i] by {
            assert(text[i] == name[i] as char);
        }
    }
}

/// `kind` is the type that the single bit `mode` stands for, and the unknown one
/// when `mode` is not one of the seven bits.
pub open spec fn type_of_bit(kind: FileType, mode: u16) -> bool {
    match kind {
        FileType::Regular => mode == 1,
        FileType::Directory => mode == 2,
        FileType::CharDevice => mode == 4,
        FileType::BlockDevice => mode == 8,
        FileType::Fifo => mode == 16,
        FileType::Symlink => mode == 32,
        FileType::Socket => mode == 64,
        FileType::Unknown => mode != 1 && mode != 2 && mode != 4 && mode != 8 && mode != 16 && mode
            != 32 && mode != 64,
    }
}

/// A single bit stands for a type of its own.
pub proof fn law_type_of_bit(mode: FileModeFilter, kind: FileType)
    requires
        call_ensures(<FileType as From<FileModeFilter>>::from, (mode,), kind),
    ensures
        type_of_bit(kind, mode.mode),
        type_of_bit(FileType::of_mode(mode.mode), mode.mode),
{
}

/// `ip` is the address of version `version` in `field`: the first four bytes for
/// IPv4, all sixteen for IPv6, in order.
pub open spec fn address_in(ip: IpAddr, version: IpVersion, field: Seq<u8>) -> bool {
    match version {
        IpVersion::V4 => ip matches IpAddr::V4(bytes) && bytes@[0] == field[0] && bytes@[1]
            == field[1] && bytes@[2] == field[2] && bytes@[3] == field[3],
        IpVersion::V6 => ip matches IpAddr::V6(bytes) && forall|i: int|
            0 <= i < 16 ==> #[trigger] bytes@[i] == field[i],
    }
}

/// The header of an event says what the header of its record says.
pub proof fn law_header_is_kept(raw: RawEventHeader, header: EventHeader)
    requires
        call_ensures(common::convert_header, (raw,), header),
    ensures
        header.timestamp_ns == raw.timestamp_ns,
        header.pid == raw.pid,
        header.tid == raw.tid,
        header.ppid == raw.ppid,
        header.uid == raw.uid,
        header.gid == raw.gid,
        spells(header.comm@, raw.comm@),
{
    lemma_spells(header.comm@, raw.comm@);
}

/// A header that describes another says what that says.
pub proof fn lemma_header(raw: RawEventHeader, header: EventHeader)
    requires
        header.describes(raw),
    ensures
        header.timestamp_ns == raw.timestamp_ns,
        header.pid == raw.pid,
        header.tid == raw.tid,
        header.ppid == raw.ppid,
        header.uid == raw.uid,
        header.gid == raw.gid,
        spells(header.comm@, raw.comm@),
{
    lemma_spells(header.comm@, raw.comm@);
}

/// A socket operation is parsed into the header and the endpoints of its record:
/// the source is the local end, the destination the remote one.
pub proof fn law_parsed_socket(record: PendingConnect, r: (EventHeader, SocketEndpoints))
    requires
        call_ensures(convert::parse_network_event, (&record,), r),
    ensures
        r.0.timestamp_ns == record.header.timestamp_ns,
        r.0.pid == record.header.pid,
        r.0.tid == record.header.tid,
        r.0.ppid == record.header.ppid,
        r.0.uid == record.header.uid,
        r.0.gid == record.header.gid,
        spells(r.0.comm@, record.header.comm@),
        address_in(r.1.local_ip, record.ip_version, record.src_addr@),
        address_in(r.1.remote_ip, record.ip_version, record.dst_addr@),
        r.1.local_port == record.src_port,
        r.1.remote_port == record.dst_port,
{
    lemma_header(record.header, r.0);
    lemma_address(r.1.local_ip, record.ip_version, record.src_addr@);
    lemma_address(r.1.remote_ip, record.ip_version, record.dst_addr@);
}

/// An address that is the one of a field has its bytes in order.
pub proof fn lemma_address(ip: IpAddr, version: IpVersion, field: Seq<u8>)
    requires
        convert::is_address(ip, version, field),
        field.len() == 16,
    ensures
        address_in(ip, version, field),
{
    if let IpAddr::V4(bytes) = ip {
        assert(bytes@ == field.take(4));
        assert(bytes@[0] == field[0]);
    }
}

/// A connect gives an event exactly when it has a result that is no failure, over
/// either IP version and either protocol, and the event says what the record
/// says.
pub proof fn law_connect_fields(record: PendingConnect, bytes: &[u8], r: Option<NetworkEvent>)
    requires
        record.held_in(bytes@),
        record.header.event_type is Connect,
        call_ensures(convert::network_event, (bytes,), r),
    ensures
        (record.retval matches Some(retval) && retval >= 0)
            ==> r matches Some(NetworkEvent::Connect(_)),
        !(record.retval matches Some(retval) && retval >= 0) ==> r is None,
        r matches Some(NetworkEvent::Connect(event)) ==> {
            &&& event.header.timestamp_ns == record.header.timestamp_ns
            &&& event.header.pid == record.header.pid
            &&& event.header.tid == record.header.tid
            &&& event.header.ppid == record.header.ppid
            &&& event.header.uid == record.header.uid
            &&& event.header.gid == record.header.gid
            &&& spells(event.header.comm@, record.header.comm@)
            &&& event.protocol == (match record.protocol {
                RawProtocol::Tcp => Protocol::Tcp,
                RawProtocol::Udp => Protocol::Udp,
            })
            &&& address_in(event.endpoints.local_ip, record.ip_version, record.src_addr@)
            &&& address_in(event.endpoints.remote_ip, record.ip_version, record.dst_addr@)
            &&& event.endpoints.local_port == record.src_port
            &&& event.endpoints.remote_port == record.dst_port
            &&& record.retval == Some(event.retval)
        },
{
    record.law_round_trip(bytes@);
    if let Some(NetworkEvent::Connect(event)) = r {
        lemma_header(record.header, event.header);
        lemma_address(event.endpoints.local_ip, record.ip_version, record.src_addr@);
        lemma_address(event.endpoints.remote_ip, record.ip_version, record.dst_addr@);
    }
}

/// The event of a connect says what the record says, field by field.
pub proof fn law_connect_handled(record: PendingConnect, r: Option<NetworkEvent>)
    requires
        record.retval is Some,
        call_ensures(convert::handle_connect, (&record,), r),
    ensures
        (record.retval matches Some(retval) && retval >= 0) ==> r matches Some(
            NetworkEvent::Connect(_),
        ),
        (record.retval matches Some(retval) && retval < 0) ==> r is None,
        r matches Some(NetworkEvent::Connect(event)) ==> {
            &&& event.header.timestamp_ns == record.header.timestamp_ns
            &&& event.header.pid == record.header.pid
            &&& event.header.tid == record.header.tid
            &&& event.header.ppid == record.header.ppid
            &&& event.header.uid == record.header.uid
            &&& event.header.gid == record.header.gid
            &&& spells(event.header.comm@, record.header.comm@)
            &&& event.protocol == (match record.protocol {
                RawProtocol::Tcp => Protocol::Tcp,
                RawProtocol::Udp => Protocol::Udp,
            })
            &&& address_in(event.endpoints.local_ip, record.ip_version, record.src_addr@)
            &&& address_in(event.endpoints.remote_ip, record.ip_version, record.dst_addr@)
            &&& event.endpoints.local_port == record.src_port
            &&& event.endpoints.remote_port == record.dst_port
            &&& record.retval == Some(event.retval)
        },
{
    if let Some(NetworkEvent::Connect(event)) = r {
        lemma_header(record.header, event.header);
        lemma_address(event.endpoints.local_ip, record.ip_version, record.src_addr@);
        lemma_address(event.endpoints.remote_ip, record.ip_version, record.dst_addr@);
    }
}

/// An accept always gives an event, over either IP version, and the event says what
/// the record says.
pub proof fn law_accept_fields(record: PendingConnect, bytes: &[u8], r: Option<NetworkEvent>)
    requires
        record.held_in(bytes@),
        record.header.event_type is Accept,
        call_ensures(convert::network_event, (bytes,), r),
    ensures
        r matches Some(NetworkEvent::Accept(_)),
        r matches Some(NetworkEvent::Accept(event)) ==> {
            &&& event.header.timestamp_ns == record.header.timestamp_ns
            &&& event.header.pid == record.header.pid
            &&& event.header.tid == record.header.tid
            &&& event.header.ppid == record.header.ppid
            &&& event.header.uid == record.header.uid
            &&& event.header.gid == record.header.gid
            &&& spells(event.header.comm@, record.header.comm@)
            &&& event.protocol is Tcp
            &&& address_in(event.endpoints.local_ip, record.ip_version, record.src_addr@)
            &&& address_in(event.endpoints.remote_ip, record.ip_version, record.dst_addr@)
            &&& event.endpoints.local_port == record.src_port
            &&& event.endpoints.remote_port == record.dst_port
        },
{
    record.law_round_trip(bytes@);
    if let Some(NetworkEvent::Accept(event)) = r {
        lemma_header(record.header, event.header);
        lemma_address(event.endpoints.local_ip, record.ip_version, record.src_addr@);
        lemma_address(event.endpoints.remote_ip, record.ip_version, record.dst_addr@);
    }
}

/// The event of an accept says what the record says, field by field.
pub proof fn law_accept_handled(record: PendingConnect, r: NetworkEvent)
    requires
        call_ensures(convert::handle_tcp_accept, (&record,), r),
    ensures
        r is Accept,
        r matches NetworkEvent::Accept(event) ==> {
            &&& event.header.timestamp_ns == record.header.timestamp_ns
            &&& event.header.pid == record.header.pid
            &&& event.header.tid == record.header.tid
            &&& event.header.ppid == record.header.ppid
            &&& event.header.uid == record.header.uid
            &&& event.header.gid == record.header.gid
            &&& spells(event.header.comm@, record.header.comm@)
            &&& event.protocol is Tcp
            &&& address_in(event.endpoints.local_ip, record.ip_version, record.src_addr@)
            &&& address_in(event.endpoints.remote_ip, record.ip_version, record.dst_addr@)
            &&& event.endpoints.local_port == record.src_port
            &&& event.endpoints.remote_port == record.dst_port
        },
{
    if let NetworkEvent::Accept(event) = r {
        lemma_header(record.header, event.header);
        lemma_address(event.endpoints.local_ip, record.ip_version, record.src_addr@);
        lemma_address(event.endpoints.remote_ip, record.ip_version, record.dst_addr@);
    }
}

/// A close always gives an event, over either IP version, and the event says what
/// the record says.
pub proof fn law_close_fields(record: PendingConnect, bytes: &[u8], r: Option<NetworkEvent>)
    requires
        record.held_in(bytes@),
        record.header.event_type is Close,
        call_ensures(convert::network_event, (bytes,), r),
    ensures
        r matches Some(NetworkEvent::Close(_)),
        r matches Some(NetworkEvent::Close(event)) ==> {
            &&& event.header.timestamp_ns == record.header.timestamp_ns
            &&& event.header.pid == record.header.pid
            &&& event.header.tid == record.header.tid
            &&& event.header.ppid == record.header.ppid
            &&& event.header.uid == record.header.uid
            &&& event.header.gid == record.header.gid
            &&& spells(event.header.comm@, record.header.comm@)
            &&& event.protocol == (match record.protocol {
                RawProtocol::Tcp => Protocol::Tcp,
                RawProtocol::Udp => Protocol::Udp,
            })
            &&& address_in(event.endpoints.local_ip, record.ip_version, record.src_addr@)
            &&& address_in(event.endpoints.remote_ip, record.ip_version, record.dst_addr@)
            &&& event.endpoints.local_port == record.src_port
            &&& event.endpoints.remote_port == record.dst_port
        },
{
    record.law_round_trip(bytes@);
    if let Some(NetworkEvent::Close(event)) = r {
        lemma_header(record.header, event.header);
        lemma_address(event.endpoints.local_ip, record.ip_version, record.src_addr@);
        lemma_address(event.endpoints.remote_ip, record.ip_version, record.dst_addr@);
    }
}

/// The event of a close says what the record says, field by field.
pub proof fn law_close_handled(record: PendingConnect, r: NetworkEvent)
    requires
        call_ensures(convert::handle_close, (&record,), r),
    ensures
        r is Close,
        r matches NetworkEvent::Close(event) ==> {
            &&& event.header.timestamp_ns == record.header.timestamp_ns
            &&& event.header.pid == record.header.pid
            &&& event.header.tid == record.header.tid
            &&& event.header.ppid == record.header.ppid
            &&& event.header.uid == record.header.uid
            &&& event.header.gid == record.header.gid
            &&& spells(event.header.comm@, record.header.comm@)
            &&& event.protocol == (match record.protocol {
                RawProtocol::Tcp => Protocol::Tcp,
                RawProtocol::Udp => Protocol::Udp,
            })
            &&& address_in(event.endpoints.local_ip, record.ip_version, record.src_addr@)
            &&& address_in(event.endpoints.remote_ip, record.ip_version, record.dst_addr@)
            &&& event.endpoints.local_port == record.src_port
            &&& event.endpoints.remote_port == record.dst_port
        },
{
    if let NetworkEvent::Close(event) = r {
        lemma_header(record.header, event.header);
        lemma_address(event.endpoints.local_ip, record.ip_version, record.src_addr@);
        lemma_address(event.endpoints.remote_ip, record.ip_version, record.dst_addr@);
    }
}

/// A bind gives an event exactly when it has a result, over either IP version,
/// and the event says what the record says.
pub proof fn law_bind_fields(record: PendingConnect, bytes: &[u8], r: Option<NetworkEvent>)
    requires
        record.held_in(bytes@),
        record.header.event_type is Bind,
        call_ensures(convert::network_event, (bytes,), r),
    ensures
        record.retval is Some ==> r matches Some(NetworkEvent::Bind(_)),
        record.retval is None ==> r is None,
        r matches Some(NetworkEvent::Bind(event)) ==> {
            &&& event.header.timestamp_ns == record.header.timestamp_ns
            &&& event.header.pid == record.header.pid
            &&& event.header.tid == record.header.tid
            &&& event.header.ppid == record.header.ppid
            &&& event.header.uid == record.header.uid
            &&& event.header.gid == record.header.gid
            &&& spells(event.header.comm@, record.header.comm@)
            &&& event.protocol is Tcp
            &&& address_in(event.endpoints.local_ip, record.ip_version, record.src_addr@)
            &&& address_in(event.endpoints.remote_ip, record.ip_version, record.dst_addr@)
            &&& event.endpoints.local_port == record.src_port
            &&& event.endpoints.remote_port == record.dst_port
            &&& record.retval == Some(event.retval)
        },
{
    record.law_round_trip(bytes@);
    if let Some(NetworkEvent::Bind(event)) = r {
        lemma_header(record.header, event.header);
        lemma_address(event.endpoints.local_ip, record.ip_version, record.src_addr@);
        lemma_address(event.endpoints.remote_ip, record.ip_version, record.dst_addr@);
    }
}

/// The event of a bind says what the record says, field by field.
pub proof fn law_bind_handled(record: PendingConnect, r: NetworkEvent)
    requires
        record.retval is Some,
        call_ensures(convert::handle_bind, (&record,), r),
    ensures
        r is Bind,
        r matches NetworkEvent::Bind(event) ==> {
            &&& event.header.timestamp_ns == record.header.timestamp_ns
            &&& event.header.pid == record.header.pid
            &&& event.header.tid == record.header.tid
            &&& event.header.ppid == record.header.ppid
            &&& event.header.uid == record.header.uid
            &&& event.header.gid == record.header.gid
            &&& spells(event.header.comm@, record.header.comm@)
            &&& event.protocol is Tcp
            &&& address_in(event.endpoints.local_ip, record.ip_version, record.src_addr@)
            &&& address_in(event.endpoints.remote_ip, record.ip_version, record.dst_addr@)
            &&& event.endpoints.local_port == record.src_port
            &&& event.endpoints.remote_port == record.dst_port
            &&& record.retval == Some(event.retval)
        },
{
    if let NetworkEvent::Bind(event) = r {
        lemma_header(record.header, event.header);
        lemma_address(event.endpoints.local_ip, record.ip_version, record.src_addr@);
        lemma_address(event.endpoints.remote_ip, record.ip_version, record.dst_addr@);
    }
}

/// A listen gives an event exactly when it has a result, over either IP version,
/// and the event says what the record says.
pub proof fn law_listen_fields(record: PendingConnect, bytes: &[u8], r: Option<NetworkEvent>)
    requires
        record.held_in(bytes@),
        record.header.event_type is Listen,
        call_ensures(convert::network_event, (bytes,), r),
    ensures
        record.retval is Some ==> r matches Some(NetworkEvent::Listen(_)),
        record.retval is None ==> r is None,
        r matches Some(NetworkEvent::Listen(event)) ==> {
            &&& event.header.timestamp_ns == record.header.timestamp_ns
            &&& event.header.pid == record.header.pid
            &&& event.header.tid == record.header.tid
            &&& event.header.ppid == record.header.ppid
            &&& event.header.uid == record.header.uid
            &&& event.header.gid == record.header.gid
            &&& spells(event.header.comm@, record.header.comm@)
            &&& event.protocol is Tcp
            &&& address_in(event.endpoints.local_ip, record.ip_version, record.src_addr@)
            &&& address_in(event.endpoints.remote_ip, record.ip_version, record.dst_addr@)
            &&& event.endpoints.local_port == record.src_port
            &&& event.endpoints.remote_port == record.dst_port
            &&& record.retval == Some(event.retval)
        },
{
    record.law_round_trip(bytes@);
    if let Some(NetworkEvent::Listen(event)) = r {
        lemma_header(record.header, event.header);
        lemma_address(event.endpoints.local_ip, record.ip_version, record.src_addr@);
        lemma_address(event.endpoints.remote_ip, record.ip_version, record.dst_addr@);
    }
}

/// The event of a listen says what the record says, field by field.
pub proof fn law_listen_handled(record: PendingConnect, r: NetworkEvent)
    requires
        record.retval is Some,
        call_ensures(convert::handle_listen, (&record,), r),
    ensures
        r is Listen,
        r matches NetworkEvent::Listen(event) ==> {
            &&& event.header.timestamp_ns == record.header.timestamp_ns
            &&& event.header.pid == record.header.pid
            &&& event.header.tid == record.header.tid
            &&& event.header.ppid == record.header.ppid
            &&& event.header.uid == record.header.uid
            &&& event.header.gid == record.header.gid
            &&& spells(event.header.comm@, record.header.comm@)
            &&& event.protocol is Tcp
            &&& address_in(event.endpoints.local_ip, record.ip_version, record.src_addr@)
            &&& address_in(event.endpoints.remote_ip, record.ip_version, record.dst_addr@)
            &&& event.endpoints.local_port == record.src_port
            &&& event.endpoints.remote_port == record.dst_port
            &&& record.retval == Some(event.retval)
        },
{
    if let NetworkEvent::Listen(event) = r {
        lemma_header(record.header, event.header);
        lemma_address(event.endpoints.local_ip, record.ip_version, record.src_addr@);
        lemma_address(event.endpoints.remote_ip, record.ip_version, record.dst_addr@);
    }
}

/// Every record of a connect, accept, close, bind or listen gives an event, over
/// either IP version, unless it is a connect that failed or lacks a result that it
/// must have. No other record gives one.
pub proof fn law_socket_operations_are_reported(
    record: PendingConnect,
    bytes: &[u8],
    r: Option<NetworkEvent>,
)
    requires
        record.held_in(bytes@),
        call_ensures(convert::network_event, (bytes,), r),
    ensures
        match record.header.event_type {
            EventType::Accept => r is Some,
            EventType::Close => r is Some,
            EventType::Bind => r is Some <==> record.retval is Some,
            EventType::Listen => r is Some <==> record.retval is Some,
            EventType::Connect => match record.retval {
                Some(retval) => r is Some <==> retval >= 0,
                None => r is None,
            },
            _ => r is None,
        },
{
    record.law_round_trip(bytes@);
}

/// Whether a socket operation is reported does not depend on the IP version, the
/// protocol, the ports, the addresses or the task.
pub proof fn law_reporting_depends_on_operation_and_result(
    a: PendingConnect,
    b: PendingConnect,
    a_bytes: &[u8],
    b_bytes: &[u8],
    a_event: Option<NetworkEvent>,
    b_event: Option<NetworkEvent>,
)
    requires
        a.held_in(a_bytes@),
        b.held_in(b_bytes@),
        a.header.event_type == b.header.event_type,
        a.retval == b.retval,
        call_ensures(convert::network_event, (a_bytes,), a_event),
        call_ensures(convert::network_event, (b_bytes,), b_event),
    ensures
        a_event is Some <==> b_event is Some,
{
    a.law_round_trip(a_bytes@);
    b.law_round_trip(b_bytes@);
}

/// The record of a process start gives an event that says what the record says.
pub proof fn law_start_fields(
    record: RawProcessStartEvent,
    bytes: &[u8],
    r: Option<ProcessEvent>,
)
    requires
        record.held_in(bytes@),
        record.header.event_type is ProcessStart,
        call_ensures(convert::process_event, (bytes,), r),
    ensures
        r matches Some(ProcessEvent::Start(event)) && {
            &&& event.header.timestamp_ns == record.header.timestamp_ns
            &&& event.header.pid == record.header.pid
            &&& event.header.tid == record.header.tid
            &&& event.header.ppid == record.header.ppid
            &&& event.header.uid == record.header.uid
            &&& event.header.gid == record.header.gid
            &&& spells(event.header.comm@, record.header.comm@)
            &&& spells(event.filename@, record.filename@)
        },
{
    record.law_round_trip(bytes@);
    record.header.law_round_trip(bytes@);
    if let Some(ProcessEvent::Start(event)) = r {
        lemma_header(record.header, event.header);
        lemma_spells(event.filename@, record.filename@);
    }
}

/// The record of a process exit gives an event that says what the record says.
pub proof fn law_exit_fields(
    record: RawProcessExitEvent,
    bytes: &[u8],
    r: Option<ProcessEvent>,
)
    requires
        record.held_in(bytes@),
        record.header.event_type is ProcessExit,
        call_ensures(convert::process_event, (bytes,), r),
    ensures
        r matches Some(ProcessEvent::Exit(event)) && {
            &&& event.header.timestamp_ns == record.header.timestamp_ns
            &&& event.header.pid == record.header.pid
            &&& event.header.tid == record.header.tid
            &&& event.header.ppid == record.header.ppid
            &&& event.header.uid == record.header.uid
            &&& event.header.gid == record.header.gid
            &&& spells(event.header.comm@, record.header.comm@)
            &&& event.exit_code == record.exit_code
        },
{
    record.law_round_trip(bytes@);
    record.header.law_round_trip(bytes@);
    if let Some(ProcessEvent::Exit(event)) = r {
        lemma_header(record.header, event.header);
    }
}

/// The record of a fork gives an event that says what the record says.
pub proof fn law_fork_fields(
    record: RawProcessForkEvent,
    bytes: &[u8],
    r: Option<ProcessEvent>,
)
    requires
        record.held_in(bytes@),
        record.parent.event_type is ProcessFork,
        call_ensures(convert::process_event, (bytes,), r),
    ensures
        r matches Some(ProcessEvent::Fork(event)) && {
            &&& event.parent.timestamp_ns == record.parent.timestamp_ns
            &&& event.parent.pid == record.parent.pid
            &&& event.parent.tid == record.parent.tid
            &&& event.parent.ppid == record.parent.ppid
            &&& event.parent.uid == record.parent.uid
            &&& event.parent.gid == record.parent.gid
            &&& spells(event.parent.comm@, record.parent.comm@)
            &&& event.child_pid == record.child_pid
            &&& spells(event.child_comm@, record.child_comm@)
        },
{
    record.law_round_trip(bytes@);
    record.parent.law_round_trip(bytes@);
    if let Some(ProcessEvent::Fork(event)) = r {
        lemma_header(record.parent, event.parent);
        lemma_spells(event.child_comm@, record.child_comm@);
    }
}

/// The record of a mapping gives an event that says what the record says.
pub proof fn law_mapping_fields(
    record: RawMemoryMapEvent,
    bytes: &[u8],
    r: Option<MemoryEvent>,
)
    requires
        record.held_in(bytes@),
        record.header.event_type is MemoryMap,
        call_ensures(convert::memory_event, (bytes,), r),
    ensures
        r matches Some(MemoryEvent::MemoryMap(event)) && {
            &&& event.header.timestamp_ns == record.header.timestamp_ns
            &&& event.header.pid == record.header.pid
            &&& event.header.tid == record.header.tid
            &&& event.header.ppid == record.header.ppid
            &&& event.header.uid == record.header.uid
            &&& event.header.gid == record.header.gid
            &&& spells(event.header.comm@, record.header.comm@)
            &&& event.requested_address == record.requested_address
            &&& event.length == record.length
            &&& event.protection == record.protection
            &&& event.flags == record.flags
            &&& event.mapped_address == record.mapped_address
        },
{
    record.law_round_trip(bytes@);
    record.header.law_round_trip(bytes@);
    if let Some(MemoryEvent::MemoryMap(event)) = r {
        lemma_header(record.header, event.header);
    }
}

/// The record of a removed mapping gives an event that says what the record
/// says.
pub proof fn law_removal_fields(
    record: RawMemoryUnmapEvent,
    bytes: &[u8],
    r: Option<MemoryEvent>,
)
    requires
        record.held_in(bytes@),
        record.header.event_type is MemoryUnMap,
        call_ensures(convert::memory_event, (bytes,), r),
    ensures
        r matches Some(MemoryEvent::MemoryUnMap(event)) && {
            &&& event.header.timestamp_ns == record.header.timestamp_ns
            &&& event.header.pid == record.header.pid
            &&& event.header.tid == record.header.tid
            &&& event.header.ppid == record.header.ppid
            &&& event.header.uid == record.header.uid
            &&& event.header.gid == record.header.gid
            &&& spells(event.header.comm@, record.header.comm@)
            &&& event.requested_address == record.requested_address
            &&& event.length == record.length
            &&& event.mapped_address == record.mapped_address
        },
{
    record.law_round_trip(bytes@);
    record.header.law_round_trip(bytes@);
    if let Some(MemoryEvent::MemoryUnMap(event)) = r {
        lemma_header(record.header, event.header);
    }
}

/// The record of an open gives an event that says what the record says, and leaves
/// the pending renames alone.
pub proof fn law_file_open_fields(
    record: RawFileOpenEvent,
    b: Seq<u8>,
    before: PendingRenames,
    after: PendingRenames,
    r: Option<FileEvent>,
)
    requires
        record.held_in(b),
        record.header.event_type is FileOpen,
        FileEvent::converted(b, before, after, r),
    ensures
        after@ == before@,
        r matches Some(FileEvent::Open(event)) && {
            &&& event.header.timestamp_ns == record.header.timestamp_ns
            &&& event.header.pid == record.header.pid
            &&& event.header.tid == record.header.tid
            &&& event.header.ppid == record.header.ppid
            &&& event.header.uid == record.header.uid
            &&& event.header.gid == record.header.gid
            &&& spells(event.header.comm@, record.header.comm@)
            &&& spells(event.file_path@, record.filename@)
            &&& type_of_bit(event.file_type, record.file_mode.mode)
            &&& event.inode == record.inode
            &&& event.retval == record.retval
            &&& event.flags == record.flags
        },
{
    record.law_round_trip(b);
    record.header.law_round_trip(b);
    if let Some(FileEvent::Open(event)) = r {
        lemma_header(record.header, event.header);
        lemma_spells(event.file_path@, record.filename@);
    }
}

/// The record of a close gives an event that says what the record says, and leaves
/// the pending renames alone.
pub proof fn law_file_close_fields(
    record: RawFileCloseEvent,
    b: Seq<u8>,
    before: PendingRenames,
    after: PendingRenames,
    r: Option<FileEvent>,
)
    requires
        record.held_in(b),
        record.header.event_type is FileClose,
        FileEvent::converted(b, before, after, r),
    ensures
        after@ == before@,
        r matches Some(FileEvent::Close(event)) && {
            &&& event.header.timestamp_ns == record.header.timestamp_ns
            &&& event.header.pid == record.header.pid
            &&& event.header.tid == record.header.tid
            &&& event.header.ppid == record.header.ppid
            &&& event.header.uid == record.header.uid
            &&& event.header.gid == record.header.gid
            &&& spells(event.header.comm@, record.header.comm@)
            &&& spells(event.file_path@, record.filename@)
            &&& type_of_bit(event.file_type, record.file_mode.mode)
            &&& event.inode == record.inode
            &&& event.retval == record.retval
            &&& event.flags == record.flags
        },
{
    record.law_round_trip(b);
    record.header.law_round_trip(b);
    if let Some(FileEvent::Close(event)) = r {
        lemma_header(record.header, event.header);
        lemma_spells(event.file_path@, record.filename@);
    }
}

/// The record of a read gives an event that says what the record says, and leaves
/// the pending renames alone.
pub proof fn law_file_read_fields(
    record: RawFileReadEvent,
    b: Seq<u8>,
    before: PendingRenames,
    after: PendingRenames,
    r: Option<FileEvent>,
)
    requires
        record.held_in(b),
        record.header.event_type is FileRead,
        FileEvent::converted(b, before, after, r),
    ensures
        after@ == before@,
        r matches Some(FileEvent::Read(event)) && {
            &&& event.header.timestamp_ns == record.header.timestamp_ns
            &&& event.header.pid == record.header.pid
            &&& event.header.tid == record.header.tid
            &&& event.header.ppid == record.header.ppid
            &&& event.header.uid == record.header.uid
            &&& event.header.gid == record.header.gid
            &&& spells(event.header.comm@, record.header.comm@)
            &&& spells(event.file_path@, record.filename@)
            &&& type_of_bit(event.file_type, record.file_mode.mode)
            &&& event.inode == record.inode
            &&& event.retval == record.retval
            &&& event.flags == record.flags
        },
{
    record.law_round_trip(b);
    record.header.law_round_trip(b);
    if let Some(FileEvent::Read(event)) = r {
        lemma_header(record.header, event.header);
        lemma_spells(event.file_path@, record.filename@);
    }
}

/// The record of a write gives an event that says what the record says, and leaves
/// the pending renames alone.
pub proof fn law_file_write_fields(
    record: RawFileWriteEvent,
    b: Seq<u8>,
    before: PendingRenames,
    after: PendingRenames,
    r: Option<FileEvent>,
)
    requires
        record.held_in(b),
        record.header.event_type is FileWrite,
        FileEvent::converted(b, before, after, r),
    ensures
        after@ == before@,
        r matches Some(FileEvent::Write(event)) && {
            &&& event.header.timestamp_ns == record.header.timestamp_ns
            &&& event.header.pid == record.header.pid
            &&& event.header.tid == record.header.tid
            &&& event.header.ppid == record.header.ppid
            &&& event.header.uid == record.header.uid
            &&& event.header.gid == record.header.gid
            &&& spells(event.header.comm@, record.header.comm@)
            &&& spells(event.file_path@, record.filename@)
            &&& type_of_bit(event.file_type, record.file_mode.mode)
            &&& event.inode == record.inode
            &&& event.retval == record.retval
            &&& event.flags == record.flags
        },
{
    record.law_round_trip(b);
    record.header.law_round_trip(b);
    if let Some(FileEvent::Write(event)) = r {
        lemma_header(record.header, event.header);
        lemma_spells(event.file_path@, record.filename@);
    }
}

/// The record of a deletion gives an event that says what the record says, and
/// leaves the pending renames alone.
pub proof fn law_deletion_fields(
    record: RawFileDeleteEvent,
    b: Seq<u8>,
    before: PendingRenames,
    after: PendingRenames,
    r: Option<FileEvent>,
)
    requires
        record.held_in(b),
        record.header.event_type is FileDelete,
        FileEvent::converted(b, before, after, r),
    ensures
        after@ == before@,
        r matches Some(FileEvent::Delete(event)) && {
            &&& event.header.timestamp_ns == record.header.timestamp_ns
            &&& event.header.pid == record.header.pid
            &&& event.header.tid == record.header.tid
            &&& event.header.ppid == record.header.ppid
            &&& event.header.uid == record.header.uid
            &&& event.header.gid == record.header.gid
            &&& spells(event.header.comm@, record.header.comm@)
            &&& spells(event.filename@, record.filename@)
            &&& type_of_bit(event.file_type, record.file_mode.mode)
            &&& event.retval == record.retval
        },
{
    record.law_round_trip(b);
    record.header.law_round_trip(b);
    if let Some(FileEvent::Delete(event)) = r {
        lemma_header(record.header, event.header);
        lemma_spells(event.filename@, record.filename@);
    }
}

/// Whatever a rename returns, its two records give one event, when the second of
/// them comes: the old name is the one in the old name field of the start, the new
/// name the one in its new name field, and the result is that of the end. The
/// rest is that of the start too. Nothing of the rename stays pending.
pub proof fn law_rename_fields(
    start: RawFileRenameEvent,
    end: RawFileRtrEvent,
    b1: Seq<u8>,
    b2: Seq<u8>,
    before: PendingRenames,
    between: PendingRenames,
    after: PendingRenames,
    r1: Option<FileEvent>,
    r2: Option<FileEvent>,
)
    requires
        start.held_in(b1),
        start.header.event_type is FileRename,
        before@.dom().len() < 1024,
        FileEvent::converted(b1, before, between, r1),
        end.held_in(b2),
        end.header.event_type is PendingFileRename,
        end.header.pid == start.header.pid,
        end.header.tid == start.header.tid,
        FileEvent::converted(b2, between, after, r2),
    ensures
        r1 is None,
        r2 matches Some(FileEvent::Rename(event)) && {
            &&& event.header.timestamp_ns == start.header.timestamp_ns
            &&& event.header.pid == start.header.pid
            &&& event.header.tid == start.header.tid
            &&& event.header.ppid == start.header.ppid
            &&& event.header.uid == start.header.uid
            &&& event.header.gid == start.header.gid
            &&& spells(event.header.comm@, start.header.comm@)
            &&& spells(event.old_filename@, start.old_filename@)
            &&& spells(event.new_filename@, start.new_filename@)
            &&& type_of_bit(event.file_type, start.file_mode.mode)
            &&& event.flags == start.flags
            &&& event.retval == end.retval
        },
        !after@.contains_key((start.header.pid * 0x1_0000_0000 + start.header.tid) as u64),
{
    start.law_round_trip(b1);
    start.header.law_round_trip(b1);
    end.law_round_trip(b2);
    end.header.law_round_trip(b2);
    if let Some(FileEvent::Rename(event)) = r2 {
        lemma_header(start.header, event.header);
        lemma_spells(event.old_filename@, start.old_filename@);
        lemma_spells(event.new_filename@, start.new_filename@);
    }
}

/// The start of a rename is kept for its process and thread as it is, in place of
/// an earlier one of theirs. Starts of other tasks stay as they were. Where 1024
/// renames are pending already, nothing changes.
pub proof fn law_start_is_kept(
    start: RawFileRenameEvent,
    b: Seq<u8>,
    before: PendingRenames,
    after: PendingRenames,
    r: Option<FileEvent>,
    other: u64,
)
    requires
        start.held_in(b),
        start.header.event_type is FileRename,
        FileEvent::converted(b, before, after, r),
    ensures
        r is None,
        before@.dom().len() < 1024 ==> {
            let task = (start.header.pid * 0x1_0000_0000 + start.header.tid) as u64;
            &&& after@.contains_key(task)
            &&& after@[task] == start
            &&& other != task ==> (after@.contains_key(other) <==> before@.contains_key(other))
            &&& other != task && before@.contains_key(other) ==> after@[other] == before@[other]
        },
        before@.dom().len() >= 1024 ==> after@ == before@,
{
    start.law_round_trip(b);
    start.header.law_round_trip(b);
}

/// The end of a rename gives an event exactly when its process and thread have one
/// pending, and takes that one away; the others stay as they were. The event says
/// what the pending start says, with the result of the end.
pub proof fn law_end_takes_its_start(
    end: RawFileRtrEvent,
    b: Seq<u8>,
    before: PendingRenames,
    after: PendingRenames,
    r: Option<FileEvent>,
    other: u64,
)
    requires
        end.held_in(b),
        end.header.event_type is PendingFileRename,
        FileEvent::converted(b, before, after, r),
    ensures
        ({
            let task = (end.header.pid * 0x1_0000_0000 + end.header.tid) as u64;
            let start = before@[task];
            &&& r is Some <==> before@.contains_key(task)
            &&& !after@.contains_key(task)
            &&& other != task ==> (after@.contains_key(other) <==> before@.contains_key(other))
            &&& other != task && before@.contains_key(other) ==> after@[other] == before@[other]
            &&& r matches Some(event) ==> event matches FileEvent::Rename(event) && {
                &&& event.header.timestamp_ns == start.header.timestamp_ns
                &&& event.header.pid == start.header.pid
                &&& event.header.tid == start.header.tid
                &&& event.header.ppid == start.header.ppid
                &&& event.header.uid == start.header.uid
                &&& event.header.gid == start.header.gid
                &&& spells(event.header.comm@, start.header.comm@)
                &&& spells(event.old_filename@, start.old_filename@)
                &&& spells(event.new_filename@, start.new_filename@)
                &&& type_of_bit(event.file_type, start.file_mode.mode)
                &&& event.flags == start.flags
                &&& event.retval == end.retval
            }
        }),
{
    end.law_round_trip(b);
    end.header.law_round_trip(b);
    let task = (end.header.pid * 0x1_0000_0000 + end.header.tid) as u64;
    let start = before@[task];
    if let Some(FileEvent::Rename(event)) = r {
        lemma_header(start.header, event.header);
        lemma_spells(event.old_filename@, start.old_filename@);
        lemma_spells(event.new_filename@, start.new_filename@);
    }
}

/// A record that is none of a file operation gives no file event and leaves the
/// pending renames alone. So do bytes with no header in them.
pub proof fn law_other_records_give_no_file_event(
    header: RawEventHeader,
    b: Seq<u8>,
    before: PendingRenames,
    after: PendingRenames,
    r: Option<FileEvent>,
)
    requires
        FileEvent::converted(b, before, after, r),
    ensures
        header.held_in(b) && !(header.event_type is FileOpen) && !(header.event_type is FileClose)
            && !(header.event_type is FileRead) && !(header.event_type is FileWrite)
            && !(header.event_type is FileDelete) && !(header.event_type is FileRename)
            && !(header.event_type is PendingFileRename) ==> r is None && after@ == before@,
        b.len() < 56 ==> r is None && after@ == before@,
{
    if header.held_in(b) {
        header.law_round_trip(b);
    }
}

/// A record that is none of a process gives no process event, one that is none of
/// a mapping gives no memory event, and bytes with no header in them give no event
/// at all.
pub proof fn law_other_records_give_no_event(
    header: RawEventHeader,
    bytes: &[u8],
    process: Option<ProcessEvent>,
    memory: Option<MemoryEvent>,
    network: Option<NetworkEvent>,
)
    requires
        call_ensures(convert::process_event, (bytes,), process),
        call_ensures(convert::memory_event, (bytes,), memory),
        call_ensures(convert::network_event, (bytes,), network),
    ensures
        header.held_in(bytes@) && !(header.event_type is ProcessStart) && !(
        header.event_type is ProcessFork) && !(header.event_type is ProcessExit)
            ==> process is None,
        header.held_in(bytes@) && !(header.event_type is MemoryMap) && !(
        header.event_type is MemoryUnMap) ==> memory is None,
        bytes@.len() < 56 ==> process is None && memory is None && network is None,
{
    if header.held_in(bytes@) {
        header.law_round_trip(bytes@);
    }
}

} // verus!
