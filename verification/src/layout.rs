//! Where the fields of each record stand in its bytes.
use crate::raw::{
    EventType, PendingConnect, RawEventHeader, RawFileCloseEvent, RawFileDeleteEvent,
    RawFileOpenEvent, RawFileReadEvent, RawFileRenameEvent, RawFileRtrEvent, RawFileWriteEvent,
    RawMemoryMapEvent, RawMemoryUnmapEvent, RawProcessExitEvent, RawProcessForkEvent,
    RawProcessStartEvent, RawProtocol,
};
use crate::wire;
use vstd::prelude::*;

verus! {

/// The number that the `n` bytes of `b` from `o` on stand for, lowest first.
pub open spec fn little(b: Seq<u8>, o: int, n: nat) -> int
    decreases n,
{
    if n == 0 {
        0
    } else {
        b[o] + 0x100 * little(b, o + 1, (n - 1) as nat)
    }
}

/// The bytes of `field` stand in `b` from `o` on, in order.
pub open spec fn stands_at(field: Seq<u8>, b: Seq<u8>, o: int) -> bool {
    forall|i: int| 0 <= i < field.len() ==> #[trigger] field[i] == b[o + i]
}

/// The bytes of `b` from `from` up to `to` are zero.
pub open spec fn blank(b: Seq<u8>, from: int, to: int) -> bool {
    forall|i: int| from <= i < to ==> #[trigger] b[i] == 0
}

proof fn lemma_little(b: Seq<u8>, o: int)
    ensures
        little(b, o, 2) == wire::u16_at(b, o),
        little(b, o, 4) == wire::u32_at(b, o),
        little(b, o, 8) == wire::u64_at(b, o),
        0 <= little(b, o, 4) < 0x1_0000_0000,
        0 <= little(b, o, 8) < 0x1_0000_0000_0000_0000,
{
    reveal_with_fuel(little, 9);
}

proof fn lemma_stands(field: Seq<u8>, b: Seq<u8>, o: int, n: int)
    requires
        field.len() == n,
        0 <= o,
        o + n <= b.len(),
    ensures
        stands_at(field, b, o) <==> wire::bytes_at(b, o, n) == field,
{
    if stands_at(field, b, o) {
        assert(wire::bytes_at(b, o, n) =~= field);
    } else {
        let i = choose|i: int| 0 <= i < field.len() && #[trigger] field[i] != b[o + i];
        assert(wire::bytes_at(b, o, n)[i] == b[o + i]);
    }
}

/// The bytes `b` start with a record of kind `kind`: the byte at their start
/// stands for it.
pub open spec fn starts_with_kind(b: Seq<u8>, kind: EventType) -> bool {
    b[0] == (match kind {
        EventType::Connect => 1u8,
        EventType::Accept => 2u8,
        EventType::Close => 3u8,
        EventType::ProcessStart => 4u8,
        EventType::ProcessFork => 5u8,
        EventType::ProcessExit => 6u8,
        EventType::FileOpen => 7u8,
        EventType::FileRead => 8u8,
        EventType::FileClose => 9u8,
        EventType::FileWrite => 10u8,
        EventType::FileDelete => 11u8,
        EventType::FileRename => 12u8,
        EventType::Bind => 13u8,
        EventType::Listen => 14u8,
        EventType::MemoryMap => 15u8,
        EventType::MemoryUnMap => 16u8,
        EventType::PendingFileRename => 17u8,
    })
}

/// The bytes of a header.
pub open spec fn header_layout(record: RawEventHeader, b: Seq<u8>) -> bool {
    &&& b.len() >= 56
    &&& starts_with_kind(b, record.event_type)
    &&& little(b, 8, 8) == record.timestamp_ns
    &&& little(b, 16, 4) == record.pid
    &&& little(b, 20, 4) == record.tid
    &&& little(b, 24, 4) == record.ppid
    &&& little(b, 28, 4) == record.uid
    &&& little(b, 32, 4) == record.gid
    &&& stands_at(record.comm@, b, 36)
}

proof fn lemma_header_layout(record: RawEventHeader, b: Seq<u8>)
    ensures
        record.held_in(b) <==> header_layout(record, b),
{
    if b.len() >= 56 {
        lemma_little(b, 8);
        lemma_little(b, 16);
        lemma_little(b, 20);
        lemma_little(b, 24);
        lemma_little(b, 28);
        lemma_little(b, 32);
        lemma_stands(record.comm@, b, 36, 16);
    }
}

/// A header is decoded from the bytes of its layout and from no others, whatever
/// follows them. It is encoded as bytes of that layout, with zeros between the
/// fields.
pub proof fn law_header_layout(
    record: RawEventHeader,
    bytes: &[u8],
    decoded: Option<RawEventHeader>,
    encoded: Vec<u8>,
)
    requires
        call_ensures(RawEventHeader::decode, (bytes,), decoded),
        call_ensures(RawEventHeader::encode, (&record,), encoded),
    ensures
        decoded == Some(record) <==> header_layout(record, bytes@),
        encoded@.len() == 56,
        header_layout(record, encoded@),
        blank(encoded@, 1, 8),
        blank(encoded@, 52, 56),
{
    lemma_header_layout(record, bytes@);
    lemma_header_layout(record, encoded@);
    if record.held_in(bytes@) {
        record.law_round_trip(bytes@);
    }
}

/// The bytes of a socket operation.
pub open spec fn socket_layout(record: PendingConnect, b: Seq<u8>) -> bool {
    &&& b.len() >= 112
    &&& header_layout(record.header, b)
    &&& b[56] == (match record.protocol {
        RawProtocol::Tcp => 1u8,
        RawProtocol::Udp => 2u8,
    })
    &&& little(b, 60, 4) == record.tid
    &&& little(b, 64, 2) == record.src_port
    &&& little(b, 66, 2) == record.dst_port
    &&& record.ip_version is V4 ==> little(b, 68, 4) == 0
    &&& record.ip_version is V6 ==> little(b, 68, 4) == 1
    &&& stands_at(record.src_addr@, b, 72)
    &&& stands_at(record.dst_addr@, b, 88)
    &&& match record.retval {
        None => little(b, 104, 4) == 0,
        Some(value) => little(b, 104, 4) == 1 && (little(b, 108, 4) == value || little(b, 108, 4)
            == value + 0x1_0000_0000),
    }
}

proof fn lemma_socket_layout(record: PendingConnect, b: Seq<u8>)
    ensures
        record.held_in(b) <==> socket_layout(record, b),
{
    if b.len() >= 112 {
        lemma_header_layout(record.header, b);
        lemma_little(b, 60);
        lemma_little(b, 64);
        lemma_little(b, 66);
        lemma_little(b, 68);
        lemma_stands(record.src_addr@, b, 72, 16);
        lemma_stands(record.dst_addr@, b, 88, 16);
        lemma_little(b, 104);
        lemma_little(b, 108);
    }
}

/// A socket operation is decoded from the bytes of its layout and from no others, whatever
/// follows them. It is encoded as bytes of that layout, with zeros between the
/// fields.
pub proof fn law_socket_layout(
    record: PendingConnect,
    bytes: &[u8],
    decoded: Option<PendingConnect>,
    encoded: Vec<u8>,
)
    requires
        call_ensures(PendingConnect::decode, (bytes,), decoded),
        call_ensures(PendingConnect::encode, (&record,), encoded),
    ensures
        decoded == Some(record) <==> socket_layout(record, bytes@),
        encoded@.len() == 112,
        socket_layout(record, encoded@),
        blank(encoded@, 1, 8),
        blank(encoded@, 52, 56),
        blank(encoded@, 57, 60),
        record.retval is None ==> blank(encoded@, 108, 112),
{
    lemma_socket_layout(record, bytes@);
    lemma_socket_layout(record, encoded@);
    if record.held_in(bytes@) {
        record.law_round_trip(bytes@);
    }
}

/// The bytes of a process start.
pub open spec fn start_layout(record: RawProcessStartEvent, b: Seq<u8>) -> bool {
    &&& b.len() >= 312
    &&& header_layout(record.header, b)
    &&& stands_at(record.filename@, b, 56)
}

proof fn lemma_start_layout(record: RawProcessStartEvent, b: Seq<u8>)
    ensures
        record.held_in(b) <==> start_layout(record, b),
{
    if b.len() >= 312 {
        lemma_header_layout(record.header, b);
        lemma_stands(record.filename@, b, 56, 256);
    }
}

/// A process start is decoded from the bytes of its layout and from no others, whatever
/// follows them. It is encoded as bytes of that layout, with zeros between the
/// fields.
pub proof fn law_start_layout(
    record: RawProcessStartEvent,
    bytes: &[u8],
    decoded: Option<RawProcessStartEvent>,
    encoded: Vec<u8>,
)
    requires
        call_ensures(RawProcessStartEvent::decode, (bytes,), decoded),
        call_ensures(RawProcessStartEvent::encode, (&record,), encoded),
    ensures
        decoded == Some(record) <==> start_layout(record, bytes@),
        encoded@.len() == 312,
        start_layout(record, encoded@),
        blank(encoded@, 1, 8),
        blank(encoded@, 52, 56),
{
    lemma_start_layout(record, bytes@);
    lemma_start_layout(record, encoded@);
    if record.held_in(bytes@) {
        record.law_round_trip(bytes@);
    }
}

/// The bytes of a process exit.
pub open spec fn exit_layout(record: RawProcessExitEvent, b: Seq<u8>) -> bool {
    &&& b.len() >= 64
    &&& header_layout(record.header, b)
    &&& little(b, 56, 4) == record.exit_code || little(b, 56, 4) == record.exit_code + 0x1_0000_0000
}

proof fn lemma_exit_layout(record: RawProcessExitEvent, b: Seq<u8>)
    ensures
        record.held_in(b) <==> exit_layout(record, b),
{
    if b.len() >= 64 {
        lemma_header_layout(record.header, b);
        lemma_little(b, 56);
    }
}

/// A process exit is decoded from the bytes of its layout and from no others, whatever
/// follows them. It is encoded as bytes of that layout, with zeros between the
/// fields.
pub proof fn law_exit_layout(
    record: RawProcessExitEvent,
    bytes: &[u8],
    decoded: Option<RawProcessExitEvent>,
    encoded: Vec<u8>,
)
    requires
        call_ensures(RawProcessExitEvent::decode, (bytes,), decoded),
        call_ensures(RawProcessExitEvent::encode, (&record,), encoded),
    ensures
        decoded == Some(record) <==> exit_layout(record, bytes@),
        encoded@.len() == 64,
        exit_layout(record, encoded@),
        blank(encoded@, 1, 8),
        blank(encoded@, 52, 56),
        blank(encoded@, 60, 64),
{
    lemma_exit_layout(record, bytes@);
    lemma_exit_layout(record, encoded@);
    if record.held_in(bytes@) {
        record.law_round_trip(bytes@);
    }
}

/// The bytes of a fork.
pub open spec fn fork_layout(record: RawProcessForkEvent, b: Seq<u8>) -> bool {
    &&& b.len() >= 80
    &&& header_layout(record.parent, b)
    &&& little(b, 56, 4) == record.child_pid
    &&& stands_at(record.child_comm@, b, 60)
}

proof fn lemma_fork_layout(record: RawProcessForkEvent, b: Seq<u8>)
    ensures
        record.held_in(b) <==> fork_layout(record, b),
{
    if b.len() >= 80 {
        lemma_header_layout(record.parent, b);
        lemma_little(b, 56);
        lemma_stands(record.child_comm@, b, 60, 16);
    }
}

/// A fork is decoded from the bytes of its layout and from no others, whatever
/// follows them. It is encoded as bytes of that layout, with zeros between the
/// fields.
pub proof fn law_fork_layout(
    record: RawProcessForkEvent,
    bytes: &[u8],
    decoded: Option<RawProcessForkEvent>,
    encoded: Vec<u8>,
)
    requires
        call_ensures(RawProcessForkEvent::decode, (bytes,), decoded),
        call_ensures(RawProcessForkEvent::encode, (&record,), encoded),
    ensures
        decoded == Some(record) <==> fork_layout(record, bytes@),
        encoded@.len() == 80,
        fork_layout(record, encoded@),
        blank(encoded@, 1, 8),
        blank(encoded@, 52, 56),
        blank(encoded@, 76, 80),
{
    lemma_fork_layout(record, bytes@);
    lemma_fork_layout(record, encoded@);
    if record.held_in(bytes@) {
        record.law_round_trip(bytes@);
    }
}

/// The bytes of an open.
pub open spec fn open_layout(record: RawFileOpenEvent, b: Seq<u8>) -> bool {
    &&& b.len() >= 336
    &&& header_layout(record.header, b)
    &&& stands_at(record.filename@, b, 56)
    &&& little(b, 312, 2) == record.file_mode.mode
    &&& little(b, 316, 4) == record.retval || little(b, 316, 4) == record.retval + 0x1_0000_0000
    &&& little(b, 320, 8) == record.inode
    &&& little(b, 328, 4) == record.flags
}

proof fn lemma_open_layout(record: RawFileOpenEvent, b: Seq<u8>)
    ensures
        record.held_in(b) <==> open_layout(record, b),
{
    if b.len() >= 336 {
        lemma_header_layout(record.header, b);
        lemma_stands(record.filename@, b, 56, 256);
        lemma_little(b, 312);
        lemma_little(b, 316);
        lemma_little(b, 320);
        lemma_little(b, 328);
    }
}

/// An open is decoded from the bytes of its layout and from no others, whatever
/// follows them. It is encoded as bytes of that layout, with zeros between the
/// fields.
pub proof fn law_open_layout(
    record: RawFileOpenEvent,
    bytes: &[u8],
    decoded: Option<RawFileOpenEvent>,
    encoded: Vec<u8>,
)
    requires
        call_ensures(RawFileOpenEvent::decode, (bytes,), decoded),
        call_ensures(RawFileOpenEvent::encode, (&record,), encoded),
    ensures
        decoded == Some(record) <==> open_layout(record, bytes@),
        encoded@.len() == 336,
        open_layout(record, encoded@),
        blank(encoded@, 1, 8),
        blank(encoded@, 52, 56),
        blank(encoded@, 314, 316),
        blank(encoded@, 332, 336),
{
    lemma_open_layout(record, bytes@);
    lemma_open_layout(record, encoded@);
    if record.held_in(bytes@) {
        record.law_round_trip(bytes@);
    }
}

/// The bytes of a close.
pub open spec fn close_layout(record: RawFileCloseEvent, b: Seq<u8>) -> bool {
    &&& b.len() >= 336
    &&& header_layout(record.header, b)
    &&& stands_at(record.filename@, b, 56)
    &&& little(b, 312, 2) == record.file_mode.mode
    &&& little(b, 316, 4) == record.retval || little(b, 316, 4) == record.retval + 0x1_0000_0000
    &&& little(b, 320, 8) == record.inode
    &&& little(b, 328, 4) == record.flags
}

proof fn lemma_close_layout(record: RawFileCloseEvent, b: Seq<u8>)
    ensures
        record.held_in(b) <==> close_layout(record, b),
{
    if b.len() >= 336 {
        lemma_header_layout(record.header, b);
        lemma_stands(record.filename@, b, 56, 256);
        lemma_little(b, 312);
        lemma_little(b, 316);
        lemma_little(b, 320);
        lemma_little(b, 328);
    }
}

/// A close is decoded from the bytes of its layout and from no others, whatever
/// follows them. It is encoded as bytes of that layout, with zeros between the
/// fields.
pub proof fn law_close_layout(
    record: RawFileCloseEvent,
    bytes: &[u8],
    decoded: Option<RawFileCloseEvent>,
    encoded: Vec<u8>,
)
    requires
        call_ensures(RawFileCloseEvent::decode, (bytes,), decoded),
        call_ensures(RawFileCloseEvent::encode, (&record,), encoded),
    ensures
        decoded == Some(record) <==> close_layout(record, bytes@),
        encoded@.len() == 336,
        close_layout(record, encoded@),
        blank(encoded@, 1, 8),
        blank(encoded@, 52, 56),
        blank(encoded@, 314, 316),
        blank(encoded@, 332, 336),
{
    lemma_close_layout(record, bytes@);
    lemma_close_layout(record, encoded@);
    if record.held_in(bytes@) {
        record.law_round_trip(bytes@);
    }
}

/// The bytes of a read.
pub open spec fn read_layout(record: RawFileReadEvent, b: Seq<u8>) -> bool {
    &&& b.len() >= 344
    &&& header_layout(record.header, b)
    &&& stands_at(record.filename@, b, 56)
    &&& little(b, 312, 2) == record.file_mode.mode
    &&& little(b, 320, 8) == record.retval || little(b, 320, 8) == record.retval
        + 0x1_0000_0000_0000_0000
    &&& little(b, 328, 8) == record.inode
    &&& little(b, 336, 4) == record.flags
}

proof fn lemma_read_layout(record: RawFileReadEvent, b: Seq<u8>)
    ensures
        record.held_in(b) <==> read_layout(record, b),
{
    if b.len() >= 344 {
        lemma_header_layout(record.header, b);
        lemma_stands(record.filename@, b, 56, 256);
        lemma_little(b, 312);
        lemma_little(b, 320);
        lemma_little(b, 328);
        lemma_little(b, 336);
    }
}

/// A read is decoded from the bytes of its layout and from no others, whatever
/// follows them. It is encoded as bytes of that layout, with zeros between the
/// fields.
pub proof fn law_read_layout(
    record: RawFileReadEvent,
    bytes: &[u8],
    decoded: Option<RawFileReadEvent>,
    encoded: Vec<u8>,
)
    requires
        call_ensures(RawFileReadEvent::decode, (bytes,), decoded),
        call_ensures(RawFileReadEvent::encode, (&record,), encoded),
    ensures
        decoded == Some(record) <==> read_layout(record, bytes@),
        encoded@.len() == 344,
        read_layout(record, encoded@),
        blank(encoded@, 1, 8),
        blank(encoded@, 52, 56),
        blank(encoded@, 314, 320),
        blank(encoded@, 340, 344),
{
    lemma_read_layout(record, bytes@);
    lemma_read_layout(record, encoded@);
    if record.held_in(bytes@) {
        record.law_round_trip(bytes@);
    }
}

/// The bytes of a write.
pub open spec fn write_layout(record: RawFileWriteEvent, b: Seq<u8>) -> bool {
    &&& b.len() >= 344
    &&& header_layout(record.header, b)
    &&& stands_at(record.filename@, b, 56)
    &&& little(b, 312, 2) == record.file_mode.mode
    &&& little(b, 320, 8) == record.retval || little(b, 320, 8) == record.retval
        + 0x1_0000_0000_0000_0000
    &&& little(b, 328, 8) == record.inode
    &&& little(b, 336, 4) == record.flags
}

proof fn lemma_write_layout(record: RawFileWriteEvent, b: Seq<u8>)
    ensures
        record.held_in(b) <==> write_layout(record, b),
{
    if b.len() >= 344 {
        lemma_header_layout(record.header, b);
        lemma_stands(record.filename@, b, 56, 256);
        lemma_little(b, 312);
        lemma_little(b, 320);
        lemma_little(b, 328);
        lemma_little(b, 336);
    }
}

/// A write is decoded from the bytes of its layout and from no others, whatever
/// follows them. It is encoded as bytes of that layout, with zeros between the
/// fields.
pub proof fn law_write_layout(
    record: RawFileWriteEvent,
    bytes: &[u8],
    decoded: Option<RawFileWriteEvent>,
    encoded: Vec<u8>,
)
    requires
        call_ensures(RawFileWriteEvent::decode, (bytes,), decoded),
        call_ensures(RawFileWriteEvent::encode, (&record,), encoded),
    ensures
        decoded == Some(record) <==> write_layout(record, bytes@),
        encoded@.len() == 344,
        write_layout(record, encoded@),
        blank(encoded@, 1, 8),
        blank(encoded@, 52, 56),
        blank(encoded@, 314, 320),
        blank(encoded@, 340, 344),
{
    lemma_write_layout(record, bytes@);
    lemma_write_layout(record, encoded@);
    if record.held_in(bytes@) {
        record.law_round_trip(bytes@);
    }
}

/// The bytes of a deletion.
pub open spec fn deletion_layout(record: RawFileDeleteEvent, b: Seq<u8>) -> bool {
    &&& b.len() >= 320
    &&& header_layout(record.header, b)
    &&& stands_at(record.filename@, b, 56)
    &&& little(b, 312, 2) == record.file_mode.mode
    &&& little(b, 316, 4) == record.retval || little(b, 316, 4) == record.retval + 0x1_0000_0000
}

proof fn lemma_deletion_layout(record: RawFileDeleteEvent, b: Seq<u8>)
    ensures
        record.held_in(b) <==> deletion_layout(record, b),
{
    if b.len() >= 320 {
        lemma_header_layout(record.header, b);
        lemma_stands(record.filename@, b, 56, 256);
        lemma_little(b, 312);
        lemma_little(b, 316);
    }
}

/// A deletion is decoded from the bytes of its layout and from no others, whatever
/// follows them. It is encoded as bytes of that layout, with zeros between the
/// fields.
pub proof fn law_deletion_layout(
    record: RawFileDeleteEvent,
    bytes: &[u8],
    decoded: Option<RawFileDeleteEvent>,
    encoded: Vec<u8>,
)
    requires
        call_ensures(RawFileDeleteEvent::decode, (bytes,), decoded),
        call_ensures(RawFileDeleteEvent::encode, (&record,), encoded),
    ensures
        decoded == Some(record) <==> deletion_layout(record, bytes@),
        encoded@.len() == 320,
        deletion_layout(record, encoded@),
        blank(encoded@, 1, 8),
        blank(encoded@, 52, 56),
        blank(encoded@, 314, 316),
{
    lemma_deletion_layout(record, bytes@);
    lemma_deletion_layout(record, encoded@);
    if record.held_in(bytes@) {
        record.law_round_trip(bytes@);
    }
}

/// The bytes of the start of a rename.
pub open spec fn rename_layout(record: RawFileRenameEvent, b: Seq<u8>) -> bool {
    &&& b.len() >= 584
    &&& header_layout(record.header, b)
    &&& stands_at(record.old_filename@, b, 56)
    &&& stands_at(record.new_filename@, b, 312)
    &&& little(b, 568, 2) == record.file_mode.mode
    &&& little(b, 572, 4) == record.retval || little(b, 572, 4) == record.retval + 0x1_0000_0000
    &&& little(b, 576, 4) == record.flags
}

proof fn lemma_rename_layout(record: RawFileRenameEvent, b: Seq<u8>)
    ensures
        record.held_in(b) <==> rename_layout(record, b),
{
    if b.len() >= 584 {
        lemma_header_layout(record.header, b);
        lemma_stands(record.old_filename@, b, 56, 256);
        lemma_stands(record.new_filename@, b, 312, 256);
        lemma_little(b, 568);
        lemma_little(b, 572);
        lemma_little(b, 576);
    }
}

/// The start of a rename is decoded from the bytes of its layout and from no others, whatever
/// follows them. It is encoded as bytes of that layout, with zeros between the
/// fields.
pub proof fn law_rename_layout(
    record: RawFileRenameEvent,
    bytes: &[u8],
    decoded: Option<RawFileRenameEvent>,
    encoded: Vec<u8>,
)
    requires
        call_ensures(RawFileRenameEvent::decode, (bytes,), decoded),
        call_ensures(RawFileRenameEvent::encode, (&record,), encoded),
    ensures
        decoded == Some(record) <==> rename_layout(record, bytes@),
        encoded@.len() == 584,
        rename_layout(record, encoded@),
        blank(encoded@, 1, 8),
        blank(encoded@, 52, 56),
        blank(encoded@, 570, 572),
        blank(encoded@, 580, 584),
{
    lemma_rename_layout(record, bytes@);
    lemma_rename_layout(record, encoded@);
    if record.held_in(bytes@) {
        record.law_round_trip(bytes@);
    }
}

/// The bytes of the end of a rename.
pub open spec fn return_layout(record: RawFileRtrEvent, b: Seq<u8>) -> bool {
    &&& b.len() >= 64
    &&& header_layout(record.header, b)
    &&& little(b, 56, 4) == record.retval || little(b, 56, 4) == record.retval + 0x1_0000_0000
}

proof fn lemma_return_layout(record: RawFileRtrEvent, b: Seq<u8>)
    ensures
        record.held_in(b) <==> return_layout(record, b),
{
    if b.len() >= 64 {
        lemma_header_layout(record.header, b);
        lemma_little(b, 56);
    }
}

/// The end of a rename is decoded from the bytes of its layout and from no others, whatever
/// follows them. It is encoded as bytes of that layout, with zeros between the
/// fields.
pub proof fn law_return_layout(
    record: RawFileRtrEvent,
    bytes: &[u8],
    decoded: Option<RawFileRtrEvent>,
    encoded: Vec<u8>,
)
    requires
        call_ensures(RawFileRtrEvent::decode, (bytes,), decoded),
        call_ensures(RawFileRtrEvent::encode, (&record,), encoded),
    ensures
        decoded == Some(record) <==> return_layout(record, bytes@),
        encoded@.len() == 64,
        return_layout(record, encoded@),
        blank(encoded@, 1, 8),
        blank(encoded@, 52, 56),
        blank(encoded@, 60, 64),
{
    lemma_return_layout(record, bytes@);
    lemma_return_layout(record, encoded@);
    if record.held_in(bytes@) {
        record.law_round_trip(bytes@);
    }
}

/// The bytes of a mapping.
pub open spec fn mapping_layout(record: RawMemoryMapEvent, b: Seq<u8>) -> bool {
    &&& b.len() >= 88
    &&& header_layout(record.header, b)
    &&& little(b, 56, 8) == record.requested_address
    &&& little(b, 64, 8) == record.length
    &&& little(b, 72, 4) == record.protection
    &&& little(b, 76, 4) == record.flags
    &&& little(b, 80, 8) == record.mapped_address
}

proof fn lemma_mapping_layout(record: RawMemoryMapEvent, b: Seq<u8>)
    ensures
        record.held_in(b) <==> mapping_layout(record, b),
{
    if b.len() >= 88 {
        lemma_header_layout(record.header, b);
        lemma_little(b, 56);
        lemma_little(b, 64);
        lemma_little(b, 72);
        lemma_little(b, 76);
        lemma_little(b, 80);
    }
}

/// A mapping is decoded from the bytes of its layout and from no others, whatever
/// follows them. It is encoded as bytes of that layout, with zeros between the
/// fields.
pub proof fn law_mapping_layout(
    record: RawMemoryMapEvent,
    bytes: &[u8],
    decoded: Option<RawMemoryMapEvent>,
    encoded: Vec<u8>,
)
    requires
        call_ensures(RawMemoryMapEvent::decode, (bytes,), decoded),
        call_ensures(RawMemoryMapEvent::encode, (&record,), encoded),
    ensures
        decoded == Some(record) <==> mapping_layout(record, bytes@),
        encoded@.len() == 88,
        mapping_layout(record, encoded@),
        blank(encoded@, 1, 8),
        blank(encoded@, 52, 56),
{
    lemma_mapping_layout(record, bytes@);
    lemma_mapping_layout(record, encoded@);
    if record.held_in(bytes@) {
        record.law_round_trip(bytes@);
    }
}

/// The bytes of a removed mapping.
pub open spec fn removal_layout(record: RawMemoryUnmapEvent, b: Seq<u8>) -> bool {
    &&& b.len() >= 80
    &&& header_layout(record.header, b)
    &&& little(b, 56, 8) == record.requested_address
    &&& little(b, 64, 8) == record.length
    &&& little(b, 72, 8) == record.mapped_address
}

proof fn lemma_removal_layout(record: RawMemoryUnmapEvent, b: Seq<u8>)
    ensures
        record.held_in(b) <==> removal_layout(record, b),
{
    if b.len() >= 80 {
        lemma_header_layout(record.header, b);
        lemma_little(b, 56);
        lemma_little(b, 64);
        lemma_little(b, 72);
    }
}

/// A removed mapping is decoded from the bytes of its layout and from no others, whatever
/// follows them. It is encoded as bytes of that layout, with zeros between the
/// fields.
pub proof fn law_removal_layout(
    record: RawMemoryUnmapEvent,
    bytes: &[u8],
    decoded: Option<RawMemoryUnmapEvent>,
    encoded: Vec<u8>,
)
    requires
        call_ensures(RawMemoryUnmapEvent::decode, (bytes,), decoded),
        call_ensures(RawMemoryUnmapEvent::encode, (&record,), encoded),
    ensures
        decoded == Some(record) <==> removal_layout(record, bytes@),
        encoded@.len() == 80,
        removal_layout(record, encoded@),
        blank(encoded@, 1, 8),
        blank(encoded@, 52, 56),
{
    lemma_removal_layout(record, bytes@);
    lemma_removal_layout(record, encoded@);
    if record.held_in(bytes@) {
        record.law_round_trip(bytes@);
    }
}

/// A byte stands for a kind exactly when a record of that kind starts with it.
pub proof fn law_kind_tags(kind: EventType, tag: u8, byte: u8, found: Option<EventType>)
    requires
        call_ensures(EventType::tag, (kind,), tag),
        call_ensures(EventType::from_tag, (byte,), found),
    ensures
        starts_with_kind(seq![tag], kind),
        found == Some(kind) <==> starts_with_kind(seq![byte], kind),
        found is Some <==> 1 <= byte <= 17,
{
}

/// The bytes that stand for the two protocols.
pub proof fn law_protocol_tags(protocol: RawProtocol, tag: u8)
    requires
        call_ensures(RawProtocol::tag, (protocol,), tag),
    ensures
        protocol is Tcp ==> tag == 1,
        protocol is Udp ==> tag == 2,
{
}

/// The short numbering of kinds, and the numbers of the protocols; any other number
/// is refused.
pub proof fn law_numberings(
    value: u8,
    kind: Result<EventType, ()>,
    protocol: Result<RawProtocol, ()>,
)
    requires
        call_ensures(<EventType as TryFrom<u8>>::try_from, (value,), kind),
        call_ensures(<RawProtocol as TryFrom<u8>>::try_from, (value,), protocol),
    ensures
        value == 1 ==> (kind matches Ok(kind) && kind is Connect) && (protocol matches Ok(protocol)
            && protocol is Tcp),
        value == 2 ==> (kind matches Ok(kind) && kind is Accept) && (protocol matches Ok(protocol)
            && protocol is Udp),
        value == 3 ==> (kind matches Ok(kind) && kind is Close),
        value == 4 ==> (kind matches Ok(kind) && kind is ProcessStart),
        value == 5 ==> (kind matches Ok(kind) && kind is ProcessExit),
        value == 6 ==> (kind matches Ok(kind) && kind is FileOpen),
        value == 7 ==> (kind matches Ok(kind) && kind is FileClose),
        value == 0 || value > 7 ==> kind is Err,
        value == 0 || value > 2 ==> protocol is Err,
{
}

} // verus!
