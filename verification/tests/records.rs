use bpfx::raw::{
    EventType, FileModeFilter, FilterOwner, IpVersion, PendingConnect, RawEventHeader,
    RawFileCloseEvent, RawFileDeleteEvent, RawFileOpenEvent, RawFileReadEvent, RawFileRenameEvent,
    RawFileRtrEvent, RawFileWriteEvent, RawMemoryMapEvent, RawMemoryUnmapEvent,
    RawProcessExitEvent, RawProcessForkEvent, RawProcessStartEvent, RawProtocol,
};

const KINDS: [EventType; 17] = [
    EventType::Connect,
    EventType::Accept,
    EventType::Close,
    EventType::ProcessStart,
    EventType::ProcessFork,
    EventType::ProcessExit,
    EventType::FileOpen,
    EventType::FileRead,
    EventType::FileClose,
    EventType::FileWrite,
    EventType::FileDelete,
    EventType::FileRename,
    EventType::Bind,
    EventType::Listen,
    EventType::MemoryMap,
    EventType::MemoryUnMap,
    EventType::PendingFileRename,
];

fn header(event_type: EventType) -> RawEventHeader {
    RawEventHeader {
        event_type,
        timestamp_ns: 0x0102_0304_0506_0708,
        pid: 10,
        tid: 0xffff_fffe,
        ppid: 1,
        uid: 1000,
        gid: 100,
        comm: *b"cat\0............",
    }
}

fn name(text: &[u8]) -> [u8; 256] {
    let mut field = [0u8; 256];
    field[..text.len()].copy_from_slice(text);
    field
}

#[test]
fn kinds_and_tags() {
    for (i, kind) in KINDS.iter().enumerate() {
        let tag = i as u8 + 1;
        assert_eq!(kind.tag(), tag);
        assert_eq!(EventType::from_tag(tag), Some(*kind));
    }
    assert_eq!(EventType::from_tag(0), None);
    assert_eq!(EventType::from_tag(18), None);
}

#[test]
fn short_numbers() {
    assert_eq!(EventType::try_from(1), Ok(EventType::Connect));
    assert_eq!(EventType::try_from(2), Ok(EventType::Accept));
    assert_eq!(EventType::try_from(3), Ok(EventType::Close));
    assert_eq!(EventType::try_from(4), Ok(EventType::ProcessStart));
    assert_eq!(EventType::try_from(5), Ok(EventType::ProcessExit));
    assert_eq!(EventType::try_from(6), Ok(EventType::FileOpen));
    assert_eq!(EventType::try_from(7), Ok(EventType::FileClose));
    assert_eq!(EventType::try_from(0), Err(()));
    assert_eq!(EventType::try_from(8), Err(()));
    assert!(matches!(RawProtocol::try_from(1), Ok(RawProtocol::Tcp)));
    assert!(matches!(RawProtocol::try_from(2), Ok(RawProtocol::Udp)));
    assert!(RawProtocol::try_from(0).is_err());
    assert!(RawProtocol::try_from(3).is_err());
}

#[test]
fn owner_slots() {
    assert_eq!(FilterOwner::Memory.slot(), 0);
    assert_eq!(FilterOwner::Process.slot(), 1);
    assert_eq!(FilterOwner::Network.slot(), 2);
    assert_eq!(FilterOwner::File.slot(), 3);
}

#[test]
fn header_layout() {
    let bytes = header(EventType::FileOpen).encode();
    assert_eq!(bytes.len(), 56);
    assert_eq!(bytes[0], 7);
    assert_eq!(bytes[1..8], [0; 7]);
    assert_eq!(bytes[8..16], [8, 7, 6, 5, 4, 3, 2, 1]);
    assert_eq!(bytes[16..20], [10, 0, 0, 0]);
    assert_eq!(bytes[20..24], [0xfe, 0xff, 0xff, 0xff]);
    assert_eq!(bytes[24..28], [1, 0, 0, 0]);
    assert_eq!(bytes[28..32], [0xe8, 3, 0, 0]);
    assert_eq!(bytes[32..36], [100, 0, 0, 0]);
    assert_eq!(bytes[36..52], *b"cat\0............");
    assert_eq!(bytes[52..], [0; 4]);
}

#[test]
fn headers_read_back() {
    for kind in KINDS {
        let bytes = header(kind).encode();
        let read = RawEventHeader::decode(&bytes).unwrap();
        assert_eq!(read.event_type, kind);
        assert_eq!(read.timestamp_ns, 0x0102_0304_0506_0708);
        assert_eq!(read.tid, 0xffff_fffe);
        assert_eq!(read.comm, *b"cat\0............");
        assert!(RawEventHeader::decode(&bytes[..55]).is_none());
    }
    let mut bytes = header(EventType::Bind).encode();
    bytes[0] = 0;
    assert!(RawEventHeader::decode(&bytes).is_none());
    bytes[0] = 18;
    assert!(RawEventHeader::decode(&bytes).is_none());
    assert!(RawEventHeader::decode(&[]).is_none());
}

#[test]
fn socket_records_read_back() {
    for retval in [None, Some(-111), Some(0)] {
        let record = PendingConnect {
            header: header(EventType::Connect),
            protocol: RawProtocol::Udp,
            tid: 11,
            src_port: 0x1234,
            dst_port: 53,
            ip_version: IpVersion::V6,
            src_addr: [1; 16],
            dst_addr: [2; 16],
            retval,
        };
        let mut bytes = record.encode();
        assert_eq!(bytes.len(), 112);
        assert_eq!(bytes[56], 2);
        assert_eq!(bytes[64..68], [0x34, 0x12, 53, 0]);
        assert_eq!(bytes[68..72], [1, 0, 0, 0]);
        assert_eq!((&bytes[1..8], &bytes[52..56]), (&[0; 7][..], &[0; 4][..]));
        if retval.is_none() {
            assert_eq!(bytes[104..112], [0; 8]);
        }
        let read = PendingConnect::decode(&bytes).unwrap();
        assert_eq!(read.protocol.tag(), 2);
        assert_eq!(read.tid, 11);
        assert_eq!(read.src_port, 0x1234);
        assert_eq!(read.dst_port, 53);
        assert!(matches!(read.ip_version, IpVersion::V6));
        assert_eq!(read.src_addr, [1; 16]);
        assert_eq!(read.dst_addr, [2; 16]);
        assert_eq!(read.retval, retval);
        assert!(PendingConnect::decode(&bytes[..111]).is_none());
        bytes[56] = 3;
        assert!(PendingConnect::decode(&bytes).is_none());
        bytes[56] = 1;
        bytes[69] = 1;
        assert!(PendingConnect::decode(&bytes).is_none());
        bytes[69] = 0;
        bytes[104] = 2;
        assert!(PendingConnect::decode(&bytes).is_none());
    }
}

#[test]
fn process_records_read_back() {
    let start =
        RawProcessStartEvent { header: header(EventType::ProcessStart), filename: name(b"/bin/ls") };
    let bytes = start.encode();
    assert_eq!(bytes.len(), 312);
    assert_eq!(RawProcessStartEvent::decode(&bytes).unwrap().filename, name(b"/bin/ls"));
    let exit = RawProcessExitEvent { header: header(EventType::ProcessExit), exit_code: -9 };
    let bytes = exit.encode();
    assert_eq!(bytes.len(), 64);
    assert_eq!(bytes[56..60], [0xf7, 0xff, 0xff, 0xff]);
    assert_eq!(RawProcessExitEvent::decode(&bytes).unwrap().exit_code, -9);
    let fork = RawProcessForkEvent {
        parent: header(EventType::ProcessFork),
        child_pid: 77,
        child_comm: [b'x'; 16],
    };
    let bytes = fork.encode();
    assert_eq!(bytes.len(), 80);
    let read = RawProcessForkEvent::decode(&bytes).unwrap();
    assert_eq!(read.child_pid, 77);
    assert_eq!(read.child_comm, [b'x'; 16]);
    assert_eq!(read.parent.gid, 100);
}

#[test]
fn file_records_read_back() {
    let file_mode = FileModeFilter { mode: 64 };
    let open = RawFileOpenEvent {
        header: header(EventType::FileOpen),
        filename: name(b"a"),
        file_mode,
        retval: -2,
        inode: u64::MAX,
        flags: 0o2000,
    };
    let bytes = open.encode();
    assert_eq!(bytes.len(), 336);
    let read = RawFileOpenEvent::decode(&bytes).unwrap();
    assert_eq!((read.retval, read.inode, read.flags), (-2, u64::MAX, 0o2000));
    assert_eq!(read.file_mode, file_mode);
    let close = RawFileCloseEvent {
        header: header(EventType::FileClose),
        filename: name(b"b"),
        file_mode,
        retval: 0,
        inode: 5,
        flags: 1,
    };
    let read = RawFileCloseEvent::decode(&close.encode()).unwrap();
    assert_eq!((read.retval, read.inode, read.flags), (0, 5, 1));
    let reading = RawFileReadEvent {
        header: header(EventType::FileRead),
        filename: name(b"c"),
        file_mode,
        retval: -5,
        inode: 6,
        flags: 2,
    };
    let bytes = reading.encode();
    assert_eq!(bytes.len(), 344);
    assert_eq!(bytes[320], 0xfb);
    assert_eq!(bytes[321..328], [0xff; 7]);
    let read = RawFileReadEvent::decode(&bytes).unwrap();
    assert_eq!((read.retval, read.inode, read.flags), (-5, 6, 2));
    let writing = RawFileWriteEvent {
        header: header(EventType::FileWrite),
        filename: name(b"d"),
        file_mode,
        retval: 4096,
        inode: 7,
        flags: 3,
    };
    let read = RawFileWriteEvent::decode(&writing.encode()).unwrap();
    assert_eq!((read.retval, read.inode, read.flags), (4096, 7, 3));
    let delete = RawFileDeleteEvent {
        header: header(EventType::FileDelete),
        filename: [b'z'; 256],
        file_mode,
        retval: -1,
    };
    let read = RawFileDeleteEvent::decode(&delete.encode()).unwrap();
    assert_eq!((read.filename, read.retval), ([b'z'; 256], -1));
    let rename = RawFileRenameEvent {
        header: header(EventType::FileRename),
        old_filename: name(b"old"),
        new_filename: name(b"new"),
        file_mode,
        retval: 0,
        flags: 9,
    };
    let bytes = rename.encode();
    assert_eq!(bytes.len(), 584);
    let read = RawFileRenameEvent::decode(&bytes).unwrap();
    assert_eq!((read.old_filename, read.new_filename), (name(b"old"), name(b"new")));
    assert_eq!(read.flags, 9);
    let end = RawFileRtrEvent { header: header(EventType::PendingFileRename), retval: i32::MIN };
    assert_eq!(RawFileRtrEvent::decode(&end.encode()).unwrap().retval, i32::MIN);
}

#[test]
fn memory_records_read_back() {
    let map = RawMemoryMapEvent {
        header: header(EventType::MemoryMap),
        requested_address: usize::MAX,
        length: u64::MAX,
        protection: 7,
        flags: 0x22,
        mapped_address: 0x1000,
    };
    let bytes = map.encode();
    assert_eq!(bytes.len(), 88);
    let read = RawMemoryMapEvent::decode(&bytes).unwrap();
    assert_eq!((read.requested_address, read.length), (usize::MAX, u64::MAX));
    assert_eq!((read.protection, read.flags, read.mapped_address), (7, 0x22, 0x1000));
    let unmap = RawMemoryUnmapEvent {
        header: header(EventType::MemoryUnMap),
        requested_address: 0x2000,
        length: 16,
        mapped_address: 0,
    };
    let bytes = unmap.encode();
    assert_eq!(bytes.len(), 80);
    let read = RawMemoryUnmapEvent::decode(&bytes).unwrap();
    assert_eq!((read.requested_address, read.length, read.mapped_address), (0x2000, 16, 0));
}

#[test]
fn longer_items_are_read_from_the_start() {
    let mut bytes =
        RawProcessExitEvent { header: header(EventType::ProcessExit), exit_code: 3 }.encode();
    bytes.push(0xff);
    assert_eq!(RawProcessExitEvent::decode(&bytes).unwrap().exit_code, 3);
}
