use bpfx::handoff::{Handoff, Producer};
use bpfx::convert::{
    convert_file_events, convert_mem_events, convert_network_events, convert_process_events,
    file_event, handle_bind, handle_close, handle_connect, handle_listen,
    handle_tcp_accept, memory_event, network_event, parse_network_event, process_event,
};
use bpfx::error::Error;
use bpfx::file::FileFilter;
use bpfx::ip::IpAddr;
use bpfx::memory::MemoryFilter;
use bpfx::network::NetworkFilter;
use bpfx::probe::{try_sched_process_exec, try_vfs_open, FileRead, TaskRead};
use bpfx::process::ProcessFilter;
use bpfx::raw::{
    EventType, FileModeFilter, IpVersion, PendingConnect, RawEventHeader, RawFileCloseEvent,
    RawFileDeleteEvent, RawFileOpenEvent, RawFileReadEvent, RawFileRenameEvent, RawFileRtrEvent,
    RawFileWriteEvent, RawMemoryMapEvent, RawMemoryUnmapEvent, RawProcessExitEvent,
    RawProcessForkEvent, RawProcessStartEvent, RawProtocol,
};
use bpfx::rename::PendingRenames;
use bpfx::runtime::{any_open, Subscription};
use bpfx::{
    Bpfx, BpfxConfig, FileEvent, FileType, FilterKey, MemoryEvent, NetworkEvent, ProcessEvent,
    Protocol,
};

fn header(event_type: EventType) -> RawEventHeader {
    RawEventHeader {
        event_type,
        timestamp_ns: 5,
        pid: 10,
        tid: 11,
        ppid: 1,
        uid: 1000,
        gid: 100,
        comm: *b"cat\0garbagegarba",
    }
}

fn name(text: &[u8]) -> [u8; 256] {
    let mut field = [0u8; 256];
    field[..text.len()].copy_from_slice(text);
    field
}

fn socket(kind: EventType, protocol: RawProtocol, retval: Option<i32>) -> PendingConnect {
    let mut src_addr = [0u8; 16];
    src_addr[..4].copy_from_slice(&[127, 0, 0, 1]);
    PendingConnect {
        header: header(kind),
        protocol,
        tid: 11,
        src_port: 4000,
        dst_port: 80,
        ip_version: IpVersion::V4,
        src_addr,
        dst_addr: [9; 16],
        retval,
    }
}

fn rename(pid: u32, tid: u32) -> RawFileRenameEvent {
    RawFileRenameEvent {
        header: RawEventHeader { pid, tid, ..header(EventType::FileRename) },
        old_filename: name(b"old"),
        new_filename: name(b"new"),
        file_mode: FileModeFilter { mode: 2 },
        retval: 0,
        flags: 6,
    }
}

fn rename_end(pid: u32, tid: u32, retval: i32) -> RawFileRtrEvent {
    RawFileRtrEvent {
        header: RawEventHeader { pid, tid, ..header(EventType::PendingFileRename) },
        retval,
    }
}

#[test]
fn endpoints_of_records() {
    let (h, ends) = parse_network_event(&socket(EventType::Close, RawProtocol::Tcp, None));
    assert_eq!(h.comm, "cat");
    assert_eq!((h.pid, h.tid, h.ppid, h.uid, h.gid, h.timestamp_ns), (10, 11, 1, 1000, 100, 5));
    assert_eq!(ends.local_ip, IpAddr::V4([127, 0, 0, 1]));
    assert_eq!(ends.remote_ip, IpAddr::V4([9, 9, 9, 9]));
    assert_eq!((ends.local_port, ends.remote_port), (4000, 80));
    let v6 = PendingConnect {
        ip_version: IpVersion::V6,
        ..socket(EventType::Close, RawProtocol::Tcp, None)
    };
    let (_, ends) = parse_network_event(&v6);
    assert_eq!(ends.remote_ip, IpAddr::V6([9; 16]));
}

#[test]
fn network_events() {
    let connect = socket(EventType::Connect, RawProtocol::Udp, Some(0));
    match network_event(&connect.encode()) {
        Some(NetworkEvent::Connect(e)) => {
            assert_eq!((e.protocol, e.retval), (Protocol::Udp, 0));
            assert_eq!(e.header.comm, "cat");
        }
        _ => panic!("no connect"),
    }
    let accept = socket(EventType::Accept, RawProtocol::Udp, None);
    match network_event(&accept.encode()) {
        Some(NetworkEvent::Accept(e)) => assert_eq!(e.protocol, Protocol::Tcp),
        _ => panic!("no accept"),
    }
    let close = socket(EventType::Close, RawProtocol::Udp, None);
    match network_event(&close.encode()) {
        Some(NetworkEvent::Close(e)) => assert_eq!(e.protocol, Protocol::Udp),
        _ => panic!("no close"),
    }
    let bind = socket(EventType::Bind, RawProtocol::Udp, Some(-98));
    match network_event(&bind.encode()) {
        Some(NetworkEvent::Bind(e)) => assert_eq!((e.protocol, e.retval), (Protocol::Tcp, -98)),
        _ => panic!("no bind"),
    }
    let listen = socket(EventType::Listen, RawProtocol::Tcp, Some(0));
    match network_event(&listen.encode()) {
        Some(NetworkEvent::Listen(e)) => assert_eq!((e.protocol, e.retval), (Protocol::Tcp, 0)),
        _ => panic!("no listen"),
    }
}

#[test]
fn no_network_events() {
    for kind in [EventType::Connect, EventType::Bind, EventType::Listen] {
        assert!(network_event(&socket(kind, RawProtocol::Tcp, None).encode()).is_none());
    }
    let exit = RawProcessExitEvent { header: header(EventType::ProcessExit), exit_code: 0 };
    assert!(network_event(&exit.encode()).is_none());
    let misfiled = socket(EventType::FileOpen, RawProtocol::Tcp, Some(0));
    assert!(network_event(&misfiled.encode()).is_none());
    assert!(network_event(&[]).is_none());
}

#[test]
fn failed_connects_are_not_reported() {
    for retval in [-1, -111, i32::MIN] {
        let connect = socket(EventType::Connect, RawProtocol::Tcp, Some(retval));
        assert!(handle_connect(&connect).is_none());
        assert!(network_event(&connect.encode()).is_none());
        let (mut tx, mut rx) = Producer::open(1);
        assert_eq!(convert_network_events(&mut tx, &connect.encode()), Handoff::Nothing);
        assert!(rx.try_recv().is_err());
    }
}

#[test]
fn process_events() {
    let start =
        RawProcessStartEvent { header: header(EventType::ProcessStart), filename: name(b"/bin/ls") };
    match process_event(&start.encode()) {
        Some(ProcessEvent::Start(e)) => assert_eq!(e.filename, "/bin/ls"),
        _ => panic!("no start"),
    }
    assert!(process_event(&start.encode()[..311]).is_none());
    let exit = RawProcessExitEvent { header: header(EventType::ProcessExit), exit_code: -1 };
    match process_event(&exit.encode()) {
        Some(ProcessEvent::Exit(e)) => assert_eq!(e.exit_code, -1),
        _ => panic!("no exit"),
    }
    let fork = RawProcessForkEvent {
        parent: header(EventType::ProcessFork),
        child_pid: 12,
        child_comm: [b'x'; 16],
    };
    match process_event(&fork.encode()) {
        Some(ProcessEvent::Fork(e)) => {
            assert_eq!((e.child_pid, e.child_comm.as_str()), (12, "xxxxxxxxxxxxxxxx"))
        }
        _ => panic!("no fork"),
    }
    assert!(process_event(&header(EventType::FileOpen).encode()).is_none());
}

#[test]
fn memory_events() {
    let map = RawMemoryMapEvent {
        header: header(EventType::MemoryMap),
        requested_address: 1,
        length: 2,
        protection: 3,
        flags: 4,
        mapped_address: 5,
    };
    match memory_event(&map.encode()) {
        Some(MemoryEvent::MemoryMap(e)) => {
            assert_eq!((e.requested_address, e.length, e.protection), (1, 2, 3));
            assert_eq!((e.flags, e.mapped_address), (4, 5));
        }
        _ => panic!("no map"),
    }
    let unmap = RawMemoryUnmapEvent {
        header: header(EventType::MemoryUnMap),
        requested_address: 1,
        length: 2,
        mapped_address: 3,
    };
    match memory_event(&unmap.encode()) {
        Some(MemoryEvent::MemoryUnMap(e)) => {
            assert_eq!((e.requested_address, e.length, e.mapped_address), (1, 2, 3))
        }
        _ => panic!("no unmap"),
    }
    assert!(memory_event(&unmap.encode()[..79]).is_none());
}

#[test]
fn file_events() {
    let mut pending = PendingRenames::new();
    let file_mode = FileModeFilter { mode: 4 };
    let open = RawFileOpenEvent {
        header: header(EventType::FileOpen),
        filename: name(b"dev"),
        file_mode,
        retval: -2,
        inode: 3,
        flags: 1,
    };
    match file_event(&open.encode(), &mut pending) {
        Some(FileEvent::Open(e)) => {
            assert_eq!((e.file_path.as_str(), e.file_type), ("dev", FileType::CharDevice));
            assert_eq!((e.retval, e.inode, e.flags), (-2, 3, 1));
        }
        _ => panic!("no open"),
    }
    let close = RawFileCloseEvent {
        header: header(EventType::FileClose),
        filename: name(b"dev"),
        file_mode: FileModeFilter { mode: 0 },
        retval: 0,
        inode: 3,
        flags: 1,
    };
    match file_event(&close.encode(), &mut pending) {
        Some(FileEvent::Close(e)) => assert_eq!(e.file_type, FileType::Unknown),
        _ => panic!("no close"),
    }
    let read = RawFileReadEvent {
        header: header(EventType::FileRead),
        filename: name(b"dev"),
        file_mode,
        retval: 7,
        inode: 3,
        flags: 1,
    };
    match file_event(&read.encode(), &mut pending) {
        Some(FileEvent::Read(e)) => assert_eq!(e.retval, 7),
        _ => panic!("no read"),
    }
    let write = RawFileWriteEvent {
        header: header(EventType::FileWrite),
        filename: name(b"dev"),
        file_mode,
        retval: -7,
        inode: 3,
        flags: 1,
    };
    match file_event(&write.encode(), &mut pending) {
        Some(FileEvent::Write(e)) => assert_eq!(e.retval, -7),
        _ => panic!("no write"),
    }
    let delete = RawFileDeleteEvent {
        header: header(EventType::FileDelete),
        filename: name(b"dev"),
        file_mode,
        retval: 0,
    };
    match file_event(&delete.encode(), &mut pending) {
        Some(FileEvent::Delete(e)) => assert_eq!(e.filename, "dev"),
        _ => panic!("no deletion"),
    }
    assert!(file_event(&open.encode()[..335], &mut pending).is_none());
    assert_eq!(pending.len(), 0);
}

#[test]
fn a_rename_is_one_event() {
    let mut pending = PendingRenames::new();
    assert!(file_event(&rename(10, 11).encode(), &mut pending).is_none());
    assert_eq!(pending.len(), 1);
    assert!(file_event(&rename_end(10, 12, 0).encode(), &mut pending).is_none());
    assert!(file_event(&rename_end(11, 11, 0).encode(), &mut pending).is_none());
    assert_eq!(pending.len(), 1);
    match file_event(&rename_end(10, 11, -17).encode(), &mut pending) {
        Some(FileEvent::Rename(e)) => {
            assert_eq!((e.old_filename.as_str(), e.new_filename.as_str()), ("old", "new"));
            assert_eq!((e.file_type, e.flags, e.retval), (FileType::Directory, 6, -17));
            assert_eq!((e.header.pid, e.header.tid), (10, 11));
        }
        _ => panic!("no rename"),
    }
    assert_eq!(pending.len(), 0);
    assert!(file_event(&rename_end(10, 11, -17).encode(), &mut pending).is_none());
}

#[test]
fn a_new_rename_replaces_one_of_the_same_task() {
    let mut pending = PendingRenames::new();
    pending.insert(rename(10, 11));
    pending.insert(RawFileRenameEvent { new_filename: name(b"newer"), ..rename(10, 11) });
    assert_eq!(pending.len(), 1);
    let kept = pending.take(&header(EventType::PendingFileRename)).unwrap();
    assert_eq!(kept.new_filename, name(b"newer"));
}

#[test]
fn pending_renames_are_bounded() {
    let mut pending = PendingRenames::new();
    for tid in 0..1024 {
        pending.insert(rename(10, tid));
    }
    assert_eq!(pending.len(), 1024);
    pending.insert(rename(10, 5000));
    pending.insert(RawFileRenameEvent { new_filename: name(b"newer"), ..rename(10, 7) });
    assert_eq!(pending.len(), 1024);
    assert!(file_event(&rename_end(10, 5000, 0).encode(), &mut pending).is_none());
    match file_event(&rename_end(10, 7, 0).encode(), &mut pending) {
        Some(FileEvent::Rename(e)) => assert_eq!(e.new_filename, "new"),
        _ => panic!("no rename"),
    }
    assert_eq!(pending.len(), 1023);
}

#[test]
fn handlers_make_events() {
    let connect = socket(EventType::Connect, RawProtocol::Tcp, Some(0));
    match handle_connect(&connect) {
        Some(NetworkEvent::Connect(e)) => {
            assert_eq!((e.protocol, e.retval), (Protocol::Tcp, 0))
        }
        _ => panic!("no connect"),
    }
    let accept = socket(EventType::Accept, RawProtocol::Tcp, None);
    assert!(matches!(handle_tcp_accept(&accept), NetworkEvent::Accept(_)));
    let close = socket(EventType::Close, RawProtocol::Tcp, None);
    assert!(matches!(handle_close(&close), NetworkEvent::Close(_)));
    let bind = socket(EventType::Bind, RawProtocol::Tcp, Some(0));
    assert!(matches!(handle_bind(&bind), NetworkEvent::Bind(_)));
    let listen = socket(EventType::Listen, RawProtocol::Tcp, Some(0));
    assert!(matches!(handle_listen(&listen), NetworkEvent::Listen(_)));
}

#[test]
fn what_is_not_sent_comes_back() {
    let (mut tx, mut rx) = Producer::open(1);
    let bytes = socket(EventType::Close, RawProtocol::Udp, None).encode();
    assert_eq!(convert_network_events(&mut tx, &[]), Handoff::Nothing);
    assert_eq!(convert_network_events(&mut tx, &bytes), Handoff::Sent);
    let event = network_event(&bytes).unwrap();
    assert_eq!(convert_network_events(&mut tx, &bytes), Handoff::Full(event.clone()));
    assert_eq!(rx.try_recv(), Ok(event.clone()));
    assert!(!tx.is_closed());
    drop(rx);
    assert!(tx.is_closed());
    assert_eq!(convert_network_events(&mut tx, &bytes), Handoff::Closed(event));
}

#[test]
fn settings() {
    assert_eq!(BpfxConfig::default().channel_capacity, 1024);
    assert_eq!(Bpfx::new().config.channel_capacity, 1024);
    let mut config = BpfxConfig::default();
    config.channel_capacity = 16;
    let mut bpfx = Bpfx::with_config(config);
    assert_eq!(bpfx.config.channel_capacity, 16);
    assert!(!bpfx.is_started());
    bpfx.run();
    assert!(bpfx.is_started());
}

#[test]
fn open_subscriptions() {
    assert!(!any_open(None, None, None, None));
    assert!(!any_open(Some(false), Some(false), Some(false), Some(false)));
    assert!(any_open(Some(true), None, None, None));
    assert!(any_open(None, Some(true), Some(false), None));
    assert!(any_open(None, None, Some(true), None));
    assert!(any_open(None, None, None, Some(true)));
}

#[test]
fn the_loop_ends_without_subscribers() {
    let mut bpfx = Bpfx::new();
    assert!(!bpfx.has_subscribers());
    let open = bpfx.has_subscribers();
    assert!(matches!(bpfx.turn(open, None), Err(Error::NoActiveSubscriptions)));
    let rx = bpfx.subscribe(ProcessFilter::all(), Ok(())).unwrap();
    assert!(bpfx.has_subscribers());
    assert!(bpfx.turn(true, None).is_ok());
    drop(rx);
    assert!(!bpfx.has_subscribers());
}

#[test]
fn a_failed_attach_registers_nothing() {
    let mut bpfx = Bpfx::new();
    let result = bpfx.subscribe(MemoryFilter::all(), Err(Error::ProgramAccess));
    assert!(matches!(result, Err(Error::ProgramAccess)));
    assert!(!bpfx.has_subscribers());
}

#[test]
fn each_record_reaches_its_stream() {
    let mut bpfx = Bpfx::new();
    let mut network = bpfx.subscribe(NetworkFilter::all(), Ok(())).unwrap();
    let mut process = bpfx.subscribe(ProcessFilter::all(), Ok(())).unwrap();
    let mut file = bpfx.subscribe(FileFilter::all(), Ok(())).unwrap();
    let mut memory = bpfx.subscribe(MemoryFilter::all(), Ok(())).unwrap();
    bpfx.run();

    let exit = RawProcessExitEvent { header: header(EventType::ProcessExit), exit_code: 1 };
    let delivery = bpfx.turn(true, Some(&exit.encode())).unwrap();
    assert!(matches!(delivery.process, Handoff::Sent));
    assert!(matches!(delivery.network, Handoff::Nothing));
    assert!(matches!(delivery.file, Handoff::Nothing));
    assert!(matches!(delivery.memory, Handoff::Nothing));
    assert!(matches!(process.try_recv(), Ok(ProcessEvent::Exit(_))));

    let close = socket(EventType::Close, RawProtocol::Tcp, None);
    let delivery = bpfx.turn(true, Some(&close.encode())).unwrap();
    assert!(matches!(delivery.network, Handoff::Sent));
    assert!(matches!(delivery.process, Handoff::Nothing));
    assert!(matches!(network.try_recv(), Ok(NetworkEvent::Close(_))));

    let delivery = bpfx.turn(true, Some(&rename(1, 2).encode())).unwrap();
    assert!(matches!(delivery.file, Handoff::Nothing));
    let delivery = bpfx.turn(true, Some(&rename_end(1, 2, 0).encode())).unwrap();
    assert!(matches!(delivery.file, Handoff::Sent));
    assert!(matches!(file.try_recv(), Ok(FileEvent::Rename(_))));

    let unmap = RawMemoryUnmapEvent {
        header: header(EventType::MemoryUnMap),
        requested_address: 1,
        length: 2,
        mapped_address: 3,
    };
    let delivery = bpfx.turn(true, Some(&unmap.encode())).unwrap();
    assert!(matches!(delivery.memory, Handoff::Sent));
    assert!(matches!(memory.try_recv(), Ok(MemoryEvent::MemoryUnMap(_))));
}

#[test]
fn records_without_a_subscription_go_nowhere() {
    let mut bpfx = Bpfx::new();
    let mut rx = bpfx.subscribe(NetworkFilter::all(), Ok(())).unwrap();
    let exit = RawProcessExitEvent { header: header(EventType::ProcessExit), exit_code: 1 };
    let delivery = bpfx.turn(true, Some(&exit.encode())).unwrap();
    assert!(matches!(delivery.process, Handoff::Nothing));
    assert!(matches!(delivery.network, Handoff::Nothing));
    assert!(rx.try_recv().is_err());
}

#[test]
fn a_new_subscription_takes_the_place_of_the_old() {
    let mut bpfx = Bpfx::new();
    let mut first = bpfx.subscribe(ProcessFilter::all(), Ok(())).unwrap();
    let mut second = bpfx.subscribe(ProcessFilter::exit(), Ok(())).unwrap();
    let exit = RawProcessExitEvent { header: header(EventType::ProcessExit), exit_code: 1 };
    assert!(bpfx.turn(true, Some(&exit.encode())).is_ok());
    assert!(first.try_recv().is_err());
    assert!(second.try_recv().is_ok());
}

#[test]
fn a_subscription_holds_as_many_events_as_configured() {
    let mut config = BpfxConfig::default();
    config.channel_capacity = 2;
    let mut bpfx = Bpfx::with_config(config);
    let mut rx = bpfx.subscribe(ProcessFilter::all(), Ok(())).unwrap();
    assert_eq!(rx.max_capacity(), 2);
    let exit = RawProcessExitEvent { header: header(EventType::ProcessExit), exit_code: 1 };
    for _ in 0..2 {
        let delivery = bpfx.turn(true, Some(&exit.encode())).unwrap();
        assert!(matches!(delivery.process, Handoff::Sent));
    }
    let delivery = bpfx.turn(true, Some(&exit.encode())).unwrap();
    assert!(matches!(delivery.process, Handoff::Full(ProcessEvent::Exit(_))));
    assert!(rx.try_recv().is_ok());
    let delivery = bpfx.turn(true, Some(&exit.encode())).unwrap();
    assert!(matches!(delivery.process, Handoff::Sent));
}

#[test]
fn every_kind_of_event_is_sent_once() {
    let start =
        RawProcessStartEvent { header: header(EventType::ProcessStart), filename: name(b"/bin/ls") };
    let (mut tx, mut rx) = Producer::open(4);
    assert!(matches!(convert_process_events(&mut tx, &start.encode()), Handoff::Sent));
    match rx.try_recv() {
        Ok(ProcessEvent::Start(e)) => assert_eq!(e.filename, "/bin/ls"),
        _ => panic!("no start"),
    }
    assert!(rx.try_recv().is_err());
    let map = RawMemoryMapEvent {
        header: header(EventType::MemoryMap),
        requested_address: 1,
        length: 2,
        protection: 3,
        flags: 4,
        mapped_address: 5,
    };
    let (mut tx, mut rx) = Producer::open(4);
    assert!(matches!(convert_mem_events(&mut tx, &map.encode()), Handoff::Sent));
    match rx.try_recv() {
        Ok(MemoryEvent::MemoryMap(e)) => {
            assert_eq!((e.requested_address, e.length, e.protection), (1, 2, 3));
            assert_eq!((e.flags, e.mapped_address, e.header.pid), (4, 5, 10));
        }
        _ => panic!("no map"),
    }
    assert!(rx.try_recv().is_err());
    assert!(matches!(convert_mem_events(&mut tx, &start.encode()), Handoff::Nothing));
    let (mut tx, mut rx) = Producer::open(4);
    let mut pending = PendingRenames::new();
    assert_eq!(convert_file_events(&mut tx, &rename(1, 2).encode(), &mut pending), Handoff::Nothing);
    let end = rename_end(1, 2, 0).encode();
    assert_eq!(convert_file_events(&mut tx, &end, &mut pending), Handoff::Sent);
    assert!(matches!(rx.try_recv(), Ok(FileEvent::Rename(_))));
    assert!(rx.try_recv().is_err());
}

#[test]
fn only_starts_that_were_let_through_become_renames() {
    let mut bpfx = Bpfx::new();
    let mut rx = bpfx.subscribe(FileFilter::all(), Ok(())).unwrap();
    for item in [rename(1, 2).encode(), rename_end(3, 4, 0).encode(), rename(5, 6).encode()] {
        let delivery = bpfx.turn(true, Some(&item)).unwrap();
        assert!(matches!(delivery.file, Handoff::Nothing));
    }
    for (pid, tid) in [(5, 6), (1, 2)] {
        assert!(bpfx.turn(true, Some(&rename_end(pid, tid, 0).encode())).is_ok());
        match rx.try_recv() {
            Ok(FileEvent::Rename(e)) => assert_eq!((e.header.pid, e.header.tid), (pid, tid)),
            _ => panic!("no rename"),
        }
    }
    assert!(rx.try_recv().is_err());
}

#[test]
fn filters_know_their_probes() {
    assert_eq!(NetworkFilter::all().attach().len(), 10);
    assert_eq!(ProcessFilter::all().attach().len(), 4);
    assert_eq!(FileFilter::all().attach().len(), 9);
    assert_eq!(MemoryFilter::all().attach().len(), 3);
}

#[test]
fn from_probe_to_event() {
    let task = TaskRead {
        pid_tgid: (1234 << 32) | 1235,
        timestamp_ns: 7,
        uid_gid: 0,
        parent_tgid: None,
        comm: None,
    };
    let key = Some(FilterKey::Pid(1234));
    let record = try_sched_process_exec(Some(8), &name(b"/bin/true"), &task, key).unwrap();
    match process_event(&record.encode()) {
        Some(ProcessEvent::Start(e)) => {
            assert_eq!((e.header.pid, e.header.tid, e.header.comm.as_str()), (1234, 1235, ""));
            assert_eq!(e.filename, "/bin/true");
        }
        _ => panic!("no start"),
    }
    let file = FileRead { i_mode: 0o100600, inode: 1, flags: 0, name: name(b"f") };
    let config = Some(FileModeFilter { mode: 1 });
    let record = try_vfs_open(Some(&file), 0, config, &task, key).unwrap();
    match file_event(&record.encode(), &mut PendingRenames::new()) {
        Some(FileEvent::Open(e)) => {
            assert_eq!((e.header.pid, e.file_type), (1234, FileType::Regular))
        }
        _ => panic!("no open"),
    }
}
