use bpfx::probe::{
    build_event_header, capture_file, capture_inode, collect_process_ctx, data_loc_offset,
    emit_v4, emit_v6, filter_events, port_from_network, read_v6_addr, sock_daddr, sock_dport, sock_num,
    sock_rcv_saddr, try_do_group_exit, try_flip_close, try_inet_bind, try_inet_csk_accept_impl,
    try_inet_listen, try_sched_process_exec, try_sched_process_fork, try_sys_enter_connect,
    try_tcp_close, try_tcp_v4_connect, try_tcp_v6_connect, try_udp_connect, try_udp_destroy_sock,
    try_udpv6_connect, try_vfs_open, try_vfs_read, try_vfs_rename, try_vfs_rename_retval,
    try_vfs_unlink, try_vfs_write, try_vm_mmap_pgoff, try_vm_munmap, DentryRead, FileRead,
    SockAddrIn, SockRead, SockaddrIn6, TaskRead,
};
use bpfx::raw::{
    EventType, FileModeFilter, IpVersion, RawEventHeader, RawFileRenameEvent, RawProtocol,
};
use bpfx::FilterKey;

fn task() -> TaskRead {
    TaskRead {
        pid_tgid: (10 << 32) | 11,
        timestamp_ns: 99,
        uid_gid: (100 << 32) | 1000,
        parent_tgid: Some(1),
        comm: Some(*b"bash\0\0\0\0\0\0\0\0\0\0\0\0"),
    }
}

fn sock(family: u16) -> SockRead {
    SockRead {
        family: Some(family),
        daddr: Some(0x0101_a8c0),
        rcv_saddr: Some(0x0100_007f),
        dport: Some(0x5000),
        num: Some(4000),
        v6_daddr: Some([2; 16]),
        v6_rcv_saddr: Some([1; 16]),
    }
}

fn name(text: &[u8]) -> [u8; 256] {
    let mut field = [0u8; 256];
    field[..text.len()].copy_from_slice(text);
    field
}

fn file(i_mode: u16) -> FileRead {
    FileRead { i_mode, inode: 42, flags: 0o2001, name: name(b"file") }
}

fn all_types() -> Option<FileModeFilter> {
    Some(FileModeFilter { mode: 127 })
}

fn regular() -> Option<FileModeFilter> {
    Some(FileModeFilter { mode: 1 })
}

fn same_header(header: &RawEventHeader, kind: EventType) {
    assert_eq!(header.event_type, kind);
    assert_eq!(header.timestamp_ns, 99);
    assert_eq!((header.pid, header.tid, header.ppid), (10, 11, 1));
    assert_eq!((header.uid, header.gid), (1000, 100));
    assert_eq!(header.comm, *b"bash\0\0\0\0\0\0\0\0\0\0\0\0");
}

#[test]
fn headers() {
    same_header(&build_event_header(EventType::Bind, &task()), EventType::Bind);
    let lost = TaskRead { parent_tgid: None, comm: None, ..task() };
    let header = build_event_header(EventType::Bind, &lost);
    assert_eq!((header.ppid, header.comm), (0, [0; 16]));
    let odd = TaskRead { parent_tgid: Some(-1), pid_tgid: u64::MAX, ..task() };
    let (_, pid, tid, ppid, _, _, _) = collect_process_ctx(&odd);
    assert_eq!((pid, tid, ppid), (u32::MAX, u32::MAX, u32::MAX));
}

#[test]
fn filter_keys() {
    let header = build_event_header(EventType::Close, &task());
    for (key, left_out) in [
        (None, false),
        (Some(FilterKey::Any), false),
        (Some(FilterKey::Pid(10)), false),
        (Some(FilterKey::Pid(11)), true),
        (Some(FilterKey::Tid(11)), false),
        (Some(FilterKey::Tid(10)), true),
        (Some(FilterKey::Ppid(1)), false),
        (Some(FilterKey::Ppid(2)), true),
        (Some(FilterKey::Uid(1000)), false),
        (Some(FilterKey::Uid(100)), true),
        (Some(FilterKey::Gid(100)), false),
        (Some(FilterKey::Gid(1000)), true),
    ] {
        assert_eq!(filter_events(key, &header), left_out, "{key:?}");
    }
}

#[test]
fn socket_fields() {
    let read = sock(2);
    assert_eq!(sock_daddr(&read), 0x0101_a8c0);
    assert_eq!(sock_rcv_saddr(&read), 0x0100_007f);
    assert_eq!(sock_dport(&read), 0x5000);
    assert_eq!(sock_num(&read), 4000);
    let unread = SockRead { daddr: None, rcv_saddr: None, dport: None, num: None, ..read };
    assert_eq!(sock_daddr(&unread), 0);
    assert_eq!(sock_rcv_saddr(&unread), 0);
    assert_eq!(sock_dport(&unread), 0);
    assert_eq!(sock_num(&unread), 0);
    assert_eq!(read_v6_addr(Some([7; 16])), Ok([7; 16]));
    assert_eq!(read_v6_addr(None), Err(0));
}

#[test]
fn v4_sockets() {
    let record = emit_v4(&sock(2), Some(-1), 2, EventType::Connect, &task(), None).unwrap();
    same_header(&record.header, EventType::Connect);
    assert!(matches!(record.protocol, RawProtocol::Udp));
    assert!(matches!(record.ip_version, IpVersion::V4));
    assert_eq!(record.tid, 11);
    assert_eq!((record.src_port, record.dst_port), (4000, 80));
    assert_eq!(record.src_addr, [127, 0, 0, 1, 0, 0, 0, 0, 0, 0, 0, 0, 0, 0, 0, 0]);
    assert_eq!(record.dst_addr, [192, 168, 1, 1, 0, 0, 0, 0, 0, 0, 0, 0, 0, 0, 0, 0]);
    assert_eq!(record.retval, Some(-1));
    let other = Some(FilterKey::Pid(9));
    assert!(emit_v4(&sock(2), None, 1, EventType::Accept, &task(), other).is_none());
}

#[test]
fn remote_ports_are_numbers() {
    for (port, word) in [(80u16, 0x5000u16), (443, 47873), (0, 0), (0xff00, 0xff), (65535, 65535)] {
        assert_eq!(port_from_network(word), port);
        let read = SockRead { dport: Some(word), ..sock(2) };
        let v4 = emit_v4(&read, Some(0), 1, EventType::Connect, &task(), None).unwrap();
        assert_eq!(v4.dst_port, port);
        let v6 = emit_v6(&read, Some(0), 1, EventType::Connect, &task(), None).unwrap();
        assert_eq!(v6.dst_port, port);
    }
    let unread = SockRead { dport: None, num: None, ..sock(2) };
    let record = emit_v4(&unread, Some(0), 1, EventType::Connect, &task(), None).unwrap();
    assert_eq!((record.src_port, record.dst_port), (0, 0));
}

#[test]
fn v6_sockets() {
    let record = emit_v6(&sock(10), None, 1, EventType::Accept, &task(), None).unwrap();
    same_header(&record.header, EventType::Accept);
    assert!(matches!(record.protocol, RawProtocol::Tcp));
    assert!(matches!(record.ip_version, IpVersion::V6));
    assert_eq!((record.src_addr, record.dst_addr), ([1; 16], [2; 16]));
    assert_eq!(record.retval, None);
    let no_remote = SockRead { v6_daddr: None, ..sock(10) };
    assert!(emit_v6(&no_remote, None, 1, EventType::Accept, &task(), None).is_none());
    let no_local = SockRead { v6_rcv_saddr: None, ..sock(10) };
    assert!(emit_v6(&no_local, None, 1, EventType::Accept, &task(), None).is_none());
    let other = Some(FilterKey::Uid(0));
    assert!(emit_v6(&sock(10), None, 1, EventType::Accept, &task(), other).is_none());
}

#[test]
fn connects() {
    let s = sock(2);
    let tcp4 = try_tcp_v4_connect(Some(&s), -115, &task(), None).unwrap();
    assert_eq!((tcp4.protocol.tag(), tcp4.retval), (1, Some(-115)));
    assert!(matches!(tcp4.ip_version, IpVersion::V4));
    let tcp6 = try_tcp_v6_connect(Some(&s), 0, &task(), None).unwrap();
    assert_eq!((tcp6.protocol.tag(), tcp6.retval), (1, Some(0)));
    assert!(matches!(tcp6.ip_version, IpVersion::V6));
    let udp4 = try_udp_connect(Some(&s), 1, &task(), None).unwrap();
    assert_eq!((udp4.protocol.tag(), udp4.retval), (2, Some(1)));
    let udp6 = try_udpv6_connect(Some(&s), 2, &task(), None).unwrap();
    assert_eq!((udp6.protocol.tag(), udp6.retval), (2, Some(2)));
    assert_eq!(udp6.header.event_type, EventType::Connect);
    assert!(try_tcp_v4_connect(None, 0, &task(), None).is_none());
    assert!(try_tcp_v6_connect(None, 0, &task(), None).is_none());
    assert!(try_udp_connect(None, 0, &task(), None).is_none());
    assert!(try_udpv6_connect(None, 0, &task(), None).is_none());
}

#[test]
fn families() {
    for (family, v6) in [(2, false), (10, true)] {
        let s = sock(family);
        let accept = try_inet_csk_accept_impl(Some(&s), &task(), None).unwrap();
        assert_eq!(accept.header.event_type, EventType::Accept);
        assert_eq!((accept.protocol.tag(), accept.retval), (1, None));
        assert_eq!(matches!(accept.ip_version, IpVersion::V6), v6);
        let close = try_tcp_close(Some(&s), &task(), None).unwrap();
        assert_eq!(close.header.event_type, EventType::Close);
        assert_eq!((close.protocol.tag(), close.retval), (1, None));
        let destroy = try_udp_destroy_sock(Some(&s), &task(), None).unwrap();
        assert_eq!(destroy.header.event_type, EventType::Close);
        assert_eq!((destroy.protocol.tag(), destroy.retval), (2, None));
        let bind = try_inet_bind(Some(&s), -98, &task(), None).unwrap();
        assert_eq!(bind.header.event_type, EventType::Bind);
        assert_eq!((bind.protocol.tag(), bind.retval), (1, Some(-98)));
        let listen = try_inet_listen(Some(&s), 0, &task(), None).unwrap();
        assert_eq!(listen.header.event_type, EventType::Listen);
        assert_eq!((listen.protocol.tag(), listen.retval), (1, Some(0)));
    }
    let unix = sock(1);
    let unread = SockRead { family: None, ..sock(2) };
    for s in [Some(&unix), Some(&unread), None] {
        assert!(try_inet_csk_accept_impl(s, &task(), None).is_none());
        assert!(try_tcp_close(s, &task(), None).is_none());
        assert!(try_udp_destroy_sock(s, &task(), None).is_none());
        assert!(try_inet_bind(s, 0, &task(), None).is_none());
        assert!(try_inet_listen(s, 0, &task(), None).is_none());
    }
}

#[test]
fn connect_calls() {
    let v4 = SockAddrIn { sin_family: 2, sin_port: 0x5000, sin_addr: [127, 0, 0, 1], _pad: [0; 8] };
    let v6 = SockaddrIn6 {
        sin6_family: 10,
        sin6_port: 0x5000,
        sin6_flowinfo: 0,
        sin6_addr: [0; 16],
        sin6_scope_id: 0,
    };
    let record = try_sys_enter_connect(Some(2), Some(&v4), None, &task()).unwrap();
    assert_eq!(record.family, 2);
    same_header(&record.header, EventType::Connect);
    assert_eq!(try_sys_enter_connect(Some(10), None, Some(&v6), &task()).unwrap().family, 10);
    assert!(try_sys_enter_connect(None, Some(&v4), Some(&v6), &task()).is_none());
    assert!(try_sys_enter_connect(Some(1), Some(&v4), Some(&v6), &task()).is_none());
    assert!(try_sys_enter_connect(Some(2), None, Some(&v6), &task()).is_none());
    assert!(try_sys_enter_connect(Some(10), Some(&v4), None, &task()).is_none());
}

#[test]
fn processes() {
    assert_eq!(data_loc_offset(0x0007_0018), 0x18);
    let filename = name(b"/bin/ls");
    let start = try_sched_process_exec(Some(0), &filename, &task(), None).unwrap();
    same_header(&start.header, EventType::ProcessStart);
    assert_eq!(start.filename, filename);
    assert!(try_sched_process_exec(None, &filename, &task(), None).is_none());
    let other = Some(FilterKey::Pid(1234));
    assert!(try_sched_process_exec(Some(0), &filename, &task(), other).is_none());

    let exit = try_do_group_exit(256, &task(), Some(FilterKey::Pid(10))).unwrap();
    same_header(&exit.header, EventType::ProcessExit);
    assert_eq!(exit.exit_code, 256);
    assert!(try_do_group_exit(256, &task(), other).is_none());

    let comm = [b'c'; 16];
    let fork = try_sched_process_fork(Some(0), Some(77), &comm, &task(), None).unwrap();
    same_header(&fork.parent, EventType::ProcessFork);
    assert_eq!((fork.child_pid, fork.child_comm), (77, comm));
    assert!(try_sched_process_fork(None, Some(77), &comm, &task(), None).is_none());
    assert!(try_sched_process_fork(Some(0), None, &comm, &task(), None).is_none());
    assert!(try_sched_process_fork(Some(0), Some(77), &comm, &task(), other).is_none());
}

#[test]
fn file_types_of_modes() {
    for (mode, bit) in [
        (0o100644, 1),
        (0o040755, 2),
        (0o020600, 4),
        (0o060600, 8),
        (0o010600, 16),
        (0o120777, 32),
        (0o140777, 64),
        (0o000777, 0),
        (0o170000, 0),
    ] {
        let (asked_for, file_mode) = capture_inode(all_types(), mode);
        assert_eq!((asked_for, file_mode.mode), (bit != 0, bit));
        assert_eq!(capture_inode(regular(), mode).0, bit == 1);
        assert_eq!(capture_file(regular(), &file(mode)).1.mode, bit);
        assert_eq!(capture_inode(None, mode), (false, FileModeFilter { mode: 0 }));
    }
}

#[test]
fn file_operations() {
    let f = file(0o100644);
    let open = try_vfs_open(Some(&f), -13, regular(), &task(), None).unwrap();
    same_header(&open.header, EventType::FileOpen);
    assert_eq!((open.filename, open.file_mode.mode, open.retval), (name(b"file"), 1, -13));
    assert_eq!((open.inode, open.flags), (42, 0o2001));
    let close = try_flip_close(Some(&f), 0, regular(), &task(), None).unwrap();
    same_header(&close.header, EventType::FileClose);
    assert_eq!((close.retval, close.inode, close.flags), (0, 42, 0o2001));
    let read = try_vfs_read(Some(&f), 512, regular(), &task(), None).unwrap();
    same_header(&read.header, EventType::FileRead);
    assert_eq!((read.retval, read.inode, read.flags), (512, 42, 0o2001));
    let write = try_vfs_write(Some(&f), -9, regular(), &task(), None).unwrap();
    same_header(&write.header, EventType::FileWrite);
    assert_eq!((write.retval, write.inode, write.flags), (-9, 42, 0o2001));

    let dir = file(0o040755);
    let other = Some(FilterKey::Gid(7));
    assert!(try_vfs_open(None, 0, regular(), &task(), None).is_none());
    assert!(try_vfs_open(Some(&dir), 0, regular(), &task(), None).is_none());
    assert!(try_vfs_open(Some(&f), 0, None, &task(), None).is_none());
    assert!(try_vfs_open(Some(&f), 0, regular(), &task(), other).is_none());
    assert!(try_flip_close(None, 0, regular(), &task(), None).is_none());
    assert!(try_flip_close(Some(&dir), 0, regular(), &task(), None).is_none());
    assert!(try_vfs_read(None, 0, regular(), &task(), None).is_none());
    assert!(try_vfs_read(Some(&f), 0, regular(), &task(), other).is_none());
    assert!(try_vfs_write(Some(&dir), 0, regular(), &task(), None).is_none());
    assert!(try_vfs_write(Some(&dir), 0, all_types(), &task(), None).is_some());
}

#[test]
fn deletions() {
    let entry = DentryRead { i_mode: 0o120777, name: name(b"link") };
    let record = try_vfs_unlink(&entry, -1, all_types(), &task(), None).unwrap();
    same_header(&record.header, EventType::FileDelete);
    assert_eq!((record.filename, record.file_mode.mode, record.retval), (name(b"link"), 32, -1));
    assert!(try_vfs_unlink(&entry, 0, regular(), &task(), None).is_none());
    assert!(try_vfs_unlink(&entry, 0, all_types(), &task(), Some(FilterKey::Tid(1))).is_none());
}

#[test]
fn renames() {
    let mut temp = RawFileRenameEvent {
        header: build_event_header(EventType::Close, &task()),
        old_filename: [9; 256],
        new_filename: [9; 256],
        file_mode: FileModeFilter { mode: 9 },
        retval: 33,
        flags: 9,
    };
    let old = DentryRead { i_mode: 0o100644, name: name(b"old") };
    let new = DentryRead { i_mode: 0, name: name(b"new") };
    let other = Some(FilterKey::Pid(1));
    assert!(!try_vfs_rename(&old, &new, 1, regular(), &task(), other, &mut temp));
    assert!(!try_vfs_rename(&old, &new, 1, None, &task(), None, &mut temp));
    assert_eq!((temp.old_filename, temp.file_mode.mode), ([9; 256], 9));
    assert!(try_vfs_rename(&old, &new, 1, regular(), &task(), None, &mut temp));
    same_header(&temp.header, EventType::FileRename);
    assert_eq!((temp.old_filename, temp.new_filename), (name(b"old"), name(b"new")));
    assert_eq!((temp.file_mode.mode, temp.retval, temp.flags), (1, 33, 1));
    let end = try_vfs_rename_retval(-17, &task());
    same_header(&end.header, EventType::PendingFileRename);
    assert_eq!(end.retval, -17);
}

#[test]
fn mappings() {
    let map = try_vm_mmap_pgoff(1, 2, 3, 4, 5, &task(), None).unwrap();
    same_header(&map.header, EventType::MemoryMap);
    assert_eq!((map.requested_address, map.length, map.protection), (1, 2, 3));
    assert_eq!((map.flags, map.mapped_address), (4, 5));
    let unmap = try_vm_munmap(1, 2, 3, &task(), Some(FilterKey::Pid(10))).unwrap();
    same_header(&unmap.header, EventType::MemoryUnMap);
    assert_eq!((unmap.requested_address, unmap.length, unmap.mapped_address), (1, 2, 3));
    let other = Some(FilterKey::Pid(11));
    assert!(try_vm_mmap_pgoff(1, 2, 3, 4, 5, &task(), other).is_none());
    assert!(try_vm_munmap(1, 2, 3, &task(), other).is_none());
}
