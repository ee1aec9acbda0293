use bpfx::file::{
    FileCloseEvent, FileDeleteEvent, FileEventKey, FileInfo, FileOpenEvent, FileReadEvent,
    FileRenameEvent, FileWriteEvent,
};
use bpfx::ip::IpAddr;
use bpfx::memory::{MemoryMapEvent, MemoryUnmapEvent};
use bpfx::network::{
    AcceptEvent, BindEvent, CloseEvent, ConnectEvent, ListenEvent, SocketEndpoints,
};
use bpfx::process::{ProcessExitEvent, ProcessForkEvent, ProcessStartEvent};
use bpfx::raw::{
    FileModeFilter, O_APPEND, O_CLOEXEC, O_CREAT, O_DIRECTORY, O_DSYNC, O_RDWR, O_SYNC, O_TMPFILE,
    O_WRONLY,
};
use bpfx::{
    EventHeader, FileEvent, FileMask, FileType, MemoryEvent, NetworkEvent, ProcessEvent, ProcessId,
    Protocol,
};
use std::time::Duration;

fn header() -> EventHeader {
    EventHeader {
        timestamp_ns: 1_500_000_000,
        pid: 10,
        tid: 11,
        ppid: 1,
        uid: 1000,
        gid: 100,
        comm: String::from("cat"),
    }
}

const HEAD: &str = "1500000000 pid=10 tid=11 ppid=1 uid=1000 gid=100 comm=cat";

fn endpoints() -> SocketEndpoints {
    SocketEndpoints {
        local_ip: IpAddr::V4([127, 0, 0, 1]),
        local_port: 4000,
        remote_ip: IpAddr::V4([10, 0, 0, 255]),
        remote_port: 80,
    }
}

fn open(path: &str, flags: u32, retval: i32) -> FileOpenEvent {
    FileOpenEvent {
        header: header(),
        file_path: String::from(path),
        file_type: FileType::Regular,
        inode: 42,
        retval,
        flags,
    }
}

fn close() -> FileCloseEvent {
    FileCloseEvent {
        header: header(),
        file_path: String::from("/tmp/a"),
        file_type: FileType::Fifo,
        inode: 43,
        retval: 0,
        flags: 0,
    }
}

fn read(retval: isize) -> FileReadEvent {
    FileReadEvent {
        header: header(),
        file_path: String::from("/tmp/b"),
        file_type: FileType::Regular,
        inode: 44,
        retval,
        flags: 0,
    }
}

fn write(retval: isize) -> FileWriteEvent {
    FileWriteEvent {
        header: header(),
        file_path: String::from("c"),
        file_type: FileType::Socket,
        inode: 45,
        retval,
        flags: 1,
    }
}

fn delete() -> FileDeleteEvent {
    FileDeleteEvent {
        header: header(),
        filename: String::from("gone"),
        file_type: FileType::Symlink,
        retval: -2,
    }
}

fn rename() -> FileRenameEvent {
    FileRenameEvent {
        header: header(),
        old_filename: String::from("from"),
        new_filename: String::from("to"),
        file_type: FileType::Directory,
        flags: 2,
        retval: -17,
    }
}

#[test]
fn header_text_and_parts() {
    let h = header();
    assert_eq!(h.to_string(), HEAD);
    assert_eq!(h.process(), ProcessId { pid: 10, tid: 11 });
    assert_eq!(h.timestamp(), Duration::new(1, 500_000_000));
    assert!(!h.is_kernel_thread());
    assert!(EventHeader { pid: 0, ..header() }.is_kernel_thread());
}

#[test]
fn timestamps_of_boot_and_end() {
    assert_eq!(EventHeader { timestamp_ns: 0, ..header() }.timestamp(), Duration::ZERO);
    for timestamp_ns in [0, 1, 999_999_999, 1_000_000_000, u64::MAX - 1, u64::MAX] {
        let at = EventHeader { timestamp_ns, ..header() }.timestamp();
        assert_eq!(at.as_nanos(), timestamp_ns as u128);
    }
    let early = EventHeader { timestamp_ns: 5, ..header() }.timestamp();
    let late = EventHeader { timestamp_ns: 6, ..header() }.timestamp();
    assert!(early < late);
    assert_eq!(
        EventHeader { timestamp_ns: u64::MAX, ..header() }.timestamp(),
        Duration::new(18_446_744_073, 709_551_615)
    );
}

#[test]
fn process_event_texts() {
    let start =
        ProcessEvent::Start(ProcessStartEvent { header: header(), filename: String::from("/bin/ls") });
    assert_eq!(start.to_string(), format!("{HEAD} START /bin/ls"));
    let exit = ProcessEvent::Exit(ProcessExitEvent { header: header(), exit_code: 256 });
    assert_eq!(exit.to_string(), format!("{HEAD} EXIT 0"));
    let fork = ProcessEvent::Fork(ProcessForkEvent {
        parent: header(),
        child_pid: 12,
        child_comm: String::from("sh"),
    });
    assert_eq!(fork.to_string(), format!("{HEAD} FORK sh(12)"));
    assert_eq!(fork.header().pid, 10);
    assert_eq!(fork.process(), ProcessId { pid: 10, tid: 11 });
    assert_eq!(exit.timestamp(), Duration::from_nanos(1_500_000_000));
    assert!(!start.is_kernel_thread());
    assert!(start.is_start() && !start.is_fork() && !start.is_exit());
    assert!(!fork.is_start() && fork.is_fork() && !fork.is_exit());
    assert!(!exit.is_start() && !exit.is_fork() && exit.is_exit());
}

#[test]
fn exit_status() {
    for exit_code in [0, 1, 255, 256, -1, i32::MIN, i32::MAX] {
        assert_eq!(ProcessExitEvent { header: header(), exit_code }.status(), 0);
    }
}

#[test]
fn network_event_texts() {
    let socket = "127.0.0.1:4000 -> 10.0.0.255:80";
    assert_eq!(endpoints().to_string(), socket);
    let connect = NetworkEvent::Connect(ConnectEvent {
        header: header(),
        protocol: Protocol::Udp,
        endpoints: endpoints(),
        retval: -115,
    });
    assert_eq!(connect.to_string(), format!("{HEAD} UDP CONNECT {socket} -> -115"));
    let accept = NetworkEvent::Accept(AcceptEvent {
        header: header(),
        protocol: Protocol::Tcp,
        endpoints: endpoints(),
    });
    assert_eq!(accept.to_string(), format!("{HEAD} TCP ACCEPT {socket}"));
    let close = NetworkEvent::Close(CloseEvent {
        header: header(),
        protocol: Protocol::Tcp,
        endpoints: endpoints(),
    });
    assert_eq!(close.to_string(), format!("{HEAD} TCP CLOSE {socket}"));
    let bind = NetworkEvent::Bind(BindEvent {
        header: header(),
        protocol: Protocol::Tcp,
        endpoints: endpoints(),
        retval: 0,
    });
    assert_eq!(bind.to_string(), format!("{HEAD} TCP BIND {socket} -> 0"));
    let listen = NetworkEvent::Listen(ListenEvent {
        header: header(),
        protocol: Protocol::Tcp,
        endpoints: endpoints(),
        retval: 0,
    });
    assert_eq!(listen.to_string(), format!("{HEAD} TCP LISTEN {socket} -> 0"));
    assert!(connect.is_udp() && !connect.is_tcp());
    assert!(listen.is_tcp() && !listen.is_udp());
    assert_eq!(*accept.endpoints(), endpoints());
    assert_eq!(bind.process(), ProcessId { pid: 10, tid: 11 });
    assert_eq!(close.timestamp(), Duration::from_nanos(1_500_000_000));
    assert!(!close.is_kernel_thread());
    assert_eq!(close.header().comm, "cat");
}

#[test]
fn memory_event_texts() {
    let map = MemoryEvent::MemoryMap(MemoryMapEvent {
        header: header(),
        requested_address: 0,
        length: 4096,
        protection: 3,
        flags: 34,
        mapped_address: 0x7fff_0000,
    });
    assert_eq!(map.to_string(), format!("{HEAD} MMAP addr=0x0 len=0x1000 -> 0x7fff0000"));
    let unmap = MemoryEvent::MemoryUnMap(MemoryUnmapEvent {
        header: header(),
        requested_address: 0xdead_beef,
        length: 10,
        mapped_address: 0,
    });
    assert_eq!(unmap.to_string(), format!("{HEAD} MUNMAP addr=0xdeadbeef len=0xa"));
    assert!(map.is_mmap() && !map.is_unmap());
    assert!(unmap.is_unmap() && !unmap.is_mmap());
    assert_eq!(unmap.process(), ProcessId { pid: 10, tid: 11 });
    assert_eq!(map.header().uid, 1000);
    assert!(!map.is_kernel_thread());
    assert_eq!(map.timestamp(), Duration::from_nanos(1_500_000_000));
}

#[test]
fn file_event_texts() {
    assert_eq!(open("/etc/passwd", 0, 3).to_string(), format!("{HEAD} OPEN /etc/passwd -> 3"));
    assert_eq!(close().to_string(), format!("{HEAD} CLOSE /tmp/a (0)"));
    assert_eq!(read(-11).to_string(), format!("{HEAD} READ /tmp/b (-11)"));
    assert_eq!(write(12).to_string(), format!("{HEAD} WRITE c (12)"));
    assert_eq!(delete().to_string(), format!("{HEAD} DELETE gone (-2)"));
    assert_eq!(rename().to_string(), format!("{HEAD} RENAME (from) => (to) (-17)"));
}

#[test]
fn file_names() {
    for (path, name) in [
        ("/etc/passwd", "passwd"),
        ("passwd", "passwd"),
        ("/", ""),
        ("", ""),
        ("/etc/", "etc"),
        ("/etc/.", "etc"),
        ("/etc/..", ""),
        ("..", ""),
        (".", ""),
        ("a/./b/./", "b"),
        ("a//b", "b"),
        ("..x", "..x"),
    ] {
        let event = open(path, 0, 0);
        assert_eq!(event.file_name(), name, "{path}");
        assert_eq!(event.file_path(), path);
        let std_name = std::path::Path::new(path).file_name().and_then(|n| n.to_str());
        assert_eq!(event.file_name(), std_name.unwrap_or(""), "{path}");
    }
}

#[test]
fn file_event_parts() {
    let opened = FileEvent::Open(open("/a/b", O_WRONLY, -13));
    assert_eq!(opened.file_path(), Some("/a/b"));
    assert_eq!(opened.file_name(), Some("b"));
    assert_eq!(opened.retval(), -13);
    assert!(opened.failed() && !opened.succeeded());
    assert_eq!(opened.inode(), Some(42));
    assert_eq!(*opened.file_type(), FileType::Regular);
    assert_eq!(opened.event_type(), FileMask::open());
    assert_eq!(opened.old_filename(), None);
    assert_eq!(opened.new_filename(), None);
    assert_eq!(opened.header().pid, 10);
    assert_eq!(opened.process(), ProcessId { pid: 10, tid: 11 });
    assert_eq!(opened.timestamp(), Duration::from_nanos(1_500_000_000));
    assert!(!opened.is_kernel_thread());

    let renamed = FileEvent::Rename(rename());
    assert_eq!(renamed.file_path(), None);
    assert_eq!(renamed.file_name(), None);
    assert_eq!(renamed.old_filename(), Some("from"));
    assert_eq!(renamed.new_filename(), Some("to"));
    assert_eq!(renamed.inode(), None);
    assert_eq!(renamed.event_type(), FileMask::rename());

    let deleted = FileEvent::Delete(delete());
    assert_eq!(deleted.file_path(), None);
    assert_eq!(deleted.inode(), None);
    assert_eq!(deleted.retval(), -2);
    assert_eq!(deleted.event_type(), FileMask::delete());

    let written = FileEvent::Write(write(12));
    assert_eq!(written.retval(), 12);
    assert!(written.succeeded() && !written.failed());
    assert_eq!(written.event_type(), FileMask::write());
    assert_eq!(FileEvent::Read(read(0)).event_type(), FileMask::read());
    assert!(FileEvent::Read(read(0)).succeeded());
    assert_eq!(FileEvent::Close(close()).event_type(), FileMask::close());
    assert_eq!(*FileEvent::Close(close()).file_type(), FileType::Fifo);
}

#[test]
fn deduplication_keys() {
    assert_eq!(
        FileEvent::Read(read(5)).dedup_key(),
        FileEventKey::Read { inode: 44, retval: 5 }
    );
    assert_eq!(
        FileEvent::Write(write(5)).dedup_key(),
        FileEventKey::Write { inode: 45, retval: 5 }
    );
    assert_eq!(
        FileEvent::Open(open("x", 7, 1)).dedup_key(),
        FileEventKey::Open { inode: 42, flags: 7 }
    );
    assert_eq!(
        FileEvent::Open(open("x", 7, 1)).dedup_key(),
        FileEvent::Open(open("y", 7, 2)).dedup_key()
    );
    assert_eq!(FileEvent::Close(close()).dedup_key(), FileEventKey::Close { inode: 43 });
    assert_eq!(FileEvent::Rename(rename()).dedup_key(), FileEventKey::Rename { retval: -17 });
    assert_eq!(FileEvent::Delete(delete()).dedup_key(), FileEventKey::Delete { retval: -2 });
}

#[test]
fn open_flags() {
    let event = open("x", O_WRONLY | O_APPEND | O_CLOEXEC, 0);
    assert_eq!(event.flags(), "WRONLY|APPEND|CLOEXEC");
    assert_eq!(event.flags_raw(), 0o2002001);
    assert!(event.is_write() && !event.is_read());
    assert!(event.has_flag(O_APPEND) && !event.has_flag(O_CREAT));
    assert_eq!(open("x", 0, 0).flags(), "RDONLY");
    assert!(open("x", 0, 0).is_read() && !open("x", 0, 0).is_write());
    assert_eq!(open("x", O_RDWR | O_CREAT, 0).flags(), "RDWR|CREAT");
    assert!(open("x", O_RDWR, 0).is_read() && open("x", O_RDWR, 0).is_write());
    assert_eq!(open("x", 3, 0).flags(), "");
    assert!(!open("x", 3, 0).is_read() && !open("x", 3, 0).is_write());
    assert_eq!(open("x", O_TMPFILE | O_RDWR, 0).flags(), "RDWR|DIRECTORY|TMPFILE");
    assert_eq!(open("x", 0o20000000, 0).flags(), "RDONLY");
    assert_eq!(open("x", O_WRONLY | O_DSYNC, 0).flags(), "WRONLY|DSYNC");
    assert_eq!(open("x", O_WRONLY | O_SYNC, 0).flags(), "WRONLY|DSYNC|SYNC");
    assert_eq!(open("x", 0o4000000, 0).flags(), "RDONLY");
    assert!(open("x", O_DSYNC, 0).has_flag(O_DSYNC) && !open("x", O_DSYNC, 0).has_flag(O_SYNC));
    assert!(open("x", O_SYNC, 0).has_flag(O_DSYNC) && open("x", O_SYNC, 0).has_flag(O_SYNC));
    assert!(!open("x", O_DIRECTORY, 0).has_flag(O_TMPFILE));
    assert!(open("x", O_TMPFILE, 0).has_flag(O_TMPFILE));
    assert!(open("x", O_APPEND, 0).has_flag(O_APPEND | O_CREAT));
    assert!(!open("x", O_APPEND, 0).has_flag(0));
    assert_eq!(
        open("x", 0o17677700, 0).flags(),
        "RDONLY|APPEND|ASYNC|CLOEXEC|CREAT|DIRECT|DIRECTORY|DSYNC|EXCL|NOATIME|NOCTTY|NOFOLLOW|\
         NONBLOCK|PATH|SYNC|TRUNC"
    );
    assert_eq!(close().flags(), "RDONLY");
    assert_eq!(read(0).flags(), "RDONLY");
    assert_eq!(write(0).flags(), "WRONLY");
    assert_eq!(rename().flags(), "RDWR");
}

#[test]
fn file_types() {
    for (bit, file_type, bits) in [
        (1, FileType::Regular, 0o100000),
        (2, FileType::Directory, 0o040000),
        (4, FileType::CharDevice, 0o020000),
        (8, FileType::BlockDevice, 0o060000),
        (16, FileType::Fifo, 0o010000),
        (32, FileType::Symlink, 0o120000),
        (64, FileType::Socket, 0o140000),
        (0, FileType::Unknown, 0),
        (3, FileType::Unknown, 0),
        (128, FileType::Unknown, 0),
    ] {
        assert_eq!(FileType::from(FileModeFilter { mode: bit }), file_type);
        assert_eq!(file_type.mode_bits(), bits);
        assert_eq!(u32::from(file_type), bits);
    }
}
