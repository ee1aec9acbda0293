use bpfx::attach::{
    attach_file_probe, attach_mem_probe, attach_network_probe, attach_process_probe,
    write_to_filter_map, write_to_map, Filters, Probe, Program, Step,
};
use bpfx::file::{FileFilter, FileMask, FileTypeFilter};
use bpfx::memory::{MemoryFilter, MemoryMask};
use bpfx::network::{NetworkFilter, NetworkMask, ProtocolMask};
use bpfx::process::{ProcessFilter, ProcessMask};
use bpfx::raw::{FileModeFilter, FilterOwner};
use bpfx::FilterKey;

const PROGRAMS: [Program; 21] = [
    Program::TcpV4Connect,
    Program::TcpV6Connect,
    Program::InetCskAccept,
    Program::TcpClose,
    Program::InetBind,
    Program::InetListen,
    Program::UdpConnect,
    Program::Udpv6Connect,
    Program::UdpDestroySock,
    Program::SchedProcessExec,
    Program::SchedProcessFork,
    Program::DoGroupExit,
    Program::VfsOpen,
    Program::FilpClose,
    Program::VfsRead,
    Program::VfsWrite,
    Program::VfsUnlink,
    Program::VfsRename,
    Program::VfsRenameRetval,
    Program::VmMmapPgoff,
    Program::VmMunmap,
];

fn named(name: &str) -> Program {
    *PROGRAMS.iter().find(|program| program.name() == name).unwrap()
}

#[test]
fn program_names_are_distinct() {
    for a in PROGRAMS {
        assert_eq!(named(a.name()), a);
    }
}

fn fexit(program: &'static str, target: &'static str) -> Step {
    Step::Attach(Probe::FExit { program: named(program), target })
}

fn fentry(program: &'static str, target: &'static str) -> Step {
    Step::Attach(Probe::FEntry { program: named(program), target })
}

fn kprobe(program: &'static str, symbol: &'static str) -> Step {
    Step::Attach(Probe::KProbe { program: named(program), symbol })
}

fn tracepoint(program: &'static str, category: &'static str, name: &'static str) -> Step {
    Step::Attach(Probe::TracePoint { program: named(program), category, name })
}

fn key(owner: FilterOwner, key: FilterKey) -> Step {
    Step::WriteFilter { owner, key }
}

#[test]
fn network_probes_attach() {
    let steps = attach_network_probe(&NetworkFilter::all());
    assert_eq!(
        steps,
        vec![
            key(FilterOwner::Network, FilterKey::Any),
            fexit("tcp_v4_connect", "tcp_v4_connect"),
            fexit("tcp_v6_connect", "tcp_v6_connect"),
            kprobe("inet_csk_accept", "inet_csk_accept"),
            fexit("tcp_close", "tcp_close"),
            fexit("inet_bind", "inet_bind"),
            fexit("inet_listen", "inet_listen"),
            fexit("udp_connect", "udp_connect"),
            fexit("udpv6_connect", "udpv6_connect"),
            fexit("udp_destroy_sock", "udp_destroy_sock"),
        ]
    );
}

#[test]
fn process_probes_attach() {
    let steps = attach_process_probe(&ProcessFilter::all());
    assert_eq!(
        steps,
        vec![
            key(FilterOwner::Process, FilterKey::Any),
            tracepoint("sched_process_exec", "sched", "sched_process_exec"),
            tracepoint("sched_process_fork", "sched", "sched_process_fork"),
            fentry("do_group_exit", "do_group_exit"),
        ]
    );
}

#[test]
fn memory_probes_attach() {
    let steps = attach_mem_probe(&MemoryFilter::all());
    assert_eq!(
        steps,
        vec![
            key(FilterOwner::Memory, FilterKey::Any),
            fexit("vm_mmap_pgoff", "vm_mmap_pgoff"),
            fexit("__vm_munmap", "__vm_munmap"),
        ]
    );
}

#[test]
fn file_probes_attach() {
    let steps = attach_file_probe(&FileFilter::all());
    assert_eq!(
        steps,
        vec![
            key(FilterOwner::File, FilterKey::Any),
            Step::WriteConfig { mode: FileModeFilter { mode: 127 } },
            fexit("vfs_open", "vfs_open"),
            fexit("filp_close", "filp_close"),
            fexit("vfs_read", "vfs_read"),
            fexit("vfs_write", "vfs_write"),
            fexit("vfs_unlink", "vfs_unlink"),
            fentry("vfs_rename", "vfs_rename"),
            fexit("vfs_rename_retval", "vfs_rename"),
        ]
    );
}

#[test]
fn tcp_connects_of_any_task() {
    let filter = NetworkFilter {
        protocol_mask: ProtocolMask::tcp(),
        event_mask: NetworkMask::connect(),
        ..Default::default()
    };
    assert_eq!(
        attach_network_probe(&filter),
        vec![
            key(FilterOwner::Network, FilterKey::Any),
            fexit("tcp_v4_connect", "tcp_v4_connect"),
            fexit("tcp_v6_connect", "tcp_v6_connect"),
        ]
    );
}

#[test]
fn udp_has_no_accept_bind_or_listen() {
    let filter = NetworkFilter {
        protocol_mask: ProtocolMask::udp(),
        event_mask: NetworkMask::accept() | NetworkMask::bind() | NetworkMask::listen(),
        ..Default::default()
    };
    assert_eq!(attach_network_probe(&filter), vec![key(FilterOwner::Network, FilterKey::Any)]);
}

#[test]
fn udp_closes() {
    let filter = NetworkFilter { event_mask: NetworkMask::close(), ..NetworkFilter::udp() };
    assert_eq!(
        attach_network_probe(&filter),
        vec![
            key(FilterOwner::Network, FilterKey::Any),
            fexit("udp_destroy_sock", "udp_destroy_sock"),
        ]
    );
}

#[test]
fn events_of_one_process() {
    let filter = ProcessFilter { filter: FilterKey::Pid(1234), ..ProcessFilter::all() };
    let steps = attach_process_probe(&filter);
    assert_eq!(steps[0], key(FilterOwner::Process, FilterKey::Pid(1234)));
    assert_eq!(steps.len(), 4);
}

#[test]
fn process_starts_alone() {
    assert_eq!(
        attach_process_probe(&ProcessFilter::start()),
        vec![
            key(FilterOwner::Process, FilterKey::Any),
            tracepoint("sched_process_exec", "sched", "sched_process_exec"),
        ]
    );
}

#[test]
fn forks_and_exits() {
    let filter =
        ProcessFilter { mask: ProcessMask::fork() | ProcessMask::exit(), ..Default::default() };
    assert_eq!(
        attach_process_probe(&filter),
        vec![
            key(FilterOwner::Process, FilterKey::Any),
            tracepoint("sched_process_fork", "sched", "sched_process_fork"),
            fentry("do_group_exit", "do_group_exit"),
        ]
    );
}

#[test]
fn opens_and_renames_of_regular_files() {
    let filter =
        FileFilter { event_type: FileMask::open() | FileMask::rename(), ..Default::default() };
    assert_eq!(
        attach_file_probe(&filter),
        vec![
            key(FilterOwner::File, FilterKey::Any),
            Step::WriteConfig { mode: FileModeFilter { mode: 1 } },
            fexit("vfs_open", "vfs_open"),
            fentry("vfs_rename", "vfs_rename"),
            fexit("vfs_rename_retval", "vfs_rename"),
        ]
    );
}

#[test]
fn maps_of_one_process() {
    let filter = MemoryFilter { mask: MemoryMask::mmap(), filter: FilterKey::Pid(1234) };
    assert_eq!(
        attach_mem_probe(&filter),
        vec![
            key(FilterOwner::Memory, FilterKey::Pid(1234)),
            fexit("vm_mmap_pgoff", "vm_mmap_pgoff"),
        ]
    );
}

#[test]
fn map_writes() {
    let file = FileFilter {
        event_type: FileMask::read(),
        file_mode: FileTypeFilter::file_dir() | FileTypeFilter::file_sock(),
        filter: FilterKey::Gid(7),
    };
    assert_eq!(
        write_to_filter_map(&Filters::File(&file), FilterOwner::File),
        key(FilterOwner::File, FilterKey::Gid(7))
    );
    assert_eq!(write_to_map(&file), Step::WriteConfig { mode: FileModeFilter { mode: 66 } });
    let memory = MemoryFilter { filter: FilterKey::Tid(3), ..MemoryFilter::all() };
    assert_eq!(
        write_to_filter_map(&Filters::Memory(&memory), FilterOwner::Memory),
        key(FilterOwner::Memory, FilterKey::Tid(3))
    );
    let network = NetworkFilter { filter: FilterKey::Uid(4), ..NetworkFilter::all() };
    assert_eq!(
        write_to_filter_map(&Filters::Network(&network), FilterOwner::Network),
        key(FilterOwner::Network, FilterKey::Uid(4))
    );
    let process = ProcessFilter { filter: FilterKey::Ppid(5), ..ProcessFilter::all() };
    assert_eq!(
        write_to_filter_map(&Filters::Process(&process), FilterOwner::Process),
        key(FilterOwner::Process, FilterKey::Ppid(5))
    );
}
