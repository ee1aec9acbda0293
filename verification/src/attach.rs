//! Which maps to write and which probes to attach for a filter, in order.
use crate::file::{FileFilter, FileMask};
use crate::mask;
use crate::memory::{MemoryFilter, MemoryMask};
use crate::network::{NetworkFilter, NetworkMask, ProtocolMask};
use crate::process::{ProcessFilter, ProcessMask};
use crate::raw::{EventType, FileModeFilter, FilterKey, FilterOwner};
use vstd::prelude::*;

verus! {

/// A program of the object file.
#[derive(Debug, Clone, Copy, PartialEq, Eq, Structural)]
pub enum Program {
    TcpV4Connect,
    TcpV6Connect,
    InetCskAccept,
    TcpClose,
    InetBind,
    InetListen,
    UdpConnect,
    Udpv6Connect,
    UdpDestroySock,
    SchedProcessExec,
    SchedProcessFork,
    DoGroupExit,
    VfsOpen,
    FilpClose,
    VfsRead,
    VfsWrite,
    VfsUnlink,
    VfsRename,
    VfsRenameRetval,
    VmMmapPgoff,
    VmMunmap,
}

impl Program {
    /// The name of the program in the object file.
    pub open spec fn spec_name(self) -> Seq<char> {
        match self {
            Program::TcpV4Connect => "tcp_v4_connect"@,
            Program::TcpV6Connect => "tcp_v6_connect"@,
            Program::InetCskAccept => "inet_csk_accept"@,
            Program::TcpClose => "tcp_close"@,
            Program::InetBind => "inet_bind"@,
            Program::InetListen => "inet_listen"@,
            Program::UdpConnect => "udp_connect"@,
            Program::Udpv6Connect => "udpv6_connect"@,
            Program::UdpDestroySock => "udp_destroy_sock"@,
            Program::SchedProcessExec => "sched_process_exec"@,
            Program::SchedProcessFork => "sched_process_fork"@,
            Program::DoGroupExit => "do_group_exit"@,
            Program::VfsOpen => "vfs_open"@,
            Program::FilpClose => "filp_close"@,
            Program::VfsRead => "vfs_read"@,
            Program::VfsWrite => "vfs_write"@,
            Program::VfsUnlink => "vfs_unlink"@,
            Program::VfsRename => "vfs_rename"@,
            Program::VfsRenameRetval => "vfs_rename_retval"@,
            Program::VmMmapPgoff => "vm_mmap_pgoff"@,
            Program::VmMunmap => "__vm_munmap"@,
        }
    }

    /// The name of the program in the object file.
    pub fn name(self) -> (r: &'static str)
        ensures
            r@ == self.spec_name(),
    {
        match self {
            Program::TcpV4Connect => "tcp_v4_connect",
            Program::TcpV6Connect => "tcp_v6_connect",
            Program::InetCskAccept => "inet_csk_accept",
            Program::TcpClose => "tcp_close",
            Program::InetBind => "inet_bind",
            Program::InetListen => "inet_listen",
            Program::UdpConnect => "udp_connect",
            Program::Udpv6Connect => "udpv6_connect",
            Program::UdpDestroySock => "udp_destroy_sock",
            Program::SchedProcessExec => "sched_process_exec",
            Program::SchedProcessFork => "sched_process_fork",
            Program::DoGroupExit => "do_group_exit",
            Program::VfsOpen => "vfs_open",
            Program::FilpClose => "filp_close",
            Program::VfsRead => "vfs_read",
            Program::VfsWrite => "vfs_write",
            Program::VfsUnlink => "vfs_unlink",
            Program::VfsRename => "vfs_rename",
            Program::VfsRenameRetval => "vfs_rename_retval",
            Program::VmMmapPgoff => "vm_mmap_pgoff",
            Program::VmMunmap => "__vm_munmap",
        }
    }

    /// The kind of the records that the program makes.
    pub open spec fn kind(self) -> EventType {
        match self {
            Program::TcpV4Connect => EventType::Connect,
            Program::TcpV6Connect => EventType::Connect,
            Program::InetCskAccept => EventType::Accept,
            Program::TcpClose => EventType::Close,
            Program::InetBind => EventType::Bind,
            Program::InetListen => EventType::Listen,
            Program::UdpConnect => EventType::Connect,
            Program::Udpv6Connect => EventType::Connect,
            Program::UdpDestroySock => EventType::Close,
            Program::SchedProcessExec => EventType::ProcessStart,
            Program::SchedProcessFork => EventType::ProcessFork,
            Program::DoGroupExit => EventType::ProcessExit,
            Program::VfsOpen => EventType::FileOpen,
            Program::FilpClose => EventType::FileClose,
            Program::VfsRead => EventType::FileRead,
            Program::VfsWrite => EventType::FileWrite,
            Program::VfsUnlink => EventType::FileDelete,
            Program::VfsRename => EventType::FileRename,
            Program::VfsRenameRetval => EventType::PendingFileRename,
            Program::VmMmapPgoff => EventType::MemoryMap,
            Program::VmMunmap => EventType::MemoryUnMap,
        }
    }

    /// The protocol of the sockets that the program records: one for TCP, two for
    /// UDP, and zero for a program that records no socket.
    pub open spec fn protocol(self) -> u8 {
        match self {
            Program::TcpV4Connect => 1,
            Program::TcpV6Connect => 1,
            Program::InetCskAccept => 1,
            Program::TcpClose => 1,
            Program::InetBind => 1,
            Program::InetListen => 1,
            Program::UdpConnect => 2,
            Program::Udpv6Connect => 2,
            Program::UdpDestroySock => 2,
            _ => 0,
        }
    }
}

/// A program of the object file, and what it is attached to.
#[derive(Debug, Clone, Copy, PartialEq, Eq)]
pub enum Probe {
    /// Runs when the kernel function `target` returns.
    FExit { program: Program, target: &'static str },
    /// Runs when the kernel function `target` is entered.
    FEntry { program: Program, target: &'static str },
    /// Runs at the kernel symbol `symbol`.
    KProbe { program: Program, symbol: &'static str },
    /// Runs at the tracepoint `name` of `category`.
    TracePoint { program: Program, category: &'static str, name: &'static str },
}

impl Probe {
    /// The program that is attached.
    pub open spec fn program(self) -> Program {
        match self {
            Probe::FExit { program, .. } => program,
            Probe::FEntry { program, .. } => program,
            Probe::KProbe { program, .. } => program,
            Probe::TracePoint { program, .. } => program,
        }
    }
}

/// One step of setting up a subscription.
#[derive(Debug, Clone, Copy, PartialEq, Eq)]
pub enum Step {
    /// Write `key` to the slot of `owner` in the filter map.
    WriteFilter { owner: FilterOwner, key: FilterKey },
    /// Write `mode` to the configuration map.
    WriteConfig { mode: FileModeFilter },
    /// Load a program and attach it.
    Attach(Probe),
}

/// The step that attaches `program` to the return of the kernel function
/// `target`.
#[verifier::allow_in_spec]
pub fn fexit(program: Program, target: &'static str) -> Step
    returns
        (Step::Attach(Probe::FExit { program, target })),
{
    Step::Attach(Probe::FExit { program, target })
}

/// The step that attaches `program` to the entry of the kernel function
/// `target`.
#[verifier::allow_in_spec]
pub fn fentry(program: Program, target: &'static str) -> Step
    returns
        (Step::Attach(Probe::FEntry { program, target })),
{
    Step::Attach(Probe::FEntry { program, target })
}

/// The step that attaches `program` to the kernel symbol `symbol`.
#[verifier::allow_in_spec]
pub fn kprobe(program: Program, symbol: &'static str) -> Step
    returns
        (Step::Attach(Probe::KProbe { program, symbol })),
{
    Step::Attach(Probe::KProbe { program, symbol })
}

/// The step that attaches `program` to the tracepoint `name` of `category`.
#[verifier::allow_in_spec]
pub fn tracepoint(program: Program, category: &'static str, name: &'static str) -> Step
    returns
        (Step::Attach(Probe::TracePoint { program, category, name })),
{
    Step::Attach(Probe::TracePoint { program, category, name })
}

/// The steps of `table` that are marked as wanted, in order.
pub open spec fn wanted(table: Seq<(bool, Step)>) -> Seq<Step>
    decreases table.len(),
{
    if table.len() == 0 {
        Seq::empty()
    } else if table.last().0 {
        wanted(table.drop_last()).push(table.last().1)
    } else {
        wanted(table.drop_last())
    }
}

fn push_wanted(steps: &mut Vec<Step>, table: &[(bool, Step)])
    ensures
        final(steps)@ == old(steps)@ + wanted(table@),
{
    let mut i: usize = 0;
    assert(steps@ =~= old(steps)@ + wanted(table@.take(0)));
    while i < table.len()
        invariant
            i <= table@.len(),
            steps@ == old(steps)@ + wanted(table@.take(i as int)),
        decreases table@.len() - i,
    {
        assert(table@.take(i + 1).drop_last() =~= table@.take(i as int));
        let (is_wanted, step) = table[i];
        if is_wanted {
            steps.push(step);
        }
        i += 1;
        assert(steps@ =~= old(steps)@ + wanted(table@.take(i as int)));
    }
    assert(table@.take(i as int) =~= table@);
}

/// The filter that a subscription asks for.
pub enum Filters<'a> {
    Memory(&'a MemoryFilter),
    File(&'a FileFilter),
    Network(&'a NetworkFilter),
    Process(&'a ProcessFilter),
}

impl<'a> Filters<'a> {
    /// The key of the filter.
    pub open spec fn key(&self) -> FilterKey {
        match self {
            Filters::Memory(filter) => filter.filter,
            Filters::File(filter) => filter.filter,
            Filters::Network(filter) => filter.filter,
            Filters::Process(filter) => filter.filter,
        }
    }
}

/// The step that writes the key of a filter to the slot of `owner`.
pub fn write_to_filter_map(filter: &Filters, owner: FilterOwner) -> (r: Step)
    ensures
        r == (Step::WriteFilter { owner, key: filter.key() }),
{
    let key = match filter {
        Filters::Memory(filter) => filter.filter,
        Filters::File(filter) => filter.filter,
        Filters::Network(filter) => filter.filter,
        Filters::Process(filter) => filter.filter,
    };
    Step::WriteFilter { owner, key }
}

/// The step that tells the probes which file types to report.
pub fn write_to_map(filter: &FileFilter) -> (r: Step)
    ensures
        r == (Step::WriteConfig { mode: filter.file_mode.0 }),
{
    Step::WriteConfig { mode: FileModeFilter::from(filter.file_mode) }
}

/// `filter` asks for the operation `event` on sockets of `protocol`.
pub open spec fn asks(filter: &NetworkFilter, protocol: u8, event: u8) -> bool {
    mask::covers(filter.protocol_mask.bits(), protocol) && mask::covers(
        filter.event_mask.bits(),
        event,
    )
}

/// The probes of network events, each with whether `filter` asks for it.
pub open spec fn network_table(filter: &NetworkFilter) -> Seq<(bool, Step)> {
    seq![
        (asks(filter, 1, 1), fexit(Program::TcpV4Connect, "tcp_v4_connect")),
        (asks(filter, 1, 1), fexit(Program::TcpV6Connect, "tcp_v6_connect")),
        (asks(filter, 1, 2), kprobe(Program::InetCskAccept, "inet_csk_accept")),
        (asks(filter, 1, 4), fexit(Program::TcpClose, "tcp_close")),
        (asks(filter, 1, 8), fexit(Program::InetBind, "inet_bind")),
        (asks(filter, 1, 16), fexit(Program::InetListen, "inet_listen")),
        (asks(filter, 2, 1), fexit(Program::UdpConnect, "udp_connect")),
        (asks(filter, 2, 1), fexit(Program::Udpv6Connect, "udpv6_connect")),
        (asks(filter, 2, 4), fexit(Program::UdpDestroySock, "udp_destroy_sock")),
    ]
}

/// The steps that set up the network events that `filter` asks for.
pub open spec fn network_steps(filter: &NetworkFilter) -> Seq<Step> {
    seq![Step::WriteFilter { owner: FilterOwner::Network, key: filter.filter }] + wanted(
        network_table(filter),
    )
}

/// The steps that set up the network events that `filter` asks for.
pub fn attach_network_probe(filter: &NetworkFilter) -> (r: Vec<Step>)
    ensures
        r@ == network_steps(filter),
{
    let tcp = filter.protocol_mask.contains(&ProtocolMask::tcp());
    let udp = filter.protocol_mask.contains(&ProtocolMask::udp());
    let connect = filter.event_mask.contains(&NetworkMask::connect());
    let accept = filter.event_mask.contains(&NetworkMask::accept());
    let close = filter.event_mask.contains(&NetworkMask::close());
    let bind = filter.event_mask.contains(&NetworkMask::bind());
    let listen = filter.event_mask.contains(&NetworkMask::listen());
    let table: [(bool, Step); 9] = [
        (tcp && connect, fexit(Program::TcpV4Connect, "tcp_v4_connect")),
        (tcp && connect, fexit(Program::TcpV6Connect, "tcp_v6_connect")),
        (tcp && accept, kprobe(Program::InetCskAccept, "inet_csk_accept")),
        (tcp && close, fexit(Program::TcpClose, "tcp_close")),
        (tcp && bind, fexit(Program::InetBind, "inet_bind")),
        (tcp && listen, fexit(Program::InetListen, "inet_listen")),
        (udp && connect, fexit(Program::UdpConnect, "udp_connect")),
        (udp && connect, fexit(Program::Udpv6Connect, "udpv6_connect")),
        (udp && close, fexit(Program::UdpDestroySock, "udp_destroy_sock")),
    ];
    assert(table@ =~= network_table(filter));
    let mut steps: Vec<Step> = Vec::new();
    steps.push(write_to_filter_map(&Filters::Network(filter), FilterOwner::Network));
    push_wanted(&mut steps, &table);
    assert(steps@ =~= network_steps(filter));
    steps
}

/// The probes of process events, each with whether `filter` asks for it.
pub open spec fn process_table(filter: &ProcessFilter) -> Seq<(bool, Step)> {
    seq![
        (
            mask::covers(filter.mask.bits(), 1),
            tracepoint(Program::SchedProcessExec, "sched", "sched_process_exec"),
        ),
        (
            mask::covers(filter.mask.bits(), 2),
            tracepoint(Program::SchedProcessFork, "sched", "sched_process_fork"),
        ),
        (mask::covers(filter.mask.bits(), 4), fentry(Program::DoGroupExit, "do_group_exit")),
    ]
}

/// The steps that set up the process events that `filter` asks for.
pub open spec fn process_steps(filter: &ProcessFilter) -> Seq<Step> {
    seq![Step::WriteFilter { owner: FilterOwner::Process, key: filter.filter }] + wanted(
        process_table(filter),
    )
}

/// The steps that set up the process events that `filter` asks for.
pub fn attach_process_probe(filter: &ProcessFilter) -> (r: Vec<Step>)
    ensures
        r@ == process_steps(filter),
{
    let table: [(bool, Step); 3] = [
        (
            filter.mask.contains(&ProcessMask::start()),
            tracepoint(Program::SchedProcessExec, "sched", "sched_process_exec"),
        ),
        (
            filter.mask.contains(&ProcessMask::fork()),
            tracepoint(Program::SchedProcessFork, "sched", "sched_process_fork"),
        ),
        (filter.mask.contains(&ProcessMask::exit()), fentry(Program::DoGroupExit, "do_group_exit")),
    ];
    assert(table@ =~= process_table(filter));
    let mut steps: Vec<Step> = Vec::new();
    steps.push(write_to_filter_map(&Filters::Process(filter), FilterOwner::Process));
    push_wanted(&mut steps, &table);
    assert(steps@ =~= process_steps(filter));
    steps
}

/// The probes of file events, each with whether `filter` asks for it.
pub open spec fn file_table(filter: &FileFilter) -> Seq<(bool, Step)> {
    seq![
        (mask::covers(filter.event_type.bits(), 1), fexit(Program::VfsOpen, "vfs_open")),
        (mask::covers(filter.event_type.bits(), 2), fexit(Program::FilpClose, "filp_close")),
        (mask::covers(filter.event_type.bits(), 4), fexit(Program::VfsRead, "vfs_read")),
        (mask::covers(filter.event_type.bits(), 8), fexit(Program::VfsWrite, "vfs_write")),
        (mask::covers(filter.event_type.bits(), 16), fexit(Program::VfsUnlink, "vfs_unlink")),
        (mask::covers(filter.event_type.bits(), 32), fentry(Program::VfsRename, "vfs_rename")),
        (mask::covers(filter.event_type.bits(), 32), fexit(Program::VfsRenameRetval, "vfs_rename")),
    ]
}

/// The steps that set up the file events that `filter` asks for.
pub open spec fn file_steps(filter: &FileFilter) -> Seq<Step> {
    seq![
        Step::WriteFilter { owner: FilterOwner::File, key: filter.filter },
        Step::WriteConfig { mode: filter.file_mode.0 },
    ] + wanted(file_table(filter))
}

/// The steps that set up the file events that `filter` asks for.
pub fn attach_file_probe(filter: &FileFilter) -> (r: Vec<Step>)
    ensures
        r@ == file_steps(filter),
{
    let rename = filter.event_type.contains(&FileMask::rename());
    let table: [(bool, Step); 7] = [
        (filter.event_type.contains(&FileMask::open()), fexit(Program::VfsOpen, "vfs_open")),
        (filter.event_type.contains(&FileMask::close()), fexit(Program::FilpClose, "filp_close")),
        (filter.event_type.contains(&FileMask::read()), fexit(Program::VfsRead, "vfs_read")),
        (filter.event_type.contains(&FileMask::write()), fexit(Program::VfsWrite, "vfs_write")),
        (filter.event_type.contains(&FileMask::delete()), fexit(Program::VfsUnlink, "vfs_unlink")),
        (rename, fentry(Program::VfsRename, "vfs_rename")),
        (rename, fexit(Program::VfsRenameRetval, "vfs_rename")),
    ];
    assert(table@ =~= file_table(filter));
    let mut steps: Vec<Step> = Vec::new();
    steps.push(write_to_filter_map(&Filters::File(filter), FilterOwner::File));
    steps.push(write_to_map(filter));
    push_wanted(&mut steps, &table);
    assert(steps@ =~= file_steps(filter));
    steps
}

/// The probes of memory events, each with whether `filter` asks for it.
pub open spec fn mem_table(filter: &MemoryFilter) -> Seq<(bool, Step)> {
    seq![
        (mask::covers(filter.mask.bits(), 1), fexit(Program::VmMmapPgoff, "vm_mmap_pgoff")),
        (mask::covers(filter.mask.bits(), 2), fexit(Program::VmMunmap, "__vm_munmap")),
    ]
}

/// The steps that set up the memory events that `filter` asks for.
pub open spec fn mem_steps(filter: &MemoryFilter) -> Seq<Step> {
    seq![Step::WriteFilter { owner: FilterOwner::Memory, key: filter.filter }] + wanted(
        mem_table(filter),
    )
}

/// The steps that set up the memory events that `filter` asks for.
pub fn attach_mem_probe(filter: &MemoryFilter) -> (r: Vec<Step>)
    ensures
        r@ == mem_steps(filter),
{
    let table: [(bool, Step); 2] = [
        (filter.mask.contains(MemoryMask::mmap()), fexit(Program::VmMmapPgoff, "vm_mmap_pgoff")),
        (filter.mask.contains(MemoryMask::unmap()), fexit(Program::VmMunmap, "__vm_munmap")),
    ];
    assert(table@ =~= mem_table(filter));
    let mut steps: Vec<Step> = Vec::new();
    steps.push(write_to_filter_map(&Filters::Memory(filter), FilterOwner::Memory));
    push_wanted(&mut steps, &table);
    assert(steps@ =~= mem_steps(filter));
    steps
}

/// What `steps` make of the filter map, which holds `filters` before.
pub open spec fn filters_after(steps: Seq<Step>, filters: Map<u32, FilterKey>) -> Map<
    u32,
    FilterKey,
>
    decreases steps.len(),
{
    if steps.len() == 0 {
        filters
    } else {
        let before = filters_after(steps.drop_last(), filters);
        match steps.last() {
            Step::WriteFilter { owner, key } => before.insert(owner.spec_slot(), key),
            _ => before,
        }
    }
}

/// What `steps` make of the file types to report.
pub open spec fn config_after(steps: Seq<Step>, config: Option<FileModeFilter>) -> Option<
    FileModeFilter,
>
    decreases steps.len(),
{
    if steps.len() == 0 {
        config
    } else {
        match steps.last() {
            Step::WriteConfig { mode } => Some(mode),
            _ => config_after(steps.drop_last(), config),
        }
    }
}

/// From position `from` on, `steps` only attach probes.
pub open spec fn only_attaches(steps: Seq<Step>, from: int) -> bool {
    forall|i: int| from <= i < steps.len() ==> #[trigger] steps[i] is Attach
}

/// `steps` attach `program`.
pub open spec fn attaches(steps: Seq<Step>, program: Program) -> bool {
    exists|probe: Probe| #[trigger] steps.contains(Step::Attach(probe)) && probe.program() == program
}

/// `table` marks `step` as wanted.
pub open spec fn marks(table: Seq<(bool, Step)>, step: Step) -> bool {
    exists|i: int| 0 <= i < table.len() && #[trigger] table[i] == (true, step)
}

/// Behind the steps `first`, which only write, the wanted steps of a table of
/// probes are those that it marks, and they write nothing.
proof fn lemma_wanted(
    first: Seq<Step>,
    table: Seq<(bool, Step)>,
    filters: Map<u32, FilterKey>,
    config: Option<FileModeFilter>,
)
    requires
        forall|i: int| 0 <= i < table.len() ==> (#[trigger] table[i]).1 is Attach,
    ensures
        only_attaches(first + wanted(table), first.len() as int),
        forall|step: Step| #[trigger]
            (first + wanted(table)).contains(step) <==> first.contains(step) || marks(table, step),
        filters_after(first + wanted(table), filters) == filters_after(first, filters),
        config_after(first + wanted(table), config) == config_after(first, config),
    decreases table.len(),
{
    let steps = first + wanted(table);
    if table.len() == 0 {
        assert(steps =~= first);
    } else {
        let shorter = table.drop_last();
        lemma_wanted(first, shorter, filters, config);
        let fewer = first + wanted(shorter);
        if table.last().0 {
            assert(steps =~= fewer.push(table.last().1));
            assert(steps.drop_last() =~= fewer);
        } else {
            assert(steps =~= fewer);
        }
        assert forall|step: Step| #[trigger]
            steps.contains(step) <==> first.contains(step) || marks(table, step) by {
            if marks(shorter, step) {
                let i = choose|i: int| 0 <= i < shorter.len() && shorter[i] == (true, step);
                assert(table[i] == (true, step));
            }
            if marks(table, step) {
                let i = choose|i: int| 0 <= i < table.len() && table[i] == (true, step);
                if i < shorter.len() {
                    assert(shorter[i] == (true, step));
                } else {
                    assert(steps[steps.len() - 1] == step);
                }
            }
            if table.last().0 && step == table.last().1 {
                assert(table[table.len() - 1] == (true, step));
            }
            if fewer.contains(step) {
                let i = choose|i: int| 0 <= i < fewer.len() && fewer[i] == step;
                assert(steps[i] == step);
            }
            if steps.contains(step) {
                let i = choose|i: int| 0 <= i < steps.len() && steps[i] == step;
                if i < fewer.len() {
                    assert(fewer[i] == step);
                }
            }
        }
    }
}

proof fn lemma_writes(
    owner: FilterOwner,
    key: FilterKey,
    mode: FileModeFilter,
    filters: Map<u32, FilterKey>,
    config: Option<FileModeFilter>,
)
    ensures
        ({
            let one = seq![Step::WriteFilter { owner, key }];
            let two = seq![Step::WriteFilter { owner, key }, Step::WriteConfig { mode }];
            &&& filters_after(one, filters) == filters.insert(owner.spec_slot(), key)
            &&& filters_after(two, filters) == filters.insert(owner.spec_slot(), key)
            &&& config_after(one, config) == config
            &&& config_after(two, config) == Some(mode)
        }),
{
    let one = seq![Step::WriteFilter { owner, key }];
    let two = seq![Step::WriteFilter { owner, key }, Step::WriteConfig { mode }];
    reveal_with_fuel(filters_after, 3);
    reveal_with_fuel(config_after, 3);
    assert(one.drop_last() =~= Seq::empty());
    assert(two.drop_last() =~= one);
}

/// Setting up network events writes the key of the filter to the slot of its owner
/// and changes no other slot. So subscriptions of different kinds do not
/// disturb each other.
pub proof fn law_network_steps_write_the_filter(
    filter: &NetworkFilter,
    filters: Map<u32, FilterKey>,
    config: Option<FileModeFilter>,
)
    ensures
        filters_after(network_steps(filter), filters) == filters.insert(
            FilterOwner::Network.spec_slot(),
            filter.filter,
        ),
        config_after(network_steps(filter), config) == config,
{
    let first = seq![Step::WriteFilter { owner: FilterOwner::Network, key: filter.filter }];
    lemma_writes(FilterOwner::Network, filter.filter, FileModeFilter { mode: 0 }, filters, config);
    lemma_wanted(first, network_table(filter), filters, config);
}

/// The probes of the network events that `filter` asks for are attached, and no
/// others, and not before the filter is written.
pub proof fn law_network_steps_are_those_asked_for(filter: &NetworkFilter)
    ensures
        network_steps(filter)[0] == (Step::WriteFilter {
            owner: FilterOwner::Network,
            key: filter.filter,
        }),
        only_attaches(network_steps(filter), 1),
        forall|probe: Probe| #[trigger]
            network_steps(filter).contains(Step::Attach(probe)) <==> marks(
                network_table(filter),
                Step::Attach(probe),
            ),
{
    let first = seq![Step::WriteFilter { owner: FilterOwner::Network, key: filter.filter }];
    lemma_wanted(first, network_table(filter), Map::empty(), None);
    assert forall|probe: Probe| !#[trigger] first.contains(Step::Attach(probe)) by {
        if first.contains(Step::Attach(probe)) {
            let i = choose|i: int| 0 <= i < first.len() && first[i] == Step::Attach(probe);
            assert(first[i] is Attach);
        }
    }
}

/// Setting up process events writes the key of the filter to the slot of its owner
/// and changes no other slot. So subscriptions of different kinds do not
/// disturb each other.
pub proof fn law_process_steps_write_the_filter(
    filter: &ProcessFilter,
    filters: Map<u32, FilterKey>,
    config: Option<FileModeFilter>,
)
    ensures
        filters_after(process_steps(filter), filters) == filters.insert(
            FilterOwner::Process.spec_slot(),
            filter.filter,
        ),
        config_after(process_steps(filter), config) == config,
{
    let first = seq![Step::WriteFilter { owner: FilterOwner::Process, key: filter.filter }];
    lemma_writes(FilterOwner::Process, filter.filter, FileModeFilter { mode: 0 }, filters, config);
    lemma_wanted(first, process_table(filter), filters, config);
}

/// The probes of the process events that `filter` asks for are attached, and no
/// others, and not before the filter is written.
pub proof fn law_process_steps_are_those_asked_for(filter: &ProcessFilter)
    ensures
        process_steps(filter)[0] == (Step::WriteFilter {
            owner: FilterOwner::Process,
            key: filter.filter,
        }),
        only_attaches(process_steps(filter), 1),
        forall|probe: Probe| #[trigger]
            process_steps(filter).contains(Step::Attach(probe)) <==> marks(
                process_table(filter),
                Step::Attach(probe),
            ),
{
    let first = seq![Step::WriteFilter { owner: FilterOwner::Process, key: filter.filter }];
    lemma_wanted(first, process_table(filter), Map::empty(), None);
    assert forall|probe: Probe| !#[trigger] first.contains(Step::Attach(probe)) by {
        if first.contains(Step::Attach(probe)) {
            let i = choose|i: int| 0 <= i < first.len() && first[i] == Step::Attach(probe);
            assert(first[i] is Attach);
        }
    }
}

/// Setting up file events writes the key of the filter to the slot of its owner
/// and changes no other slot, and writes the file types of the filter. So
/// subscriptions of different kinds do not disturb each other.
pub proof fn law_file_steps_write_the_filter(
    filter: &FileFilter,
    filters: Map<u32, FilterKey>,
    config: Option<FileModeFilter>,
)
    ensures
        filters_after(file_steps(filter), filters) == filters.insert(
            FilterOwner::File.spec_slot(),
            filter.filter,
        ),
        config_after(file_steps(filter), config) == Some(filter.file_mode.0),
{
    let first = seq![
        Step::WriteFilter { owner: FilterOwner::File, key: filter.filter },
        Step::WriteConfig { mode: filter.file_mode.0 },
    ];
    lemma_writes(FilterOwner::File, filter.filter, filter.file_mode.0, filters, config);
    lemma_wanted(first, file_table(filter), filters, config);
}

/// The probes of the file events that `filter` asks for are attached, and no
/// others, and not before the filter and the file types are written.
pub proof fn law_file_steps_are_those_asked_for(filter: &FileFilter)
    ensures
        file_steps(filter)[0] == (Step::WriteFilter {
            owner: FilterOwner::File,
            key: filter.filter,
        }),
        file_steps(filter)[1] == (Step::WriteConfig { mode: filter.file_mode.0 }),
        only_attaches(file_steps(filter), 2),
        forall|probe: Probe| #[trigger]
            file_steps(filter).contains(Step::Attach(probe)) <==> marks(
                file_table(filter),
                Step::Attach(probe),
            ),
{
    let first = seq![
        Step::WriteFilter { owner: FilterOwner::File, key: filter.filter },
        Step::WriteConfig { mode: filter.file_mode.0 },
    ];
    lemma_wanted(first, file_table(filter), Map::empty(), None);
    assert forall|probe: Probe| !#[trigger] first.contains(Step::Attach(probe)) by {
        if first.contains(Step::Attach(probe)) {
            let i = choose|i: int| 0 <= i < first.len() && first[i] == Step::Attach(probe);
            assert(first[i] is Attach);
        }
    }
}

/// Setting up memory events writes the key of the filter to the slot of its owner
/// and changes no other slot. So subscriptions of different kinds do not
/// disturb each other.
pub proof fn law_mem_steps_write_the_filter(
    filter: &MemoryFilter,
    filters: Map<u32, FilterKey>,
    config: Option<FileModeFilter>,
)
    ensures
        filters_after(mem_steps(filter), filters) == filters.insert(
            FilterOwner::Memory.spec_slot(),
            filter.filter,
        ),
        config_after(mem_steps(filter), config) == config,
{
    let first = seq![Step::WriteFilter { owner: FilterOwner::Memory, key: filter.filter }];
    lemma_writes(FilterOwner::Memory, filter.filter, FileModeFilter { mode: 0 }, filters, config);
    lemma_wanted(first, mem_table(filter), filters, config);
}

/// The probes of the memory events that `filter` asks for are attached, and no
/// others, and not before the filter is written.
pub proof fn law_mem_steps_are_those_asked_for(filter: &MemoryFilter)
    ensures
        mem_steps(filter)[0] == (Step::WriteFilter {
            owner: FilterOwner::Memory,
            key: filter.filter,
        }),
        only_attaches(mem_steps(filter), 1),
        forall|probe: Probe| #[trigger]
            mem_steps(filter).contains(Step::Attach(probe)) <==> marks(
                mem_table(filter),
                Step::Attach(probe),
            ),
{
    let first = seq![Step::WriteFilter { owner: FilterOwner::Memory, key: filter.filter }];
    lemma_wanted(first, mem_table(filter), Map::empty(), None);
    assert forall|probe: Probe| !#[trigger] first.contains(Step::Attach(probe)) by {
        if first.contains(Step::Attach(probe)) {
            let i = choose|i: int| 0 <= i < first.len() && first[i] == Step::Attach(probe);
            assert(first[i] is Attach);
        }
    }
}

} // verus!
