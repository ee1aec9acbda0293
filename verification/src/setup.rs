//! What holds of every list of steps that sets up a subscription.
use crate::attach;
use crate::attach::{Filters, Probe, Program, Step};
use crate::file::FileFilter;
use crate::memory::MemoryFilter;
use crate::network::NetworkFilter;
use crate::process::ProcessFilter;
use crate::raw::{FileModeFilter, FilterKey, FilterOwner};
use vstd::prelude::*;

verus! {

/// `step` alone when it is `present`, nothing otherwise.
pub open spec fn step_if(present: bool, step: Step) -> Seq<Step> {
    if present {
        seq![step]
    } else {
        Seq::empty()
    }
}

proof fn lemma_next(table: Seq<(bool, Step)>, k: int)
    requires
        0 <= k < table.len(),
    ensures
        attach::wanted(table.take(k + 1)) == attach::wanted(table.take(k)) + step_if(
            table[k].0,
            table[k].1,
        ),
{
    assert(table.take(k + 1).drop_last() =~= table.take(k));
    assert(table.take(k + 1).last() == table[k]);
    assert(attach::wanted(table.take(k + 1)) =~= attach::wanted(table.take(k)) + step_if(
        table[k].0,
        table[k].1,
    ));
}

proof fn lemma_marked(table: Seq<(bool, Step)>, k: int)
    requires
        0 <= k < table.len(),
        forall|i: int| 0 <= i < table.len() && i != k ==> (#[trigger] table[i]).1 != table[k].1,
    ensures
        attach::marks(table, table[k].1) == table[k].0,
{
    if table[k].0 {
        assert(table[k] == (true, table[k].1));
    }
}

proof fn lemma_start(table: Seq<(bool, Step)>)
    ensures
        attach::wanted(table.take(0)) == Seq::<Step>::empty(),
        table.take(table.len() as int) == table,
{
    assert(table.take(0) =~= Seq::empty());
    assert(table.take(table.len() as int) =~= table);
}

/// The steps for network events write the key of the filter, and then attach
/// the probe of each operation whose bit the filter holds, in a fixed order and
/// once each. They do nothing else.
pub proof fn law_network_steps(filter: &NetworkFilter, steps: Vec<Step>)
    requires
        call_ensures(attach::attach_network_probe, (filter,), steps),
    ensures
        steps@ == seq![Step::WriteFilter { owner: FilterOwner::Network, key: filter.filter }]
            + step_if(
            filter.protocol_mask.bits() & 1 == 1 && filter.event_mask.bits() & 1 == 1,
            Step::Attach(Probe::FExit { program: Program::TcpV4Connect, target: "tcp_v4_connect" }),
        ) + step_if(
            filter.protocol_mask.bits() & 1 == 1 && filter.event_mask.bits() & 1 == 1,
            Step::Attach(Probe::FExit { program: Program::TcpV6Connect, target: "tcp_v6_connect" }),
        ) + step_if(
            filter.protocol_mask.bits() & 1 == 1 && filter.event_mask.bits() & 2 == 2,
            Step::Attach(Probe::KProbe { program: Program::InetCskAccept, symbol: "inet_csk_accept" }),
        ) + step_if(
            filter.protocol_mask.bits() & 1 == 1 && filter.event_mask.bits() & 4 == 4,
            Step::Attach(Probe::FExit { program: Program::TcpClose, target: "tcp_close" }),
        ) + step_if(
            filter.protocol_mask.bits() & 1 == 1 && filter.event_mask.bits() & 8 == 8,
            Step::Attach(Probe::FExit { program: Program::InetBind, target: "inet_bind" }),
        ) + step_if(
            filter.protocol_mask.bits() & 1 == 1 && filter.event_mask.bits() & 16 == 16,
            Step::Attach(Probe::FExit { program: Program::InetListen, target: "inet_listen" }),
        ) + step_if(
            filter.protocol_mask.bits() & 2 == 2 && filter.event_mask.bits() & 1 == 1,
            Step::Attach(Probe::FExit { program: Program::UdpConnect, target: "udp_connect" }),
        ) + step_if(
            filter.protocol_mask.bits() & 2 == 2 && filter.event_mask.bits() & 1 == 1,
            Step::Attach(Probe::FExit { program: Program::Udpv6Connect, target: "udpv6_connect" }),
        ) + step_if(
            filter.protocol_mask.bits() & 2 == 2 && filter.event_mask.bits() & 4 == 4,
            Step::Attach(Probe::FExit { program: Program::UdpDestroySock, target: "udp_destroy_sock" }),
        ),
{
    let table = attach::network_table(filter);
    lemma_start(table);
    lemma_next(table, 0);
    lemma_next(table, 1);
    lemma_next(table, 2);
    lemma_next(table, 3);
    lemma_next(table, 4);
    lemma_next(table, 5);
    lemma_next(table, 6);
    lemma_next(table, 7);
    lemma_next(table, 8);
}

/// An operation that the filter asks for has its probe attached, whatever else the
/// filter asks for, and the probe of an operation that it does not ask for is
/// not attached.
pub proof fn law_network_probes_are_attached(filter: &NetworkFilter, steps: Vec<Step>)
    requires
        call_ensures(attach::attach_network_probe, (filter,), steps),
    ensures
        filter.protocol_mask.bits() & 1 == 1 && filter.event_mask.bits() & 1 == 1
            <==> steps@.contains(
            Step::Attach(Probe::FExit { program: Program::TcpV4Connect, target: "tcp_v4_connect" }),
        ),
        filter.protocol_mask.bits() & 1 == 1 && filter.event_mask.bits() & 1 == 1
            <==> steps@.contains(
            Step::Attach(Probe::FExit { program: Program::TcpV6Connect, target: "tcp_v6_connect" }),
        ),
        filter.protocol_mask.bits() & 1 == 1 && filter.event_mask.bits() & 2 == 2
            <==> steps@.contains(
            Step::Attach(Probe::KProbe { program: Program::InetCskAccept, symbol: "inet_csk_accept" }),
        ),
        filter.protocol_mask.bits() & 1 == 1 && filter.event_mask.bits() & 4 == 4
            <==> steps@.contains(
            Step::Attach(Probe::FExit { program: Program::TcpClose, target: "tcp_close" }),
        ),
        filter.protocol_mask.bits() & 1 == 1 && filter.event_mask.bits() & 8 == 8
            <==> steps@.contains(
            Step::Attach(Probe::FExit { program: Program::InetBind, target: "inet_bind" }),
        ),
        filter.protocol_mask.bits() & 1 == 1 && filter.event_mask.bits() & 16 == 16
            <==> steps@.contains(
            Step::Attach(Probe::FExit { program: Program::InetListen, target: "inet_listen" }),
        ),
        filter.protocol_mask.bits() & 2 == 2 && filter.event_mask.bits() & 1 == 1
            <==> steps@.contains(
            Step::Attach(Probe::FExit { program: Program::UdpConnect, target: "udp_connect" }),
        ),
        filter.protocol_mask.bits() & 2 == 2 && filter.event_mask.bits() & 1 == 1
            <==> steps@.contains(
            Step::Attach(Probe::FExit { program: Program::Udpv6Connect, target: "udpv6_connect" }),
        ),
        filter.protocol_mask.bits() & 2 == 2 && filter.event_mask.bits() & 4 == 4
            <==> steps@.contains(
            Step::Attach(Probe::FExit { program: Program::UdpDestroySock, target: "udp_destroy_sock" }),
        ),
        attach::network_steps(filter) == steps@,
{
    let table = attach::network_table(filter);
    attach::law_network_steps_are_those_asked_for(filter);
    lemma_marked(table, 0);
    lemma_marked(table, 1);
    lemma_marked(table, 2);
    lemma_marked(table, 3);
    lemma_marked(table, 4);
    lemma_marked(table, 5);
    lemma_marked(table, 6);
    lemma_marked(table, 7);
    lemma_marked(table, 8);
}

/// A program is attached exactly when it reports network operations that the filter
/// asks for.
pub proof fn law_network_programs(filter: &NetworkFilter, steps: Vec<Step>, program: Program)
    requires
        call_ensures(attach::attach_network_probe, (filter,), steps),
    ensures
        (exists|i: int|
            0 <= i < steps@.len() && (#[trigger] steps@[i] matches Step::Attach(probe)
                && (match probe {
                Probe::FExit { program, .. } => program,
                Probe::FEntry { program, .. } => program,
                Probe::KProbe { program, .. } => program,
                Probe::TracePoint { program, .. } => program,
            }) == program)) <==> match program {
            Program::TcpV4Connect => filter.protocol_mask.bits() & 1 == 1
                && filter.event_mask.bits() & 1 == 1,
            Program::TcpV6Connect => filter.protocol_mask.bits() & 1 == 1
                && filter.event_mask.bits() & 1 == 1,
            Program::InetCskAccept => filter.protocol_mask.bits() & 1 == 1
                && filter.event_mask.bits() & 2 == 2,
            Program::TcpClose => filter.protocol_mask.bits() & 1 == 1
                && filter.event_mask.bits() & 4 == 4,
            Program::InetBind => filter.protocol_mask.bits() & 1 == 1
                && filter.event_mask.bits() & 8 == 8,
            Program::InetListen => filter.protocol_mask.bits() & 1 == 1
                && filter.event_mask.bits() & 16 == 16,
            Program::UdpConnect => filter.protocol_mask.bits() & 2 == 2
                && filter.event_mask.bits() & 1 == 1,
            Program::Udpv6Connect => filter.protocol_mask.bits() & 2 == 2
                && filter.event_mask.bits() & 1 == 1,
            Program::UdpDestroySock => filter.protocol_mask.bits() & 2 == 2
                && filter.event_mask.bits() & 4 == 4,
            _ => false,
        },
{
    law_network_probes_are_attached(filter, steps);
    attach::law_network_steps_are_those_asked_for(filter);
    let table = attach::network_table(filter);
    let asked_for = match program {
        Program::TcpV4Connect => filter.protocol_mask.bits() & 1 == 1
            && filter.event_mask.bits() & 1 == 1,
        Program::TcpV6Connect => filter.protocol_mask.bits() & 1 == 1
            && filter.event_mask.bits() & 1 == 1,
        Program::InetCskAccept => filter.protocol_mask.bits() & 1 == 1
            && filter.event_mask.bits() & 2 == 2,
        Program::TcpClose => filter.protocol_mask.bits() & 1 == 1
            && filter.event_mask.bits() & 4 == 4,
        Program::InetBind => filter.protocol_mask.bits() & 1 == 1
            && filter.event_mask.bits() & 8 == 8,
        Program::InetListen => filter.protocol_mask.bits() & 1 == 1
            && filter.event_mask.bits() & 16 == 16,
        Program::UdpConnect => filter.protocol_mask.bits() & 2 == 2
            && filter.event_mask.bits() & 1 == 1,
        Program::Udpv6Connect => filter.protocol_mask.bits() & 2 == 2
            && filter.event_mask.bits() & 1 == 1,
        Program::UdpDestroySock => filter.protocol_mask.bits() & 2 == 2
            && filter.event_mask.bits() & 4 == 4,
        _ => false,
    };
    if asked_for {
        let probe = match program {
            Program::TcpV4Connect =>
                Probe::FExit { program: Program::TcpV4Connect, target: "tcp_v4_connect" },
            Program::TcpV6Connect =>
                Probe::FExit { program: Program::TcpV6Connect, target: "tcp_v6_connect" },
            Program::InetCskAccept =>
                Probe::KProbe { program: Program::InetCskAccept, symbol: "inet_csk_accept" },
            Program::TcpClose => Probe::FExit { program: Program::TcpClose, target: "tcp_close" },
            Program::InetBind => Probe::FExit { program: Program::InetBind, target: "inet_bind" },
            Program::InetListen =>
                Probe::FExit { program: Program::InetListen, target: "inet_listen" },
            Program::UdpConnect =>
                Probe::FExit { program: Program::UdpConnect, target: "udp_connect" },
            Program::Udpv6Connect =>
                Probe::FExit { program: Program::Udpv6Connect, target: "udpv6_connect" },
            _ => Probe::FExit { program: Program::UdpDestroySock, target: "udp_destroy_sock" },
        };
        let i = choose|i: int| 0 <= i < steps@.len() && steps@[i] == Step::Attach(probe);
        assert(steps@.contains(Step::Attach(probe)));
        assert(steps@[i] == Step::Attach(probe));
    }
    assert forall|i: int|
        0 <= i < steps@.len() && (#[trigger] steps@[i] matches Step::Attach(probe)
            && probe.program()
            == program) implies asked_for by {
        let probe = steps@[i]->Attach_0;
        assert(steps@.contains(Step::Attach(probe)));
        assert(attach::marks(table, Step::Attach(probe)));
        let k = choose|k: int| 0 <= k < table.len() && table[k] == (true, Step::Attach(probe));
        assert(table[k].1 == Step::Attach(probe));
    }
}

/// The steps for process events write the key of the filter, and then attach
/// the probe of each operation whose bit the filter holds, in a fixed order and
/// once each. They do nothing else.
pub proof fn law_process_steps(filter: &ProcessFilter, steps: Vec<Step>)
    requires
        call_ensures(attach::attach_process_probe, (filter,), steps),
    ensures
        steps@ == seq![Step::WriteFilter { owner: FilterOwner::Process, key: filter.filter }]
            + step_if(
            filter.mask.bits() & 1 == 1,
            Step::Attach(Probe::TracePoint {
                program: Program::SchedProcessExec,
                category: "sched",
                name: "sched_process_exec",
            }),
        ) + step_if(
            filter.mask.bits() & 2 == 2,
            Step::Attach(Probe::TracePoint {
                program: Program::SchedProcessFork,
                category: "sched",
                name: "sched_process_fork",
            }),
        ) + step_if(
            filter.mask.bits() & 4 == 4,
            Step::Attach(Probe::FEntry { program: Program::DoGroupExit, target: "do_group_exit" }),
        ),
{
    let table = attach::process_table(filter);
    lemma_start(table);
    lemma_next(table, 0);
    lemma_next(table, 1);
    lemma_next(table, 2);
}

/// An operation that the filter asks for has its probe attached, whatever else the
/// filter asks for, and the probe of an operation that it does not ask for is
/// not attached.
pub proof fn law_process_probes_are_attached(filter: &ProcessFilter, steps: Vec<Step>)
    requires
        call_ensures(attach::attach_process_probe, (filter,), steps),
    ensures
        filter.mask.bits() & 1 == 1 <==> steps@.contains(
            Step::Attach(Probe::TracePoint {
                program: Program::SchedProcessExec,
                category: "sched",
                name: "sched_process_exec",
            }),
        ),
        filter.mask.bits() & 2 == 2 <==> steps@.contains(
            Step::Attach(Probe::TracePoint {
                program: Program::SchedProcessFork,
                category: "sched",
                name: "sched_process_fork",
            }),
        ),
        filter.mask.bits() & 4 == 4 <==> steps@.contains(
            Step::Attach(Probe::FEntry { program: Program::DoGroupExit, target: "do_group_exit" }),
        ),
        attach::process_steps(filter) == steps@,
{
    let table = attach::process_table(filter);
    attach::law_process_steps_are_those_asked_for(filter);
    lemma_marked(table, 0);
    lemma_marked(table, 1);
    lemma_marked(table, 2);
}

/// A program is attached exactly when it reports process operations that the filter
/// asks for.
pub proof fn law_process_programs(filter: &ProcessFilter, steps: Vec<Step>, program: Program)
    requires
        call_ensures(attach::attach_process_probe, (filter,), steps),
    ensures
        (exists|i: int|
            0 <= i < steps@.len() && (#[trigger] steps@[i] matches Step::Attach(probe)
                && (match probe {
                Probe::FExit { program, .. } => program,
                Probe::FEntry { program, .. } => program,
                Probe::KProbe { program, .. } => program,
                Probe::TracePoint { program, .. } => program,
            }) == program)) <==> match program {
            Program::SchedProcessExec => filter.mask.bits() & 1 == 1,
            Program::SchedProcessFork => filter.mask.bits() & 2 == 2,
            Program::DoGroupExit => filter.mask.bits() & 4 == 4,
            _ => false,
        },
{
    law_process_probes_are_attached(filter, steps);
    attach::law_process_steps_are_those_asked_for(filter);
    let table = attach::process_table(filter);
    let asked_for = match program {
        Program::SchedProcessExec => filter.mask.bits() & 1 == 1,
        Program::SchedProcessFork => filter.mask.bits() & 2 == 2,
        Program::DoGroupExit => filter.mask.bits() & 4 == 4,
        _ => false,
    };
    if asked_for {
        let probe = match program {
            Program::SchedProcessExec => Probe::TracePoint {
                program: Program::SchedProcessExec,
                category: "sched",
                name: "sched_process_exec",
            },
            Program::SchedProcessFork => Probe::TracePoint {
                program: Program::SchedProcessFork,
                category: "sched",
                name: "sched_process_fork",
            },
            _ => Probe::FEntry { program: Program::DoGroupExit, target: "do_group_exit" },
        };
        let i = choose|i: int| 0 <= i < steps@.len() && steps@[i] == Step::Attach(probe);
        assert(steps@.contains(Step::Attach(probe)));
        assert(steps@[i] == Step::Attach(probe));
    }
    assert forall|i: int|
        0 <= i < steps@.len() && (#[trigger] steps@[i] matches Step::Attach(probe)
            && probe.program()
            == program) implies asked_for by {
        let probe = steps@[i]->Attach_0;
        assert(steps@.contains(Step::Attach(probe)));
        assert(attach::marks(table, Step::Attach(probe)));
        let k = choose|k: int| 0 <= k < table.len() && table[k] == (true, Step::Attach(probe));
        assert(table[k].1 == Step::Attach(probe));
    }
}

/// The steps for file events write the key of the filter and its file types, and then attach
/// the probe of each operation whose bit the filter holds, in a fixed order and
/// once each. They do nothing else.
pub proof fn law_file_steps(filter: &FileFilter, steps: Vec<Step>)
    requires
        call_ensures(attach::attach_file_probe, (filter,), steps),
    ensures
        steps@ == seq![
            Step::WriteFilter { owner: FilterOwner::File, key: filter.filter },
            Step::WriteConfig { mode: filter.file_mode.0 },
        ] + step_if(
            filter.event_type.bits() & 1 == 1,
            Step::Attach(Probe::FExit { program: Program::VfsOpen, target: "vfs_open" }),
        ) + step_if(
            filter.event_type.bits() & 2 == 2,
            Step::Attach(Probe::FExit { program: Program::FilpClose, target: "filp_close" }),
        ) + step_if(
            filter.event_type.bits() & 4 == 4,
            Step::Attach(Probe::FExit { program: Program::VfsRead, target: "vfs_read" }),
        ) + step_if(
            filter.event_type.bits() & 8 == 8,
            Step::Attach(Probe::FExit { program: Program::VfsWrite, target: "vfs_write" }),
        ) + step_if(
            filter.event_type.bits() & 16 == 16,
            Step::Attach(Probe::FExit { program: Program::VfsUnlink, target: "vfs_unlink" }),
        ) + step_if(
            filter.event_type.bits() & 32 == 32,
            Step::Attach(Probe::FEntry { program: Program::VfsRename, target: "vfs_rename" }),
        ) + step_if(
            filter.event_type.bits() & 32 == 32,
            Step::Attach(Probe::FExit { program: Program::VfsRenameRetval, target: "vfs_rename" }),
        ),
{
    let table = attach::file_table(filter);
    lemma_start(table);
    lemma_next(table, 0);
    lemma_next(table, 1);
    lemma_next(table, 2);
    lemma_next(table, 3);
    lemma_next(table, 4);
    lemma_next(table, 5);
    lemma_next(table, 6);
}

/// An operation that the filter asks for has its probe attached, whatever else the
/// filter asks for, and the probe of an operation that it does not ask for is
/// not attached.
pub proof fn law_file_probes_are_attached(filter: &FileFilter, steps: Vec<Step>)
    requires
        call_ensures(attach::attach_file_probe, (filter,), steps),
    ensures
        filter.event_type.bits() & 1 == 1 <==> steps@.contains(
            Step::Attach(Probe::FExit { program: Program::VfsOpen, target: "vfs_open" }),
        ),
        filter.event_type.bits() & 2 == 2 <==> steps@.contains(
            Step::Attach(Probe::FExit { program: Program::FilpClose, target: "filp_close" }),
        ),
        filter.event_type.bits() & 4 == 4 <==> steps@.contains(
            Step::Attach(Probe::FExit { program: Program::VfsRead, target: "vfs_read" }),
        ),
        filter.event_type.bits() & 8 == 8 <==> steps@.contains(
            Step::Attach(Probe::FExit { program: Program::VfsWrite, target: "vfs_write" }),
        ),
        filter.event_type.bits() & 16 == 16 <==> steps@.contains(
            Step::Attach(Probe::FExit { program: Program::VfsUnlink, target: "vfs_unlink" }),
        ),
        filter.event_type.bits() & 32 == 32 <==> steps@.contains(
            Step::Attach(Probe::FEntry { program: Program::VfsRename, target: "vfs_rename" }),
        ),
        filter.event_type.bits() & 32 == 32 <==> steps@.contains(
            Step::Attach(Probe::FExit { program: Program::VfsRenameRetval, target: "vfs_rename" }),
        ),
        attach::file_steps(filter) == steps@,
{
    let table = attach::file_table(filter);
    attach::law_file_steps_are_those_asked_for(filter);
    lemma_marked(table, 0);
    lemma_marked(table, 1);
    lemma_marked(table, 2);
    lemma_marked(table, 3);
    lemma_marked(table, 4);
    lemma_marked(table, 5);
    lemma_marked(table, 6);
}

/// A program is attached exactly when it reports file operations that the filter
/// asks for.
pub proof fn law_file_programs(filter: &FileFilter, steps: Vec<Step>, program: Program)
    requires
        call_ensures(attach::attach_file_probe, (filter,), steps),
    ensures
        (exists|i: int|
            0 <= i < steps@.len() && (#[trigger] steps@[i] matches Step::Attach(probe)
                && (match probe {
                Probe::FExit { program, .. } => program,
                Probe::FEntry { program, .. } => program,
                Probe::KProbe { program, .. } => program,
                Probe::TracePoint { program, .. } => program,
            }) == program)) <==> match program {
            Program::VfsOpen => filter.event_type.bits() & 1 == 1,
            Program::FilpClose => filter.event_type.bits() & 2 == 2,
            Program::VfsRead => filter.event_type.bits() & 4 == 4,
            Program::VfsWrite => filter.event_type.bits() & 8 == 8,
            Program::VfsUnlink => filter.event_type.bits() & 16 == 16,
            Program::VfsRename => filter.event_type.bits() & 32 == 32,
            Program::VfsRenameRetval => filter.event_type.bits() & 32 == 32,
            _ => false,
        },
{
    law_file_probes_are_attached(filter, steps);
    attach::law_file_steps_are_those_asked_for(filter);
    let table = attach::file_table(filter);
    let asked_for = match program {
        Program::VfsOpen => filter.event_type.bits() & 1 == 1,
        Program::FilpClose => filter.event_type.bits() & 2 == 2,
        Program::VfsRead => filter.event_type.bits() & 4 == 4,
        Program::VfsWrite => filter.event_type.bits() & 8 == 8,
        Program::VfsUnlink => filter.event_type.bits() & 16 == 16,
        Program::VfsRename => filter.event_type.bits() & 32 == 32,
        Program::VfsRenameRetval => filter.event_type.bits() & 32 == 32,
        _ => false,
    };
    if asked_for {
        let probe = match program {
            Program::VfsOpen => Probe::FExit { program: Program::VfsOpen, target: "vfs_open" },
            Program::FilpClose =>
                Probe::FExit { program: Program::FilpClose, target: "filp_close" },
            Program::VfsRead => Probe::FExit { program: Program::VfsRead, target: "vfs_read" },
            Program::VfsWrite => Probe::FExit { program: Program::VfsWrite, target: "vfs_write" },
            Program::VfsUnlink =>
                Probe::FExit { program: Program::VfsUnlink, target: "vfs_unlink" },
            Program::VfsRename =>
                Probe::FEntry { program: Program::VfsRename, target: "vfs_rename" },
            _ => Probe::FExit { program: Program::VfsRenameRetval, target: "vfs_rename" },
        };
        let i = choose|i: int| 0 <= i < steps@.len() && steps@[i] == Step::Attach(probe);
        assert(steps@.contains(Step::Attach(probe)));
        assert(steps@[i] == Step::Attach(probe));
    }
    assert forall|i: int|
        0 <= i < steps@.len() && (#[trigger] steps@[i] matches Step::Attach(probe)
            && probe.program()
            == program) implies asked_for by {
        let probe = steps@[i]->Attach_0;
        assert(steps@.contains(Step::Attach(probe)));
        assert(attach::marks(table, Step::Attach(probe)));
        let k = choose|k: int| 0 <= k < table.len() && table[k] == (true, Step::Attach(probe));
        assert(table[k].1 == Step::Attach(probe));
    }
}

/// The steps for memory events write the key of the filter, and then attach
/// the probe of each operation whose bit the filter holds, in a fixed order and
/// once each. They do nothing else.
pub proof fn law_mem_steps(filter: &MemoryFilter, steps: Vec<Step>)
    requires
        call_ensures(attach::attach_mem_probe, (filter,), steps),
    ensures
        steps@ == seq![Step::WriteFilter { owner: FilterOwner::Memory, key: filter.filter }]
            + step_if(
            filter.mask.bits() & 1 == 1,
            Step::Attach(Probe::FExit { program: Program::VmMmapPgoff, target: "vm_mmap_pgoff" }),
        ) + step_if(
            filter.mask.bits() & 2 == 2,
            Step::Attach(Probe::FExit { program: Program::VmMunmap, target: "__vm_munmap" }),
        ),
{
    let table = attach::mem_table(filter);
    lemma_start(table);
    lemma_next(table, 0);
    lemma_next(table, 1);
}

/// An operation that the filter asks for has its probe attached, whatever else the
/// filter asks for, and the probe of an operation that it does not ask for is
/// not attached.
pub proof fn law_mem_probes_are_attached(filter: &MemoryFilter, steps: Vec<Step>)
    requires
        call_ensures(attach::attach_mem_probe, (filter,), steps),
    ensures
        filter.mask.bits() & 1 == 1 <==> steps@.contains(
            Step::Attach(Probe::FExit { program: Program::VmMmapPgoff, target: "vm_mmap_pgoff" }),
        ),
        filter.mask.bits() & 2 == 2 <==> steps@.contains(
            Step::Attach(Probe::FExit { program: Program::VmMunmap, target: "__vm_munmap" }),
        ),
        attach::mem_steps(filter) == steps@,
{
    let table = attach::mem_table(filter);
    attach::law_mem_steps_are_those_asked_for(filter);
    lemma_marked(table, 0);
    lemma_marked(table, 1);
}

/// A program is attached exactly when it reports memory operations that the filter
/// asks for.
pub proof fn law_mem_programs(filter: &MemoryFilter, steps: Vec<Step>, program: Program)
    requires
        call_ensures(attach::attach_mem_probe, (filter,), steps),
    ensures
        (exists|i: int|
            0 <= i < steps@.len() && (#[trigger] steps@[i] matches Step::Attach(probe)
                && (match probe {
                Probe::FExit { program, .. } => program,
                Probe::FEntry { program, .. } => program,
                Probe::KProbe { program, .. } => program,
                Probe::TracePoint { program, .. } => program,
            }) == program)) <==> match program {
            Program::VmMmapPgoff => filter.mask.bits() & 1 == 1,
            Program::VmMunmap => filter.mask.bits() & 2 == 2,
            _ => false,
        },
{
    law_mem_probes_are_attached(filter, steps);
    attach::law_mem_steps_are_those_asked_for(filter);
    let table = attach::mem_table(filter);
    let asked_for = match program {
        Program::VmMmapPgoff => filter.mask.bits() & 1 == 1,
        Program::VmMunmap => filter.mask.bits() & 2 == 2,
        _ => false,
    };
    if asked_for {
        let probe = match program {
            Program::VmMmapPgoff =>
                Probe::FExit { program: Program::VmMmapPgoff, target: "vm_mmap_pgoff" },
            _ => Probe::FExit { program: Program::VmMunmap, target: "__vm_munmap" },
        };
        let i = choose|i: int| 0 <= i < steps@.len() && steps@[i] == Step::Attach(probe);
        assert(steps@.contains(Step::Attach(probe)));
        assert(steps@[i] == Step::Attach(probe));
    }
    assert forall|i: int|
        0 <= i < steps@.len() && (#[trigger] steps@[i] matches Step::Attach(probe)
            && probe.program()
            == program) implies asked_for by {
        let probe = steps@[i]->Attach_0;
        assert(steps@.contains(Step::Attach(probe)));
        assert(attach::marks(table, Step::Attach(probe)));
        let k = choose|k: int| 0 <= k < table.len() && table[k] == (true, Step::Attach(probe));
        assert(table[k].1 == Step::Attach(probe));
    }
}

/// The step that writes a filter writes its key, whichever filter it is, for the
/// owner that it is called for. The step that writes the configuration writes the
/// file types of the filter.
pub proof fn law_write_steps(
    memory: &MemoryFilter,
    file: &FileFilter,
    network: &NetworkFilter,
    process: &ProcessFilter,
    owner: FilterOwner,
    steps: (Step, Step, Step, Step),
    config: Step,
)
    requires
        call_ensures(attach::write_to_filter_map, (&Filters::Memory(memory), owner), steps.0),
        call_ensures(attach::write_to_filter_map, (&Filters::File(file), owner), steps.1),
        call_ensures(attach::write_to_filter_map, (&Filters::Network(network), owner), steps.2),
        call_ensures(attach::write_to_filter_map, (&Filters::Process(process), owner), steps.3),
        call_ensures(attach::write_to_map, (file,), config),
    ensures
        steps.0 == (Step::WriteFilter { owner, key: memory.filter }),
        steps.1 == (Step::WriteFilter { owner, key: file.filter }),
        steps.2 == (Step::WriteFilter { owner, key: network.filter }),
        steps.3 == (Step::WriteFilter { owner, key: process.filter }),
        config == (Step::WriteConfig { mode: file.file_mode.0 }),
{
}

/// A slot of the filter map holds what was written to it last, and a step that
/// writes to another slot, or writes no filter, leaves it alone.
pub proof fn law_last_write_counts(
    steps: Seq<Step>,
    step: Step,
    filters: Map<u32, FilterKey>,
    owner: FilterOwner,
)
    ensures
        attach::filters_after(Seq::<Step>::empty(), filters) == filters,
        step matches Step::WriteFilter { owner: written, key } ==> written == owner ==> {
            &&& attach::filters_after(steps.push(step), filters).contains_key(owner.spec_slot())
            &&& attach::filters_after(steps.push(step), filters)[owner.spec_slot()] == key
        },
        !(step matches Step::WriteFilter { owner: written, .. } && written == owner) ==> {
            &&& attach::filters_after(steps.push(step), filters).contains_key(owner.spec_slot())
                == attach::filters_after(steps, filters).contains_key(owner.spec_slot())
            &&& attach::filters_after(steps.push(step), filters)[owner.spec_slot()]
                == attach::filters_after(steps, filters)[owner.spec_slot()]
        },
{
    assert(steps.push(step).drop_last() =~= steps);
}

/// The file types to report are those that were written last.
pub proof fn law_last_configuration_counts(
    steps: Seq<Step>,
    step: Step,
    config: Option<FileModeFilter>,
)
    ensures
        attach::config_after(Seq::<Step>::empty(), config) == config,
        step matches Step::WriteConfig { mode } ==> attach::config_after(steps.push(step), config)
            == Some(mode),
        !(step is WriteConfig) ==> attach::config_after(steps.push(step), config)
            == attach::config_after(steps, config),
{
    assert(steps.push(step).drop_last() =~= steps);
}

/// The slots of the filter map, by owner.
pub proof fn law_slots(owner: FilterOwner, slot: u32)
    requires
        call_ensures(FilterOwner::slot, (owner,), slot),
    ensures
        slot == (match owner {
            FilterOwner::Memory => 0u32,
            FilterOwner::Process => 1u32,
            FilterOwner::Network => 2u32,
            FilterOwner::File => 3u32,
        }),
        owner.spec_slot() == slot,
{
}

/// Each program has a name of its own in the object file, and makes records of
/// one kind.
pub proof fn law_programs(program: Program, name: &'static str)
    requires
        call_ensures(Program::name, (program,), name),
    ensures
        match program {
            Program::TcpV4Connect => name@ == "tcp_v4_connect"@ && program.kind() is Connect
                && program.protocol() == 1,
            Program::TcpV6Connect => name@ == "tcp_v6_connect"@ && program.kind() is Connect
                && program.protocol() == 1,
            Program::InetCskAccept => name@ == "inet_csk_accept"@ && program.kind() is Accept
                && program.protocol() == 1,
            Program::TcpClose => name@ == "tcp_close"@ && program.kind() is Close
                && program.protocol() == 1,
            Program::InetBind => name@ == "inet_bind"@ && program.kind() is Bind
                && program.protocol() == 1,
            Program::InetListen => name@ == "inet_listen"@ && program.kind() is Listen
                && program.protocol() == 1,
            Program::UdpConnect => name@ == "udp_connect"@ && program.kind() is Connect
                && program.protocol() == 2,
            Program::Udpv6Connect => name@ == "udpv6_connect"@ && program.kind() is Connect
                && program.protocol() == 2,
            Program::UdpDestroySock => name@ == "udp_destroy_sock"@ && program.kind() is Close
                && program.protocol() == 2,
            Program::SchedProcessExec => name@ == "sched_process_exec"@
                && program.kind() is ProcessStart
                && program.protocol() == 0,
            Program::SchedProcessFork => name@ == "sched_process_fork"@
                && program.kind() is ProcessFork
                && program.protocol() == 0,
            Program::DoGroupExit => name@ == "do_group_exit"@ && program.kind() is ProcessExit
                && program.protocol() == 0,
            Program::VfsOpen => name@ == "vfs_open"@ && program.kind() is FileOpen
                && program.protocol() == 0,
            Program::FilpClose => name@ == "filp_close"@ && program.kind() is FileClose
                && program.protocol() == 0,
            Program::VfsRead => name@ == "vfs_read"@ && program.kind() is FileRead
                && program.protocol() == 0,
            Program::VfsWrite => name@ == "vfs_write"@ && program.kind() is FileWrite
                && program.protocol() == 0,
            Program::VfsUnlink => name@ == "vfs_unlink"@ && program.kind() is FileDelete
                && program.protocol() == 0,
            Program::VfsRename => name@ == "vfs_rename"@ && program.kind() is FileRename
                && program.protocol() == 0,
            Program::VfsRenameRetval => name@ == "vfs_rename_retval"@
                && program.kind() is PendingFileRename
                && program.protocol() == 0,
            Program::VmMmapPgoff => name@ == "vm_mmap_pgoff"@ && program.kind() is MemoryMap
                && program.protocol() == 0,
            Program::VmMunmap => name@ == "__vm_munmap"@ && program.kind() is MemoryUnMap
                && program.protocol() == 0,
        },
{
}

} // verus!
