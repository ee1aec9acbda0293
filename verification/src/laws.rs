//! What holds of an event on its way from a probe to a subscriber.
use crate::attach;
use crate::attach::Program;
use crate::common::EventHeader;
use crate::convert;
use crate::file::{FileEvent, FileFilter, FileType};
use crate::handoff;
use crate::mask;
use crate::memory::{MemoryEvent, MemoryFilter};
use crate::network::{NetworkEvent, NetworkFilter};
use crate::probe;
use crate::process::{ProcessEvent, ProcessFilter};
use crate::raw::{
    EventType, FileModeFilter, FilterKey, FilterOwner, PendingConnect, RawEventHeader,
    RawFileCloseEvent, RawFileDeleteEvent, RawFileOpenEvent, RawFileReadEvent, RawFileRenameEvent,
    RawFileRtrEvent, RawFileWriteEvent, RawMemoryMapEvent, RawMemoryUnmapEvent, RawProcessExitEvent,
    RawProcessForkEvent, RawProcessStartEvent, FILE_REG,
};
use crate::rename::PendingRenames;
use crate::runtime::{
    Bpfx, Delivery, FileRegister, MemRegister, NetworkRegister, ProcessRegister,
};
use vstd::prelude::*;

verus! {

/// The record of a socket operation reaches the subscriber as an event that
/// says the same, unless it is that of a connect that failed.
pub proof fn law_socket_record_arrives(
    record: PendingConnect,
    b: Seq<u8>,
    event: Option<NetworkEvent>,
)
    requires
        record.held_in(b),
        record.reported(),
        NetworkEvent::converted(b, event),
    ensures
        event matches Some(event) && event.describes(record) && event.spec_header().describes(
            record.header,
        ),
{
    record.law_round_trip(b);
}

/// A connect that failed reaches no subscriber.
pub proof fn law_failed_connect_is_not_reported(
    record: PendingConnect,
    b: Seq<u8>,
    event: Option<NetworkEvent>,
)
    requires
        record.held_in(b),
        record.header.event_type is Connect,
        record.retval matches Some(retval) && retval < 0,
        NetworkEvent::converted(b, event),
    ensures
        event is None,
{
    record.law_round_trip(b);
}

/// The record of a process start reaches the subscriber as an event that says the same.
pub proof fn law_process_start_arrives(
    record: RawProcessStartEvent,
    b: Seq<u8>,
    event: Option<ProcessEvent>,
)
    requires
        record.held_in(b),
        record.header.event_type is ProcessStart,
        ProcessEvent::converted(b, event),
    ensures
        event matches Some(ProcessEvent::Start(event)) && event.describes(record),
{
    record.law_round_trip(b);
    record.header.law_round_trip(b);
}

/// The record of a process exit reaches the subscriber as an event that says the same.
pub proof fn law_process_exit_arrives(
    record: RawProcessExitEvent,
    b: Seq<u8>,
    event: Option<ProcessEvent>,
)
    requires
        record.held_in(b),
        record.header.event_type is ProcessExit,
        ProcessEvent::converted(b, event),
    ensures
        event matches Some(ProcessEvent::Exit(event)) && event.describes(record),
{
    record.law_round_trip(b);
    record.header.law_round_trip(b);
}

/// The record of a fork reaches the subscriber as an event that says the same.
pub proof fn law_fork_arrives(
    record: RawProcessForkEvent,
    b: Seq<u8>,
    event: Option<ProcessEvent>,
)
    requires
        record.held_in(b),
        record.parent.event_type is ProcessFork,
        ProcessEvent::converted(b, event),
    ensures
        event matches Some(ProcessEvent::Fork(event)) && event.describes(record),
{
    record.law_round_trip(b);
    record.parent.law_round_trip(b);
}

/// The record of a mapping reaches the subscriber as an event that says the same.
pub proof fn law_mapping_arrives(
    record: RawMemoryMapEvent,
    b: Seq<u8>,
    event: Option<MemoryEvent>,
)
    requires
        record.held_in(b),
        record.header.event_type is MemoryMap,
        MemoryEvent::converted(b, event),
    ensures
        event matches Some(MemoryEvent::MemoryMap(event)) && event.describes(record),
{
    record.law_round_trip(b);
    record.header.law_round_trip(b);
}

/// The record of a removed mapping reaches the subscriber as an event that says the same.
pub proof fn law_removed_mapping_arrives(
    record: RawMemoryUnmapEvent,
    b: Seq<u8>,
    event: Option<MemoryEvent>,
)
    requires
        record.held_in(b),
        record.header.event_type is MemoryUnMap,
        MemoryEvent::converted(b, event),
    ensures
        event matches Some(MemoryEvent::MemoryUnMap(event)) && event.describes(record),
{
    record.law_round_trip(b);
    record.header.law_round_trip(b);
}

/// The record of an open reaches the subscriber as an event that says the same, and
/// does not touch the pending renames.
pub proof fn law_open_arrives(
    record: RawFileOpenEvent,
    b: Seq<u8>,
    before: PendingRenames,
    after: PendingRenames,
    event: Option<FileEvent>,
)
    requires
        record.held_in(b),
        record.header.event_type is FileOpen,
        FileEvent::converted(b, before, after, event),
    ensures
        event matches Some(FileEvent::Open(event)) && event.describes(record),
        after@ == before@,
{
    record.law_round_trip(b);
    record.header.law_round_trip(b);
}

/// The record of a close reaches the subscriber as an event that says the same, and
/// does not touch the pending renames.
pub proof fn law_close_arrives(
    record: RawFileCloseEvent,
    b: Seq<u8>,
    before: PendingRenames,
    after: PendingRenames,
    event: Option<FileEvent>,
)
    requires
        record.held_in(b),
        record.header.event_type is FileClose,
        FileEvent::converted(b, before, after, event),
    ensures
        event matches Some(FileEvent::Close(event)) && event.describes(record),
        after@ == before@,
{
    record.law_round_trip(b);
    record.header.law_round_trip(b);
}

/// The record of a read reaches the subscriber as an event that says the same, and
/// does not touch the pending renames.
pub proof fn law_read_arrives(
    record: RawFileReadEvent,
    b: Seq<u8>,
    before: PendingRenames,
    after: PendingRenames,
    event: Option<FileEvent>,
)
    requires
        record.held_in(b),
        record.header.event_type is FileRead,
        FileEvent::converted(b, before, after, event),
    ensures
        event matches Some(FileEvent::Read(event)) && event.describes(record),
        after@ == before@,
{
    record.law_round_trip(b);
    record.header.law_round_trip(b);
}

/// The record of a write reaches the subscriber as an event that says the same, and
/// does not touch the pending renames.
pub proof fn law_write_arrives(
    record: RawFileWriteEvent,
    b: Seq<u8>,
    before: PendingRenames,
    after: PendingRenames,
    event: Option<FileEvent>,
)
    requires
        record.held_in(b),
        record.header.event_type is FileWrite,
        FileEvent::converted(b, before, after, event),
    ensures
        event matches Some(FileEvent::Write(event)) && event.describes(record),
        after@ == before@,
{
    record.law_round_trip(b);
    record.header.law_round_trip(b);
}

/// The record of a deletion reaches the subscriber as an event that says the same, and
/// does not touch the pending renames.
pub proof fn law_deletion_arrives(
    record: RawFileDeleteEvent,
    b: Seq<u8>,
    before: PendingRenames,
    after: PendingRenames,
    event: Option<FileEvent>,
)
    requires
        record.held_in(b),
        record.header.event_type is FileDelete,
        FileEvent::converted(b, before, after, event),
    ensures
        event matches Some(FileEvent::Delete(event)) && event.describes(record),
        after@ == before@,
{
    record.law_round_trip(b);
    record.header.law_round_trip(b);
}

/// A rename reaches the subscriber as one event, when it returns: the start of
/// it gives no event, the end of it gives the event with the names of the start
/// and the result of the end, and nothing of it stays behind. The one way to
/// lose it is that there was no room to keep its start.
pub proof fn law_rename_arrives(
    start: RawFileRenameEvent,
    end: RawFileRtrEvent,
    b1: Seq<u8>,
    b2: Seq<u8>,
    before: PendingRenames,
    between: PendingRenames,
    after: PendingRenames,
    event1: Option<FileEvent>,
    event2: Option<FileEvent>,
)
    requires
        start.held_in(b1),
        start.header.event_type is FileRename,
        before@.dom().len() < crate::rename::MAX_PENDING_RENAMES,
        FileEvent::converted(b1, before, between, event1),
        end.held_in(b2),
        end.header.event_type is PendingFileRename,
        end.header.pid == start.header.pid,
        end.header.tid == start.header.tid,
        FileEvent::converted(b2, between, after, event2),
    ensures
        event1 is None,
        event2 matches Some(FileEvent::Rename(event)) && event.describes(start, end.retval),
        after@ == before@.remove(PendingRenames::task(start.header)),
{
    start.law_round_trip(b1);
    start.header.law_round_trip(b1);
    end.law_round_trip(b2);
    end.header.law_round_trip(b2);
    assert(after@ =~= before@.remove(PendingRenames::task(start.header)));
}

/// The end of a rename whose start is not known gives no event and changes
/// nothing.
pub proof fn law_unknown_rename_is_ignored(
    end: RawFileRtrEvent,
    b: Seq<u8>,
    before: PendingRenames,
    after: PendingRenames,
    event: Option<FileEvent>,
)
    requires
        end.held_in(b),
        end.header.event_type is PendingFileRename,
        !before@.contains_key(PendingRenames::task(end.header)),
        FileEvent::converted(b, before, after, event),
    ensures
        event is None,
        after@ == before@,
{
    end.law_round_trip(b);
    end.header.law_round_trip(b);
    assert(after@ =~= before@);
}

/// A record of another task leaves the pending rename of a task alone.
pub proof fn law_other_tasks_do_not_disturb(
    header: RawEventHeader,
    other: RawEventHeader,
    b: Seq<u8>,
    before: PendingRenames,
    after: PendingRenames,
    event: Option<FileEvent>,
)
    requires
        header.held_in(b),
        header.pid != other.pid || header.tid != other.tid,
        FileEvent::converted(b, before, after, event),
    ensures
        after@.contains_key(PendingRenames::task(other)) == before@.contains_key(
            PendingRenames::task(other),
        ),
        before@.contains_key(PendingRenames::task(other)) ==> after@[PendingRenames::task(other)]
            == before@[PendingRenames::task(other)],
{
    header.law_round_trip(b);
    if let Some(record) = RawFileRenameEvent::read_from(b) {
        record.header.law_held_once(header, b);
    }
    if let Some(record) = RawFileRtrEvent::read_from(b) {
        record.header.law_held_once(header, b);
    }
    if PendingRenames::task(header) == PendingRenames::task(other) {
        crate::rename::law_tasks_are_distinct(header, other);
    }
}

impl FilterKey {
    /// The task of an event is one that this key asks for.
    pub open spec fn asks_for(self, header: EventHeader) -> bool {
        match self {
            FilterKey::Any => true,
            FilterKey::Pid(pid) => header.pid == pid,
            FilterKey::Tid(tid) => header.tid == tid,
            FilterKey::Ppid(ppid) => header.ppid == ppid,
            FilterKey::Uid(uid) => header.uid == uid,
            FilterKey::Gid(gid) => header.gid == gid,
        }
    }
}

/// What the filter map holds for `owner`.
pub open spec fn key_of(filters: Map<u32, FilterKey>, owner: FilterOwner) -> Option<FilterKey> {
    if filters.contains_key(owner.spec_slot()) {
        Some(filters[owner.spec_slot()])
    } else {
        None
    }
}

/// A subscriber to network events only receives events of the tasks that the
/// filter asks for: once its probes are set up, a record that they let through
/// is one of such a task.
pub proof fn law_network_events_are_asked_for(
    filter: &NetworkFilter,
    filters: Map<u32, FilterKey>,
    header: RawEventHeader,
    b: Seq<u8>,
    event: NetworkEvent,
)
    requires
        probe::passes(
            key_of(attach::filters_after(attach::network_steps(filter), filters), FilterOwner::Network),
            header,
        ),
        header.held_in(b),
        NetworkEvent::converted(b, Some(event)),
    ensures
        filter.filter.asks_for(event.spec_header()),
{
    attach::law_network_steps_write_the_filter(filter, filters, None);
    header.law_round_trip(b);
    if let Some(record) = PendingConnect::read_from(b) {
        record.header.law_held_once(header, b);
    }
}

/// A subscriber to process events only receives events of the tasks that the
/// filter asks for: once its probes are set up, a record that they let through
/// is one of such a task.
pub proof fn law_process_events_are_asked_for(
    filter: &ProcessFilter,
    filters: Map<u32, FilterKey>,
    header: RawEventHeader,
    b: Seq<u8>,
    event: ProcessEvent,
)
    requires
        probe::passes(
            key_of(attach::filters_after(attach::process_steps(filter), filters), FilterOwner::Process),
            header,
        ),
        header.held_in(b),
        ProcessEvent::converted(b, Some(event)),
    ensures
        filter.filter.asks_for(event.spec_header()),
{
    attach::law_process_steps_write_the_filter(filter, filters, None);
    header.law_round_trip(b);
    if let Some(record) = RawProcessStartEvent::read_from(b) {
        record.header.law_held_once(header, b);
    }
    if let Some(record) = RawProcessExitEvent::read_from(b) {
        record.header.law_held_once(header, b);
    }
    if let Some(record) = RawProcessForkEvent::read_from(b) {
        record.parent.law_held_once(header, b);
    }
}

/// A subscriber to memory events only receives events of the tasks that the
/// filter asks for: once its probes are set up, a record that they let through
/// is one of such a task.
pub proof fn law_memory_events_are_asked_for(
    filter: &MemoryFilter,
    filters: Map<u32, FilterKey>,
    header: RawEventHeader,
    b: Seq<u8>,
    event: MemoryEvent,
)
    requires
        probe::passes(
            key_of(attach::filters_after(attach::mem_steps(filter), filters), FilterOwner::Memory),
            header,
        ),
        header.held_in(b),
        MemoryEvent::converted(b, Some(event)),
    ensures
        filter.filter.asks_for(event.spec_header()),
{
    attach::law_mem_steps_write_the_filter(filter, filters, None);
    header.law_round_trip(b);
    if let Some(record) = RawMemoryMapEvent::read_from(b) {
        record.header.law_held_once(header, b);
    }
    if let Some(record) = RawMemoryUnmapEvent::read_from(b) {
        record.header.law_held_once(header, b);
    }
}

/// A subscriber to file events only receives events of the tasks that the
/// filter asks for. Of renames, see [`law_renames_are_asked_for`].
pub proof fn law_file_events_are_asked_for(
    filter: &FileFilter,
    filters: Map<u32, FilterKey>,
    header: RawEventHeader,
    b: Seq<u8>,
    before: PendingRenames,
    after: PendingRenames,
    event: FileEvent,
)
    requires
        probe::passes(
            key_of(attach::filters_after(attach::file_steps(filter), filters), FilterOwner::File),
            header,
        ),
        header.held_in(b),
        FileEvent::converted(b, before, after, Some(event)),
        !(event is Rename),
    ensures
        filter.filter.asks_for(event.spec_header()),
{
    attach::law_file_steps_write_the_filter(filter, filters, None);
    header.law_round_trip(b);
    if let Some(record) = RawFileOpenEvent::read_from(b) {
        record.header.law_held_once(header, b);
    }
    if let Some(record) = RawFileCloseEvent::read_from(b) {
        record.header.law_held_once(header, b);
    }
    if let Some(record) = RawFileReadEvent::read_from(b) {
        record.header.law_held_once(header, b);
    }
    if let Some(record) = RawFileWriteEvent::read_from(b) {
        record.header.law_held_once(header, b);
    }
    if let Some(record) = RawFileDeleteEvent::read_from(b) {
        record.header.law_held_once(header, b);
    }
}

/// Every pending start of a rename stands under its own task, and `holds` of it.
pub open spec fn every_start(
    pending: PendingRenames,
    holds: spec_fn(RawFileRenameEvent) -> bool,
) -> bool {
    forall|task: u64| #[trigger]
        pending@.contains_key(task) ==> task == PendingRenames::task(pending@[task].header) && holds(
            pending@[task],
        )
}

/// If the bytes `b` hold the start of a rename, then `holds` of it.
pub open spec fn start_in(b: Seq<u8>, holds: spec_fn(RawFileRenameEvent) -> bool) -> bool {
    convert::kind_of(b) == Some(EventType::FileRename) ==> match RawFileRenameEvent::read_from(b) {
        Some(start) => holds(start),
        None => true,
    }
}

/// What is pending comes of records: behind a record, every pending start of a
/// rename was pending before, or is the one that the record holds, under its task.
pub proof fn law_pending_starts_come_of_records(
    b: Seq<u8>,
    before: PendingRenames,
    after: PendingRenames,
    event: Option<FileEvent>,
    task: u64,
)
    requires
        FileEvent::converted(b, before, after, event),
        after@.contains_key(task),
    ensures
        ({
            ||| before@.contains_key(task) && before@[task] == after@[task]
            ||| {
                &&& convert::kind_of(b) == Some(EventType::FileRename)
                &&& RawFileRenameEvent::read_from(b) == Some(after@[task])
                &&& task == PendingRenames::task(after@[task].header)
            }
        }),
{
}

/// What holds of every pending start of a rename, and of the one that a record
/// holds, holds of every pending start behind the record.
pub proof fn law_every_start_is_kept(
    b: Seq<u8>,
    before: PendingRenames,
    after: PendingRenames,
    event: Option<FileEvent>,
    holds: spec_fn(RawFileRenameEvent) -> bool,
)
    requires
        FileEvent::converted(b, before, after, event),
        every_start(before, holds),
        start_in(b, holds),
    ensures
        every_start(after, holds),
{
    assert forall|task: u64| #[trigger] after@.contains_key(task) implies task
        == PendingRenames::task(after@[task].header) && holds(after@[task]) by {
        law_pending_starts_come_of_records(b, before, after, event, task);
        assert(before@.contains_key(task) ==> task == PendingRenames::task(before@[task].header));
    }
}

/// What holds of every start of a rename in the records of a run of the event
/// loop holds of every pending start at the end of it: `states[i]` goes to
/// `states[i + 1]` with the record in `items[i]`.
pub proof fn law_every_start_of_a_run(
    states: Seq<Bpfx>,
    items: Seq<Seq<u8>>,
    deliveries: Seq<Delivery>,
    holds: spec_fn(RawFileRenameEvent) -> bool,
)
    requires
        states.len() == items.len() + 1,
        deliveries.len() == items.len(),
        every_start(states[0].pending(), holds),
        forall|i: int|
            0 <= i < items.len() ==> Bpfx::dispatched(
                states[i],
                #[trigger] items[i],
                states[i + 1],
                deliveries[i],
            ),
        forall|i: int| 0 <= i < items.len() ==> start_in(#[trigger] items[i], holds),
    ensures
        every_start(states.last().pending(), holds),
    decreases items.len(),
{
    if items.len() > 0 {
        let n = items.len() - 1;
        let before = states[n];
        let after = states[n + 1];
        assert(Bpfx::dispatched(before, items[n], after, deliveries[n]));
        assert forall|i: int| 0 <= i < items.drop_last().len() implies Bpfx::dispatched(
            states.drop_last()[i],
            #[trigger] items.drop_last()[i],
            states.drop_last()[i + 1],
            deliveries.drop_last()[i],
        ) by {
            assert(Bpfx::dispatched(states[i], items[i], states[i + 1], deliveries[i]));
        }
        assert forall|i: int| 0 <= i < items.drop_last().len() implies start_in(
            #[trigger] items.drop_last()[i],
            holds,
        ) by {
            assert(start_in(items[i], holds));
        }
        law_every_start_of_a_run(
            states.drop_last(),
            items.drop_last(),
            deliveries.drop_last(),
            holds,
        );
        assert(states.drop_last().last() == before);
        if before.spec_file() is Some {
            let event = choose|event: Option<FileEvent>| #[trigger]
                FileEvent::converted(items[n], before.pending(), after.pending(), event)
                    && handoff::offered(
                    before.spec_file()->0.tx,
                    event,
                    after.spec_file()->0.tx,
                    deliveries[n].file,
                );
            assert(start_in(items[n], holds));
            law_every_start_is_kept(items[n], before.pending(), after.pending(), event, holds);
        }
    }
}

/// In a new runtime nothing is pending, so anything holds of every pending start.
pub proof fn law_every_start_of_a_new_runtime(
    bpfx: Bpfx,
    holds: spec_fn(RawFileRenameEvent) -> bool,
)
    requires
        bpfx.is_new(),
    ensures
        every_start(bpfx.pending(), holds),
{
}

/// The key in the filter map asks for the start of a rename.
pub open spec fn admitted_by(key: Option<FilterKey>) -> spec_fn(RawFileRenameEvent) -> bool {
    |start: RawFileRenameEvent| probe::passes(key, start.header)
}

/// The start of a rename reports an object of a type that the configuration asks
/// for.
pub open spec fn captured_by(config: Option<FileModeFilter>) -> spec_fn(RawFileRenameEvent) -> bool {
    |start: RawFileRenameEvent|
        exists|i_mode: u16| #[trigger]
            probe::captured(config, i_mode) && start.file_mode.mode == probe::type_bit(i_mode)
}

/// A subscriber to file events only receives renames of the tasks that the
/// filter asks for. Only the starts of renames are filtered; that every pending
/// one passed is kept from record to record, see [`law_every_start_of_a_run`].
pub proof fn law_renames_are_asked_for(
    filter: &FileFilter,
    filters: Map<u32, FilterKey>,
    b: Seq<u8>,
    before: PendingRenames,
    after: PendingRenames,
    event: FileEvent,
)
    requires
        every_start(
            before,
            admitted_by(
                key_of(attach::filters_after(attach::file_steps(filter), filters), FilterOwner::File),
            ),
        ),
        FileEvent::converted(b, before, after, Some(event)),
        event is Rename,
    ensures
        filter.filter.asks_for(event.spec_header()),
{
    attach::law_file_steps_write_the_filter(filter, filters, None);
    let end = RawFileRtrEvent::read_from(b)->0;
    assert(before@.contains_key(PendingRenames::task(end.header)));
}

/// A subscriber to file events only receives renames of objects of the types that
/// the filter asks for.
pub proof fn law_renamed_types_are_asked_for(
    filter: &FileFilter,
    config: Option<FileModeFilter>,
    b: Seq<u8>,
    before: PendingRenames,
    after: PendingRenames,
    event: FileEvent,
)
    requires
        every_start(
            before,
            captured_by(attach::config_after(attach::file_steps(filter), config)),
        ),
        FileEvent::converted(b, before, after, Some(event)),
        event is Rename,
    ensures
        exists|i_mode: u16| #[trigger]
            probe::captured(Some(filter.file_mode.0), i_mode) && event.spec_file_type()
                == FileType::of_mode(probe::type_bit(i_mode)),
        event.spec_file_type() != FileType::Unknown,
{
    attach::law_file_steps_write_the_filter(filter, Map::empty(), config);
    let end = RawFileRtrEvent::read_from(b)->0;
    let task = PendingRenames::task(end.header);
    assert(before@.contains_key(task));
    let i_mode = choose|i_mode: u16| #[trigger]
        probe::captured(Some(filter.file_mode.0), i_mode) && before@[task].file_mode.mode
            == probe::type_bit(i_mode);
    law_file_types_are_asked_for(filter, config, i_mode, b, before, after, event);
}

/// The bytes `b` report an object whose type has the bit `bit`. The type of a
/// renamed object stands in the record of the start of the rename.
pub open spec fn reports_type(b: Seq<u8>, before: PendingRenames, bit: u16) -> bool {
    match convert::kind_of(b) {
        Some(EventType::FileOpen) => RawFileOpenEvent::read_from(b) matches Some(record)
            && record.file_mode.mode == bit,
        Some(EventType::FileClose) => RawFileCloseEvent::read_from(b) matches Some(record)
            && record.file_mode.mode == bit,
        Some(EventType::FileRead) => RawFileReadEvent::read_from(b) matches Some(record)
            && record.file_mode.mode == bit,
        Some(EventType::FileWrite) => RawFileWriteEvent::read_from(b) matches Some(record)
            && record.file_mode.mode == bit,
        Some(EventType::FileDelete) => RawFileDeleteEvent::read_from(b) matches Some(record)
            && record.file_mode.mode == bit,
        Some(EventType::PendingFileRename) => RawFileRtrEvent::read_from(b) matches Some(end)
            && before@.contains_key(PendingRenames::task(end.header))
            && before@[PendingRenames::task(end.header)].file_mode.mode == bit,
        _ => false,
    }
}

/// A subscriber to file events only receives events on objects of the types that
/// the filter asks for: once its probes are set up, an event whose record
/// reports an object that they captured has a recognized type, the type of the
/// object, and the filter asks for it.
pub proof fn law_file_types_are_asked_for(
    filter: &FileFilter,
    config: Option<FileModeFilter>,
    i_mode: u16,
    b: Seq<u8>,
    before: PendingRenames,
    after: PendingRenames,
    event: FileEvent,
)
    requires
        probe::captured(attach::config_after(attach::file_steps(filter), config), i_mode),
        reports_type(b, before, probe::type_bit(i_mode)),
        FileEvent::converted(b, before, after, Some(event)),
    ensures
        event.spec_file_type() == FileType::of_mode(probe::type_bit(i_mode)),
        event.spec_file_type().spec_mode_bits() == i_mode & probe::S_IFMT,
        event.spec_file_type() != FileType::Unknown,
        filter.file_mode.0.mode & probe::type_bit(i_mode) != 0,
        filter.file_mode.0.mode == FILE_REG ==> event.spec_file_type() == FileType::Regular,
{
    attach::law_file_steps_write_the_filter(filter, Map::empty(), config);
    probe::law_capture(i_mode);
    probe::law_type_is_kept(i_mode);
    assert(filter.file_mode.0.mode & 0 == 0) by (bit_vector);
}

/// What the event loop hands to the subscriber of network events is an event of a
/// task that the filter of the subscription asks for: given that the probes of
/// the filter are set up and let the record through, the event of the record is
/// handed to the channel of the subscription, and is one of such a task.
pub proof fn law_network_subscriber_receives_what_was_asked_for(
    register: NetworkRegister,
    filters: Map<u32, FilterKey>,
    header: RawEventHeader,
    before: Bpfx,
    b: Seq<u8>,
    after: Bpfx,
    delivery: Delivery,
)
    requires
        before.spec_network() == Some(register),
        probe::passes(
            key_of(
                attach::filters_after(attach::network_steps(&register.filter), filters),
                FilterOwner::Network,
            ),
            header,
        ),
        header.held_in(b),
        Bpfx::dispatched(before, b, after, delivery),
        !(delivery.network is Nothing),
    ensures
        exists|event: NetworkEvent| #[trigger]
            handoff::handed(register.tx.sender(), event, delivery.network) && NetworkEvent::converted(
                b,
                Some(event),
            ) && register.filter.filter.asks_for(event.spec_header()) && after.spec_network()->0.tx.log()
                == register.tx.log().push((event, delivery.network)),
{
    let event = choose|event: Option<NetworkEvent>| #[trigger]
        NetworkEvent::converted(b, event) && handoff::offered(
            register.tx,
            event,
            after.spec_network()->0.tx,
            delivery.network,
        );
    law_network_events_are_asked_for(&register.filter, filters, header, b, event->0);
    assert(handoff::handed(register.tx.sender(), event->0, delivery.network));
}

/// What the event loop hands to the subscriber of process events is an event of a
/// task that the filter of the subscription asks for: given that the probes of
/// the filter are set up and let the record through, the event of the record is
/// handed to the channel of the subscription, and is one of such a task.
pub proof fn law_process_subscriber_receives_what_was_asked_for(
    register: ProcessRegister,
    filters: Map<u32, FilterKey>,
    header: RawEventHeader,
    before: Bpfx,
    b: Seq<u8>,
    after: Bpfx,
    delivery: Delivery,
)
    requires
        before.spec_process() == Some(register),
        probe::passes(
            key_of(
                attach::filters_after(attach::process_steps(&register.filter), filters),
                FilterOwner::Process,
            ),
            header,
        ),
        header.held_in(b),
        Bpfx::dispatched(before, b, after, delivery),
        !(delivery.process is Nothing),
    ensures
        exists|event: ProcessEvent| #[trigger]
            handoff::handed(register.tx.sender(), event, delivery.process) && ProcessEvent::converted(
                b,
                Some(event),
            ) && register.filter.filter.asks_for(event.spec_header()) && after.spec_process()->0.tx.log()
                == register.tx.log().push((event, delivery.process)),
{
    let event = choose|event: Option<ProcessEvent>| #[trigger]
        ProcessEvent::converted(b, event) && handoff::offered(
            register.tx,
            event,
            after.spec_process()->0.tx,
            delivery.process,
        );
    law_process_events_are_asked_for(&register.filter, filters, header, b, event->0);
    assert(handoff::handed(register.tx.sender(), event->0, delivery.process));
}

/// What the event loop hands to the subscriber of memory events is an event of a
/// task that the filter of the subscription asks for: given that the probes of
/// the filter are set up and let the record through, the event of the record is
/// handed to the channel of the subscription, and is one of such a task.
pub proof fn law_memory_subscriber_receives_what_was_asked_for(
    register: MemRegister,
    filters: Map<u32, FilterKey>,
    header: RawEventHeader,
    before: Bpfx,
    b: Seq<u8>,
    after: Bpfx,
    delivery: Delivery,
)
    requires
        before.spec_mem() == Some(register),
        probe::passes(
            key_of(
                attach::filters_after(attach::mem_steps(&register.filter), filters),
                FilterOwner::Memory,
            ),
            header,
        ),
        header.held_in(b),
        Bpfx::dispatched(before, b, after, delivery),
        !(delivery.memory is Nothing),
    ensures
        exists|event: MemoryEvent| #[trigger]
            handoff::handed(register.tx.sender(), event, delivery.memory) && MemoryEvent::converted(
                b,
                Some(event),
            ) && register.filter.filter.asks_for(event.spec_header()) && after.spec_mem()->0.tx.log()
                == register.tx.log().push((event, delivery.memory)),
{
    let event = choose|event: Option<MemoryEvent>| #[trigger]
        MemoryEvent::converted(b, event) && handoff::offered(
            register.tx,
            event,
            after.spec_mem()->0.tx,
            delivery.memory,
        );
    law_memory_events_are_asked_for(&register.filter, filters, header, b, event->0);
    assert(handoff::handed(register.tx.sender(), event->0, delivery.memory));
}

/// What the event loop hands to the subscriber of file events is an event of a
/// task that the filter of the subscription asks for. Of a rename only the start
/// is filtered, and every pending one passed.
pub proof fn law_file_subscriber_receives_what_was_asked_for(
    register: FileRegister,
    filters: Map<u32, FilterKey>,
    header: RawEventHeader,
    before: Bpfx,
    b: Seq<u8>,
    after: Bpfx,
    delivery: Delivery,
)
    requires
        before.spec_file() == Some(register),
        header.held_in(b),
        !(header.event_type is PendingFileRename) ==> probe::passes(
            key_of(
                attach::filters_after(attach::file_steps(&register.filter), filters),
                FilterOwner::File,
            ),
            header,
        ),
        every_start(
            before.pending(),
            admitted_by(
                key_of(
                    attach::filters_after(attach::file_steps(&register.filter), filters),
                    FilterOwner::File,
                ),
            ),
        ),
        Bpfx::dispatched(before, b, after, delivery),
        !(delivery.file is Nothing),
    ensures
        exists|event: FileEvent| #[trigger]
            handoff::handed(register.tx.sender(), event, delivery.file) && FileEvent::converted(
                b,
                before.pending(),
                after.pending(),
                Some(event),
            ) && register.filter.filter.asks_for(event.spec_header()) && after.spec_file()->0.tx.log()
                == register.tx.log().push((event, delivery.file)),
{
    let event = choose|event: Option<FileEvent>| #[trigger]
        FileEvent::converted(b, before.pending(), after.pending(), event) && handoff::offered(
            register.tx,
            event,
            after.spec_file()->0.tx,
            delivery.file,
        );
    header.law_round_trip(b);
    if event->0 is Rename {
        law_renames_are_asked_for(
            &register.filter,
            filters,
            b,
            before.pending(),
            after.pending(),
            event->0,
        );
    } else {
        law_file_events_are_asked_for(
            &register.filter,
            filters,
            header,
            b,
            before.pending(),
            after.pending(),
            event->0,
        );
    }
    assert(handoff::handed(register.tx.sender(), event->0, delivery.file));
}

/// A subscriber to process events only receives events that the mask of the filter
/// asks for: the event of a record of a program that is attached for the filter
/// is in the mask.
pub proof fn law_process_operations_are_asked_for(
    filter: &ProcessFilter,
    program: Program,
    header: RawEventHeader,
    b: Seq<u8>,
    event: ProcessEvent,
)
    requires
        attach::attaches(attach::process_steps(filter), program),
        header.held_in(b),
        header.event_type == program.kind(),
        ProcessEvent::converted(b, Some(event)),
    ensures
        mask::covers(filter.mask.bits(), event.spec_bit()),
{
    attach::law_process_steps_are_those_asked_for(filter);
    header.law_round_trip(b);
}

/// A subscriber to memory events only receives events that the mask of the filter
/// asks for: the event of a record of a program that is attached for the filter
/// is in the mask.
pub proof fn law_memory_operations_are_asked_for(
    filter: &MemoryFilter,
    program: Program,
    header: RawEventHeader,
    b: Seq<u8>,
    event: MemoryEvent,
)
    requires
        attach::attaches(attach::mem_steps(filter), program),
        header.held_in(b),
        header.event_type == program.kind(),
        MemoryEvent::converted(b, Some(event)),
    ensures
        mask::covers(filter.mask.bits(), event.spec_bit()),
{
    attach::law_mem_steps_are_those_asked_for(filter);
    header.law_round_trip(b);
}

/// A subscriber to file events only receives the operations that the mask of the
/// filter asks for: the event of a record of a program that is attached for the
/// filter is in the mask.
pub proof fn law_file_operations_are_asked_for(
    filter: &FileFilter,
    program: Program,
    header: RawEventHeader,
    b: Seq<u8>,
    before: PendingRenames,
    after: PendingRenames,
    event: FileEvent,
)
    requires
        attach::attaches(attach::file_steps(filter), program),
        header.held_in(b),
        header.event_type == program.kind(),
        FileEvent::converted(b, before, after, Some(event)),
    ensures
        mask::covers(filter.event_type.bits(), event.spec_bit()),
{
    attach::law_file_steps_are_those_asked_for(filter);
    header.law_round_trip(b);
}

/// A subscriber to network events only receives operations and protocols that the
/// masks of the filter ask for: the event of a record of a program that is
/// attached for the filter is in both masks.
pub proof fn law_network_operations_are_asked_for(
    filter: &NetworkFilter,
    program: Program,
    record: PendingConnect,
    b: Seq<u8>,
    event: NetworkEvent,
)
    requires
        attach::attaches(attach::network_steps(filter), program),
        record.held_in(b),
        record.header.event_type == program.kind(),
        record.protocol.spec_tag() == program.protocol(),
        NetworkEvent::converted(b, Some(event)),
    ensures
        attach::asks(filter, event.spec_protocol().spec_bit(), event.spec_bit()),
{
    attach::law_network_steps_are_those_asked_for(filter);
    record.law_round_trip(b);
}

} // verus!
