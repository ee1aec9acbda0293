//! What every turn of the event loop does to the subscriptions.
use crate::attach;
use crate::attach::Step;
use crate::file::{FileEvent, FileFilter};
use crate::handoff;
use crate::handoff::{Handoff, Producer};
use crate::memory::{MemoryEvent, MemoryFilter};
use crate::network::{NetworkEvent, NetworkFilter};
use crate::process::{ProcessEvent, ProcessFilter};
use crate::raw::{
    EventType, PendingConnect, RawEventHeader, RawFileCloseEvent, RawFileDeleteEvent,
    RawFileOpenEvent, RawFileReadEvent, RawFileRenameEvent, RawFileRtrEvent, RawFileWriteEvent,
    RawMemoryMapEvent, RawMemoryUnmapEvent, RawProcessExitEvent, RawProcessForkEvent,
    RawProcessStartEvent,
};
use crate::rename::PendingRenames;
use crate::runtime;
use crate::runtime::{Bpfx, BpfxConfig, Delivery, Subscription};
use tokio::sync::mpsc::{Receiver, Sender};
use vstd::prelude::*;

verus! {

/// An event that is offered is handed to the channel once, and is logged with the
/// answer; when the channel gives an event back, it is that one. Without an event
/// the channel is not used. Either way the channel stays the same.
pub proof fn law_offered<T>(
    before: Producer<T>,
    event: Option<T>,
    after: Producer<T>,
    r: Handoff<T>,
)
    requires
        handoff::offered(before, event, after, r),
    ensures
        after.sender() == before.sender(),
        event is None ==> r is Nothing && after.log() == before.log(),
        event matches Some(event) ==> {
            &&& !(r is Nothing)
            &&& after.log().len() == before.log().len() + 1
            &&& after.log().last() == (event, r)
            &&& forall|i: int|
                0 <= i < before.log().len() ==> #[trigger] after.log()[i] == before.log()[i]
            &&& r matches Handoff::Full(back) ==> back == event
            &&& r matches Handoff::Closed(back) ==> back == event
            &&& handoff::handed(before.sender(), event, r)
        },
{
}

/// A channel that is full or closed gives the event back; from any other, nothing
/// comes back.
pub proof fn law_returned<T>(event: T)
    ensures
        Handoff::Full(event).returned() == Some(event),
        Handoff::Closed(event).returned() == Some(event),
        Handoff::<T>::Sent.returned() is None,
        Handoff::<T>::Nothing.returned() is None,
{
}

/// The capacities that a channel can have.
pub proof fn law_capacities(capacity: usize)
    ensures
        handoff::is_capacity(capacity) <==> capacity >= 1 && capacity <= usize::MAX / 8,
{
}

/// A new channel is one that was made for the capacity, and has an empty log.
pub proof fn law_new_channel<T>(capacity: usize, r: (Producer<T>, Receiver<T>))
    requires
        call_ensures(Producer::<T>::open, (capacity,), r),
    ensures
        call_ensures(tokio::sync::mpsc::channel::<T>, (capacity,), (r.0.sender(), r.1)),
        r.0.log().len() == 0,
{
}

/// Whether a subscriber is gone is an answer of its channel.
pub proof fn law_channel_is_asked<T>(producer: Producer<T>, r: bool)
    requires
        call_ensures(Producer::<T>::is_closed, (&producer,), r),
    ensures
        call_ensures(Sender::<T>::is_closed, (&producer.sender(),), r),
{
}

/// There are subscribers when the channel of a subscription answers that it is not
/// closed. There are none when the channel of every subscription answers that it
/// is, and so without subscriptions.
pub proof fn law_has_subscribers(bpfx: Bpfx, r: bool)
    requires
        call_ensures(Bpfx::has_subscribers, (&bpfx,), r),
    ensures
        r ==> {
            ||| bpfx.spec_network() matches Some(register) && call_ensures(
                Sender::<NetworkEvent>::is_closed,
                (&register.tx.sender(),),
                false,
            )
            ||| bpfx.spec_process() matches Some(register) && call_ensures(
                Sender::<ProcessEvent>::is_closed,
                (&register.tx.sender(),),
                false,
            )
            ||| bpfx.spec_file() matches Some(register) && call_ensures(
                Sender::<FileEvent>::is_closed,
                (&register.tx.sender(),),
                false,
            )
            ||| bpfx.spec_mem() matches Some(register) && call_ensures(
                Sender::<MemoryEvent>::is_closed,
                (&register.tx.sender(),),
                false,
            )
        },
        !r ==> {
            &&& bpfx.spec_network() matches Some(register) ==> call_ensures(
                Sender::<NetworkEvent>::is_closed,
                (&register.tx.sender(),),
                true,
            )
            &&& bpfx.spec_process() matches Some(register) ==> call_ensures(
                Sender::<ProcessEvent>::is_closed,
                (&register.tx.sender(),),
                true,
            )
            &&& bpfx.spec_file() matches Some(register) ==> call_ensures(
                Sender::<FileEvent>::is_closed,
                (&register.tx.sender(),),
                true,
            )
            &&& bpfx.spec_mem() matches Some(register) ==> call_ensures(
                Sender::<MemoryEvent>::is_closed,
                (&register.tx.sender(),),
                true,
            )
        },
{
}

/// One open subscription is enough, and one is needed.
pub proof fn law_any_open(
    network: Option<bool>,
    process: Option<bool>,
    file: Option<bool>,
    mem: Option<bool>,
    r: bool,
)
    requires
        call_ensures(runtime::any_open, (network, process, file, mem), r),
    ensures
        network == Some(true) ==> r,
        process == Some(true) ==> r,
        file == Some(true) ==> r,
        mem == Some(true) ==> r,
        network != Some(true) && process != Some(true) && file != Some(true) && mem != Some(true)
            ==> !r,
{
}

/// A new runtime has no subscription, no pending rename, and is not started. It has
/// the settings that it was made with, or the default ones.
pub proof fn law_new_runtime(
    config: BpfxConfig,
    made: Bpfx,
    default_made: Bpfx,
    default_config: BpfxConfig,
    started: bool,
)
    requires
        call_ensures(Bpfx::with_config, (config,), made),
        call_ensures(Bpfx::new, (), default_made),
        call_ensures(<BpfxConfig as Default>::default, (), default_config),
        call_ensures(Bpfx::is_started, (&made,), started),
    ensures
        made.spec_network() is None,
        made.spec_process() is None,
        made.spec_file() is None,
        made.spec_mem() is None,
        made.pending()@.dom().len() == 0,
        forall|task: u64| !#[trigger] made.pending()@.contains_key(task),
        made.spec_config() == config,
        !started,
        default_made.spec_network() is None,
        default_made.spec_process() is None,
        default_made.spec_file() is None,
        default_made.spec_mem() is None,
        default_made.pending()@.dom().len() == 0,
        !default_made.spec_started(),
        default_made.spec_config().channel_capacity == 1024,
        default_config.channel_capacity == 1024,
{
}

/// A subscription to network events stands with the filter and the channel that it was
/// made with, in place of an earlier one. Nothing else changes.
pub proof fn law_network_subscription(
    filter: NetworkFilter,
    tx: Producer<NetworkEvent>,
    before: Bpfx,
    after: Bpfx,
)
    requires
        filter.registered(tx, before, after),
    ensures
        after.spec_network() matches Some(register) && register.filter == filter
            && register.tx == tx,
        after.spec_process() == before.spec_process(),
        after.spec_file() == before.spec_file(),
        after.spec_mem() == before.spec_mem(),
        after.spec_started() == before.spec_started(),
        after.pending() == before.pending(),
        after.spec_config() == before.spec_config(),
{
}

/// A subscription to process events stands with the filter and the channel that it was
/// made with, in place of an earlier one. Nothing else changes.
pub proof fn law_process_subscription(
    filter: ProcessFilter,
    tx: Producer<ProcessEvent>,
    before: Bpfx,
    after: Bpfx,
)
    requires
        filter.registered(tx, before, after),
    ensures
        after.spec_process() matches Some(register) && register.filter == filter
            && register.tx == tx,
        after.spec_network() == before.spec_network(),
        after.spec_file() == before.spec_file(),
        after.spec_mem() == before.spec_mem(),
        after.spec_started() == before.spec_started(),
        after.pending() == before.pending(),
        after.spec_config() == before.spec_config(),
{
}

/// A subscription to file events stands with the filter and the channel that it was
/// made with, in place of an earlier one. Nothing else changes.
pub proof fn law_file_subscription(
    filter: FileFilter,
    tx: Producer<FileEvent>,
    before: Bpfx,
    after: Bpfx,
)
    requires
        filter.registered(tx, before, after),
    ensures
        after.spec_file() matches Some(register) && register.filter == filter && register.tx == tx,
        after.spec_network() == before.spec_network(),
        after.spec_process() == before.spec_process(),
        after.spec_mem() == before.spec_mem(),
        after.spec_started() == before.spec_started(),
        after.pending() == before.pending(),
        after.spec_config() == before.spec_config(),
{
}

/// A subscription to memory events stands with the filter and the channel that it was
/// made with, in place of an earlier one. Nothing else changes.
pub proof fn law_memory_subscription(
    filter: MemoryFilter,
    tx: Producer<MemoryEvent>,
    before: Bpfx,
    after: Bpfx,
)
    requires
        filter.registered(tx, before, after),
    ensures
        after.spec_mem() matches Some(register) && register.filter == filter && register.tx == tx,
        after.spec_network() == before.spec_network(),
        after.spec_process() == before.spec_process(),
        after.spec_file() == before.spec_file(),
        after.spec_started() == before.spec_started(),
        after.pending() == before.pending(),
        after.spec_config() == before.spec_config(),
{
}

/// A filter is set up with the steps for it.
pub proof fn law_subscription_steps(
    network: NetworkFilter,
    process: ProcessFilter,
    file: FileFilter,
    memory: MemoryFilter,
    by_filter: (Vec<Step>, Vec<Step>, Vec<Step>, Vec<Step>),
    by_probe: (Vec<Step>, Vec<Step>, Vec<Step>, Vec<Step>),
)
    requires
        call_ensures(<NetworkFilter as Subscription>::attach, (&network,), by_filter.0),
        call_ensures(<ProcessFilter as Subscription>::attach, (&process,), by_filter.1),
        call_ensures(<FileFilter as Subscription>::attach, (&file,), by_filter.2),
        call_ensures(<MemoryFilter as Subscription>::attach, (&memory,), by_filter.3),
        call_ensures(attach::attach_network_probe, (&network,), by_probe.0),
        call_ensures(attach::attach_process_probe, (&process,), by_probe.1),
        call_ensures(attach::attach_file_probe, (&file,), by_probe.2),
        call_ensures(attach::attach_mem_probe, (&memory,), by_probe.3),
    ensures
        by_filter.0@ == by_probe.0@,
        by_filter.1@ == by_probe.1@,
        by_filter.2@ == by_probe.2@,
        by_filter.3@ == by_probe.3@,
{
}

/// A turn keeps the network subscription, its filter and its channel. When the record
/// gives a network event, the event is handed to the channel, once; when it gives none,
/// nothing is. Without the subscription nothing is delivered of this kind.
pub proof fn law_network_delivery(
    before: Bpfx,
    b: Seq<u8>,
    after: Bpfx,
    delivery: Delivery,
    record: PendingConnect,
)
    requires
        Bpfx::dispatched(before, b, after, delivery),
    ensures
        after.spec_started() == before.spec_started(),
        after.spec_config() == before.spec_config(),
        before.spec_network() is None ==> after.spec_network() is None
            && delivery.network is Nothing,
        before.spec_network() matches Some(from) ==> after.spec_network() matches Some(to) && {
            &&& to.filter == from.filter
            &&& to.tx.sender() == from.tx.sender()
            &&& delivery.network is Nothing <==> to.tx.log() == from.tx.log()
            &&& !(delivery.network is Nothing) ==> to.tx.log().len() == from.tx.log().len() + 1
                && to.tx.log().drop_last() == from.tx.log() && to.tx.log().last().1
                == delivery.network
            &&& !(delivery.network is Nothing) ==> {
                let event = to.tx.log().last().0;
                NetworkEvent::converted(b, Some(event))
            }
        },
        before.spec_network() is Some && (record.held_in(b) && match record.header.event_type {
            EventType::Accept => true,
            EventType::Close => true,
            EventType::Bind => record.retval is Some,
            EventType::Listen => record.retval is Some,
            EventType::Connect => record.retval matches Some(retval) && retval >= 0,
            _ => false,
        }) ==> !(delivery.network is Nothing),
        (record.held_in(b) && match record.header.event_type {
            EventType::Accept => false,
            EventType::Close => false,
            EventType::Bind => record.retval is None,
            EventType::Listen => record.retval is None,
            EventType::Connect => !(record.retval matches Some(retval) && retval >= 0),
            _ => true,
        }) ==> delivery.network is Nothing,
        b.len() < 56 ==> delivery.network is Nothing,
{
    if record.held_in(b) {
        record.law_round_trip(b);
    }
    if let Some(from) = before.spec_network() {
        let to = after.spec_network()->0;
        let event = choose|event: Option<NetworkEvent>| #[trigger]
            NetworkEvent::converted(b, event) && handoff::offered(
                from.tx,
                event,
                to.tx,
                delivery.network,
            );
        if event is Some {
            assert(to.tx.log().drop_last() =~= from.tx.log());
            assert(to.tx.log().len() != from.tx.log().len());
        }
    }
}

/// A turn keeps the process subscription, its filter and its channel. When the record
/// gives a process event, the event is handed to the channel, once; when it gives none,
/// nothing is. Without the subscription nothing is delivered of this kind.
pub proof fn law_process_delivery(
    before: Bpfx,
    b: Seq<u8>,
    after: Bpfx,
    delivery: Delivery,
    start: RawProcessStartEvent,
    fork: RawProcessForkEvent,
    exit: RawProcessExitEvent,
    header: RawEventHeader,
)
    requires
        Bpfx::dispatched(before, b, after, delivery),
    ensures
        after.spec_started() == before.spec_started(),
        after.spec_config() == before.spec_config(),
        before.spec_process() is None ==> after.spec_process() is None
            && delivery.process is Nothing,
        before.spec_process() matches Some(from) ==> after.spec_process() matches Some(to) && {
            &&& to.filter == from.filter
            &&& to.tx.sender() == from.tx.sender()
            &&& delivery.process is Nothing <==> to.tx.log() == from.tx.log()
            &&& !(delivery.process is Nothing) ==> to.tx.log().len() == from.tx.log().len() + 1
                && to.tx.log().drop_last() == from.tx.log() && to.tx.log().last().1
                == delivery.process
            &&& !(delivery.process is Nothing) ==> {
                let event = to.tx.log().last().0;
                ProcessEvent::converted(b, Some(event))
            }
        },
        before.spec_process() is Some && ({
            ||| start.held_in(b) && start.header.event_type is ProcessStart
            ||| fork.held_in(b) && fork.parent.event_type is ProcessFork
            ||| exit.held_in(b) && exit.header.event_type is ProcessExit
        }) ==> !(delivery.process is Nothing),
        (header.held_in(b) && !(header.event_type is ProcessStart) && !(
        header.event_type is ProcessFork) && !(header.event_type is ProcessExit))
            ==> delivery.process is Nothing,
        b.len() < 56 ==> delivery.process is Nothing,
{
    if start.held_in(b) {
        start.law_round_trip(b);
        start.header.law_round_trip(b);
    }
    if fork.held_in(b) {
        fork.law_round_trip(b);
        fork.parent.law_round_trip(b);
    }
    if exit.held_in(b) {
        exit.law_round_trip(b);
        exit.header.law_round_trip(b);
    }
    if header.held_in(b) {
        header.law_round_trip(b);
    }
    if let Some(from) = before.spec_process() {
        let to = after.spec_process()->0;
        let event = choose|event: Option<ProcessEvent>| #[trigger]
            ProcessEvent::converted(b, event) && handoff::offered(
                from.tx,
                event,
                to.tx,
                delivery.process,
            );
        if event is Some {
            assert(to.tx.log().drop_last() =~= from.tx.log());
            assert(to.tx.log().len() != from.tx.log().len());
        }
    }
}

/// A turn keeps the file subscription, its filter and its channel. When the record
/// gives a file event, the event is handed to the channel, once; when it gives none,
/// nothing is. Without the subscription nothing is delivered of this kind.
pub proof fn law_file_delivery(
    before: Bpfx,
    b: Seq<u8>,
    after: Bpfx,
    delivery: Delivery,
    open: RawFileOpenEvent,
    close: RawFileCloseEvent,
    read: RawFileReadEvent,
    write: RawFileWriteEvent,
    deletion: RawFileDeleteEvent,
    end: RawFileRtrEvent,
    header: RawEventHeader,
)
    requires
        Bpfx::dispatched(before, b, after, delivery),
    ensures
        after.spec_started() == before.spec_started(),
        after.spec_config() == before.spec_config(),
        before.spec_file() is None ==> after.spec_file() is None && delivery.file is Nothing,
        before.spec_file() is None ==> after.pending() == before.pending(),
        before.spec_file() matches Some(from) ==> after.spec_file() matches Some(to) && {
            &&& to.filter == from.filter
            &&& to.tx.sender() == from.tx.sender()
            &&& delivery.file is Nothing <==> to.tx.log() == from.tx.log()
            &&& !(delivery.file is Nothing) ==> to.tx.log().len() == from.tx.log().len() + 1
                && to.tx.log().drop_last() == from.tx.log() && to.tx.log().last().1
                == delivery.file
            &&& !(delivery.file is Nothing) ==> {
                let event = to.tx.log().last().0;
                FileEvent::converted(b, before.pending(), after.pending(), Some(event))
            }
        },
        before.spec_file() is Some && ({
            ||| open.held_in(b) && open.header.event_type is FileOpen
            ||| close.held_in(b) && close.header.event_type is FileClose
            ||| read.held_in(b) && read.header.event_type is FileRead
            ||| write.held_in(b) && write.header.event_type is FileWrite
            ||| deletion.held_in(b) && deletion.header.event_type is FileDelete
            ||| end.held_in(b) && end.header.event_type is PendingFileRename
                && before.pending()@.contains_key(
                (end.header.pid * 0x1_0000_0000 + end.header.tid) as u64,
            )
        }) ==> !(delivery.file is Nothing),
        ({
            ||| header.held_in(b) && !(header.event_type is FileOpen) && !(
            header.event_type is FileClose) && !(header.event_type is FileRead) && !(
            header.event_type is FileWrite) && !(header.event_type is FileDelete) && !(
            header.event_type is PendingFileRename)
            ||| end.held_in(b) && end.header.event_type is PendingFileRename
                && !before.pending()@.contains_key(
                (end.header.pid * 0x1_0000_0000 + end.header.tid) as u64,
            )
        }) ==> delivery.file is Nothing,
        b.len() < 56 ==> delivery.file is Nothing,
{
    if open.held_in(b) {
        open.law_round_trip(b);
        open.header.law_round_trip(b);
    }
    if close.held_in(b) {
        close.law_round_trip(b);
        close.header.law_round_trip(b);
    }
    if read.held_in(b) {
        read.law_round_trip(b);
        read.header.law_round_trip(b);
    }
    if write.held_in(b) {
        write.law_round_trip(b);
        write.header.law_round_trip(b);
    }
    if deletion.held_in(b) {
        deletion.law_round_trip(b);
        deletion.header.law_round_trip(b);
    }
    if end.held_in(b) {
        end.law_round_trip(b);
        end.header.law_round_trip(b);
    }
    if header.held_in(b) {
        header.law_round_trip(b);
    }
    if let Some(from) = before.spec_file() {
        let to = after.spec_file()->0;
        let event = choose|event: Option<FileEvent>| #[trigger]
            FileEvent::converted(b, before.pending(), after.pending(), event) && handoff::offered(
                from.tx,
                event,
                to.tx,
                delivery.file,
            );
        if event is Some {
            assert(to.tx.log().drop_last() =~= from.tx.log());
            assert(to.tx.log().len() != from.tx.log().len());
        }
    }
}

/// A turn keeps the memory subscription, its filter and its channel. When the record
/// gives a memory event, the event is handed to the channel, once; when it gives none,
/// nothing is. Without the subscription nothing is delivered of this kind.
pub proof fn law_memory_delivery(
    before: Bpfx,
    b: Seq<u8>,
    after: Bpfx,
    delivery: Delivery,
    mapping: RawMemoryMapEvent,
    removal: RawMemoryUnmapEvent,
    header: RawEventHeader,
)
    requires
        Bpfx::dispatched(before, b, after, delivery),
    ensures
        after.spec_started() == before.spec_started(),
        after.spec_config() == before.spec_config(),
        before.spec_mem() is None ==> after.spec_mem() is None && delivery.memory is Nothing,
        before.spec_mem() matches Some(from) ==> after.spec_mem() matches Some(to) && {
            &&& to.filter == from.filter
            &&& to.tx.sender() == from.tx.sender()
            &&& delivery.memory is Nothing <==> to.tx.log() == from.tx.log()
            &&& !(delivery.memory is Nothing) ==> to.tx.log().len() == from.tx.log().len() + 1
                && to.tx.log().drop_last() == from.tx.log() && to.tx.log().last().1
                == delivery.memory
            &&& !(delivery.memory is Nothing) ==> {
                let event = to.tx.log().last().0;
                MemoryEvent::converted(b, Some(event))
            }
        },
        before.spec_mem() is Some && ({
            ||| mapping.held_in(b) && mapping.header.event_type is MemoryMap
            ||| removal.held_in(b) && removal.header.event_type is MemoryUnMap
        }) ==> !(delivery.memory is Nothing),
        (header.held_in(b) && !(header.event_type is MemoryMap) && !(
        header.event_type is MemoryUnMap)) ==> delivery.memory is Nothing,
        b.len() < 56 ==> delivery.memory is Nothing,
{
    if mapping.held_in(b) {
        mapping.law_round_trip(b);
        mapping.header.law_round_trip(b);
    }
    if removal.held_in(b) {
        removal.law_round_trip(b);
        removal.header.law_round_trip(b);
    }
    if header.held_in(b) {
        header.law_round_trip(b);
    }
    if let Some(from) = before.spec_mem() {
        let to = after.spec_mem()->0;
        let event = choose|event: Option<MemoryEvent>| #[trigger]
            MemoryEvent::converted(b, event) && handoff::offered(
                from.tx,
                event,
                to.tx,
                delivery.memory,
            );
        if event is Some {
            assert(to.tx.log().drop_last() =~= from.tx.log());
            assert(to.tx.log().len() != from.tx.log().len());
        }
    }
}

/// A delivery is nothing when no subscriber was offered anything.
pub proof fn law_empty_delivery(delivery: Delivery)
    ensures
        delivery.is_nothing() <==> delivery.network is Nothing && delivery.process is Nothing
            && delivery.file is Nothing && delivery.memory is Nothing,
{
}

/// A pending rename is kept under the number that has the process in its upper and
/// the thread in its lower half. There is room for 1024: with room, a start takes
/// the place of one of its task and changes no other; without, nothing changes.
pub proof fn law_pending_renames(
    pending: PendingRenames,
    start: RawFileRenameEvent,
    other: u64,
    empty: PendingRenames,
)
    requires
        call_ensures(PendingRenames::new, (), empty),
    ensures
        PendingRenames::task(start.header) / 0x1_0000_0000 == start.header.pid,
        PendingRenames::task(start.header) % 0x1_0000_0000 == start.header.tid,
        pending.well_formed() <==> pending@.dom().len() <= 1024,
        pending@.dom().len() >= 1024 ==> pending.with(start) == pending@,
        pending@.dom().len() < 1024 ==> {
            let task = (start.header.pid * 0x1_0000_0000 + start.header.tid) as u64;
            &&& pending.with(start).contains_key(task)
            &&& pending.with(start)[task] == start
            &&& other != task ==> (pending.with(start).contains_key(other)
                <==> pending@.contains_key(other))
            &&& other != task && pending@.contains_key(other) ==> pending.with(start)[other]
                == pending@[other]
        },
        !empty@.contains_key(other),
{
}

} // verus!
