//! Subscriptions, and the turns of the event loop.
use crate::attach;
use crate::attach::{
    attach_file_probe, attach_mem_probe, attach_network_probe, attach_process_probe, Step,
};
use crate::handoff;
use crate::handoff::{Handoff, Producer};
use crate::convert::{
    convert_file_events, convert_mem_events, convert_network_events, convert_process_events,
};
use crate::error::{Error, Result};
use crate::file::{FileEvent, FileFilter};
use crate::memory::{MemoryEvent, MemoryFilter};
use crate::network::{NetworkEvent, NetworkFilter};
use crate::process::{ProcessEvent, ProcessFilter};
use crate::raw::{PendingConnect, RawFileRenameEvent};
use crate::rename::PendingRenames;
use tokio::sync::mpsc::Receiver;
use vstd::prelude::*;

verus! {

/// Settings of a [`Bpfx`].
#[non_exhaustive]
pub struct BpfxConfig {
    /// How many events the channel of each subscription holds.
    pub channel_capacity: usize,
}

impl Default for BpfxConfig {
    fn default() -> (r: Self)
        ensures
            r.channel_capacity == 1024,
    {
        BpfxConfig { channel_capacity: 1024 }
    }
}

/// A subscription to network events: what was asked for, and where the events go.
pub struct NetworkRegister {
    pub filter: NetworkFilter,
    pub tx: Producer<NetworkEvent>,
}

/// A subscription to process events: what was asked for, and where the events go.
pub struct ProcessRegister {
    pub filter: ProcessFilter,
    pub tx: Producer<ProcessEvent>,
}

/// A subscription to file events: what was asked for, and where the events go.
pub struct FileRegister {
    pub filter: FileFilter,
    pub tx: Producer<FileEvent>,
}

/// A subscription to memory events: what was asked for, and where the events go.
pub struct MemRegister {
    pub filter: MemoryFilter,
    pub tx: Producer<MemoryEvent>,
}

/// The subscriptions, and what is kept from one kernel record to the next.
///
/// There is one subscription of each kind at most: a new one takes the place of
/// the one before. Subscriptions of different kinds stand side by side.
pub struct Bpfx {
    network: Option<NetworkRegister>,
    process: Option<ProcessRegister>,
    file: Option<FileRegister>,
    mem: Option<MemRegister>,
    started: bool,
    pending_renames: PendingRenames,
    pub config: BpfxConfig,
}

/// A filter that events can be subscribed to with.
pub trait Subscription: Sized {
    /// What the subscriber receives.
    type Event;

    /// The steps that set up the probes for this filter.
    spec fn steps(&self) -> Seq<Step>;

    /// `after` is `before` with a subscription to what this filter asks for, whose
    /// events go to `tx`.
    spec fn registered(self, tx: Producer<Self::Event>, before: Bpfx, after: Bpfx) -> bool;

    /// The steps that set up the probes for this filter.
    fn attach(&self) -> (r: Vec<Step>)
        ensures
            r@ == self.steps(),
    ;

    /// Makes a channel of the configured capacity and registers the subscription,
    /// given whether its probes were attached. When they were not, nothing is
    /// registered. The subscriber receives its events from the result.
    fn subscribe(self, attached: Result<()>, bpfx: &mut Bpfx) -> (r: Result<Receiver<Self::Event>>)
        requires
            handoff::is_capacity(old(bpfx).spec_config().channel_capacity),
        ensures
            match attached {
                Ok(_) => r matches Ok(rx) && exists|tx: Producer<Self::Event>| #[trigger]
                    self.registered(tx, *old(bpfx), *final(bpfx)) && tx.is_opened(
                        old(bpfx).spec_config().channel_capacity,
                        rx,
                    ),
                Err(error) => r == Err::<Receiver<Self::Event>, Error>(error) && *final(bpfx) == *old(bpfx),
            },
    ;
}

impl Subscription for NetworkFilter {
    type Event = NetworkEvent;

    open spec fn steps(&self) -> Seq<Step> {
        attach::network_steps(self)
    }

    open spec fn registered(self, tx: Producer<NetworkEvent>, before: Bpfx, after: Bpfx) -> bool {
        &&& after.spec_network() == Some(NetworkRegister { filter: self, tx })
        &&& after.spec_process() == before.spec_process()
        &&& after.spec_file() == before.spec_file()
        &&& after.spec_mem() == before.spec_mem()
        &&& after.same_but_for_subscriptions(before)
    }

    fn attach(&self) -> (r: Vec<Step>) {
        attach_network_probe(self)
    }

    fn subscribe(self, attached: Result<()>, bpfx: &mut Bpfx) -> (r: Result<Receiver<NetworkEvent>>) {
        let (tx, rx) = Producer::<NetworkEvent>::open(bpfx.config.channel_capacity);
        match attached {
            Ok(_) => {
                bpfx.network = Some(NetworkRegister { filter: self, tx });
                assert(self.registered(tx, *old(bpfx), *bpfx));
                Ok(rx)
            },
            Err(error) => Err(error),
        }
    }
}

impl Subscription for ProcessFilter {
    type Event = ProcessEvent;

    open spec fn steps(&self) -> Seq<Step> {
        attach::process_steps(self)
    }

    open spec fn registered(self, tx: Producer<ProcessEvent>, before: Bpfx, after: Bpfx) -> bool {
        &&& after.spec_process() == Some(ProcessRegister { filter: self, tx })
        &&& after.spec_network() == before.spec_network()
        &&& after.spec_file() == before.spec_file()
        &&& after.spec_mem() == before.spec_mem()
        &&& after.same_but_for_subscriptions(before)
    }

    fn attach(&self) -> (r: Vec<Step>) {
        attach_process_probe(self)
    }

    fn subscribe(self, attached: Result<()>, bpfx: &mut Bpfx) -> (r: Result<Receiver<ProcessEvent>>) {
        let (tx, rx) = Producer::<ProcessEvent>::open(bpfx.config.channel_capacity);
        match attached {
            Ok(_) => {
                bpfx.process = Some(ProcessRegister { filter: self, tx });
                assert(self.registered(tx, *old(bpfx), *bpfx));
                Ok(rx)
            },
            Err(error) => Err(error),
        }
    }
}

impl Subscription for FileFilter {
    type Event = FileEvent;

    open spec fn steps(&self) -> Seq<Step> {
        attach::file_steps(self)
    }

    open spec fn registered(self, tx: Producer<FileEvent>, before: Bpfx, after: Bpfx) -> bool {
        &&& after.spec_file() == Some(FileRegister { filter: self, tx })
        &&& after.spec_network() == before.spec_network()
        &&& after.spec_process() == before.spec_process()
        &&& after.spec_mem() == before.spec_mem()
        &&& after.same_but_for_subscriptions(before)
    }

    fn attach(&self) -> (r: Vec<Step>) {
        attach_file_probe(self)
    }

    fn subscribe(self, attached: Result<()>, bpfx: &mut Bpfx) -> (r: Result<Receiver<FileEvent>>) {
        let (tx, rx) = Producer::<FileEvent>::open(bpfx.config.channel_capacity);
        match attached {
            Ok(_) => {
                bpfx.file = Some(FileRegister { filter: self, tx });
                assert(self.registered(tx, *old(bpfx), *bpfx));
                Ok(rx)
            },
            Err(error) => Err(error),
        }
    }
}

impl Subscription for MemoryFilter {
    type Event = MemoryEvent;

    open spec fn steps(&self) -> Seq<Step> {
        attach::mem_steps(self)
    }

    open spec fn registered(self, tx: Producer<MemoryEvent>, before: Bpfx, after: Bpfx) -> bool {
        &&& after.spec_mem() == Some(MemRegister { filter: self, tx })
        &&& after.spec_network() == before.spec_network()
        &&& after.spec_process() == before.spec_process()
        &&& after.spec_file() == before.spec_file()
        &&& after.same_but_for_subscriptions(before)
    }

    fn attach(&self) -> (r: Vec<Step>) {
        attach_mem_probe(self)
    }

    fn subscribe(self, attached: Result<()>, bpfx: &mut Bpfx) -> (r: Result<Receiver<MemoryEvent>>) {
        let (tx, rx) = Producer::<MemoryEvent>::open(bpfx.config.channel_capacity);
        match attached {
            Ok(_) => {
                bpfx.mem = Some(MemRegister { filter: self, tx });
                assert(self.registered(tx, *old(bpfx), *bpfx));
                Ok(rx)
            },
            Err(error) => Err(error),
        }
    }
}

/// What became of one kernel record, for each kind of subscription.
pub struct Delivery {
    pub network: Handoff<NetworkEvent>,
    pub process: Handoff<ProcessEvent>,
    pub file: Handoff<FileEvent>,
    pub memory: Handoff<MemoryEvent>,
}

impl Delivery {
    /// No subscriber was offered anything.
    pub open spec fn is_nothing(&self) -> bool {
        &&& self.network is Nothing
        &&& self.process is Nothing
        &&& self.file is Nothing
        &&& self.memory is Nothing
    }
}

/// A subscription is open, given for each kind of subscription whether there is
/// one and whether its subscriber is still there.
pub fn any_open(
    network: Option<bool>,
    process: Option<bool>,
    file: Option<bool>,
    mem: Option<bool>,
) -> (r: bool)
    ensures
        r == (network == Some(true) || process == Some(true) || file == Some(true) || mem == Some(
            true,
        )),
{
    let network = match network {
        Some(open) => open,
        None => false,
    };
    let process = match process {
        Some(open) => open,
        None => false,
    };
    let file = match file {
        Some(open) => open,
        None => false,
    };
    let mem = match mem {
        Some(open) => open,
        None => false,
    };
    network || process || file || mem
}

impl Bpfx {
    /// The subscription to network events.
    pub closed spec fn spec_network(&self) -> Option<NetworkRegister> {
        self.network
    }

    /// The subscription to process events.
    pub closed spec fn spec_process(&self) -> Option<ProcessRegister> {
        self.process
    }

    /// The subscription to file events.
    pub closed spec fn spec_file(&self) -> Option<FileRegister> {
        self.file
    }

    /// The subscription to memory events.
    pub closed spec fn spec_mem(&self) -> Option<MemRegister> {
        self.mem
    }

    /// The settings.
    pub closed spec fn spec_config(&self) -> BpfxConfig {
        self.config
    }

    /// The event loop was started.
    pub closed spec fn spec_started(&self) -> bool {
        self.started
    }

    /// The renames that have begun and not yet returned.
    pub closed spec fn pending(&self) -> PendingRenames {
        self.pending_renames
    }

    /// The rest of the state is that of `other`.
    pub open spec fn same_but_for_subscriptions(&self, other: Bpfx) -> bool {
        &&& self.spec_started() == other.spec_started()
        &&& self.pending() == other.pending()
        &&& self.spec_config() == other.spec_config()
    }

    /// The state of a new runtime: no subscription, nothing pending, not started.
    pub open spec fn is_new(&self) -> bool {
        &&& self.spec_network() is None
        &&& self.spec_process() is None
        &&& self.spec_file() is None
        &&& self.spec_mem() is None
        &&& !self.spec_started()
        &&& self.pending()@ == Map::<u64, RawFileRenameEvent>::empty()
        &&& self.pending().well_formed()
    }

    /// A runtime with the default settings.
    pub fn new() -> (r: Self)
        ensures
            r.is_new(),
            r.spec_config().channel_capacity == 1024,
    {
        Bpfx::with_config(BpfxConfig::default())
    }

    /// A runtime with the given settings.
    pub fn with_config(config: BpfxConfig) -> (r: Self)
        ensures
            r.is_new(),
            r.spec_config() == config,
    {
        Bpfx {
            network: None,
            process: None,
            file: None,
            mem: None,
            started: false,
            pending_renames: PendingRenames::new(),
            config,
        }
    }

    /// For each kind of subscription: `None` when there is none, else an answer of
    /// its channel to whether its subscriber is still there.
    pub open spec fn answered(
        &self,
        network: Option<bool>,
        process: Option<bool>,
        file: Option<bool>,
        mem: Option<bool>,
    ) -> bool {
        &&& match self.spec_network() {
            Some(register) => network matches Some(open) && handoff::answers_open(
                register.tx.sender(),
                open,
            ),
            None => network is None,
        }
        &&& match self.spec_process() {
            Some(register) => process matches Some(open) && handoff::answers_open(
                register.tx.sender(),
                open,
            ),
            None => process is None,
        }
        &&& match self.spec_file() {
            Some(register) => file matches Some(open) && handoff::answers_open(
                register.tx.sender(),
                open,
            ),
            None => file is None,
        }
        &&& match self.spec_mem() {
            Some(register) => mem matches Some(open) && handoff::answers_open(
                register.tx.sender(),
                open,
            ),
            None => mem is None,
        }
    }

    /// A subscriber is still there: the channel of a subscription answers that it
    /// is open. What a channel answers changes at any moment; without a
    /// subscription none is asked, and there is no subscriber.
    pub fn has_subscribers(&self) -> (r: bool)
        ensures
            exists|
                network: Option<bool>,
                process: Option<bool>,
                file: Option<bool>,
                mem: Option<bool>,
            |
                #[trigger] self.answered(network, process, file, mem) && r == (network == Some(true)
                    || process == Some(true) || file == Some(true) || mem == Some(true)),
            r ==> self.spec_network() is Some || self.spec_process() is Some || self.spec_file() is Some
                || self.spec_mem() is Some,
    {
        let network = match &self.network {
            Some(register) => Some(!register.tx.is_closed()),
            None => None,
        };
        let process = match &self.process {
            Some(register) => Some(!register.tx.is_closed()),
            None => None,
        };
        let file = match &self.file {
            Some(register) => Some(!register.tx.is_closed()),
            None => None,
        };
        let mem = match &self.mem {
            Some(register) => Some(!register.tx.is_closed()),
            None => None,
        };
        assert(self.answered(network, process, file, mem));
        any_open(network, process, file, mem)
    }

    /// Registers a subscription, given whether its probes were attached. The
    /// subscriber receives its events from the result, which holds as many of them
    /// as is configured.
    pub fn subscribe<S: Subscription>(&mut self, filter: S, attached: Result<()>) -> (r: Result<
        Receiver<S::Event>,
    >)
        requires
            handoff::is_capacity(old(self).spec_config().channel_capacity),
        ensures
            match attached {
                Ok(_) => r matches Ok(rx) && exists|tx: Producer<S::Event>| #[trigger]
                    filter.registered(tx, *old(self), *final(self)) && tx.is_opened(
                        old(self).spec_config().channel_capacity,
                        rx,
                    ),
                Err(error) => r == Err::<Receiver<S::Event>, Error>(error) && *final(self) == *old(self),
            },
    {
        filter.subscribe(attached, self)
    }

    /// Marks the event loop as started.
    pub fn run(&mut self)
        ensures
            final(self).spec_started(),
            final(self).spec_network() == old(self).spec_network(),
            final(self).spec_process() == old(self).spec_process(),
            final(self).spec_file() == old(self).spec_file(),
            final(self).spec_mem() == old(self).spec_mem(),
            final(self).pending() == old(self).pending(),
            final(self).spec_config() == old(self).spec_config(),
    {
        self.started = true;
    }

    /// The event loop was started.
    pub fn is_started(&self) -> (r: bool)
        ensures
            r == self.spec_started(),
    {
        self.started
    }

    /// `delivery` is what becomes of the kernel record in `b`, and `after` the state
    /// behind it: each subscription is offered the event of its kind, if the
    /// record holds one, and is left alone otherwise.
    pub open spec fn dispatched(before: Bpfx, b: Seq<u8>, after: Bpfx, delivery: Delivery) -> bool {
        &&& after.spec_started() == before.spec_started()
        &&& after.spec_config() == before.spec_config()
        &&& match (before.spec_network(), after.spec_network()) {
            (Some(from), Some(to)) => to.filter == from.filter && exists|
                event: Option<NetworkEvent>,
            | #[trigger]
                NetworkEvent::converted(b, event) && handoff::offered(
                    from.tx,
                    event,
                    to.tx,
                    delivery.network,
                ),
            (None, None) => delivery.network is Nothing,
            _ => false,
        }
        &&& match (before.spec_process(), after.spec_process()) {
            (Some(from), Some(to)) => to.filter == from.filter && exists|
                event: Option<ProcessEvent>,
            | #[trigger]
                ProcessEvent::converted(b, event) && handoff::offered(
                    from.tx,
                    event,
                    to.tx,
                    delivery.process,
                ),
            (None, None) => delivery.process is Nothing,
            _ => false,
        }
        &&& match (before.spec_file(), after.spec_file()) {
            (Some(from), Some(to)) => to.filter == from.filter && exists|
                event: Option<FileEvent>,
            | #[trigger]
                FileEvent::converted(b, before.pending(), after.pending(), event) && handoff::offered(
                    from.tx,
                    event,
                    to.tx,
                    delivery.file,
                ),
            (None, None) => delivery.file is Nothing && after.pending() == before.pending(),
            _ => false,
        }
        &&& match (before.spec_mem(), after.spec_mem()) {
            (Some(from), Some(to)) => to.filter == from.filter && exists|
                event: Option<MemoryEvent>,
            | #[trigger]
                MemoryEvent::converted(b, event) && handoff::offered(
                    from.tx,
                    event,
                    to.tx,
                    delivery.memory,
                ),
            (None, None) => delivery.memory is Nothing,
            _ => false,
        }
    }

    fn dispatch(&mut self, bytes: &[u8]) -> (r: Delivery)
        ensures
            Bpfx::dispatched(*old(self), bytes@, *final(self), r),
            old(self).pending().well_formed() ==> final(self).pending().well_formed(),
    {
        let network = match &mut self.network {
            Some(register) => convert_network_events(&mut register.tx, bytes),
            None => Handoff::Nothing,
        };
        let process = match &mut self.process {
            Some(register) => convert_process_events(&mut register.tx, bytes),
            None => Handoff::Nothing,
        };
        let file = match &mut self.file {
            Some(register) => convert_file_events(&mut register.tx, bytes, &mut self.pending_renames),
            None => Handoff::Nothing,
        };
        let memory = match &mut self.mem {
            Some(register) => convert_mem_events(&mut register.tx, bytes),
            None => Handoff::Nothing,
        };
        proof {
            if old(self).file is Some {
                let event = choose|event: Option<FileEvent>| #[trigger]
                    FileEvent::converted(
                        bytes@,
                        old(self).pending_renames,
                        self.pending_renames,
                        event,
                    ) && handoff::offered(old(self).file->0.tx, event, self.file->0.tx, file);
                assert(FileEvent::converted(bytes@, old(self).pending(), self.pending(), event));
            }
        }
        Delivery { network, process, file, memory }
    }

    /// One turn of the event loop, given whether a subscriber is still there and
    /// the next ring buffer item, if there is one. The loop ends when no
    /// subscriber is there.
    pub fn turn(&mut self, open: bool, item: Option<&[u8]>) -> (r: Result<Delivery>)
        ensures
            !open ==> r == Err::<Delivery, Error>(Error::NoActiveSubscriptions) && *final(self) == *old(
                self,
            ),
            open ==> r is Ok,
            open && item is None ==> r->Ok_0.is_nothing() && *final(self) == *old(self),
            open && item is Some ==> Bpfx::dispatched(*old(self), item->0@, *final(self), r->Ok_0),
            old(self).pending().well_formed() ==> final(self).pending().well_formed(),
    {
        if !open {
            return Err(Error::NoActiveSubscriptions);
        }
        match item {
            Some(bytes) => Ok(self.dispatch(bytes)),
            None => Ok(
                Delivery {
                    network: Handoff::Nothing,
                    process: Handoff::Nothing,
                    file: Handoff::Nothing,
                    memory: Handoff::Nothing,
                },
            ),
        }
    }
}

/// Subscriptions of different kinds coexist: one that comes later leaves the
/// others in place.
pub proof fn law_subscriptions_coexist(
    network: NetworkFilter,
    network_tx: Producer<NetworkEvent>,
    process: ProcessFilter,
    process_tx: Producer<ProcessEvent>,
    file: FileFilter,
    file_tx: Producer<FileEvent>,
    memory: MemoryFilter,
    memory_tx: Producer<MemoryEvent>,
    states: Seq<Bpfx>,
)
    requires
        states.len() == 5,
        network.registered(network_tx, states[0], states[1]),
        process.registered(process_tx, states[1], states[2]),
        file.registered(file_tx, states[2], states[3]),
        memory.registered(memory_tx, states[3], states[4]),
    ensures
        states[4].spec_network() == Some(NetworkRegister { filter: network, tx: network_tx }),
        states[4].spec_process() == Some(ProcessRegister { filter: process, tx: process_tx }),
        states[4].spec_file() == Some(FileRegister { filter: file, tx: file_tx }),
        states[4].spec_mem() == Some(MemRegister { filter: memory, tx: memory_tx }),
{
}

/// One kernel record is offered to one subscriber at most, and the channel of a
/// subscriber that is offered nothing is not used.
pub proof fn law_one_subscriber(before: Bpfx, b: Seq<u8>, after: Bpfx, delivery: Delivery)
    requires
        Bpfx::dispatched(before, b, after, delivery),
    ensures
        !(delivery.network is Nothing) ==> delivery.process is Nothing && delivery.file is Nothing
            && delivery.memory is Nothing,
        !(delivery.process is Nothing) ==> delivery.network is Nothing && delivery.file is Nothing
            && delivery.memory is Nothing,
        !(delivery.file is Nothing) ==> delivery.network is Nothing && delivery.process is Nothing
            && delivery.memory is Nothing,
        !(delivery.memory is Nothing) ==> delivery.network is Nothing && delivery.process is Nothing
            && delivery.file is Nothing,
        delivery.network is Nothing && before.spec_network() is Some ==> after.spec_network()->0.tx.log()
            == before.spec_network()->0.tx.log(),
        delivery.process is Nothing && before.spec_process() is Some ==> after.spec_process()->0.tx.log()
            == before.spec_process()->0.tx.log(),
        delivery.file is Nothing && before.spec_file() is Some ==> after.spec_file()->0.tx.log()
            == before.spec_file()->0.tx.log(),
        delivery.memory is Nothing && before.spec_mem() is Some ==> after.spec_mem()->0.tx.log()
            == before.spec_mem()->0.tx.log(),
{
    if let Some(record) = PendingConnect::read_from(b) {
        record.header.law_round_trip(b);
    }
}

} // verus!
