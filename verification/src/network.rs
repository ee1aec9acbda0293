//! Network events.
use crate::common;
use crate::common::{EventHeader, ProcessId};
use crate::ip::IpAddr;
use crate::mask;
use crate::raw::FilterKey;
use crate::text;
use core::ops::{BitOr, BitOrAssign};
use core::time::Duration;
use vstd::prelude::*;
use vstd::std_specs::ops::BitOrSpec;
use vstd::string::*;

verus! {

/// A transport protocol.
#[derive(Debug, Clone, Copy, Hash, PartialEq, Eq, PartialOrd, Ord, Structural)]
pub enum Protocol {
    Tcp,
    Udp,
}

impl Protocol {
    /// The bit that stands for this protocol in a [`ProtocolMask`].
    pub open spec fn spec_bit(self) -> u8 {
        match self {
            Protocol::Tcp => 1,
            Protocol::Udp => 2,
        }
    }

    /// The name of the protocol.
    pub open spec fn spec_text(self) -> Seq<char> {
        match self {
            Protocol::Tcp => "TCP"@,
            Protocol::Udp => "UDP"@,
        }
    }

    /// The name of the protocol.
    pub fn name(&self) -> (r: &'static str)
        ensures
            r@ == self.spec_text(),
    {
        match self {
            Protocol::Tcp => "TCP",
            Protocol::Udp => "UDP",
        }
    }

    /// The name of the protocol.
    pub fn to_string(&self) -> (r: String)
        ensures
            r@ == self.spec_text(),
    {
        String::from_str(self.name())
    }
}

/// The addresses and ports of both sides of a socket.
#[derive(Debug, Clone, Copy, Hash, PartialEq, Eq, PartialOrd, Ord)]
pub struct SocketEndpoints {
    pub local_ip: IpAddr,
    pub local_port: u16,
    pub remote_ip: IpAddr,
    pub remote_port: u16,
}

impl SocketEndpoints {
    /// The text form of the endpoints.
    pub open spec fn spec_text(&self) -> Seq<char> {
        self.local_ip.spec_text() + ":"@ + text::dec(self.local_port as nat) + " -> "@
            + self.remote_ip.spec_text() + ":"@ + text::dec(self.remote_port as nat)
    }

    /// The text form of the endpoints.
    pub fn to_string(&self) -> (r: String)
        ensures
            r@ == self.spec_text(),
    {
        let mut out = self.local_ip.to_string();
        out.append(":");
        text::push_dec(&mut out, self.local_port as u64);
        out.append(" -> ");
        out.append(self.remote_ip.to_string().as_str());
        out.append(":");
        text::push_dec(&mut out, self.remote_port as u64);
        out
    }
}

/// Which transport protocols are asked for.
#[derive(Debug, Clone, Copy, PartialEq, Eq, Hash, Structural)]
pub struct ProtocolMask(u8);

impl ProtocolMask {
    /// One bit for each protocol asked for.
    pub closed spec fn bits(self) -> u8 {
        self.0
    }

    #[verifier::type_invariant]
    spec fn within_all(self) -> bool {
        mask::covers(3, self.0)
    }

    /// Nothing is asked for that is not a protocol.
    pub open spec fn well_formed(self) -> bool {
        mask::covers(3, self.bits())
    }

    /// TCP.
    pub fn tcp() -> (r: Self)
        ensures
            r.bits() == 1,
    {
        proof {
            mask::lemma_singles();
        }
        ProtocolMask(1)
    }

    /// UDP.
    pub fn udp() -> (r: Self)
        ensures
            r.bits() == 2,
    {
        proof {
            mask::lemma_singles();
        }
        ProtocolMask(2)
    }

    /// Everything.
    pub fn all() -> (r: Self)
        ensures
            r.bits() == 3,
    {
        proof {
            mask::lemma_singles();
        }
        ProtocolMask(3)
    }

    /// Everything that `other` asks for is asked for.
    pub fn contains(&self, other: &Self) -> (r: bool)
        ensures
            r == mask::covers(self.bits(), other.bits()),
            self.well_formed(),
            other.well_formed(),
            self.bits() == 3 ==> r,
    {
        proof {
            use_type_invariant(self);
            use_type_invariant(other);
        }
        self.0 & other.0 == other.0
    }
}

impl BitOr for ProtocolMask {
    type Output = Self;

    fn bitor(self, rhs: Self) -> (r: Self)
        ensures
            r.bits() == self.bits() | rhs.bits(),
            r.well_formed(),
    {
        proof {
            use_type_invariant(&self);
            use_type_invariant(&rhs);
            mask::law_union_is_least_cover(self.0, rhs.0, 3);
        }
        ProtocolMask(self.0 | rhs.0)
    }
}

impl vstd::std_specs::ops::BitOrSpecImpl for ProtocolMask {
    open spec fn obeys_bitor_spec() -> bool {
        true
    }

    open spec fn bitor_req(self, rhs: Self) -> bool {
        true
    }

    closed spec fn bitor_spec(self, rhs: Self) -> Self {
        ProtocolMask(self.0 | rhs.0)
    }
}

impl BitOrAssign for ProtocolMask {
    fn bitor_assign(&mut self, rhs: Self)
        ensures
            final(self).bits() == old(self).bits() | rhs.bits(),
            final(self).well_formed(),
            *final(self) == old(self).bitor_spec(rhs),
    {
        proof {
            use_type_invariant(&*self);
            use_type_invariant(&rhs);
            mask::law_union_is_least_cover(self.0, rhs.0, 3);
        }
        self.0 = self.0 | rhs.0;
    }
}

/// Two masks that ask for the same are the same, a mask contains another exactly
/// when the union with it is the mask itself, a union contains both of its sides,
/// and the mask of everything contains every mask.
pub proof fn law_protocol_masks(a: ProtocolMask, b: ProtocolMask)
    ensures
        a.bits() == b.bits() ==> a == b,
        mask::covers(a.bits(), b.bits()) && mask::covers(b.bits(), a.bits()) ==> a == b,
        mask::covers(a.bits(), b.bits()) <==> a.bitor_spec(b) == a,
        mask::covers(a.bits(), a.bits()),
        mask::covers(a.bitor_spec(b).bits(), a.bits()),
        mask::covers(a.bitor_spec(b).bits(), b.bits()),
        a.well_formed() && b.bits() == 3 ==> mask::covers(b.bits(), a.bits()),
        a.well_formed() && b.well_formed() ==> a.bitor_spec(b).well_formed(),
{
    mask::law_covers_is_an_order(a.bits(), b.bits(), a.bits());
    mask::law_union_is_least_cover(a.bits(), b.bits(), 3);
    mask::law_covered_adds_nothing(a.bits(), b.bits());
}

/// Which network events are asked for.
#[derive(Debug, Clone, Copy, PartialEq, Eq, Hash, Structural)]
pub struct NetworkMask(u8);

impl NetworkMask {
    /// One bit for each operation asked for.
    pub closed spec fn bits(self) -> u8 {
        self.0
    }

    #[verifier::type_invariant]
    spec fn within_all(self) -> bool {
        mask::covers(31, self.0)
    }

    /// Nothing is asked for that is not an operation.
    pub open spec fn well_formed(self) -> bool {
        mask::covers(31, self.bits())
    }

    /// Outgoing connections.
    pub fn connect() -> (r: Self)
        ensures
            r.bits() == 1,
    {
        proof {
            mask::lemma_singles();
        }
        NetworkMask(1)
    }

    /// Accepted connections.
    pub fn accept() -> (r: Self)
        ensures
            r.bits() == 2,
    {
        proof {
            mask::lemma_singles();
        }
        NetworkMask(2)
    }

    /// Closed sockets.
    pub fn close() -> (r: Self)
        ensures
            r.bits() == 4,
    {
        proof {
            mask::lemma_singles();
        }
        NetworkMask(4)
    }

    /// Bound sockets.
    pub fn bind() -> (r: Self)
        ensures
            r.bits() == 8,
    {
        proof {
            mask::lemma_singles();
        }
        NetworkMask(8)
    }

    /// Listening sockets.
    pub fn listen() -> (r: Self)
        ensures
            r.bits() == 16,
    {
        proof {
            mask::lemma_singles();
        }
        NetworkMask(16)
    }

    /// Everything.
    pub fn all() -> (r: Self)
        ensures
            r.bits() == 31,
    {
        proof {
            mask::lemma_singles();
        }
        NetworkMask(31)
    }

    /// Everything that `other` asks for is asked for.
    pub fn contains(&self, other: &Self) -> (r: bool)
        ensures
            r == mask::covers(self.bits(), other.bits()),
            self.well_formed(),
            other.well_formed(),
            self.bits() == 31 ==> r,
    {
        proof {
            use_type_invariant(self);
            use_type_invariant(other);
        }
        self.0 & other.0 == other.0
    }
}

impl BitOr for NetworkMask {
    type Output = Self;

    fn bitor(self, rhs: Self) -> (r: Self)
        ensures
            r.bits() == self.bits() | rhs.bits(),
            r.well_formed(),
    {
        proof {
            use_type_invariant(&self);
            use_type_invariant(&rhs);
            mask::law_union_is_least_cover(self.0, rhs.0, 31);
        }
        NetworkMask(self.0 | rhs.0)
    }
}

impl vstd::std_specs::ops::BitOrSpecImpl for NetworkMask {
    open spec fn obeys_bitor_spec() -> bool {
        true
    }

    open spec fn bitor_req(self, rhs: Self) -> bool {
        true
    }

    closed spec fn bitor_spec(self, rhs: Self) -> Self {
        NetworkMask(self.0 | rhs.0)
    }
}

impl BitOrAssign for NetworkMask {
    fn bitor_assign(&mut self, rhs: Self)
        ensures
            final(self).bits() == old(self).bits() | rhs.bits(),
            final(self).well_formed(),
            *final(self) == old(self).bitor_spec(rhs),
    {
        proof {
            use_type_invariant(&*self);
            use_type_invariant(&rhs);
            mask::law_union_is_least_cover(self.0, rhs.0, 31);
        }
        self.0 = self.0 | rhs.0;
    }
}

/// Two masks that ask for the same are the same, a mask contains another exactly
/// when the union with it is the mask itself, a union contains both of its sides,
/// and the mask of everything contains every mask.
pub proof fn law_network_masks(a: NetworkMask, b: NetworkMask)
    ensures
        a.bits() == b.bits() ==> a == b,
        mask::covers(a.bits(), b.bits()) && mask::covers(b.bits(), a.bits()) ==> a == b,
        mask::covers(a.bits(), b.bits()) <==> a.bitor_spec(b) == a,
        mask::covers(a.bits(), a.bits()),
        mask::covers(a.bitor_spec(b).bits(), a.bits()),
        mask::covers(a.bitor_spec(b).bits(), b.bits()),
        a.well_formed() && b.bits() == 31 ==> mask::covers(b.bits(), a.bits()),
        a.well_formed() && b.well_formed() ==> a.bitor_spec(b).well_formed(),
{
    mask::law_covers_is_an_order(a.bits(), b.bits(), a.bits());
    mask::law_union_is_least_cover(a.bits(), b.bits(), 31);
    mask::law_covered_adds_nothing(a.bits(), b.bits());
}

/// Which network events are delivered: the operations in `event_mask` on
/// sockets of the protocols in `protocol_mask`, of the tasks that `filter` asks
/// for.
#[derive(Debug, Clone)]
pub struct NetworkFilter {
    pub protocol_mask: ProtocolMask,
    pub event_mask: NetworkMask,
    pub filter: FilterKey,
}

impl Default for NetworkFilter {
    fn default() -> (r: Self)
        ensures
            r.protocol_mask.bits() == 3,
            r.event_mask.bits() == 31,
            r.filter == FilterKey::Any,
    {
        NetworkFilter::all()
    }
}

impl NetworkFilter {
    /// Every network event, of every task.
    pub fn all() -> (r: Self)
        ensures
            r.protocol_mask.bits() == 3,
            r.event_mask.bits() == 31,
            r.filter == FilterKey::Any,
    {
        NetworkFilter {
            protocol_mask: ProtocolMask::all(),
            event_mask: NetworkMask::all(),
            filter: FilterKey::Any,
        }
    }

    /// Every TCP event, of every task.
    pub fn tcp() -> (r: Self)
        ensures
            r.protocol_mask.bits() == 1,
            r.event_mask.bits() == 31,
            r.filter == FilterKey::Any,
    {
        NetworkFilter {
            protocol_mask: ProtocolMask::tcp(),
            event_mask: NetworkMask::all(),
            filter: FilterKey::Any,
        }
    }

    /// Every UDP event, of every task.
    pub fn udp() -> (r: Self)
        ensures
            r.protocol_mask.bits() == 2,
            r.event_mask.bits() == 31,
            r.filter == FilterKey::Any,
    {
        NetworkFilter {
            protocol_mask: ProtocolMask::udp(),
            event_mask: NetworkMask::all(),
            filter: FilterKey::Any,
        }
    }
}

impl BitOr for NetworkFilter {
    type Output = Self;

    /// Adds the operations of `rhs`. The protocols and the key stay those of
    /// the left side.
    fn bitor(self, rhs: Self) -> (r: Self)
        ensures
            r.protocol_mask == self.protocol_mask,
            r.event_mask.bits() == self.event_mask.bits() | rhs.event_mask.bits(),
            r.filter == self.filter,
    {
        NetworkFilter {
            protocol_mask: self.protocol_mask,
            event_mask: self.event_mask | rhs.event_mask,
            filter: self.filter,
        }
    }
}

impl vstd::std_specs::ops::BitOrSpecImpl for NetworkFilter {
    open spec fn obeys_bitor_spec() -> bool {
        true
    }

    open spec fn bitor_req(self, rhs: Self) -> bool {
        true
    }

    closed spec fn bitor_spec(self, rhs: Self) -> Self {
        NetworkFilter {
            protocol_mask: self.protocol_mask,
            event_mask: NetworkMask(self.event_mask.0 | rhs.event_mask.0),
            filter: self.filter,
        }
    }
}

/// The kernel completed a successful `connect` call.
#[derive(Debug, Clone, Hash, PartialEq, Eq, PartialOrd, Ord)]
pub struct ConnectEvent {
    pub header: EventHeader,
    pub protocol: Protocol,
    pub endpoints: SocketEndpoints,
    pub retval: i32,
}

impl ConnectEvent {
    /// The one-line form of the event.
    pub open spec fn spec_text(&self) -> Seq<char> {
        self.header.spec_text() + " "@ + self.protocol.spec_text() + " CONNECT "@
            + self.endpoints.spec_text() + " -> "@ + text::signed_dec(self.retval as int)
    }

    /// The one-line form of the event.
    pub fn to_string(&self) -> (r: String)
        ensures
            r@ == self.spec_text(),
    {
        let mut out = self.header.to_string();
        out.append(" ");
        out.append(self.protocol.name());
        out.append(" CONNECT ");
        out.append(self.endpoints.to_string().as_str());
        out.append(" -> ");
        text::push_signed(&mut out, self.retval as i64);
        out
    }
}

/// The kernel accepted an incoming connection. Only TCP sockets accept.
#[derive(Debug, Clone, Hash, PartialEq, Eq, PartialOrd, Ord)]
pub struct AcceptEvent {
    pub header: EventHeader,
    pub protocol: Protocol,
    pub endpoints: SocketEndpoints,
}

impl AcceptEvent {
    /// The one-line form of the event.
    pub open spec fn spec_text(&self) -> Seq<char> {
        self.header.spec_text() + " "@ + self.protocol.spec_text() + " ACCEPT "@
            + self.endpoints.spec_text()
    }

    /// The one-line form of the event.
    pub fn to_string(&self) -> (r: String)
        ensures
            r@ == self.spec_text(),
    {
        let mut out = self.header.to_string();
        out.append(" ");
        out.append(self.protocol.name());
        out.append(" ACCEPT ");
        out.append(self.endpoints.to_string().as_str());
        out
    }
}

/// The kernel closed a socket.
#[derive(Debug, Clone, Hash, PartialEq, Eq, PartialOrd, Ord)]
pub struct CloseEvent {
    pub header: EventHeader,
    pub protocol: Protocol,
    pub endpoints: SocketEndpoints,
}

impl CloseEvent {
    /// The one-line form of the event.
    pub open spec fn spec_text(&self) -> Seq<char> {
        self.header.spec_text() + " "@ + self.protocol.spec_text() + " CLOSE "@
            + self.endpoints.spec_text()
    }

    /// The one-line form of the event.
    pub fn to_string(&self) -> (r: String)
        ensures
            r@ == self.spec_text(),
    {
        let mut out = self.header.to_string();
        out.append(" ");
        out.append(self.protocol.name());
        out.append(" CLOSE ");
        out.append(self.endpoints.to_string().as_str());
        out
    }
}

/// The kernel completed binding a socket to a local address.
#[derive(Debug, Clone, Hash, PartialEq, Eq, PartialOrd, Ord)]
pub struct BindEvent {
    pub header: EventHeader,
    pub protocol: Protocol,
    pub endpoints: SocketEndpoints,
    pub retval: i32,
}

impl BindEvent {
    /// The one-line form of the event.
    pub open spec fn spec_text(&self) -> Seq<char> {
        self.header.spec_text() + " "@ + self.protocol.spec_text() + " BIND "@
            + self.endpoints.spec_text() + " -> "@ + text::signed_dec(self.retval as int)
    }

    /// The one-line form of the event.
    pub fn to_string(&self) -> (r: String)
        ensures
            r@ == self.spec_text(),
    {
        let mut out = self.header.to_string();
        out.append(" ");
        out.append(self.protocol.name());
        out.append(" BIND ");
        out.append(self.endpoints.to_string().as_str());
        out.append(" -> ");
        text::push_signed(&mut out, self.retval as i64);
        out
    }
}

/// The kernel completed putting a socket into the listening state.
#[derive(Debug, Clone, Hash, PartialEq, Eq, PartialOrd, Ord)]
pub struct ListenEvent {
    pub header: EventHeader,
    pub protocol: Protocol,
    pub endpoints: SocketEndpoints,
    pub retval: i32,
}

impl ListenEvent {
    /// The one-line form of the event.
    pub open spec fn spec_text(&self) -> Seq<char> {
        self.header.spec_text() + " "@ + self.protocol.spec_text() + " LISTEN "@
            + self.endpoints.spec_text() + " -> "@ + text::signed_dec(self.retval as int)
    }

    /// The one-line form of the event.
    pub fn to_string(&self) -> (r: String)
        ensures
            r@ == self.spec_text(),
    {
        let mut out = self.header.to_string();
        out.append(" ");
        out.append(self.protocol.name());
        out.append(" LISTEN ");
        out.append(self.endpoints.to_string().as_str());
        out.append(" -> ");
        text::push_signed(&mut out, self.retval as i64);
        out
    }
}

/// A socket operation.
#[non_exhaustive]
#[derive(Debug, Clone, Hash, PartialEq, Eq, PartialOrd, Ord)]
pub enum NetworkEvent {
    Connect(ConnectEvent),
    Accept(AcceptEvent),
    Close(CloseEvent),
    Bind(BindEvent),
    Listen(ListenEvent),
}

impl NetworkEvent {
    /// The bit that stands for this operation in a [`NetworkMask`].
    pub open spec fn spec_bit(&self) -> u8 {
        match self {
            NetworkEvent::Connect(_) => 1,
            NetworkEvent::Accept(_) => 2,
            NetworkEvent::Close(_) => 4,
            NetworkEvent::Bind(_) => 8,
            NetworkEvent::Listen(_) => 16,
        }
    }

    /// The header of the event.
    pub open spec fn spec_header(&self) -> EventHeader {
        match self {
            NetworkEvent::Connect(e) => e.header,
            NetworkEvent::Accept(e) => e.header,
            NetworkEvent::Close(e) => e.header,
            NetworkEvent::Bind(e) => e.header,
            NetworkEvent::Listen(e) => e.header,
        }
    }

    /// The one-line form of the event.
    pub open spec fn spec_text(&self) -> Seq<char> {
        match self {
            NetworkEvent::Connect(e) => e.spec_text(),
            NetworkEvent::Accept(e) => e.spec_text(),
            NetworkEvent::Close(e) => e.spec_text(),
            NetworkEvent::Bind(e) => e.spec_text(),
            NetworkEvent::Listen(e) => e.spec_text(),
        }
    }

    /// The header of the event.
    pub fn header(&self) -> (r: &EventHeader)
        ensures
            *r == self.spec_header(),
    {
        match self {
            NetworkEvent::Connect(e) => &e.header,
            NetworkEvent::Accept(e) => &e.header,
            NetworkEvent::Close(e) => &e.header,
            NetworkEvent::Bind(e) => &e.header,
            NetworkEvent::Listen(e) => &e.header,
        }
    }

    /// The thread that the event happened in.
    pub fn process(&self) -> (r: ProcessId)
        ensures
            r == self.spec_header().spec_process(),
    {
        self.header().process()
    }

    /// When the event happened.
    pub fn timestamp(&self) -> (r: Duration)
        ensures
            r == common::duration_of_nanos(self.spec_header().timestamp_ns),
            common::nanos_of(r) == self.spec_header().timestamp_ns,
    {
        self.header().timestamp()
    }

    /// The event happened in a kernel thread.
    pub fn is_kernel_thread(&self) -> (r: bool)
        ensures
            r == (self.spec_header().pid == 0),
    {
        self.header().is_kernel_thread()
    }

    /// The one-line form of the event.
    pub fn to_string(&self) -> (r: String)
        ensures
            r@ == self.spec_text(),
    {
        match self {
            NetworkEvent::Connect(e) => e.to_string(),
            NetworkEvent::Accept(e) => e.to_string(),
            NetworkEvent::Close(e) => e.to_string(),
            NetworkEvent::Bind(e) => e.to_string(),
            NetworkEvent::Listen(e) => e.to_string(),
        }
    }

    /// The protocol of the socket.
    pub open spec fn spec_protocol(&self) -> Protocol {
        match self {
            NetworkEvent::Connect(e) => e.protocol,
            NetworkEvent::Accept(e) => e.protocol,
            NetworkEvent::Close(e) => e.protocol,
            NetworkEvent::Bind(e) => e.protocol,
            NetworkEvent::Listen(e) => e.protocol,
        }
    }

    /// The endpoints of the socket.
    pub open spec fn spec_endpoints(&self) -> SocketEndpoints {
        match self {
            NetworkEvent::Connect(e) => e.endpoints,
            NetworkEvent::Accept(e) => e.endpoints,
            NetworkEvent::Close(e) => e.endpoints,
            NetworkEvent::Bind(e) => e.endpoints,
            NetworkEvent::Listen(e) => e.endpoints,
        }
    }

    fn protocol(&self) -> (r: &Protocol)
        ensures
            *r == self.spec_protocol(),
    {
        match self {
            NetworkEvent::Connect(e) => &e.protocol,
            NetworkEvent::Accept(e) => &e.protocol,
            NetworkEvent::Close(e) => &e.protocol,
            NetworkEvent::Bind(e) => &e.protocol,
            NetworkEvent::Listen(e) => &e.protocol,
        }
    }

    /// The socket uses TCP.
    pub fn is_tcp(&self) -> (r: bool)
        ensures
            r == (self.spec_protocol() is Tcp),
    {
        *self.protocol() == Protocol::Tcp
    }

    /// The socket uses UDP.
    pub fn is_udp(&self) -> (r: bool)
        ensures
            r == (self.spec_protocol() is Udp),
    {
        *self.protocol() == Protocol::Udp
    }

    /// The endpoints of the socket.
    pub fn endpoints(&self) -> (r: &SocketEndpoints)
        ensures
            *r == self.spec_endpoints(),
    {
        match self {
            NetworkEvent::Connect(e) => &e.endpoints,
            NetworkEvent::Accept(e) => &e.endpoints,
            NetworkEvent::Close(e) => &e.endpoints,
            NetworkEvent::Bind(e) => &e.endpoints,
            NetworkEvent::Listen(e) => &e.endpoints,
        }
    }
}

/// An event uses TCP or UDP, and not both.
pub proof fn law_one_protocol(event: NetworkEvent)
    ensures
        event.spec_protocol() is Tcp <==> !(event.spec_protocol() is Udp),
{
}

} // verus!
