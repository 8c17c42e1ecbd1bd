//! Message types carried on the network bus: source-routing headers, packets
//! and their payloads, plus the command and event types exchanged with the
//! simulation controller.

use vstd::prelude::*;

verus! {

/// Identifier of a node (client, drone or server) in the overlay.
pub type NodeId = u8;

/// Role of a node, as recorded in flood path traces.
#[derive(Debug, Clone, Copy, PartialEq, Eq, Structural)]
pub enum NodeType {
    Client,
    Drone,
    Server,
}

/// Mathematical value of a [`SourceRoutingHeader`]: the intended path and the
/// cursor of the node expected to hold the packet.
#[verifier::ext_equal]
pub struct SourceRoutingHeaderView {
    pub hop_index: int,
    pub hops: Seq<NodeId>,
}

impl SourceRoutingHeaderView {
    /// The node expected to currently hold the packet, if the cursor is in range.
    pub open spec fn current_hop(self) -> Option<NodeId> {
        if 0 <= self.hop_index < self.hops.len() {
            Some(self.hops[self.hop_index])
        } else {
            None
        }
    }

    /// The same header with the cursor moved one hop forward.
    pub open spec fn advanced(self) -> Self {
        SourceRoutingHeaderView { hop_index: self.hop_index + 1, hops: self.hops }
    }

    /// The same header with the cursor moved one hop back.
    pub open spec fn receded(self) -> Self {
        SourceRoutingHeaderView { hop_index: self.hop_index - 1, hops: self.hops }
    }
}

/// Ordered list of node ids a packet must traverse, with a cursor pointing at
/// the node expected to currently hold the packet.
#[derive(Debug, PartialEq, Eq)]
pub struct SourceRoutingHeader {
    pub hop_index: usize,
    pub hops: Vec<NodeId>,
}

impl View for SourceRoutingHeader {
    type V = SourceRoutingHeaderView;

    open spec fn view(&self) -> SourceRoutingHeaderView {
        SourceRoutingHeaderView { hop_index: self.hop_index as int, hops: self.hops@ }
    }
}

impl Clone for SourceRoutingHeader {
    fn clone(&self) -> (r: Self)
        ensures
            r@ == self@,
    {
        let mut hops: Vec<NodeId> = Vec::new();
        let mut i: usize = 0;
        while i < self.hops.len()
            invariant
                i <= self.hops.len(),
                hops@ == self.hops@.subrange(0, i as int),
            decreases self.hops.len() - i,
        {
            hops.push(self.hops[i]);
            i = i + 1;
        }
        proof {
            assert(hops@ =~= self.hops@);
        }
        SourceRoutingHeader { hop_index: self.hop_index, hops }
    }
}

impl Default for SourceRoutingHeader {
    /// An empty route with the cursor at the start.
    fn default() -> (r: Self)
        ensures
            r@.hop_index == 0,
            r@.hops == Seq::<NodeId>::empty(),
    {
        let hops: Vec<NodeId> = Vec::new();
        proof {
            assert(hops@ =~= Seq::<NodeId>::empty());
        }
        SourceRoutingHeader { hop_index: 0, hops }
    }
}

impl SourceRoutingHeader {
    pub fn new(hops: Vec<NodeId>, hop_index: usize) -> (r: Self)
        ensures
            r@ == (SourceRoutingHeaderView { hop_index: hop_index as int, hops: hops@ }),
    {
        SourceRoutingHeader { hop_index, hops }
    }

    /// A fresh copy of this header.
    pub fn to_source_routing_header(&self) -> (r: Self)
        ensures
            r@ == self@,
    {
        self.clone()
    }

    /// The node expected to currently hold the packet.
    pub fn current_hop(&self) -> (r: Option<NodeId>)
        ensures
            r == self@.current_hop(),
    {
        if self.hop_index < self.hops.len() {
            Some(self.hops[self.hop_index])
        } else {
            None
        }
    }

    /// Same as [`Self::current_hop`], under the accessor naming scheme.
    pub fn get_current_hop(&self) -> (r: Option<NodeId>)
        ensures
            r == self@.current_hop(),
    {
        self.current_hop()
    }

    /// Move the cursor one hop forward.
    pub fn increase_hop_index(&mut self)
        requires
            old(self).hop_index < usize::MAX,
        ensures
            final(self)@ == old(self)@.advanced(),
    {
        self.hop_index = self.hop_index + 1;
    }

    /// Same as [`Self::increase_hop_index`], under the accessor naming scheme.
    pub fn increment_index(&mut self)
        requires
            old(self).hop_index < usize::MAX,
        ensures
            final(self)@ == old(self)@.advanced(),
    {
        self.increase_hop_index();
    }

    /// Move the cursor one hop back.
    pub fn decrease_hop_index(&mut self)
        requires
            old(self).hop_index >= 1,
        ensures
            final(self)@ == old(self)@.receded(),
    {
        self.hop_index = self.hop_index - 1;
    }

    /// Same as [`Self::decrease_hop_index`], under the accessor naming scheme.
    pub fn decrement_index(&mut self)
        requires
            old(self).hop_index >= 1,
        ensures
            final(self)@ == old(self)@.receded(),
    {
        self.decrease_hop_index();
    }

    /// The node one hop past the cursor, if any.
    pub fn get_next_hop(&self) -> (r: Option<NodeId>)
        requires
            self.hop_index < usize::MAX,
        ensures
            r == self@.advanced().current_hop(),
    {
        let j = self.hop_index + 1;
        if j < self.hops.len() {
            Some(self.hops[j])
        } else {
            None
        }
    }

    /// The node one hop before the cursor, if any.
    pub fn get_previous_hop(&self) -> (r: Option<NodeId>)
        requires
            self.hop_index >= 1,
        ensures
            r == self@.receded().current_hop(),
    {
        let j = self.hop_index - 1;
        if j < self.hops.len() {
            Some(self.hops[j])
        } else {
            None
        }
    }

    /// The prefix `hops[0..index]` of the route, with the cursor reset;
    /// `None` when the route is shorter than `index`.
    pub fn sub_route(&self, index: usize) -> (r: Option<Self>)
        ensures
            index <= self@.hops.len() ==> (r matches Some(h) && h@ == (SourceRoutingHeaderView {
                hop_index: 0,
                hops: self@.hops.subrange(0, index as int),
            })),
            index > self@.hops.len() ==> r is None,
    {
        if index > self.hops.len() {
            return None;
        }
        let mut hops: Vec<NodeId> = Vec::new();
        let mut i: usize = 0;
        while i < index
            invariant
                i <= index,
                index <= self.hops@.len(),
                hops@ == self.hops@.subrange(0, i as int),
            decreases index - i,
        {
            hops.push(self.hops[i]);
            i = i + 1;
        }
        Some(SourceRoutingHeader { hop_index: 0, hops })
    }

    /// Reverse the route in place; the cursor is left untouched.
    pub fn reverse(&mut self)
        ensures
            final(self)@.hop_index == old(self)@.hop_index,
            final(self)@.hops == old(self)@.hops.reverse(),
    {
        let n = self.hops.len();
        let mut hops: Vec<NodeId> = Vec::new();
        let mut i: usize = 0;
        while i < n
            invariant
                i <= n,
                n == self.hops@.len(),
                hops@.len() == i as int,
                forall|k: int| 0 <= k < i ==> hops@[k] == self.hops@[n - 1 - k],
            decreases n - i,
        {
            hops.push(self.hops[n - 1 - i]);
            i = i + 1;
        }
        proof {
            assert(hops@ =~= self.hops@.reverse());
        }
        self.hops = hops;
    }
}

/// Mathematical value of a [`Fragment`].
#[verifier::ext_equal]
pub struct FragmentView {
    pub fragment_index: u64,
    pub total_n_fragments: u64,
    pub length: u8,
    pub data: Seq<u8>,
}

/// One fixed-size piece of a fragmented message.
#[derive(Debug, Clone, Copy, PartialEq, Eq)]
pub struct Fragment {
    pub fragment_index: u64,
    pub total_n_fragments: u64,
    pub length: u8,
    pub data: [u8; 128],
}

impl View for Fragment {
    type V = FragmentView;

    open spec fn view(&self) -> FragmentView {
        FragmentView {
            fragment_index: self.fragment_index,
            total_n_fragments: self.total_n_fragments,
            length: self.length,
            data: self.data@,
        }
    }
}

impl Default for Fragment {
    /// An all-zero fragment.
    fn default() -> (r: Self)
        ensures
            r@.fragment_index == 0,
            r@.total_n_fragments == 0,
            r@.length == 0,
            r@.data == Seq::new(128, |i: int| 0u8),
    {
        let data = [0u8; 128];
        proof {
            assert(data@ =~= Seq::new(128, |i: int| 0u8));
        }
        Fragment { fragment_index: 0, total_n_fragments: 0, length: 0, data }
    }
}

impl Fragment {
    /// The used-byte count never exceeds the payload size of 128.
    pub fn new(fragment_index: u64, total_n_fragments: u64, length: u8, data: [u8; 128]) -> (r:
        Self)
        requires
            length <= 128,
        ensures
            r@ == (FragmentView { fragment_index, total_n_fragments, length, data: data@ }),
    {
        Fragment { fragment_index, total_n_fragments, length, data }
    }
}

/// Acknowledgement of one fragment.
#[derive(Debug, Clone, Copy, PartialEq, Eq, Structural)]
pub struct Ack {
    pub fragment_index: u64,
}

/// Reason a packet could not be carried further.
#[derive(Debug, Clone, Copy, PartialEq, Eq, Structural)]
pub enum NackType {
    ErrorInRouting(NodeId),
    DestinationIsDrone,
    UnexpectedRecipient(NodeId),
    Dropped,
}

/// Negative acknowledgement of one fragment.
#[derive(Debug, Clone, Copy, PartialEq, Eq, Structural)]
pub struct Nack {
    pub fragment_index: u64,
    pub nack_type: NackType,
}

/// Mathematical value of a [`FloodRequest`].
#[verifier::ext_equal]
pub struct FloodRequestView {
    pub flood_id: u64,
    pub initiator_id: NodeId,
    pub path_trace: Seq<(NodeId, NodeType)>,
}

impl FloodRequestView {
    /// The node ids of the path trace, in trace order.
    pub open spec fn trace_ids(self) -> Seq<NodeId> {
        self.path_trace.map_values(|p: (NodeId, NodeType)| p.0)
    }
}

/// Network-discovery request, accumulating the path it has travelled.
#[derive(Debug, PartialEq, Eq)]
pub struct FloodRequest {
    pub flood_id: u64,
    pub initiator_id: NodeId,
    pub path_trace: Vec<(NodeId, NodeType)>,
}

impl View for FloodRequest {
    type V = FloodRequestView;

    open spec fn view(&self) -> FloodRequestView {
        FloodRequestView {
            flood_id: self.flood_id,
            initiator_id: self.initiator_id,
            path_trace: self.path_trace@,
        }
    }
}

impl Clone for FloodRequest {
    fn clone(&self) -> (r: Self)
        ensures
            r@ == self@,
    {
        let mut path_trace: Vec<(NodeId, NodeType)> = Vec::new();
        let mut i: usize = 0;
        while i < self.path_trace.len()
            invariant
                i <= self.path_trace.len(),
                path_trace@ == self.path_trace@.subrange(0, i as int),
            decreases self.path_trace.len() - i,
        {
            path_trace.push(self.path_trace[i]);
            i = i + 1;
        }
        proof {
            assert(path_trace@ =~= self.path_trace@);
        }
        FloodRequest { flood_id: self.flood_id, initiator_id: self.initiator_id, path_trace }
    }
}

/// Mathematical value of a [`FloodResponse`].
#[verifier::ext_equal]
pub struct FloodResponseView {
    pub flood_id: u64,
    pub path_trace: Seq<(NodeId, NodeType)>,
}

/// Answer to a flood request, reflecting the accumulated path trace.
#[derive(Debug, PartialEq, Eq)]
pub struct FloodResponse {
    pub flood_id: u64,
    pub path_trace: Vec<(NodeId, NodeType)>,
}

impl View for FloodResponse {
    type V = FloodResponseView;

    open spec fn view(&self) -> FloodResponseView {
        FloodResponseView { flood_id: self.flood_id, path_trace: self.path_trace@ }
    }
}

impl Clone for FloodResponse {
    fn clone(&self) -> (r: Self)
        ensures
            r@ == self@,
    {
        let mut path_trace: Vec<(NodeId, NodeType)> = Vec::new();
        let mut i: usize = 0;
        while i < self.path_trace.len()
            invariant
                i <= self.path_trace.len(),
                path_trace@ == self.path_trace@.subrange(0, i as int),
            decreases self.path_trace.len() - i,
        {
            path_trace.push(self.path_trace[i]);
            i = i + 1;
        }
        proof {
            assert(path_trace@ =~= self.path_trace@);
        }
        FloodResponse { flood_id: self.flood_id, path_trace }
    }
}

/// Mathematical value of a [`PacketType`].
#[verifier::ext_equal]
pub enum PacketTypeView {
    MsgFragment(FragmentView),
    Ack(Ack),
    Nack(Nack),
    FloodRequest(FloodRequestView),
    FloodResponse(FloodResponseView),
}

/// Payload of a packet.
#[derive(Debug, PartialEq, Eq)]
pub enum PacketType {
    MsgFragment(Fragment),
    Ack(Ack),
    Nack(Nack),
    FloodRequest(FloodRequest),
    FloodResponse(FloodResponse),
}

impl View for PacketType {
    type V = PacketTypeView;

    open spec fn view(&self) -> PacketTypeView {
        match self {
            PacketType::MsgFragment(f) => PacketTypeView::MsgFragment(f@),
            PacketType::Ack(a) => PacketTypeView::Ack(*a),
            PacketType::Nack(n) => PacketTypeView::Nack(*n),
            PacketType::FloodRequest(f) => PacketTypeView::FloodRequest(f@),
            PacketType::FloodResponse(f) => PacketTypeView::FloodResponse(f@),
        }
    }
}

impl Clone for PacketType {
    fn clone(&self) -> (r: Self)
        ensures
            r@ == self@,
    {
        match self {
            PacketType::MsgFragment(f) => PacketType::MsgFragment(*f),
            PacketType::Ack(a) => PacketType::Ack(*a),
            PacketType::Nack(n) => PacketType::Nack(*n),
            PacketType::FloodRequest(f) => PacketType::FloodRequest(f.clone()),
            PacketType::FloodResponse(f) => PacketType::FloodResponse(f.clone()),
        }
    }
}

/// Mathematical value of a [`Packet`].
#[verifier::ext_equal]
pub struct PacketView {
    pub pack_type: PacketTypeView,
    pub routing_header: SourceRoutingHeaderView,
    pub session_id: u64,
}

impl PacketView {
    /// Whether this packet is a message fragment.
    pub open spec fn is_fragment(self) -> bool {
        self.pack_type is MsgFragment
    }

    /// Whether this packet is a flood request.
    pub open spec fn is_flood_request(self) -> bool {
        self.pack_type is FloodRequest
    }

    /// The fragment index carried by the payload; zero for non-fragments.
    pub open spec fn fragment_index(self) -> u64 {
        match self.pack_type {
            PacketTypeView::MsgFragment(f) => f.fragment_index,
            PacketTypeView::Ack(a) => 0,
            PacketTypeView::Nack(n) => 0,
            PacketTypeView::FloodRequest(f) => 0,
            PacketTypeView::FloodResponse(f) => 0,
        }
    }

    /// The same packet with the routing cursor moved one hop forward.
    pub open spec fn advanced(self) -> Self {
        PacketView { routing_header: self.routing_header.advanced(), ..self }
    }

    /// The same packet with the routing cursor moved one hop back.
    pub open spec fn receded(self) -> Self {
        PacketView { routing_header: self.routing_header.receded(), ..self }
    }
}

/// One message on the bus: a payload, its source route, and a session id.
#[derive(Debug, PartialEq, Eq)]
pub struct Packet {
    pub pack_type: PacketType,
    pub routing_header: SourceRoutingHeader,
    pub session_id: u64,
}

impl View for Packet {
    type V = PacketView;

    open spec fn view(&self) -> PacketView {
        PacketView {
            pack_type: self.pack_type@,
            routing_header: self.routing_header@,
            session_id: self.session_id,
        }
    }
}

impl Clone for Packet {
    fn clone(&self) -> (r: Self)
        ensures
            r@ == self@,
    {
        Packet {
            pack_type: self.pack_type.clone(),
            routing_header: self.routing_header.clone(),
            session_id: self.session_id,
        }
    }
}

impl Packet {
    pub fn new(pack_type: PacketType, routing_header: SourceRoutingHeader, session_id: u64) -> (r:
        Self)
        ensures
            r@ == (PacketView {
                pack_type: pack_type@,
                routing_header: routing_header@,
                session_id,
            }),
    {
        Packet { pack_type, routing_header, session_id }
    }

    pub fn new_fragment(routing_header: SourceRoutingHeader, session_id: u64, fragment: Fragment)
        -> (r: Self)
        ensures
            r@ == (PacketView {
                pack_type: PacketTypeView::MsgFragment(fragment@),
                routing_header: routing_header@,
                session_id,
            }),
    {
        Packet { pack_type: PacketType::MsgFragment(fragment), routing_header, session_id }
    }

    pub fn new_ack(routing_header: SourceRoutingHeader, session_id: u64, fragment_index: u64) -> (r:
        Self)
        ensures
            r@ == (PacketView {
                pack_type: PacketTypeView::Ack(Ack { fragment_index }),
                routing_header: routing_header@,
                session_id,
            }),
    {
        Packet { pack_type: PacketType::Ack(Ack { fragment_index }), routing_header, session_id }
    }

    pub fn new_nack(routing_header: SourceRoutingHeader, session_id: u64, nack: Nack) -> (r: Self)
        ensures
            r@ == (PacketView {
                pack_type: PacketTypeView::Nack(nack),
                routing_header: routing_header@,
                session_id,
            }),
    {
        Packet { pack_type: PacketType::Nack(nack), routing_header, session_id }
    }

    pub fn new_flood_request(
        routing_header: SourceRoutingHeader,
        session_id: u64,
        flood_request: FloodRequest,
    ) -> (r: Self)
        ensures
            r@ == (PacketView {
                pack_type: PacketTypeView::FloodRequest(flood_request@),
                routing_header: routing_header@,
                session_id,
            }),
    {
        Packet { pack_type: PacketType::FloodRequest(flood_request), routing_header, session_id }
    }

    pub fn new_flood_response(
        routing_header: SourceRoutingHeader,
        session_id: u64,
        flood_response: FloodResponse,
    ) -> (r: Self)
        ensures
            r@ == (PacketView {
                pack_type: PacketTypeView::FloodResponse(flood_response@),
                routing_header: routing_header@,
                session_id,
            }),
    {
        Packet { pack_type: PacketType::FloodResponse(flood_response), routing_header, session_id }
    }

    pub fn get_pack_type(&self) -> (r: &PacketType)
        ensures
            r@ == self@.pack_type,
    {
        &self.pack_type
    }

    /// A fresh copy of the routing header.
    pub fn get_routing_header(&self) -> (r: SourceRoutingHeader)
        ensures
            r@ == self@.routing_header,
    {
        self.routing_header.clone()
    }

    pub fn get_session_id(&self) -> (r: u64)
        ensures
            r == self@.session_id,
    {
        self.session_id
    }

    /// The fragment index of the payload; zero for non-fragments.
    pub fn get_fragment_index(&self) -> (r: u64)
        ensures
            r == self@.fragment_index(),
    {
        match &self.pack_type {
            PacketType::MsgFragment(f) => f.fragment_index,
            _ => 0,
        }
    }
}

impl FloodRequest {
    /// The response this request calls for: its accumulated path trace, with
    /// the route back written as the reversed trace and the cursor still at 0.
    pub fn generate_response(&self, session_id: u64) -> (r: Packet)
        ensures
            r@ == (PacketView {
                pack_type: PacketTypeView::FloodResponse(FloodResponseView {
                    flood_id: self@.flood_id,
                    path_trace: self@.path_trace,
                }),
                routing_header: SourceRoutingHeaderView {
                    hop_index: 0,
                    hops: self@.trace_ids().reverse(),
                },
                session_id,
            }),
    {
        let n = self.path_trace.len();
        let mut hops: Vec<NodeId> = Vec::new();
        let mut i: usize = 0;
        while i < n
            invariant
                i <= n,
                n == self.path_trace@.len(),
                hops@.len() == i as int,
                forall|k: int| 0 <= k < i ==> hops@[k] == self.path_trace@[n - 1 - k].0,
            decreases n - i,
        {
            hops.push(self.path_trace[n - 1 - i].0);
            i = i + 1;
        }
        proof {
            assert(hops@ =~= self@.trace_ids().reverse());
        }
        let response = FloodResponse { flood_id: self.flood_id, path_trace: self.clone().path_trace };
        Packet::new_flood_response(SourceRoutingHeader { hop_index: 0, hops }, session_id, response)
    }
}

/// Denominator of the scaled drop probability: a rate of `PDR_SCALE` drops
/// every fragment, a rate of `0` none.
pub const PDR_SCALE: u64 = 4294967296;

/// Per-fragment drop probability, held as a numerator over [`PDR_SCALE`].
#[derive(Debug, Clone, Copy, PartialEq, Eq, Structural)]
pub struct PacketDropRate {
    pub scaled: u64,
}

impl PacketDropRate {
    /// The numerator never exceeds the denominator: the rate is in `[0, 1]`.
    pub open spec fn wf(self) -> bool {
        self.scaled <= PDR_SCALE
    }

    /// Whether a uniform draw over the full scale falls under this rate.
    pub open spec fn drops(self, draw: u32) -> bool {
        self.scaled > draw as u64
    }

    pub fn new(scaled: u64) -> (r: Self)
        requires
            scaled <= PDR_SCALE,
        ensures
            r.scaled == scaled,
            r.wf(),
    {
        PacketDropRate { scaled }
    }
}

/// Mathematical value of a [`DroneEvent`].
#[verifier::ext_equal]
pub enum DroneEventView {
    PacketSent(PacketView),
    PacketDropped(PacketView),
    ControllerShortcut(PacketView),
}

/// Telemetry sent to the simulation controller.
#[derive(Debug, PartialEq, Eq)]
pub enum DroneEvent {
    /// A packet was successfully forwarded.
    PacketSent(Packet),
    /// A fragment was stochastically dropped.
    PacketDropped(Packet),
    /// A control packet could not reach its neighbor; the controller is asked
    /// to deliver it out of band.
    ControllerShortcut(Packet),
}

impl View for DroneEvent {
    type V = DroneEventView;

    open spec fn view(&self) -> DroneEventView {
        match self {
            DroneEvent::PacketSent(p) => DroneEventView::PacketSent(p@),
            DroneEvent::PacketDropped(p) => DroneEventView::PacketDropped(p@),
            DroneEvent::ControllerShortcut(p) => DroneEventView::ControllerShortcut(p@),
        }
    }
}

impl Clone for DroneEvent {
    fn clone(&self) -> (r: Self)
        ensures
            r@ == self@,
    {
        match self {
            DroneEvent::PacketSent(p) => DroneEvent::PacketSent(p.clone()),
            DroneEvent::PacketDropped(p) => DroneEvent::PacketDropped(p.clone()),
            DroneEvent::ControllerShortcut(p) => DroneEvent::ControllerShortcut(p.clone()),
        }
    }
}

/// Order from the simulation controller.
pub enum DroneCommand {
    /// Connect a new neighbor under a fresh id.
    AddSender(NodeId, crossbeam::channel::Sender<Packet>),
    /// Disconnect the neighbor with this id.
    RemoveSender(NodeId),
    /// Replace the fragment drop probability.
    SetPacketDropRate(PacketDropRate),
    /// Enter the crash sequence: drain remaining packets, then stop.
    Crash,
}

} // verus!

