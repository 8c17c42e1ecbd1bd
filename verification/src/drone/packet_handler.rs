//! The packet dispatcher: the generic header check every routed packet must
//! pass, and the dispatch to the fragment, ack/nack, flood-response and
//! flood-request paths.  No error propagates out of the dispatcher: a
//! malformed packet is answered (for fragments) or dropped, never rethrown.

use vstd::prelude::*;

use crate::drone::flood_handler::{
    flood_fanout_delta, flood_forward_view, flood_predecessor, flood_response_delta,
};
use crate::drone::fragment_handler::{fragment_delta, FragmentOutcome};
use crate::drone::response_handler::some_nack_synthesis;
use crate::drone::{shortcut_delta, DroneEffect, ForwardOutcome, RustezeDrone};
use crate::messages::{
    FloodRequestView, Nack, NackType, NodeId, NodeType, Packet, PacketType, PacketTypeView,
    PacketView, SourceRoutingHeaderView, PDR_SCALE,
};
use crate::neighbors::NeighborTable;

verus! {

/// Why the generic header check refused a packet.
#[derive(Debug, Clone, Copy, PartialEq, Eq, Structural)]
pub enum RouteError {
    /// The cursor points past the route: there is no current hop.
    NoCurrentHop,
    /// The current hop names another node than this drone.
    WrongRecipient,
    /// The route ends here, and a drone is no destination.
    NoNextHop,
    /// The next hop is not a neighbor of this drone.
    NotANeighbor(NodeId),
}

/// The verdict of the generic header check on a routed packet arriving at
/// drone `me`: the next hop to forward to, or why there is none.
pub open spec fn route_verdict(
    h: SourceRoutingHeaderView,
    me: NodeId,
    senders: NeighborTable,
) -> Result<NodeId, RouteError> {
    match h.current_hop() {
        Option::None => Result::Err(RouteError::NoCurrentHop),
        Option::Some(cur) => if cur != me {
            Result::Err(RouteError::WrongRecipient)
        } else {
            match h.advanced().current_hop() {
                Option::None => Result::Err(RouteError::NoNextHop),
                Option::Some(next) => if senders.contains_id(next) {
                    Result::Ok(next)
                } else {
                    Result::Err(RouteError::NotANeighbor(next))
                },
            }
        },
    }
}

/// The nack a fragment is answered with when the header check fails with
/// `e`, as a pair of the sub-route index and the nack itself.
pub open spec fn check_failure_nack(p: PacketView, me: NodeId, e: RouteError) -> (int, Nack) {
    let fi = p.fragment_index();
    let h = p.routing_header;
    match e {
        RouteError::NoCurrentHop => (
            h.hop_index,
            Nack { fragment_index: fi, nack_type: NackType::UnexpectedRecipient(me) },
        ),
        RouteError::WrongRecipient => (
            h.hop_index + 1,
            Nack { fragment_index: fi, nack_type: NackType::UnexpectedRecipient(me) },
        ),
        RouteError::NoNextHop => (
            h.hop_index + 1,
            Nack { fragment_index: fi, nack_type: NackType::DestinationIsDrone },
        ),
        RouteError::NotANeighbor(next) => (
            h.hop_index + 1,
            Nack { fragment_index: fi, nack_type: NackType::ErrorInRouting(next) },
        ),
    }
}

/// Whether `e` records a flood request offered to a neighbor.
pub open spec fn is_flood_forward(e: DroneEffect) -> bool {
    e matches DroneEffect::ToNeighbor { packet: p, .. } && p.is_flood_request()
}

/// No flood request was offered to any neighbor among the new entries.
pub open spec fn no_flood_forward_added(pre: Seq<DroneEffect>, post: Seq<DroneEffect>) -> bool {
    forall|i: int| pre.len() <= i < post.len() ==> !is_flood_forward(#[trigger] post[i])
}

/// What handling one flood request does to the drone: the trace is extended
/// with this drone, the flood is recorded, and a known flood is answered
/// while a fresh one is propagated (or answered, for a drone whose only
/// neighbor delivered it).
pub open spec fn flood_request_handled(pre: RustezeDrone, post: RustezeDrone, p: PacketView) -> bool {
    match p.pack_type {
        PacketTypeView::FloodRequest(req) => {
            let req2 = FloodRequestView {
                flood_id: req.flood_id,
                initiator_id: req.initiator_id,
                path_trace: req.path_trace.push((pre.id, NodeType::Drone)),
            };
            let known = pre.flood_history.contains_key(req.initiator_id, req.flood_id);
            &&& post.flood_history.contains_key(req.initiator_id, req.flood_id)
            &&& (known ==> post.flood_history == pre.flood_history && exists|o: ForwardOutcome|
                flood_response_delta(pre.log(), post.log(), pre.packet_senders, req2, o))
            &&& (!known ==> post.flood_history@ == pre.flood_history@.push(
                (req.initiator_id, req.flood_id),
            ) && (if pre.packet_senders@.len() == 1 {
                exists|o: ForwardOutcome|
                    flood_response_delta(pre.log(), post.log(), pre.packet_senders, req2, o)
            } else {
                flood_fanout_delta(
                    pre.log(),
                    post.log(),
                    pre.packet_senders.ids(),
                    flood_predecessor(req2),
                    flood_forward_view(req2),
                )
            }))
        },
        _ => true,
    }
}

/// What handling one routed (non-flood-request) packet does to the log, by
/// the verdict of the header check.
pub open spec fn routed_packet_handled(pre: RustezeDrone, post: RustezeDrone, p: PacketView) -> bool {
    let me = pre.id;
    let h = p.routing_header;
    match route_verdict(h, me, pre.packet_senders) {
        Result::Ok(next) => {
            let adv = p.advanced();
            match p.pack_type {
                PacketTypeView::MsgFragment(_) => if pre.terminated {
                    some_nack_synthesis(
                        pre.log(),
                        post.log(),
                        pre.packet_senders,
                        h.hops,
                        h.hop_index + 1,
                        p.session_id,
                        Nack {
                            fragment_index: p.fragment_index(),
                            nack_type: NackType::ErrorInRouting(me),
                        },
                    )
                } else {
                    exists|o: FragmentOutcome|
                        fragment_delta(pre.log(), post.log(), pre.packet_senders, next, adv, o)
                            && (pre.pdr.scaled == 0 ==> !(o is Dropped)) && (pre.pdr.scaled
                            == PDR_SCALE ==> o is Dropped)
                },
                PacketTypeView::FloodRequest(_) => true,
                _ => exists|o: ForwardOutcome|
                    o != ForwardOutcome::NoNeighbor && shortcut_delta(
                        pre.log(),
                        post.log(),
                        next,
                        adv,
                        o,
                    ),
            }
        },
        Result::Err(e) => {
            if !p.is_fragment() {
                // A control packet whose next hop is no neighbor takes the
                // controller shortcut; other header faults emit nothing.
                match e {
                    RouteError::NotANeighbor(_) => exists|o: ForwardOutcome|
                        crate::drone::controller_shortcut_delta(
                            pre.log(),
                            post.log(),
                            p.advanced(),
                            o,
                        ),
                    _ => post.log() == pre.log(),
                }
            } else {
                let params = check_failure_nack(p, me, e);
                some_nack_synthesis(
                    pre.log(),
                    post.log(),
                    pre.packet_senders,
                    h.hops,
                    params.0,
                    p.session_id,
                    params.1,
                )
            }
        },
    }
}

/// What dispatching one packet does to the drone.
pub open spec fn dispatched(pre: RustezeDrone, post: RustezeDrone, p: PacketView) -> bool {
    if p.is_flood_request() {
        if pre.terminated {
            post == pre
        } else {
            flood_request_handled(pre, post, p)
        }
    } else {
        post.flood_history == pre.flood_history && routed_packet_handled(pre, post, p)
    }
}

/// The shortcut policy for a non-flood packet never puts a flood request on
/// a neighbor channel.
pub proof fn lemma_shortcut_no_flood(
    pre: Seq<DroneEffect>,
    post: Seq<DroneEffect>,
    dest: NodeId,
    p: PacketView,
    o: ForwardOutcome,
)
    requires
        shortcut_delta(pre, post, dest, p, o),
        !p.is_flood_request(),
    ensures
        no_flood_forward_added(pre, post),
{
    assert forall|i: int| pre.len() <= i < post.len() implies !is_flood_forward(
        #[trigger] post[i],
    ) by {
        match o {
            ForwardOutcome::Delivered => {
                assert(i == pre.len() || i == pre.len() + 1);
            },
            ForwardOutcome::ShortcutDelivered => {
                assert(i == pre.len() || i == pre.len() + 1 || i == pre.len() + 2);
            },
            ForwardOutcome::Lost => {
                assert(i == pre.len() || i == pre.len() + 1);
            },
            ForwardOutcome::NoNeighbor => {},
        }
    }
}

/// A bare controller-shortcut attempt puts nothing on a neighbor channel.
pub proof fn lemma_controller_shortcut_no_flood(
    pre: Seq<DroneEffect>,
    post: Seq<DroneEffect>,
    p: PacketView,
    o: ForwardOutcome,
)
    requires
        crate::drone::controller_shortcut_delta(pre, post, p, o),
    ensures
        no_flood_forward_added(pre, post),
{
    assert forall|i: int| pre.len() <= i < post.len() implies !is_flood_forward(
        #[trigger] post[i],
    ) by {
        if o == ForwardOutcome::ShortcutDelivered {
            assert(i == pre.len() || i == pre.len() + 1);
        }
    }
}

/// A nack synthesis never puts a flood request on a neighbor channel.
pub proof fn lemma_nack_no_flood(
    pre: Seq<DroneEffect>,
    post: Seq<DroneEffect>,
    senders: NeighborTable,
    hops: Seq<NodeId>,
    index: int,
    session_id: u64,
    nack: Nack,
    o: crate::drone::response_handler::NackSendOutcome,
)
    requires
        crate::drone::response_handler::nack_synthesis_ok(
            pre,
            post,
            senders,
            hops,
            index,
            session_id,
            nack,
            o,
        ),
    ensures
        no_flood_forward_added(pre, post),
{
    let rev = hops.subrange(0, index).reverse();
    if o == crate::drone::response_handler::NackSendOutcome::NoRoute {
    } else if rev.len() < 2 {
    } else {
        lemma_shortcut_no_flood(
            pre,
            post,
            rev[1],
            crate::drone::response_handler::nack_packet_view(rev, session_id, nack),
            o.as_forward(),
        );
    }
}

impl RustezeDrone {
    /// A short name for a packet's kind, for reporting.
    pub fn get_packet_type(pt: &PacketType) -> (r: &'static str)
        ensures
            pt is Ack ==> r@ == "Ack"@,
            pt is Nack ==> r@ == "Nack"@,
            pt is FloodRequest ==> r@ == "Flood request"@,
            pt is FloodResponse ==> r@ == "Flood response"@,
            pt is MsgFragment ==> r@ == "Fragment"@,
    {
        match pt {
            PacketType::Ack(_) => "Ack",
            PacketType::Nack(_) => "Nack",
            PacketType::FloodRequest(_) => "Flood request",
            PacketType::FloodResponse(_) => "Flood response",
            PacketType::MsgFragment(_) => "Fragment",
        }
    }

    /// The part of the header check made once the current hop is known: the
    /// current hop must name this drone, the cursor moves forward, and the
    /// new hop must name a neighbor.  For fragments each failure is answered
    /// with the corresponding nack; a control packet whose next hop is no
    /// neighbor is offered to the controller as a shortcut instead.
    pub fn check_next_hop(&mut self, current_node: NodeId, packet: &mut Packet) -> (r: Result<
        NodeId,
        RouteError,
    >)
        requires
            old(self).wf(),
            old(packet)@.routing_header.current_hop() == Some(current_node),
        ensures
            final(self).wf(),
            old(self).same_config(*final(self)),
            final(self).flood_history == old(self).flood_history,
            r == route_verdict(
                old(packet)@.routing_header,
                old(self).id,
                old(self).packet_senders,
            ),
            final(packet)@.pack_type == old(packet)@.pack_type,
            final(packet)@.session_id == old(packet)@.session_id,
            r == Err::<NodeId, RouteError>(RouteError::WrongRecipient) ==> final(packet)@ == old(
                packet,
            )@,
            r != Err::<NodeId, RouteError>(RouteError::WrongRecipient) ==> final(packet)@ == old(
                packet,
            )@.advanced(),
            r is Ok ==> final(self).log() == old(self).log(),
            !old(packet)@.is_fragment() && !(r matches Err(RouteError::NotANeighbor(_)))
                ==> final(self).log() == old(self).log(),
            !old(packet)@.is_fragment() ==> (r matches Err(RouteError::NotANeighbor(nn)) ==> exists|
                o: ForwardOutcome,
            |
                crate::drone::controller_shortcut_delta(
                    old(self).log(),
                    final(self).log(),
                    old(packet)@.advanced(),
                    o,
                )),
            old(packet)@.is_fragment() ==> (r matches Err(e) ==> some_nack_synthesis(
                old(self).log(),
                final(self).log(),
                old(self).packet_senders,
                old(packet)@.routing_header.hops,
                check_failure_nack(old(packet)@, old(self).id, e).0,
                old(packet)@.session_id,
                check_failure_nack(old(packet)@, old(self).id, e).1,
            )),
    {
        let is_fragment = matches!(packet.pack_type, PacketType::MsgFragment(_));
        let route_len = packet.routing_header.hops.len();
        proof {
            assert(packet.routing_header.hop_index < route_len);
        }
        if current_node != self.id {
            if is_fragment {
                let index = packet.routing_header.hop_index + 1;
                let fragment_index = packet.get_fragment_index();
                let my_id = self.id;
                let _o = self.build_send_nack(
                    index,
                    &packet.routing_header,
                    packet.session_id,
                    Nack { fragment_index, nack_type: NackType::UnexpectedRecipient(my_id) },
                );
            }
            return Err(RouteError::WrongRecipient);
        }
        packet.routing_header.increase_hop_index();
        let next = packet.routing_header.current_hop();
        match next {
            Some(next_node) => {
                if self.packet_senders.contains(next_node) {
                    Ok(next_node)
                } else {
                    if is_fragment {
                        let index = packet.routing_header.hop_index;
                        let fragment_index = packet.get_fragment_index();
                        let _o = self.build_send_nack(
                            index,
                            &packet.routing_header,
                            packet.session_id,
                            Nack { fragment_index, nack_type: NackType::ErrorInRouting(next_node) },
                        );
                    } else {
                        let _o = self.shortcut_to_controller(packet.clone());
                    }
                    Err(RouteError::NotANeighbor(next_node))
                }
            },
            None => {
                if is_fragment {
                    let index = packet.routing_header.hop_index;
                    let fragment_index = packet.get_fragment_index();
                    let _o = self.build_send_nack(
                        index,
                        &packet.routing_header,
                        packet.session_id,
                        Nack { fragment_index, nack_type: NackType::DestinationIsDrone },
                    );
                }
                Err(RouteError::NoNextHop)
            },
        }
    }

    /// The generic header check: a missing current hop is refused outright
    /// (with an `UnexpectedRecipient` nack for fragments); otherwise the
    /// check continues at [`Self::check_next_hop`].
    pub fn generic_packet_check(&mut self, packet: &mut Packet) -> (r: Result<NodeId, RouteError>)
        requires
            old(self).wf(),
        ensures
            final(self).wf(),
            old(self).same_config(*final(self)),
            final(self).flood_history == old(self).flood_history,
            r == route_verdict(
                old(packet)@.routing_header,
                old(self).id,
                old(self).packet_senders,
            ),
            final(packet)@.pack_type == old(packet)@.pack_type,
            final(packet)@.session_id == old(packet)@.session_id,
            (r == Err::<NodeId, RouteError>(RouteError::WrongRecipient) || r == Err::<
                NodeId,
                RouteError,
            >(RouteError::NoCurrentHop)) ==> final(packet)@ == old(packet)@,
            (r != Err::<NodeId, RouteError>(RouteError::WrongRecipient) && r != Err::<
                NodeId,
                RouteError,
            >(RouteError::NoCurrentHop)) ==> final(packet)@ == old(packet)@.advanced(),
            r is Ok ==> final(self).log() == old(self).log(),
            !old(packet)@.is_fragment() && !(r matches Err(RouteError::NotANeighbor(_)))
                ==> final(self).log() == old(self).log(),
            !old(packet)@.is_fragment() ==> (r matches Err(RouteError::NotANeighbor(nn)) ==> exists|
                o: ForwardOutcome,
            |
                crate::drone::controller_shortcut_delta(
                    old(self).log(),
                    final(self).log(),
                    old(packet)@.advanced(),
                    o,
                )),
            old(packet)@.is_fragment() ==> (r matches Err(e) ==> some_nack_synthesis(
                old(self).log(),
                final(self).log(),
                old(self).packet_senders,
                old(packet)@.routing_header.hops,
                check_failure_nack(old(packet)@, old(self).id, e).0,
                old(packet)@.session_id,
                check_failure_nack(old(packet)@, old(self).id, e).1,
            )),
    {
        let cur = packet.routing_header.current_hop();
        match cur {
            Some(current_node) => self.check_next_hop(current_node, packet),
            None => {
                let is_fragment = matches!(packet.pack_type, PacketType::MsgFragment(_));
                if is_fragment {
                    let index = packet.routing_header.hop_index;
                    let fragment_index = packet.get_fragment_index();
                    let my_id = self.id;
                    let _o = self.build_send_nack(
                        index,
                        &packet.routing_header,
                        packet.session_id,
                        Nack { fragment_index, nack_type: NackType::UnexpectedRecipient(my_id) },
                    );
                }
                Err(RouteError::NoCurrentHop)
            },
        }
    }

    /// Dispatch one inbound packet: flood requests go to the flood handler
    /// (and are dropped silently once the drone is terminated); every other
    /// packet passes the generic header check and is then forwarded,
    /// answered with a nack, or dropped, by its kind and the verdict.
    pub fn packet_dispatcher(&mut self, packet: Packet)
        requires
            old(self).wf(),
            !old(self).terminated ==> (packet@.pack_type matches PacketTypeView::FloodRequest(req)
                ==> req.path_trace.len() < usize::MAX),
        ensures
            final(self).wf(),
            old(self).same_config(*final(self)),
            old(self).log().is_prefix_of(final(self).log()),
            old(self).flood_history@.is_prefix_of(final(self).flood_history@),
            old(self).terminated ==> no_flood_forward_added(old(self).log(), final(self).log()),
            dispatched(*old(self), *final(self), packet@),
    {
        let ghost p = packet@;
        if matches!(packet.pack_type, PacketType::FloodRequest(_)) {
            if self.terminated {
                proof {
                    crate::drone::lemma_prefix_refl(old(self).log());
                    crate::drone::lemma_prefix_refl(old(self).flood_history@);
                }
                return;
            }
            match packet.pack_type {
                PacketType::FloodRequest(req) => {
                    let ghost reqv = req@;
                    self.handle_flood_req(req);
                    proof {
                        let req2 = FloodRequestView {
                            flood_id: reqv.flood_id,
                            initiator_id: reqv.initiator_id,
                            path_trace: reqv.path_trace.push((old(self).id, NodeType::Drone)),
                        };
                        let known = old(self).flood_history.contains_key(
                            reqv.initiator_id,
                            reqv.flood_id,
                        );
                        if known || old(self).packet_senders@.len() == 1 {
                            let o = choose|o: ForwardOutcome|
                                flood_response_delta(
                                    old(self).log(),
                                    self.log(),
                                    old(self).packet_senders,
                                    req2,
                                    o,
                                );
                            crate::drone::flood_handler::lemma_response_prefix(
                                old(self).log(),
                                self.log(),
                                old(self).packet_senders,
                                req2,
                                o,
                            );
                        } else {
                            crate::drone::flood_handler::lemma_fanout_prefix(
                                old(self).log(),
                                self.log(),
                                old(self).packet_senders.ids(),
                                flood_predecessor(req2),
                                flood_forward_view(req2),
                            );
                        }
                    }
                },
                _ => {},
            }
            return;
        }
        let mut packet = packet;
        let checked = self.generic_packet_check(&mut packet);
        proof {
            crate::drone::lemma_prefix_refl(old(self).flood_history@);
        }
        match checked {
            Err(e) => {
                proof {
                    if p.is_fragment() {
                        let params = check_failure_nack(p, old(self).id, e);
                        let o = choose|o: crate::drone::response_handler::NackSendOutcome|
                            crate::drone::response_handler::nack_synthesis_ok(
                                old(self).log(),
                                self.log(),
                                old(self).packet_senders,
                                p.routing_header.hops,
                                params.0,
                                p.session_id,
                                params.1,
                                o,
                            );
                        crate::drone::response_handler::lemma_nack_synthesis_prefix(
                            old(self).log(),
                            self.log(),
                            old(self).packet_senders,
                            p.routing_header.hops,
                            params.0,
                            p.session_id,
                            params.1,
                            o,
                        );
                        lemma_nack_no_flood(
                            old(self).log(),
                            self.log(),
                            old(self).packet_senders,
                            p.routing_header.hops,
                            params.0,
                            p.session_id,
                            params.1,
                            o,
                        );
                    } else if e matches RouteError::NotANeighbor(_) {
                        let o = choose|o: ForwardOutcome|
                            crate::drone::controller_shortcut_delta(
                                old(self).log(),
                                self.log(),
                                p.advanced(),
                                o,
                            );
                        crate::drone::lemma_controller_shortcut_prefix(
                            old(self).log(),
                            self.log(),
                            p.advanced(),
                            o,
                        );
                        lemma_controller_shortcut_no_flood(
                            old(self).log(),
                            self.log(),
                            p.advanced(),
                            o,
                        );
                    } else {
                        crate::drone::lemma_prefix_refl(old(self).log());
                    }
                }
            },
            Ok(next) => {
                proof {
                    assert(packet@ == p.advanced());
                    assert(packet@.routing_header.current_hop() == Some(next));
                    assert(old(self).packet_senders.contains_id(next));
                }
                if matches!(packet.pack_type, PacketType::Ack(_)) {
                    let o = self.send_ack(next, packet);
                    proof {
                        crate::drone::lemma_shortcut_prefix(
                            old(self).log(),
                            self.log(),
                            next,
                            p.advanced(),
                            o,
                        );
                        lemma_shortcut_no_flood(old(self).log(), self.log(), next, p.advanced(), o);
                        assert(o != ForwardOutcome::NoNeighbor);
                    }
                } else if matches!(packet.pack_type, PacketType::Nack(_)) {
                    let o = self.send_nack(next, packet);
                    proof {
                        crate::drone::lemma_shortcut_prefix(
                            old(self).log(),
                            self.log(),
                            next,
                            p.advanced(),
                            o,
                        );
                        lemma_shortcut_no_flood(old(self).log(), self.log(), next, p.advanced(), o);
                        assert(o != ForwardOutcome::NoNeighbor);
                    }
                } else if matches!(packet.pack_type, PacketType::FloodResponse(_)) {
                    let o = self.handle_flood_res(next, packet);
                    proof {
                        crate::drone::lemma_shortcut_prefix(
                            old(self).log(),
                            self.log(),
                            next,
                            p.advanced(),
                            o,
                        );
                        lemma_shortcut_no_flood(old(self).log(), self.log(), next, p.advanced(), o);
                        assert(o != ForwardOutcome::NoNeighbor);
                    }
                } else {
                    if self.terminated {
                        let index = packet.routing_header.hop_index;
                        let fragment_index = packet.get_fragment_index();
                        let my_id = self.id;
                        let o = self.build_send_nack(
                            index,
                            &packet.routing_header,
                            packet.session_id,
                            Nack { fragment_index, nack_type: NackType::ErrorInRouting(my_id) },
                        );
                        proof {
                            crate::drone::response_handler::lemma_nack_synthesis_prefix(
                                old(self).log(),
                                self.log(),
                                old(self).packet_senders,
                                p.routing_header.hops,
                                p.routing_header.hop_index + 1,
                                p.session_id,
                                Nack {
                                    fragment_index: p.fragment_index(),
                                    nack_type: NackType::ErrorInRouting(old(self).id),
                                },
                                o,
                            );
                            lemma_nack_no_flood(
                                old(self).log(),
                                self.log(),
                                old(self).packet_senders,
                                p.routing_header.hops,
                                p.routing_header.hop_index + 1,
                                p.session_id,
                                Nack {
                                    fragment_index: p.fragment_index(),
                                    nack_type: NackType::ErrorInRouting(old(self).id),
                                },
                                o,
                            );
                        }
                    } else {
                        let o = self.send_fragment(next, packet);
                        proof {
                            crate::drone::fragment_handler::lemma_fragment_prefix(
                                old(self).log(),
                                self.log(),
                                old(self).packet_senders,
                                next,
                                p.advanced(),
                                o,
                            );
                        }
                    }
                }
            },
        }
    }
}

} // verus!
