//! The network-discovery flood protocol: deduplicated propagation of flood
//! requests to all neighbors but the predecessor, and construction and
//! sending of flood responses back along the accumulated path trace.

use vstd::prelude::*;

use crate::drone::{
    forwarded_delta, shortcut_delta, DroneEffect, ForwardOutcome, NeighborSend, RustezeDrone,
};
use crate::messages::{
    FloodRequest, FloodRequestView, FloodResponse, FloodResponseView, NodeId, NodeType, Packet,
    PacketTypeView, PacketView, SourceRoutingHeader, SourceRoutingHeaderView,
};
use crate::neighbors::NeighborTable;

verus! {

/// The packet under which a flood request travels on: no source route, a
/// fixed session id of 1.
pub open spec fn flood_forward_view(req: FloodRequestView) -> PacketView {
    PacketView {
        pack_type: PacketTypeView::FloodRequest(req),
        routing_header: SourceRoutingHeaderView { hop_index: 0, hops: Seq::empty() },
        session_id: 1,
    }
}

/// The response that answers `req`: its accumulated trace, routed back along
/// the reversed trace with the cursor on the first hop back.
pub open spec fn flood_response_view(req: FloodRequestView) -> PacketView {
    PacketView {
        pack_type: PacketTypeView::FloodResponse(
            FloodResponseView { flood_id: req.flood_id, path_trace: req.path_trace },
        ),
        routing_header: SourceRoutingHeaderView {
            hop_index: 1,
            hops: req.trace_ids().reverse(),
        },
        session_id: 1,
    }
}

/// The neighbor that delivered this request: the next-to-last node of the
/// trace, or the initiator for a trace of one entry.
pub open spec fn flood_predecessor(req: FloodRequestView) -> NodeId {
    if req.path_trace.len() >= 2 {
        req.path_trace[req.path_trace.len() - 2].0
    } else {
        req.initiator_id
    }
}

/// Relation between the log before and after answering a flood: the
/// response goes to the first hop back under the shortcut policy; where no
/// neighbor channel reaches that hop — it is unknown, or the reversed trace
/// is too short to name one — the response goes straight to the controller
/// out of band.
pub open spec fn flood_response_delta(
    pre: Seq<DroneEffect>,
    post: Seq<DroneEffect>,
    senders: NeighborTable,
    req: FloodRequestView,
    o: ForwardOutcome,
) -> bool {
    let rev = req.trace_ids().reverse();
    let p = flood_response_view(req);
    if rev.len() >= 2 && senders.contains_id(rev[1]) {
        o != ForwardOutcome::NoNeighbor && shortcut_delta(pre, post, rev[1], p, o)
    } else {
        crate::drone::controller_shortcut_delta(pre, post, p, o)
    }
}

/// One neighbor's chunk of a flood fan-out: the predecessor is skipped,
/// every other neighbor gets exactly one attempt.
pub open spec fn fanout_step(
    pre: Seq<DroneEffect>,
    post: Seq<DroneEffect>,
    id: NodeId,
    prev: NodeId,
    fp: PacketView,
) -> bool {
    if id == prev {
        post == pre
    } else {
        forwarded_delta(pre, post, id, fp) || post == pre.push(
            DroneEffect::ToNeighbor { dest: id, packet: fp, accepted: false },
        )
    }
}

/// Relation between the log before and after a flood fan-out over the
/// neighbor ids `ids`, in order.
pub open spec fn flood_fanout_delta(
    pre: Seq<DroneEffect>,
    post: Seq<DroneEffect>,
    ids: Seq<NodeId>,
    prev: NodeId,
    fp: PacketView,
) -> bool
    decreases ids.len(),
{
    if ids.len() <= 0 {
        post == pre
    } else {
        exists|mid: Seq<DroneEffect>|
            flood_fanout_delta(pre, mid, ids.drop_last(), prev, fp) && #[trigger] fanout_step(
                mid,
                post,
                ids.last(),
                prev,
                fp,
            )
    }
}

/// Outcome of handling a fresh flood id.
#[derive(Debug, Clone, Copy, PartialEq, Eq, Structural)]
pub enum FloodOutcome {
    /// The drone had no neighbor but the sender: it answered instead of
    /// propagating.
    Answered(ForwardOutcome),
    /// The request went out to every neighbor but the predecessor.
    Propagated,
}

/// Any outcome of answering a flood leaves the old log as a prefix.
pub proof fn lemma_response_prefix(
    pre: Seq<DroneEffect>,
    post: Seq<DroneEffect>,
    senders: NeighborTable,
    req: FloodRequestView,
    o: ForwardOutcome,
)
    requires
        flood_response_delta(pre, post, senders, req, o),
    ensures
        pre.is_prefix_of(post),
{
    let rev = req.trace_ids().reverse();
    if rev.len() >= 2 && senders.contains_id(rev[1]) {
        crate::drone::lemma_shortcut_prefix(pre, post, rev[1], flood_response_view(req), o);
    } else {
        crate::drone::lemma_controller_shortcut_prefix(pre, post, flood_response_view(req), o);
    }
}

/// A flood fan-out leaves the old log as a prefix.
pub proof fn lemma_fanout_prefix(
    pre: Seq<DroneEffect>,
    post: Seq<DroneEffect>,
    ids: Seq<NodeId>,
    prev: NodeId,
    fp: PacketView,
)
    requires
        flood_fanout_delta(pre, post, ids, prev, fp),
    ensures
        pre.is_prefix_of(post),
    decreases ids.len(),
{
    if ids.len() <= 0 {
        crate::drone::lemma_prefix_refl(pre);
    } else {
        let mid = choose|mid: Seq<DroneEffect>|
            flood_fanout_delta(pre, mid, ids.drop_last(), prev, fp) && #[trigger] fanout_step(
                mid,
                post,
                ids.last(),
                prev,
                fp,
            );
        lemma_fanout_prefix(pre, mid, ids.drop_last(), prev, fp);
        if ids.last() == prev {
            crate::drone::lemma_prefix_refl(mid);
        } else if post == mid.push(
            DroneEffect::ToNeighbor { dest: ids.last(), packet: fp, accepted: false },
        ) {
            crate::drone::lemma_prefix_push(
                mid,
                DroneEffect::ToNeighbor { dest: ids.last(), packet: fp, accepted: false },
            );
        }
        crate::drone::lemma_prefix_trans(pre, mid, post);
    }
}

impl RustezeDrone {
    /// The response packet that answers `flood_req`, and its destination:
    /// the first hop back, or 0 for a degenerate trace.
    pub fn build_flood_response(flood_req: &FloodRequest) -> (r: (NodeId, Packet))
        ensures
            r.1@ == flood_response_view(flood_req@),
            r.0 == ({
                let rev = flood_req@.trace_ids().reverse();
                if rev.len() >= 2 {
                    rev[1]
                } else {
                    0
                }
            }),
    {
        let mut packet = flood_req.generate_response(1);
        packet.routing_header.increase_hop_index();
        let dest = packet.routing_header.current_hop();
        match dest {
            None => (0, packet),
            Some(d) => (d, packet),
        }
    }

    /// Send a flood response toward `dest` under the shortcut policy.  Where
    /// no channel reaches `dest` — it is unknown, or the packet's cursor
    /// does not name it — the response goes straight to the controller out
    /// of band; it is lost only if that also fails.
    pub fn send_flood_response(&mut self, dest: NodeId, packet: Packet) -> (r: ForwardOutcome)
        requires
            old(self).wf(),
        ensures
            final(self).wf(),
            old(self).same_config(*final(self)),
            final(self).flood_history == old(self).flood_history,
            (packet@.routing_header.current_hop() == Some(dest) && old(
                self,
            ).packet_senders.contains_id(dest)) ==> r != ForwardOutcome::NoNeighbor
                && shortcut_delta(old(self).log(), final(self).log(), dest, packet@, r),
            !(packet@.routing_header.current_hop() == Some(dest) && old(
                self,
            ).packet_senders.contains_id(dest)) ==> crate::drone::controller_shortcut_delta(
                old(self).log(),
                final(self).log(),
                packet@,
                r,
            ),
    {
        let reachable = match packet.routing_header.current_hop() {
            Some(h) => h == dest && self.packet_senders.contains(dest),
            None => false,
        };
        if reachable {
            self.forward_with_shortcut(dest, packet)
        } else {
            self.shortcut_to_controller(packet)
        }
    }

    /// Answer an already-seen flood: build the response and send it back.
    pub fn handle_known_flood_id(&mut self, flood_req: &FloodRequest) -> (r: ForwardOutcome)
        requires
            old(self).wf(),
        ensures
            final(self).wf(),
            old(self).same_config(*final(self)),
            final(self).flood_history == old(self).flood_history,
            flood_response_delta(
                old(self).log(),
                final(self).log(),
                old(self).packet_senders,
                flood_req@,
                r,
            ),
    {
        let (dest, packet) = Self::build_flood_response(flood_req);
        self.send_flood_response(dest, packet)
    }

    /// Propagate a fresh flood: with only the delivering neighbor present,
    /// answer instead; otherwise forward the request to every neighbor but
    /// the predecessor, under an empty route.
    #[verifier::loop_isolation(false)]
    pub fn handle_new_flood_id(&mut self, flood_req: &FloodRequest) -> (r: FloodOutcome)
        requires
            old(self).wf(),
            flood_req@.path_trace.len() >= 1,
        ensures
            final(self).wf(),
            old(self).same_config(*final(self)),
            final(self).flood_history == old(self).flood_history,
            old(self).packet_senders@.len() == 1 ==> (r matches FloodOutcome::Answered(o)
                && flood_response_delta(
                old(self).log(),
                final(self).log(),
                old(self).packet_senders,
                flood_req@,
                o,
            )),
            old(self).packet_senders@.len() != 1 ==> r == FloodOutcome::Propagated
                && flood_fanout_delta(
                old(self).log(),
                final(self).log(),
                old(self).packet_senders.ids(),
                flood_predecessor(flood_req@),
                flood_forward_view(flood_req@),
            ),
    {
        if self.packet_senders.len() == 1 {
            let o = self.handle_known_flood_id(flood_req);
            return FloodOutcome::Answered(o);
        }
        let sender_id = if flood_req.path_trace.len() == 1 {
            flood_req.initiator_id
        } else {
            flood_req.path_trace[flood_req.path_trace.len() - 2].0
        };
        proof {
            assert(sender_id == flood_predecessor(flood_req@));
        }
        let ghost pre = self.log();
        let ghost fp = flood_forward_view(flood_req@);
        let n = self.packet_senders.len();
        let mut i: usize = 0;
        proof {
            assert(self.packet_senders.ids().subrange(0, 0) =~= Seq::<NodeId>::empty());
        }
        while i < n
            invariant
                i <= n,
                n == self.packet_senders@.len(),
                self.wf(),
                old(self).same_config(*self),
                self.flood_history == old(self).flood_history,
                self.packet_senders == old(self).packet_senders,
                flood_fanout_delta(
                    pre,
                    self.log(),
                    self.packet_senders.ids().subrange(0, i as int),
                    sender_id,
                    fp,
                ),
            decreases n - i,
        {
            let id = self.packet_senders.id_at(i);
            let ghost mid = self.log();
            proof {
                assert(self.packet_senders.ids()[i as int] == self.packet_senders@[i as int].0);
            }
            if id != sender_id {
                let header = SourceRoutingHeader::new(Vec::new(), 0);
                proof {
                    assert(header@.hops =~= Seq::<NodeId>::empty());
                }
                let packet = Packet::new_flood_request(header, 1, flood_req.clone());
                proof {
                    assert(packet@ == fp);
                    assert(self.packet_senders.contains_id(id)) by {
                        assert(self.packet_senders@[i as int].0 == id);
                    }
                }
                let res = self.forward_to_neighbor(id, packet);
                proof {
                    assert(res != NeighborSend::NoChannel);
                }
            }
            proof {
                assert(fanout_step(mid, self.log(), id, sender_id, fp));
                let sub1 = self.packet_senders.ids().subrange(0, i as int + 1);
                assert(sub1.drop_last() =~= self.packet_senders.ids().subrange(0, i as int));
                assert(sub1.last() == id);
                assert(flood_fanout_delta(pre, mid, sub1.drop_last(), sender_id, fp));
                assert(fanout_step(mid, self.log(), sub1.last(), sender_id, fp));
                assert(sub1.len() > 0);
                assert(flood_fanout_delta(pre, self.log(), sub1, sender_id, fp)) by {
                    reveal_with_fuel(flood_fanout_delta, 2);
                }
            }
            i = i + 1;
        }
        proof {
            assert(self.packet_senders.ids().subrange(0, n as int) =~= self.packet_senders.ids());
        }
        FloodOutcome::Propagated
    }

    /// Forward a flood response travelling through this drone, under the
    /// shortcut policy.
    pub fn handle_flood_res(&mut self, dest: NodeId, packet: Packet) -> (r: ForwardOutcome)
        requires
            old(self).wf(),
            packet@.routing_header.current_hop() == Some(dest),
        ensures
            final(self).wf(),
            old(self).same_config(*final(self)),
            final(self).flood_history == old(self).flood_history,
            (r == ForwardOutcome::NoNeighbor) == !old(self).packet_senders.contains_id(dest),
            shortcut_delta(old(self).log(), final(self).log(), dest, packet@, r),
    {
        self.forward_with_shortcut(dest, packet)
    }

    /// Handle one flood request: extend the trace with this drone, record
    /// the flood, and either answer a known flood or propagate a fresh one.
    pub fn handle_flood_req(&mut self, flood_req: FloodRequest)
        requires
            old(self).wf(),
            flood_req@.path_trace.len() < usize::MAX,
        ensures
            final(self).wf(),
            old(self).same_config(*final(self)),
            old(self).flood_history@.is_prefix_of(final(self).flood_history@),
            final(self).flood_history.contains_key(
                flood_req@.initiator_id,
                flood_req@.flood_id,
            ),
            ({
                let req2 = FloodRequestView {
                    flood_id: flood_req@.flood_id,
                    initiator_id: flood_req@.initiator_id,
                    path_trace: flood_req@.path_trace.push((old(self).id, NodeType::Drone)),
                };
                let known = old(self).flood_history.contains_key(
                    flood_req@.initiator_id,
                    flood_req@.flood_id,
                );
                &&& (known ==> final(self).flood_history == old(self).flood_history && exists|
                    o: ForwardOutcome,
                |
                    flood_response_delta(
                        old(self).log(),
                        final(self).log(),
                        old(self).packet_senders,
                        req2,
                        o,
                    ))
                &&& (!known ==> final(self).flood_history@ == old(self).flood_history@.push(
                    (flood_req@.initiator_id, flood_req@.flood_id),
                ) && (if old(self).packet_senders@.len() == 1 {
                    exists|o: ForwardOutcome|
                        flood_response_delta(
                            old(self).log(),
                            final(self).log(),
                            old(self).packet_senders,
                            req2,
                            o,
                        )
                } else {
                    flood_fanout_delta(
                        old(self).log(),
                        final(self).log(),
                        old(self).packet_senders.ids(),
                        flood_predecessor(req2),
                        flood_forward_view(req2),
                    )
                }))
            }),
    {
        let mut flood_req = flood_req;
        let ghost req2 = FloodRequestView {
            flood_id: flood_req@.flood_id,
            initiator_id: flood_req@.initiator_id,
            path_trace: flood_req@.path_trace.push((self.id, NodeType::Drone)),
        };
        flood_req.path_trace.push((self.id, NodeType::Drone));
        proof {
            assert(flood_req@ == req2);
        }
        let is_new = self.flood_history.insert(flood_req.initiator_id, flood_req.flood_id);
        if !is_new {
            let o = self.handle_known_flood_id(&flood_req);
            proof {
                assert(exists|oo: ForwardOutcome|
                    flood_response_delta(
                        old(self).log(),
                        self.log(),
                        old(self).packet_senders,
                        req2,
                        oo,
                    )) by {
                    assert(flood_response_delta(
                        old(self).log(),
                        self.log(),
                        old(self).packet_senders,
                        req2,
                        o,
                    ));
                }
            }
        } else {
            let r = self.handle_new_flood_id(&flood_req);
            proof {
                if old(self).packet_senders@.len() == 1 {
                    let o = r->Answered_0;
                    assert(flood_response_delta(
                        old(self).log(),
                        self.log(),
                        old(self).packet_senders,
                        req2,
                        o,
                    ));
                }
            }
        }
    }
}

} // verus!
