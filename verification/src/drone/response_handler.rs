//! Forwarding of acks and nacks, and synthesis of nacks sent back along the
//! reversed route prefix.

use vstd::prelude::*;

use crate::drone::{
    forwarded_delta, shortcut_delta, DroneEffect, ForwardOutcome, RustezeDrone,
};
use crate::messages::{
    Nack, NodeId, Packet, PacketTypeView, PacketView, SourceRoutingHeader,
    SourceRoutingHeaderView,
};
use crate::neighbors::NeighborTable;

verus! {

/// Outcome of building and sending a synthesized nack.
#[derive(Debug, Clone, Copy, PartialEq, Eq, Structural)]
pub enum NackSendOutcome {
    /// The first hop back took the nack.
    Delivered,
    /// The first hop back refused it; the controller accepted it as a
    /// shortcut.
    ShortcutDelivered,
    /// Neither the first hop back nor the controller could be reached.
    Lost,
    /// The route prefix to reverse does not exist.
    NoRoute,
    /// The first hop back is not a neighbor (or the reversed route is too
    /// short to name one); nothing was attempted.
    NoNeighbor,
}

impl NackSendOutcome {
    /// The forward outcome this corresponds to, where one exists.
    pub open spec fn as_forward(self) -> ForwardOutcome {
        match self {
            NackSendOutcome::Delivered => ForwardOutcome::Delivered,
            NackSendOutcome::ShortcutDelivered => ForwardOutcome::ShortcutDelivered,
            NackSendOutcome::Lost => ForwardOutcome::Lost,
            NackSendOutcome::NoRoute => ForwardOutcome::NoNeighbor,
            NackSendOutcome::NoNeighbor => ForwardOutcome::NoNeighbor,
        }
    }
}

/// The nack packet built over the reversed route prefix `rev_hops`, aimed at
/// `rev_hops[1]`.
pub open spec fn nack_packet_view(rev_hops: Seq<NodeId>, session_id: u64, nack: Nack) -> PacketView {
    PacketView {
        pack_type: PacketTypeView::Nack(nack),
        routing_header: SourceRoutingHeaderView { hop_index: 1, hops: rev_hops },
        session_id,
    }
}

/// Relation between the log before and after one nack synthesis: the route
/// prefix `hops[0..index]` is reversed, the nack aimed at its second node,
/// and the shortcut forward policy applied; each failure mode leaves the log
/// unchanged.
pub open spec fn nack_synthesis_ok(
    pre: Seq<DroneEffect>,
    post: Seq<DroneEffect>,
    senders: NeighborTable,
    hops: Seq<NodeId>,
    index: int,
    session_id: u64,
    nack: Nack,
    r: NackSendOutcome,
) -> bool {
    let rev = hops.subrange(0, index).reverse();
    let p = nack_packet_view(rev, session_id, nack);
    &&& ((r == NackSendOutcome::NoRoute) <==> index > hops.len())
    &&& (r == NackSendOutcome::NoRoute ==> post == pre)
    &&& (index <= hops.len() ==> if rev.len() < 2 {
        r == NackSendOutcome::NoNeighbor && post == pre
    } else {
        &&& ((r == NackSendOutcome::NoNeighbor) <==> !senders.contains_id(rev[1]))
        &&& shortcut_delta(pre, post, rev[1], p, r.as_forward())
    })
}

/// Some nack synthesis with these parameters happened between `pre` and
/// `post`, whatever its outcome.
pub open spec fn some_nack_synthesis(
    pre: Seq<DroneEffect>,
    post: Seq<DroneEffect>,
    senders: NeighborTable,
    hops: Seq<NodeId>,
    index: int,
    session_id: u64,
    nack: Nack,
) -> bool {
    exists|o: NackSendOutcome| nack_synthesis_ok(pre, post, senders, hops, index, session_id, nack, o)
}

/// Any outcome of a nack synthesis leaves the old log as a prefix.
pub proof fn lemma_nack_synthesis_prefix(
    pre: Seq<DroneEffect>,
    post: Seq<DroneEffect>,
    senders: NeighborTable,
    hops: Seq<NodeId>,
    index: int,
    session_id: u64,
    nack: Nack,
    o: NackSendOutcome,
)
    requires
        nack_synthesis_ok(pre, post, senders, hops, index, session_id, nack, o),
    ensures
        pre.is_prefix_of(post),
{
    let rev = hops.subrange(0, index).reverse();
    if o == NackSendOutcome::NoRoute {
        crate::drone::lemma_prefix_refl(pre);
    } else if rev.len() < 2 {
        crate::drone::lemma_prefix_refl(pre);
    } else {
        crate::drone::lemma_shortcut_prefix(
            pre,
            post,
            rev[1],
            nack_packet_view(rev, session_id, nack),
            o.as_forward(),
        );
    }
}

impl RustezeDrone {
    /// Forward an ack with the shortcut policy.
    pub fn send_ack(&mut self, dest: NodeId, packet: Packet) -> (r: ForwardOutcome)
        requires
            old(self).wf(),
            packet@.routing_header.current_hop() == Some(dest),
        ensures
            final(self).wf(),
            old(self).same_config(*final(self)),
            final(self).flood_history == old(self).flood_history,
            (r == ForwardOutcome::NoNeighbor) == !old(self).packet_senders.contains_id(dest),
            shortcut_delta(old(self).log(), final(self).log(), dest, packet@, r),
    {
        self.forward_with_shortcut(dest, packet)
    }

    /// Forward a nack with the shortcut policy.
    pub fn send_nack(&mut self, dest: NodeId, packet: Packet) -> (r: ForwardOutcome)
        requires
            old(self).wf(),
            packet@.routing_header.current_hop() == Some(dest),
        ensures
            final(self).wf(),
            old(self).same_config(*final(self)),
            final(self).flood_history == old(self).flood_history,
            (r == ForwardOutcome::NoNeighbor) == !old(self).packet_senders.contains_id(dest),
            shortcut_delta(old(self).log(), final(self).log(), dest, packet@, r),
    {
        self.forward_with_shortcut(dest, packet)
    }

    /// Build a nack over the reversed prefix `hops[0..index]` of
    /// `routing_header` and send it to the first hop back.
    pub fn build_send_nack(
        &mut self,
        index: usize,
        routing_header: &SourceRoutingHeader,
        session_id: u64,
        nack: Nack,
    ) -> (r: NackSendOutcome)
        requires
            old(self).wf(),
        ensures
            final(self).wf(),
            old(self).same_config(*final(self)),
            final(self).flood_history == old(self).flood_history,
            nack_synthesis_ok(
                old(self).log(),
                final(self).log(),
                old(self).packet_senders,
                routing_header@.hops,
                index as int,
                session_id,
                nack,
                r,
            ),
    {
        let sub = routing_header.sub_route(index);
        match sub {
            None => NackSendOutcome::NoRoute,
            Some(mut new_routing_header) => {
                new_routing_header.reverse();
                new_routing_header.hop_index = 1;
                let dest_opt = new_routing_header.current_hop();
                match dest_opt {
                    None => NackSendOutcome::NoNeighbor,
                    Some(dest) => {
                        let packet = Packet::new_nack(new_routing_header, session_id, nack);
                        match self.send_nack(dest, packet) {
                            ForwardOutcome::Delivered => NackSendOutcome::Delivered,
                            ForwardOutcome::ShortcutDelivered => NackSendOutcome::ShortcutDelivered,
                            ForwardOutcome::Lost => NackSendOutcome::Lost,
                            ForwardOutcome::NoNeighbor => NackSendOutcome::NoNeighbor,
                        }
                    },
                }
            },
        }
    }
}

} // verus!
