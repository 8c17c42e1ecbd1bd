//! The fragment path: a per-fragment stochastic drop decision, a `Dropped`
//! nack sent back on a drop, and a plain forward otherwise.  Fragments never
//! use the controller shortcut; their loss is answered by nacks alone.

use vstd::prelude::*;

use crate::drone::response_handler::{nack_synthesis_ok, NackSendOutcome};
use crate::drone::{forwarded_delta, DroneEffect, NeighborSend, RustezeDrone};
use crate::messages::{
    DroneEvent, DroneEventView, Nack, NackType, NodeId, Packet, PacketView, PDR_SCALE,
};
use crate::neighbors::NeighborTable;

verus! {

/// Relies on `rand::random`: one uniform `u32` from the thread-local
/// generator.  Nothing is assumed of the value.
#[verifier::external_body]
fn random_u32() -> u32 {
    rand::random()
}

/// Outcome of handling one fragment.
#[derive(Debug, Clone, Copy, PartialEq, Eq, Structural)]
pub enum FragmentOutcome {
    /// The next hop's channel took the fragment.
    Forwarded,
    /// The next hop's channel refused the fragment; it is lost, and the
    /// higher layers' retransmission is the only recourse.
    SendFailed,
    /// The drop lottery discarded the fragment; a `Dropped` nack went back
    /// with the recorded outcome.
    Dropped(NackSendOutcome),
}

/// Relation between the log before and after one fragment was handled, as
/// told by the outcome.  `p` is the fragment packet with its cursor already
/// on the next hop `dest`.
pub open spec fn fragment_delta(
    pre: Seq<DroneEffect>,
    post: Seq<DroneEffect>,
    senders: NeighborTable,
    dest: NodeId,
    p: PacketView,
    o: FragmentOutcome,
) -> bool {
    match o {
        FragmentOutcome::Forwarded => forwarded_delta(pre, post, dest, p),
        FragmentOutcome::SendFailed => post == pre.push(
            DroneEffect::ToNeighbor { dest, packet: p, accepted: false },
        ),
        FragmentOutcome::Dropped(no) => exists|b: bool|
            nack_synthesis_ok(
                pre.push(
                    DroneEffect::ToController {
                        event: DroneEventView::PacketDropped(p.receded()),
                        accepted: b,
                    },
                ),
                post,
                senders,
                p.routing_header.hops,
                p.routing_header.hop_index,
                p.session_id,
                Nack { fragment_index: p.fragment_index(), nack_type: NackType::Dropped },
                no,
            ),
    }
}

/// Any outcome of the fragment path leaves the old log as a prefix.
pub proof fn lemma_fragment_prefix(
    pre: Seq<DroneEffect>,
    post: Seq<DroneEffect>,
    senders: NeighborTable,
    dest: NodeId,
    p: PacketView,
    o: FragmentOutcome,
)
    requires
        fragment_delta(pre, post, senders, dest, p, o),
    ensures
        pre.is_prefix_of(post),
{
    match o {
        FragmentOutcome::Forwarded => {},
        FragmentOutcome::SendFailed => {
            crate::drone::lemma_prefix_push(
                pre,
                DroneEffect::ToNeighbor { dest, packet: p, accepted: false },
            );
        },
        FragmentOutcome::Dropped(no) => {
            let b = choose|b: bool|
                crate::drone::response_handler::nack_synthesis_ok(
                    pre.push(
                        DroneEffect::ToController {
                            event: DroneEventView::PacketDropped(p.receded()),
                            accepted: b,
                        },
                    ),
                    post,
                    senders,
                    p.routing_header.hops,
                    p.routing_header.hop_index,
                    p.session_id,
                    Nack { fragment_index: p.fragment_index(), nack_type: NackType::Dropped },
                    no,
                );
            let mid = pre.push(
                DroneEffect::ToController {
                    event: DroneEventView::PacketDropped(p.receded()),
                    accepted: b,
                },
            );
            crate::drone::lemma_prefix_push(
                pre,
                DroneEffect::ToController {
                    event: DroneEventView::PacketDropped(p.receded()),
                    accepted: b,
                },
            );
            crate::drone::response_handler::lemma_nack_synthesis_prefix(
                mid,
                post,
                senders,
                p.routing_header.hops,
                p.routing_header.hop_index,
                p.session_id,
                Nack { fragment_index: p.fragment_index(), nack_type: NackType::Dropped },
                no,
            );
            crate::drone::lemma_prefix_trans(pre, mid, post);
        },
    }
}

impl RustezeDrone {
    /// Draw the drop lottery: whether the next fragment is to be dropped.
    /// A rate of zero never drops, a rate of the full scale always does.
    pub(crate) fn to_drop(&self) -> (r: bool)
        ensures
            self.pdr.scaled == 0 ==> !r,
            self.pdr.scaled == PDR_SCALE ==> r,
    {
        let random_value = random_u32();
        self.pdr.scaled > random_value as u64
    }

    /// Handle one fragment whose cursor already points at next hop `dest`:
    /// draw the drop lottery, and either report the drop and send a
    /// `Dropped` nack back, or forward the fragment.
    pub fn send_fragment(&mut self, dest: NodeId, packet: Packet) -> (r: FragmentOutcome)
        requires
            old(self).wf(),
            packet@.is_fragment(),
            packet@.routing_header.current_hop() == Some(dest),
            packet@.routing_header.hop_index >= 1,
            old(self).packet_senders.contains_id(dest),
        ensures
            final(self).wf(),
            old(self).same_config(*final(self)),
            final(self).flood_history == old(self).flood_history,
            fragment_delta(
                old(self).log(),
                final(self).log(),
                old(self).packet_senders,
                dest,
                packet@,
                r,
            ),
            old(self).pdr.scaled == 0 ==> !(r is Dropped),
            old(self).pdr.scaled == PDR_SCALE ==> r is Dropped,
    {
        if self.to_drop() {
            let mut packet = packet;
            packet.routing_header.decrease_hop_index();
            let b = self.event_dispatcher(DroneEvent::PacketDropped(packet.clone()));
            let index = packet.routing_header.hop_index + 1;
            let fragment_index = packet.get_fragment_index();
            let outcome = self.build_send_nack(
                index,
                &packet.routing_header,
                packet.session_id,
                Nack { fragment_index, nack_type: NackType::Dropped },
            );
            FragmentOutcome::Dropped(outcome)
        } else {
            match self.forward_to_neighbor(dest, packet) {
                NeighborSend::Accepted => FragmentOutcome::Forwarded,
                NeighborSend::Refused => FragmentOutcome::SendFailed,
                NeighborSend::NoChannel => {
                    proof {
                        assert(false);
                    }
                    FragmentOutcome::SendFailed
                },
            }
        }
    }
}

} // verus!
