//! The drone itself: its state, the ghost record of everything it has put on
//! a channel, the invariants of that record, and the emission primitives all
//! handlers go through.
//!
//! Every outbound message is appended to `emitted`, a ghost sequence of
//! [`DroneEffect`] values, beside the real channel operation.  Two invariants
//! hold of that record in every reachable state:
//! - every packet handed to a neighbor channel under a source route carries
//!   that neighbor at its routing cursor (flood requests travel without a
//!   route);
//! - every accepted forward is immediately followed by a `PacketSent` event
//!   offered to the simulation controller, carrying the same packet.

pub mod flood_handler;
pub mod packet_handler;
pub mod fragment_handler;
pub mod response_handler;
pub mod sc_handler;

use vstd::prelude::*;

use crate::messages::{DroneEvent, DroneEventView, NodeId, Packet, PacketDropRate, PacketView};
use crate::neighbors::NeighborTable;
use crate::packet_send::{sc_send_packet, send_packet};

verus! {

/// One outbound channel operation, as recorded in the drone's ghost log.
#[verifier::ext_equal]
pub enum DroneEffect {
    /// A packet was offered to the channel toward neighbor `dest`;
    /// `accepted` tells whether the channel took it.
    ToNeighbor { dest: NodeId, packet: PacketView, accepted: bool },
    /// An event was offered to the simulation controller's channel.
    ToController { event: DroneEventView, accepted: bool },
}

/// A packet offered to a neighbor carries that neighbor at its routing
/// cursor; flood requests are exempt, travelling with an empty route.
pub open spec fn effect_well_routed(e: DroneEffect) -> bool {
    match e {
        DroneEffect::ToNeighbor { dest, packet, accepted } => packet.is_flood_request()
            || packet.routing_header.current_hop() == Some(dest),
        DroneEffect::ToController { .. } => true,
    }
}

/// Every entry of the log is well routed.
pub open spec fn all_well_routed(log: Seq<DroneEffect>) -> bool {
    forall|i: int| 0 <= i < log.len() ==> effect_well_routed(#[trigger] log[i])
}

/// Whether this effect is a forward that the neighbor channel accepted.
pub open spec fn is_accepted_forward(e: DroneEffect) -> bool {
    e matches DroneEffect::ToNeighbor { accepted: true, .. }
}

/// Whether `e` is the `PacketSent` report matching the forward `f`.
pub open spec fn reports_forward(f: DroneEffect, e: DroneEffect) -> bool {
    match f {
        DroneEffect::ToNeighbor { dest, packet, accepted } => e matches DroneEffect::ToController {
            event: DroneEventView::PacketSent(p),
            ..
        } && p == packet,
        DroneEffect::ToController { .. } => true,
    }
}

/// Every accepted forward is immediately followed by a `PacketSent` event
/// carrying the same packet.
pub open spec fn forwards_reported(log: Seq<DroneEffect>) -> bool {
    forall|i: int|
        0 <= i < log.len() && is_accepted_forward(#[trigger] log[i]) ==> i + 1 < log.len()
            && reports_forward(log[i], log[i + 1])
}

/// The log grew by exactly the two entries of an accepted forward: the
/// packet taken by `dest`'s channel, then its `PacketSent` report.
pub open spec fn forwarded_delta(
    pre: Seq<DroneEffect>,
    post: Seq<DroneEffect>,
    dest: NodeId,
    p: PacketView,
) -> bool {
    &&& post.len() == pre.len() + 2
    &&& pre.is_prefix_of(post)
    &&& post[pre.len() as int] == (DroneEffect::ToNeighbor { dest, packet: p, accepted: true })
    &&& (post[pre.len() as int + 1] matches DroneEffect::ToController {
        event: DroneEventView::PacketSent(q),
        ..
    } && q == p)
}

/// Outcome of offering a packet to one neighbor channel.
#[derive(Debug, Clone, Copy, PartialEq, Eq, Structural)]
pub enum NeighborSend {
    /// The channel took the packet.
    Accepted,
    /// The channel exists but its receiver is gone.
    Refused,
    /// No neighbor of that id.
    NoChannel,
}

/// Outcome of the forward-with-shortcut policy for control packets.
#[derive(Debug, Clone, Copy, PartialEq, Eq, Structural)]
pub enum ForwardOutcome {
    /// The neighbor channel took the packet.
    Delivered,
    /// The neighbor channel refused it; the controller accepted it as a
    /// shortcut.
    ShortcutDelivered,
    /// Neither the neighbor nor the controller could be reached.
    Lost,
    /// The destination is not a neighbor; nothing was attempted.
    NoNeighbor,
}

/// The log grew by the effects of the forward-with-shortcut policy, as told
/// by its outcome.
pub open spec fn shortcut_delta(
    pre: Seq<DroneEffect>,
    post: Seq<DroneEffect>,
    dest: NodeId,
    p: PacketView,
    o: ForwardOutcome,
) -> bool {
    match o {
        ForwardOutcome::Delivered => forwarded_delta(pre, post, dest, p),
        ForwardOutcome::ShortcutDelivered => {
            &&& post.len() == pre.len() + 3
            &&& pre.is_prefix_of(post)
            &&& post[pre.len() as int] == (DroneEffect::ToNeighbor {
                dest,
                packet: p,
                accepted: false,
            })
            &&& post[pre.len() as int + 1] == (DroneEffect::ToController {
                event: DroneEventView::ControllerShortcut(p),
                accepted: true,
            })
            &&& (post[pre.len() as int + 2] matches DroneEffect::ToController {
                event: DroneEventView::PacketSent(q),
                ..
            } && q == p)
        },
        ForwardOutcome::Lost => {
            &&& post.len() == pre.len() + 2
            &&& pre.is_prefix_of(post)
            &&& post[pre.len() as int] == (DroneEffect::ToNeighbor {
                dest,
                packet: p,
                accepted: false,
            })
            &&& post[pre.len() as int + 1] == (DroneEffect::ToController {
                event: DroneEventView::ControllerShortcut(p),
                accepted: false,
            })
        },
        ForwardOutcome::NoNeighbor => post == pre,
    }
}

/// The log grew by a controller-shortcut attempt alone — no neighbor channel
/// was tried, because none reaches the destination.  The packet is offered
/// to the controller out of band; on acceptance its `PacketSent` report
/// follows, as in the shortcut policy's tail.
pub open spec fn controller_shortcut_delta(
    pre: Seq<DroneEffect>,
    post: Seq<DroneEffect>,
    p: PacketView,
    o: ForwardOutcome,
) -> bool {
    match o {
        ForwardOutcome::ShortcutDelivered => {
            &&& post.len() == pre.len() + 2
            &&& pre.is_prefix_of(post)
            &&& post[pre.len() as int] == (DroneEffect::ToController {
                event: DroneEventView::ControllerShortcut(p),
                accepted: true,
            })
            &&& (post[pre.len() as int + 1] matches DroneEffect::ToController {
                event: DroneEventView::PacketSent(q),
                ..
            } && q == p)
        },
        ForwardOutcome::Lost => post == pre.push(
            DroneEffect::ToController {
                event: DroneEventView::ControllerShortcut(p),
                accepted: false,
            },
        ),
        _ => false,
    }
}

/// A bare controller-shortcut attempt leaves the old log as a prefix.
pub proof fn lemma_controller_shortcut_prefix(
    pre: Seq<DroneEffect>,
    post: Seq<DroneEffect>,
    p: PacketView,
    o: ForwardOutcome,
)
    requires
        controller_shortcut_delta(pre, post, p, o),
    ensures
        pre.is_prefix_of(post),
{
    if o == ForwardOutcome::Lost {
        lemma_prefix_push(
            pre,
            DroneEffect::ToController {
                event: DroneEventView::ControllerShortcut(p),
                accepted: false,
            },
        );
    }
}

/// Record of the floods this drone has already answered or propagated, as
/// `(initiator id, flood id)` pairs in arrival order.  Entries are only ever
/// appended.
pub struct FloodHistory {
    pub entries: Vec<(NodeId, u64)>,
}

impl View for FloodHistory {
    type V = Seq<(NodeId, u64)>;

    open spec fn view(&self) -> Seq<(NodeId, u64)> {
        self.entries@
    }
}

impl FloodHistory {
    /// Whether this flood has been seen before.
    pub open spec fn contains_key(self, initiator_id: NodeId, flood_id: u64) -> bool {
        exists|i: int| 0 <= i < self@.len() && self@[i] == (initiator_id, flood_id)
    }

    pub fn new() -> (r: Self)
        ensures
            r@ == Seq::<(NodeId, u64)>::empty(),
    {
        let entries: Vec<(NodeId, u64)> = Vec::new();
        proof {
            assert(entries@ =~= Seq::<(NodeId, u64)>::empty());
        }
        FloodHistory { entries }
    }

    /// Whether this flood has been seen before.
    #[verifier::loop_isolation(false)]
    pub fn contains(&self, initiator_id: NodeId, flood_id: u64) -> (r: bool)
        ensures
            r == self.contains_key(initiator_id, flood_id),
    {
        let mut i: usize = 0;
        while i < self.entries.len()
            invariant
                i <= self.entries.len(),
                forall|k: int| 0 <= k < i ==> self@[k] != (initiator_id, flood_id),
            decreases self.entries.len() - i,
        {
            let e = self.entries[i];
            if e.0 == initiator_id && e.1 == flood_id {
                proof {
                    assert(self@[i as int] == (initiator_id, flood_id));
                }
                return true;
            }
            i = i + 1;
        }
        false
    }

    /// Record this flood; an already-known flood leaves the record unchanged
    /// and reports `false`.
    pub fn insert(&mut self, initiator_id: NodeId, flood_id: u64) -> (is_new: bool)
        ensures
            is_new == !old(self).contains_key(initiator_id, flood_id),
            is_new ==> final(self)@ == old(self)@.push((initiator_id, flood_id)),
            !is_new ==> *final(self) == *old(self),
            final(self).contains_key(initiator_id, flood_id),
            old(self)@.is_prefix_of(final(self)@),
    {
        if self.contains(initiator_id, flood_id) {
            proof {
                assert(self@.is_prefix_of(self@)) by {
                    assert(self@ =~= self@.subrange(0, self@.len() as int));
                }
            }
            return false;
        }
        self.entries.push((initiator_id, flood_id));
        proof {
            let n = old(self)@.len() as int;
            assert(self@[n] == (initiator_id, flood_id));
            assert(old(self)@.is_prefix_of(self@)) by {
                assert(old(self)@ =~= self@.subrange(0, n));
            }
        }
        true
    }
}

/// A source-routed packet-switching node.
pub struct RustezeDrone {
    /// This drone's own id; fixed at construction.
    pub id: NodeId,
    /// Per-fragment drop probability.
    pub pdr: PacketDropRate,
    /// Channels toward the drone's direct neighbors.
    pub packet_senders: NeighborTable,
    /// Channel toward the simulation controller.
    pub controller_send: crossbeam::channel::Sender<DroneEvent>,
    /// Set once by the `Crash` command, never reset.
    pub terminated: bool,
    /// Floods already answered or propagated.
    pub flood_history: FloodHistory,
    /// Ghost record of every outbound channel operation, in order.
    pub emitted: Ghost<Seq<DroneEffect>>,
}

impl RustezeDrone {
    /// Everything the drone has put on a channel so far.
    pub open spec fn log(&self) -> Seq<DroneEffect> {
        self.emitted@
    }

    /// Well-formed drone: unique neighbor ids, a drop rate within scale, and
    /// an emission record obeying the two routing/reporting invariants.
    pub open spec fn wf(&self) -> bool {
        &&& self.packet_senders.wf()
        &&& self.pdr.wf()
        &&& all_well_routed(self.log())
        &&& forwards_reported(self.log())
    }

    /// Everything except the flood history and the emission record is the
    /// same in `post` as in `self`.
    pub open spec fn same_config(self, post: Self) -> bool {
        &&& post.id == self.id
        &&& post.pdr == self.pdr
        &&& post.packet_senders == self.packet_senders
        &&& post.controller_send == self.controller_send
        &&& post.terminated == self.terminated
    }

    pub fn new(
        id: NodeId,
        controller_send: crossbeam::channel::Sender<DroneEvent>,
        packet_send: NeighborTable,
        pdr: PacketDropRate,
    ) -> (r: Self)
        requires
            packet_send.wf(),
            pdr.wf(),
        ensures
            r.wf(),
            r.id == id,
            r.pdr == pdr,
            r.packet_senders == packet_send,
            r.controller_send == controller_send,
            !r.terminated,
            r.flood_history@ == Seq::<(NodeId, u64)>::empty(),
            r.log() == Seq::<DroneEffect>::empty(),
    {
        RustezeDrone {
            id,
            pdr,
            packet_senders: packet_send,
            controller_send,
            terminated: false,
            flood_history: FloodHistory::new(),
            emitted: Ghost(Seq::empty()),
        }
    }

    /// The `NodeId` of the drone.
    pub fn get_id(&self) -> (r: NodeId)
        ensures
            r == self.id,
    {
        self.id
    }

    /// Offer an event to the simulation controller's channel and record it.
    pub fn event_dispatcher(&mut self, event: DroneEvent) -> (ok: bool)
        ensures
            old(self).same_config(*final(self)),
            final(self).flood_history == old(self).flood_history,
            final(self).log() == old(self).log().push(
                DroneEffect::ToController { event: event@, accepted: ok },
            ),
            old(self).wf() ==> final(self).wf(),
    {
        let ok = match sc_send_packet(&self.controller_send, &event) {
            Ok(()) => true,
            Err(_) => false,
        };
        self.emitted = Ghost(
            self.emitted@.push(DroneEffect::ToController { event: event@, accepted: ok }),
        );
        proof {
            if old(self).wf() {
                lemma_log_push_controller(old(self).log(), event@, ok);
            }
        }
        ok
    }

    /// Offer a packet to the channel toward neighbor `dest` and record the
    /// attempt; an accepted forward is reported to the controller at once.
    pub fn forward_to_neighbor(&mut self, dest: NodeId, packet: Packet) -> (r: NeighborSend)
        requires
            old(self).wf(),
            packet@.is_flood_request() || packet@.routing_header.current_hop() == Some(dest),
        ensures
            final(self).wf(),
            old(self).same_config(*final(self)),
            final(self).flood_history == old(self).flood_history,
            (r == NeighborSend::NoChannel) == !old(self).packet_senders.contains_id(dest),
            r == NeighborSend::NoChannel ==> final(self).log() == old(self).log(),
            r == NeighborSend::Accepted ==> forwarded_delta(
                old(self).log(),
                final(self).log(),
                dest,
                packet@,
            ),
            r == NeighborSend::Refused ==> final(self).log() == old(self).log().push(
                DroneEffect::ToNeighbor { dest, packet: packet@, accepted: false },
            ),
    {
        let accepted: bool;
        match self.packet_senders.get_sender(dest) {
            Some(s) => {
                accepted = match send_packet(s, &packet) {
                    Ok(()) => true,
                    Err(_) => false,
                };
            },
            None => {
                return NeighborSend::NoChannel;
            },
        }
        self.emitted = Ghost(
            self.emitted@.push(DroneEffect::ToNeighbor { dest, packet: packet@, accepted }),
        );
        if accepted {
            let _ = self.event_dispatcher(DroneEvent::PacketSent(packet));
            proof {
                assert(forwarded_delta(old(self).log(), self.log(), dest, packet@));
                lemma_log_forwarded(old(self).log(), self.log(), dest, packet@);
            }
            NeighborSend::Accepted
        } else {
            proof {
                lemma_log_push_refused_like(
                    old(self).log(),
                    DroneEffect::ToNeighbor { dest, packet: packet@, accepted: false },
                );
            }
            NeighborSend::Refused
        }
    }

    /// Offer a control packet that no neighbor channel can reach to the
    /// controller out of band; on acceptance its `PacketSent` report follows.
    pub fn shortcut_to_controller(&mut self, packet: Packet) -> (r: ForwardOutcome)
        requires
            old(self).wf(),
        ensures
            final(self).wf(),
            old(self).same_config(*final(self)),
            final(self).flood_history == old(self).flood_history,
            r == ForwardOutcome::ShortcutDelivered || r == ForwardOutcome::Lost,
            controller_shortcut_delta(old(self).log(), final(self).log(), packet@, r),
    {
        let sc_ok = self.event_dispatcher(DroneEvent::ControllerShortcut(packet.clone()));
        if sc_ok {
            let _ = self.event_dispatcher(DroneEvent::PacketSent(packet));
            ForwardOutcome::ShortcutDelivered
        } else {
            ForwardOutcome::Lost
        }
    }

    /// Forward a control packet with the shortcut policy: on a refused
    /// neighbor send, offer the packet to the controller out of band.
    pub fn forward_with_shortcut(&mut self, dest: NodeId, packet: Packet) -> (r: ForwardOutcome)
        requires
            old(self).wf(),
            packet@.routing_header.current_hop() == Some(dest),
        ensures
            final(self).wf(),
            old(self).same_config(*final(self)),
            final(self).flood_history == old(self).flood_history,
            (r == ForwardOutcome::NoNeighbor) == !old(self).packet_senders.contains_id(dest),
            shortcut_delta(old(self).log(), final(self).log(), dest, packet@, r),
    {
        match self.forward_to_neighbor(dest, packet.clone()) {
            NeighborSend::Accepted => ForwardOutcome::Delivered,
            NeighborSend::NoChannel => ForwardOutcome::NoNeighbor,
            NeighborSend::Refused => {
                let sc_ok = self.event_dispatcher(
                    DroneEvent::ControllerShortcut(packet.clone()),
                );
                if sc_ok {
                    let _ = self.event_dispatcher(DroneEvent::PacketSent(packet));
                    ForwardOutcome::ShortcutDelivered
                } else {
                    ForwardOutcome::Lost
                }
            },
        }
    }
}

/// Law: a packet this drone has offered to a neighbor channel carries that
/// neighbor at its routing cursor — except flood requests, which travel
/// without a source route.
pub proof fn lemma_emissions_well_routed(d: &RustezeDrone, i: int)
    requires
        d.wf(),
        0 <= i < d.log().len(),
    ensures
        effect_well_routed(d.log()[i]),
{
}

/// Law: every forward a neighbor channel accepted is followed at once by a
/// `PacketSent` event toward the controller, carrying the same packet.
pub proof fn lemma_every_forward_reported(d: &RustezeDrone, i: int)
    requires
        d.wf(),
        0 <= i < d.log().len(),
        is_accepted_forward(d.log()[i]),
    ensures
        i + 1 < d.log().len(),
        reports_forward(d.log()[i], d.log()[i + 1]),
{
}

/// Law: the flood history only grows.  Whenever a handler leaves the old
/// history as a prefix of the new one — as the dispatcher guarantees — every
/// recorded flood stays recorded.
pub proof fn lemma_flood_history_monotone(
    pre: Seq<(NodeId, u64)>,
    post: Seq<(NodeId, u64)>,
    initiator_id: NodeId,
    flood_id: u64,
)
    requires
        pre.is_prefix_of(post),
        exists|i: int| 0 <= i < pre.len() && pre[i] == (initiator_id, flood_id),
    ensures
        exists|i: int| 0 <= i < post.len() && post[i] == (initiator_id, flood_id),
{
    let w = choose|i: int| 0 <= i < pre.len() && pre[i] == (initiator_id, flood_id);
    assert(pre[w] == pre.subrange(0, pre.len() as int)[w]);
    assert(post[w] == (initiator_id, flood_id));
}

/// Every sequence is a prefix of itself.
pub proof fn lemma_prefix_refl<A>(s: Seq<A>)
    ensures
        s.is_prefix_of(s),
{
    assert(s =~= s.subrange(0, s.len() as int));
}

/// Appending an element keeps the old sequence as a prefix.
pub proof fn lemma_prefix_push<A>(s: Seq<A>, e: A)
    ensures
        s.is_prefix_of(s.push(e)),
{
    assert(s =~= s.push(e).subrange(0, s.len() as int));
}

/// Being a prefix is transitive.
pub proof fn lemma_prefix_trans<A>(a: Seq<A>, b: Seq<A>, c: Seq<A>)
    requires
        a.is_prefix_of(b),
        b.is_prefix_of(c),
    ensures
        a.is_prefix_of(c),
{
    assert forall|i: int| 0 <= i < a.len() implies a[i] == c[i] by {
        assert(a[i] == b.subrange(0, a.len() as int)[i]);
        assert(b[i] == c.subrange(0, b.len() as int)[i]);
    }
    assert(a =~= c.subrange(0, a.len() as int));
}

/// Any outcome of the shortcut policy leaves the old log as a prefix.
pub proof fn lemma_shortcut_prefix(
    pre: Seq<DroneEffect>,
    post: Seq<DroneEffect>,
    dest: NodeId,
    p: PacketView,
    o: ForwardOutcome,
)
    requires
        shortcut_delta(pre, post, dest, p, o),
    ensures
        pre.is_prefix_of(post),
{
    if o == ForwardOutcome::NoNeighbor {
        lemma_prefix_refl(pre);
    }
}

/// Appending a controller event keeps the log invariants.
pub proof fn lemma_log_push_controller(log: Seq<DroneEffect>, e: DroneEventView, b: bool)
    requires
        all_well_routed(log),
        forwards_reported(log),
    ensures
        all_well_routed(log.push(DroneEffect::ToController { event: e, accepted: b })),
        forwards_reported(log.push(DroneEffect::ToController { event: e, accepted: b })),
{
    let post = log.push(DroneEffect::ToController { event: e, accepted: b });
    assert forall|i: int|
        0 <= i < post.len() && is_accepted_forward(#[trigger] post[i]) implies i + 1 < post.len()
        && reports_forward(post[i], post[i + 1]) by {
        if i < log.len() {
            assert(post[i] == log[i]);
            assert(i + 1 < log.len());
            assert(post[i + 1] == log[i + 1]);
        }
    }
}

/// Appending an effect that is not an accepted forward keeps the log
/// invariants, provided it is well routed.
pub proof fn lemma_log_push_refused_like(log: Seq<DroneEffect>, e: DroneEffect)
    requires
        all_well_routed(log),
        forwards_reported(log),
        effect_well_routed(e),
    ensures
        all_well_routed(log.push(e)),
        !is_accepted_forward(e) ==> forwards_reported(log.push(e)),
{
    let post = log.push(e);
    if !is_accepted_forward(e) {
        assert forall|i: int|
            0 <= i < post.len() && is_accepted_forward(#[trigger] post[i]) implies i + 1
            < post.len() && reports_forward(post[i], post[i + 1]) by {
            if i < log.len() {
                assert(post[i] == log[i]);
                assert(i + 1 < log.len());
                assert(post[i + 1] == log[i + 1]);
            }
        }
    }
}

/// Appending the two entries of an accepted forward keeps the log
/// invariants.
pub proof fn lemma_log_forwarded(
    pre: Seq<DroneEffect>,
    post: Seq<DroneEffect>,
    dest: NodeId,
    p: PacketView,
)
    requires
        all_well_routed(pre),
        forwards_reported(pre),
        forwarded_delta(pre, post, dest, p),
        p.is_flood_request() || p.routing_header.current_hop() == Some(dest),
    ensures
        all_well_routed(post),
        forwards_reported(post),
{
    assert forall|i: int| 0 <= i < post.len() implies effect_well_routed(#[trigger] post[i]) by {
        if i < pre.len() {
            assert(post[i] == pre[i]);
        }
    }
    assert forall|i: int|
        0 <= i < post.len() && is_accepted_forward(#[trigger] post[i]) implies i + 1 < post.len()
        && reports_forward(post[i], post[i + 1]) by {
        if i < pre.len() {
            assert(post[i] == pre[i]);
            assert(i + 1 < pre.len());
            assert(post[i + 1] == pre[i + 1]);
        }
    }
}

} // verus!
