//! Controller commands, the crash protocol, the controller shortcut, the
//! remaining nack variants, and the packet and header operations.

use crossbeam::channel::unbounded;
use rusteze_drone::messages::{
    DroneCommand, DroneEvent, Fragment, Nack, NackType, NodeType, Packet, PacketDropRate,
    SourceRoutingHeader, FloodRequest, PDR_SCALE,
};
use rusteze_drone::neighbors::NeighborTable;
use rusteze_drone::packet_send::{get_sender, sc_send_packet, send_nack};
use rusteze_drone::RustezeDrone;

fn create_sample_packet() -> Packet {
    Packet::new_fragment(
        SourceRoutingHeader { hop_index: 1, hops: vec![1, 11, 12, 21] },
        1,
        Fragment { fragment_index: 1, total_n_fragments: 1, length: 128, data: [1; 128] },
    )
}

#[test]
fn add_sender_connects_a_neighbor() {
    let (d2_send, d2_recv) = unbounded::<Packet>();
    let (d_event_send, _d_event_recv) = unbounded::<DroneEvent>();

    let mut drone = RustezeDrone::new(
        11,
        d_event_send,
        NeighborTable::new(),
        PacketDropRate::new(0),
    );
    drone.command_dispatcher(DroneCommand::AddSender(12, d2_send));

    let mut msg = create_sample_packet();
    drone.packet_dispatcher(msg.clone());
    msg.routing_header.hop_index = 2;
    assert_eq!(d2_recv.try_recv().unwrap(), msg);
}

#[test]
fn add_sender_duplicate_changes_nothing() {
    let (d2_send, d2_recv) = unbounded::<Packet>();
    let (other_send, other_recv) = unbounded::<Packet>();
    let (d_event_send, _d_event_recv) = unbounded::<DroneEvent>();

    let mut senders = NeighborTable::new();
    senders.insert(12, d2_send);
    let mut drone = RustezeDrone::new(11, d_event_send, senders, PacketDropRate::new(0));

    // A second sender under the same id is refused: the old channel stays.
    drone.command_dispatcher(DroneCommand::AddSender(12, other_send));
    drone.packet_dispatcher(create_sample_packet());

    assert!(d2_recv.try_recv().is_ok());
    assert!(other_recv.try_recv().is_err());
}

#[test]
fn remove_sender_disconnects() {
    let (c_send, c_recv) = unbounded::<Packet>();
    let (d2_send, d2_recv) = unbounded::<Packet>();
    let (d_event_send, _d_event_recv) = unbounded::<DroneEvent>();

    let mut senders = NeighborTable::new();
    senders.insert(12, d2_send);
    senders.insert(1, c_send);
    let mut drone = RustezeDrone::new(11, d_event_send, senders, PacketDropRate::new(0));

    drone.command_dispatcher(DroneCommand::RemoveSender(12));
    // The next hop is gone: the fragment is answered with ErrorInRouting.
    drone.packet_dispatcher(create_sample_packet());

    assert!(d2_recv.try_recv().is_err());
    assert_eq!(
        c_recv.try_recv().unwrap(),
        Packet::new_nack(
            SourceRoutingHeader { hop_index: 1, hops: vec![11, 1] },
            1,
            Nack { fragment_index: 1, nack_type: NackType::ErrorInRouting(12) },
        )
    );
}

#[test]
fn remove_sender_unknown_changes_nothing() {
    let (d2_send, d2_recv) = unbounded::<Packet>();
    let (d_event_send, _d_event_recv) = unbounded::<DroneEvent>();

    let mut senders = NeighborTable::new();
    senders.insert(12, d2_send);
    let mut drone = RustezeDrone::new(11, d_event_send, senders, PacketDropRate::new(0));

    // Removing an id that is no neighbor is refused; forwarding still works.
    drone.command_dispatcher(DroneCommand::RemoveSender(13));
    drone.packet_dispatcher(create_sample_packet());
    assert!(d2_recv.try_recv().is_ok());
}

#[test]
fn get_sender_finds_only_neighbors() {
    let (d2_send, d2_recv) = unbounded::<Packet>();
    let mut senders = NeighborTable::new();
    senders.insert(12, d2_send);

    let found = get_sender(12, &senders).unwrap();
    found.send(create_sample_packet()).unwrap();
    assert!(d2_recv.try_recv().is_ok());
    assert!(get_sender(13, &senders).is_err());
}

#[test]
fn set_packet_drop_rate_takes_effect() {
    let (c_send, c_recv) = unbounded::<Packet>();
    let (d2_send, d2_recv) = unbounded::<Packet>();
    let (d_event_send, _d_event_recv) = unbounded::<DroneEvent>();

    let mut senders = NeighborTable::new();
    senders.insert(12, d2_send);
    senders.insert(1, c_send);
    let mut drone = RustezeDrone::new(11, d_event_send, senders, PacketDropRate::new(0));

    drone.packet_dispatcher(create_sample_packet());
    assert!(d2_recv.try_recv().is_ok());

    drone.command_dispatcher(DroneCommand::SetPacketDropRate(PacketDropRate::new(PDR_SCALE)));
    drone.packet_dispatcher(create_sample_packet());
    assert!(d2_recv.try_recv().is_err());
    assert!(c_recv.try_recv().is_ok());
}

#[test]
fn crash_drops_floods_and_nacks_fragments() {
    let (c_send, c_recv) = unbounded::<Packet>();
    let (d2_send, d2_recv) = unbounded::<Packet>();
    let (d_event_send, _d_event_recv) = unbounded::<DroneEvent>();

    let mut senders = NeighborTable::new();
    senders.insert(12, d2_send);
    senders.insert(1, c_send);
    let mut drone = RustezeDrone::new(11, d_event_send, senders, PacketDropRate::new(0));

    drone.command_dispatcher(DroneCommand::Crash);

    // A flood request is silently ignored.
    let flood = Packet::new_flood_request(
        SourceRoutingHeader { hop_index: 0, hops: Vec::new() },
        1,
        FloodRequest { flood_id: 1, initiator_id: 1, path_trace: vec![(1, NodeType::Client)] },
    );
    drone.packet_dispatcher(flood);
    assert!(c_recv.try_recv().is_err());
    assert!(d2_recv.try_recv().is_err());
    assert!(!drone.flood_history.contains(1, 1));

    // A fragment still in flight becomes a routing error.
    drone.packet_dispatcher(create_sample_packet());
    assert!(d2_recv.try_recv().is_err());
    assert_eq!(
        c_recv.try_recv().unwrap(),
        Packet::new_nack(
            SourceRoutingHeader { hop_index: 1, hops: vec![11, 1] },
            1,
            Nack { fragment_index: 1, nack_type: NackType::ErrorInRouting(11) },
        )
    );

    // An ack in flight is still forwarded during the drain.
    let mut ack = Packet::new_ack(
        SourceRoutingHeader { hop_index: 1, hops: vec![21, 11, 12] },
        1,
        1,
    );
    drone.packet_dispatcher(ack.clone());
    ack.routing_header.hop_index = 2;
    assert_eq!(d2_recv.try_recv().unwrap(), ack);
}

#[test]
fn add_sender_after_crash_has_no_effect() {
    let (d2_send, d2_recv) = unbounded::<Packet>();
    let (d_event_send, _d_event_recv) = unbounded::<DroneEvent>();

    let mut drone = RustezeDrone::new(
        11,
        d_event_send,
        NeighborTable::new(),
        PacketDropRate::new(0),
    );
    drone.command_dispatcher(DroneCommand::Crash);
    drone.command_dispatcher(DroneCommand::AddSender(12, d2_send));

    // 12 never became a neighbor: nothing is forwarded to it.
    drone.packet_dispatcher(create_sample_packet());
    assert!(d2_recv.try_recv().is_err());
}

#[test]
fn shortcut_when_neighbor_is_gone() {
    let (d2_send, d2_recv) = unbounded::<Packet>();
    let (d_event_send, d_event_recv) = unbounded::<DroneEvent>();
    drop(d2_recv);

    let mut senders = NeighborTable::new();
    senders.insert(12, d2_send);
    let mut drone = RustezeDrone::new(11, d_event_send, senders, PacketDropRate::new(0));

    let mut ack = Packet::new_ack(
        SourceRoutingHeader { hop_index: 1, hops: vec![1, 11, 12] },
        1,
        1,
    );
    drone.packet_dispatcher(ack.clone());
    ack.routing_header.hop_index = 2;

    // The dead neighbor channel makes the ack take the controller shortcut.
    assert_eq!(
        d_event_recv.try_recv().unwrap(),
        DroneEvent::ControllerShortcut(ack.clone())
    );
    assert_eq!(d_event_recv.try_recv().unwrap(), DroneEvent::PacketSent(ack));
}

#[test]
fn shortcut_when_next_hop_unknown() {
    // An ack whose next hop is no neighbor is not dropped: it goes to the
    // controller out of band.
    let (c_send, c_recv) = unbounded::<Packet>();
    let (d_event_send, d_event_recv) = unbounded::<DroneEvent>();

    let mut senders = NeighborTable::new();
    senders.insert(1, c_send);
    let mut drone = RustezeDrone::new(11, d_event_send, senders, PacketDropRate::new(0));

    let mut ack = Packet::new_ack(
        SourceRoutingHeader { hop_index: 1, hops: vec![21, 11, 12] },
        1,
        1,
    );
    drone.packet_dispatcher(ack.clone());
    ack.routing_header.hop_index = 2;

    assert!(c_recv.try_recv().is_err());
    assert_eq!(
        d_event_recv.try_recv().unwrap(),
        DroneEvent::ControllerShortcut(ack.clone())
    );
    assert_eq!(d_event_recv.try_recv().unwrap(), DroneEvent::PacketSent(ack));
}

#[test]
fn unexpected_recipient_nack() {
    let (c_send, c_recv) = unbounded::<Packet>();
    let (d_event_send, _d_event_recv) = unbounded::<DroneEvent>();

    let mut senders = NeighborTable::new();
    senders.insert(1, c_send);
    let mut drone = RustezeDrone::new(13, d_event_send, senders, PacketDropRate::new(0));

    // The route says drone 11 should hold this packet, but 13 got it.
    let msg = Packet::new_fragment(
        SourceRoutingHeader { hop_index: 1, hops: vec![1, 11, 12, 21] },
        1,
        Fragment { fragment_index: 1, total_n_fragments: 1, length: 128, data: [1; 128] },
    );
    drone.packet_dispatcher(msg);

    assert_eq!(
        c_recv.try_recv().unwrap(),
        Packet::new_nack(
            SourceRoutingHeader { hop_index: 1, hops: vec![11, 1] },
            1,
            Nack { fragment_index: 1, nack_type: NackType::UnexpectedRecipient(13) },
        )
    );
}

#[test]
fn missing_current_hop_nack() {
    let (c_send, c_recv) = unbounded::<Packet>();
    let (d_event_send, _d_event_recv) = unbounded::<DroneEvent>();

    let mut senders = NeighborTable::new();
    senders.insert(1, c_send);
    let mut drone = RustezeDrone::new(11, d_event_send, senders, PacketDropRate::new(0));

    // The cursor points one past the route's end.
    let msg = Packet::new_fragment(
        SourceRoutingHeader { hop_index: 2, hops: vec![1, 11] },
        1,
        Fragment { fragment_index: 1, total_n_fragments: 1, length: 128, data: [1; 128] },
    );
    drone.packet_dispatcher(msg);

    assert_eq!(
        c_recv.try_recv().unwrap(),
        Packet::new_nack(
            SourceRoutingHeader { hop_index: 1, hops: vec![11, 1] },
            1,
            Nack { fragment_index: 1, nack_type: NackType::UnexpectedRecipient(11) },
        )
    );
}

#[test]
fn send_nack_helper_builds_and_sends() {
    let (d_send, d_recv) = unbounded::<Packet>();
    send_nack(
        11,
        SourceRoutingHeader { hop_index: 1, hops: vec![11, 1] },
        7,
        3,
        NackType::Dropped,
        &d_send,
    )
    .unwrap();
    assert_eq!(
        d_recv.try_recv().unwrap(),
        Packet::new_nack(
            SourceRoutingHeader { hop_index: 1, hops: vec![11, 1] },
            7,
            Nack { fragment_index: 3, nack_type: NackType::Dropped },
        )
    );
}

#[test]
fn sc_send_packet_delivers_events() {
    let (ev_send, ev_recv) = unbounded::<DroneEvent>();
    let msg = create_sample_packet();
    sc_send_packet(&ev_send, &DroneEvent::PacketDropped(msg.clone())).unwrap();
    assert_eq!(ev_recv.try_recv().unwrap(), DroneEvent::PacketDropped(msg));
}

#[test]
fn header_operations() {
    let mut h = SourceRoutingHeader { hop_index: 1, hops: vec![1, 11, 12, 21] };
    assert_eq!(h.current_hop(), Some(11));
    assert_eq!(h.get_next_hop(), Some(12));
    assert_eq!(h.get_previous_hop(), Some(1));
    h.increase_hop_index();
    assert_eq!(h.current_hop(), Some(12));
    h.decrease_hop_index();
    assert_eq!(h.current_hop(), Some(11));

    let sub = h.sub_route(2).unwrap();
    assert_eq!(sub.hops, vec![1, 11]);
    assert_eq!(sub.hop_index, 0);
    assert!(h.sub_route(5).is_none());

    h.reverse();
    assert_eq!(h.hops, vec![21, 12, 11, 1]);
}

#[test]
fn packet_operations() {
    let drone = {
        let (d_event_send, _d_event_recv) = unbounded::<DroneEvent>();
        RustezeDrone::new(42, d_event_send, NeighborTable::new(), PacketDropRate::new(0))
    };
    assert_eq!(drone.get_id(), 42);

    let msg = create_sample_packet();
    assert_eq!(msg.get_fragment_index(), 1);
    assert_eq!(msg.get_session_id(), 1);
    assert_eq!(msg.get_routing_header().hops, vec![1, 11, 12, 21]);

    let ack = Packet::new_ack(SourceRoutingHeader::default(), 2, 9);
    assert_eq!(ack.get_fragment_index(), 0);

    let req = FloodRequest {
        flood_id: 5,
        initiator_id: 1,
        path_trace: vec![(1, NodeType::Client), (11, NodeType::Drone)],
    };
    let res = req.generate_response(1);
    assert_eq!(res.routing_header.hops, vec![11, 1]);
    assert_eq!(res.routing_header.hop_index, 0);
}
