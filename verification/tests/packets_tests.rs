//! Packet-level drone behavior on the standard client-drone-server route.

use crossbeam::channel::unbounded;
use rusteze_drone::messages::{
    DroneEvent, Fragment, Nack, NackType, Packet, PacketDropRate, SourceRoutingHeader, PDR_SCALE,
};
use rusteze_drone::neighbors::NeighborTable;
use rusteze_drone::RustezeDrone;

fn create_sample_packet() -> Packet {
    Packet::new_fragment(
        SourceRoutingHeader { hop_index: 1, hops: vec![1, 11, 12, 21] },
        1,
        Fragment { fragment_index: 1, total_n_fragments: 1, length: 1, data: [1; 128] },
    )
}

#[test]
fn packets_tests_packet_forward() {
    let (d2_send, d2_recv) = unbounded::<Packet>();
    let (d_event_send, _d_event_recv) = unbounded::<DroneEvent>();

    let mut senders = NeighborTable::new();
    senders.insert(12, d2_send);
    let mut drone = RustezeDrone::new(11, d_event_send, senders, PacketDropRate::new(0));

    let mut msg = create_sample_packet();
    drone.packet_dispatcher(msg.clone());
    msg.routing_header.hop_index = 2;

    assert_eq!(d2_recv.try_recv().unwrap(), msg);
}

#[test]
fn packet_drop() {
    let (c_send, c_recv) = unbounded::<Packet>();
    let (d2_send, _d2_recv) = unbounded::<Packet>();
    let (d_event_send, _d_event_recv) = unbounded::<DroneEvent>();

    let mut senders = NeighborTable::new();
    senders.insert(12, d2_send);
    senders.insert(1, c_send);
    let mut drone = RustezeDrone::new(11, d_event_send, senders, PacketDropRate::new(PDR_SCALE));

    drone.packet_dispatcher(create_sample_packet());

    assert_eq!(
        c_recv.try_recv().unwrap(),
        Packet::new_nack(
            SourceRoutingHeader { hop_index: 1, hops: vec![11, 1] },
            1,
            Nack { fragment_index: 1, nack_type: NackType::Dropped },
        )
    );
}

#[test]
fn drone_chain_packet_drop() {
    // Drone 11 forwards, drone 12 drops; the nack reaches the client.
    let (c_send, c_recv) = unbounded::<Packet>();
    let (s_send, _s_recv) = unbounded::<Packet>();
    let (d_send, d_recv) = unbounded::<Packet>();
    let (d12_send, d12_recv) = unbounded::<Packet>();
    let (d_event_send, _d_event_recv) = unbounded::<DroneEvent>();

    let mut senders = NeighborTable::new();
    senders.insert(12, d12_send);
    senders.insert(1, c_send);
    let mut drone = RustezeDrone::new(11, d_event_send.clone(), senders, PacketDropRate::new(0));

    let mut senders2 = NeighborTable::new();
    senders2.insert(11, d_send);
    senders2.insert(21, s_send);
    let mut drone2 = RustezeDrone::new(
        12,
        d_event_send.clone(),
        senders2,
        PacketDropRate::new(PDR_SCALE),
    );

    drone.packet_dispatcher(create_sample_packet());
    drone2.packet_dispatcher(d12_recv.try_recv().unwrap());
    drone.packet_dispatcher(d_recv.try_recv().unwrap());

    assert_eq!(
        c_recv.try_recv().unwrap(),
        Packet::new_nack(
            SourceRoutingHeader { hop_index: 2, hops: vec![12, 11, 1] },
            1,
            Nack { fragment_index: 1, nack_type: NackType::Dropped },
        )
    );
}

#[test]
fn drone_chain_packet_ack() {
    // The fragment reaches the server; the server's ack reaches the client.
    let (c_send, c_recv) = unbounded::<Packet>();
    let (s_send, s_recv) = unbounded::<Packet>();
    let (d_send, d_recv) = unbounded::<Packet>();
    let (d12_send, d12_recv) = unbounded::<Packet>();
    let (d_event_send, _d_event_recv) = unbounded::<DroneEvent>();

    let mut senders = NeighborTable::new();
    senders.insert(12, d12_send);
    senders.insert(1, c_send);
    let mut drone = RustezeDrone::new(11, d_event_send.clone(), senders, PacketDropRate::new(0));

    let mut senders2 = NeighborTable::new();
    senders2.insert(11, d_send);
    senders2.insert(21, s_send);
    let mut drone2 = RustezeDrone::new(12, d_event_send.clone(), senders2, PacketDropRate::new(0));

    let mut msg = create_sample_packet();
    drone.packet_dispatcher(msg.clone());
    drone2.packet_dispatcher(d12_recv.try_recv().unwrap());
    msg.routing_header.hop_index = 3;
    assert_eq!(s_recv.try_recv().unwrap(), msg);

    let ack = Packet::new_ack(
        SourceRoutingHeader { hop_index: 1, hops: vec![21, 12, 11, 1] },
        1,
        1,
    );
    drone2.packet_dispatcher(ack);
    drone.packet_dispatcher(d_recv.try_recv().unwrap());

    assert_eq!(
        c_recv.try_recv().unwrap(),
        Packet::new_ack(SourceRoutingHeader { hop_index: 3, hops: vec![21, 12, 11, 1] }, 1, 1)
    );
}
