//! Channel plumbing and basic forwarding, on the sample route `1-2-3-4`.

use crossbeam::channel::unbounded;
use rusteze_drone::messages::{
    DroneEvent, Fragment, Packet, PacketDropRate, SourceRoutingHeader,
};
use rusteze_drone::neighbors::NeighborTable;
use rusteze_drone::packet_send::send_packet;
use rusteze_drone::RustezeDrone;

fn create_sample_packet() -> Packet {
    Packet::new_fragment(
        SourceRoutingHeader { hop_index: 1, hops: vec![1, 2, 3, 4] },
        1,
        Fragment { fragment_index: 1, total_n_fragments: 1, length: 1, data: [1; 128] },
    )
}

#[test]
fn packet_receive() {
    // What goes onto a channel comes out unchanged.
    let (d_send, d_recv) = unbounded::<Packet>();
    let msg = create_sample_packet();
    send_packet(&d_send, &msg).unwrap();
    assert_eq!(d_recv.try_recv().unwrap(), msg);
}

#[test]
fn packets_packet_forward() {
    let (d3_send, d3_recv) = unbounded::<Packet>();
    let (d_event_send, _d_event_recv) = unbounded::<DroneEvent>();

    let mut senders = NeighborTable::new();
    senders.insert(3, d3_send);
    let mut drone = RustezeDrone::new(2, d_event_send, senders, PacketDropRate::new(0));

    let mut msg = create_sample_packet();
    drone.packet_dispatcher(msg.clone());
    msg.routing_header.hop_index = 2;

    assert_eq!(d3_recv.try_recv().unwrap(), msg);
}
