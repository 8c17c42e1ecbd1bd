//! The flood protocol: responses from leaf drones, fan-out to neighbors,
//! deduplication by `(initiator, flood id)`, and response forwarding.

use crossbeam::channel::unbounded;
use rusteze_drone::messages::{
    DroneEvent, FloodRequest, FloodResponse, NodeType, Packet, PacketDropRate, PacketType,
    SourceRoutingHeader,
};
use rusteze_drone::neighbors::NeighborTable;
use rusteze_drone::RustezeDrone;

fn create_sample_flood_req(flood_id: u64) -> Packet {
    Packet::new_flood_request(
        SourceRoutingHeader { hop_index: 0, hops: Vec::new() },
        1,
        FloodRequest { flood_id, initiator_id: 1, path_trace: vec![(1, NodeType::Client)] },
    )
}

#[test]
fn new_flood_request() {
    // A drone whose only neighbor is the initiator answers at once.
    let (c_send, c_recv) = unbounded::<Packet>();
    let (d_event_send, _d_event_recv) = unbounded::<DroneEvent>();

    let mut senders = NeighborTable::new();
    senders.insert(1, c_send);
    let mut drone = RustezeDrone::new(11, d_event_send, senders, PacketDropRate::new(0));

    drone.packet_dispatcher(create_sample_flood_req(1));

    let flood_res = Packet::new_flood_response(
        SourceRoutingHeader { hop_index: 1, hops: vec![11, 1] },
        1,
        FloodResponse {
            flood_id: 1,
            path_trace: vec![(1, NodeType::Client), (11, NodeType::Drone)],
        },
    );
    assert_eq!(c_recv.try_recv().unwrap(), flood_res);
}

#[test]
fn new_flood_req_no_initiator() {
    // An empty path trace leaves no route to answer along: the flood is
    // recorded and the response falls back to the controller shortcut.
    let (c_send, c_recv) = unbounded::<Packet>();
    let (d_event_send, d_event_recv) = unbounded::<DroneEvent>();

    let mut senders = NeighborTable::new();
    senders.insert(1, c_send);
    let mut drone = RustezeDrone::new(11, d_event_send, senders, PacketDropRate::new(0));

    let msg = Packet::new_flood_request(
        SourceRoutingHeader { hop_index: 0, hops: Vec::new() },
        1,
        FloodRequest { flood_id: 1, initiator_id: 1, path_trace: Vec::new() },
    );
    drone.packet_dispatcher(msg);

    assert!(c_recv.try_recv().is_err());
    assert!(drone.flood_history.contains(1, 1));

    // The degenerate response (route [11], cursor past its end) reaches the
    // controller out of band, and its delivery is reported.
    let flood_res = Packet::new_flood_response(
        SourceRoutingHeader { hop_index: 1, hops: vec![11] },
        1,
        FloodResponse { flood_id: 1, path_trace: vec![(11, NodeType::Drone)] },
    );
    assert_eq!(
        d_event_recv.try_recv().unwrap(),
        DroneEvent::ControllerShortcut(flood_res.clone())
    );
    assert_eq!(d_event_recv.try_recv().unwrap(), DroneEvent::PacketSent(flood_res));
}

#[test]
fn new_flood_neighbours() {
    // Drone 11 fans the flood out to 12 and 13; each answers through 11.
    let (c_send, c_recv) = unbounded::<Packet>();
    let (d_send, d_recv) = unbounded::<Packet>();
    let (d2_send, d2_recv) = unbounded::<Packet>();
    let (d3_send, d3_recv) = unbounded::<Packet>();
    let (d_event_send, _d_event_recv) = unbounded::<DroneEvent>();

    let mut senders = NeighborTable::new();
    senders.insert(1, c_send);
    senders.insert(12, d2_send);
    senders.insert(13, d3_send);
    let mut drone = RustezeDrone::new(11, d_event_send.clone(), senders, PacketDropRate::new(0));

    let mut senders2 = NeighborTable::new();
    senders2.insert(11, d_send.clone());
    let mut drone2 = RustezeDrone::new(12, d_event_send.clone(), senders2, PacketDropRate::new(0));

    let mut senders3 = NeighborTable::new();
    senders3.insert(11, d_send.clone());
    let mut drone3 = RustezeDrone::new(13, d_event_send.clone(), senders3, PacketDropRate::new(0));

    drone.packet_dispatcher(create_sample_flood_req(1));

    // 12 and 13 each receive the flood request and answer it; 11 forwards
    // both answers back to the client.
    drone2.packet_dispatcher(d2_recv.try_recv().unwrap());
    drone3.packet_dispatcher(d3_recv.try_recv().unwrap());
    drone.packet_dispatcher(d_recv.try_recv().unwrap());
    drone.packet_dispatcher(d_recv.try_recv().unwrap());

    let f_res12 = Packet::new_flood_response(
        SourceRoutingHeader { hop_index: 2, hops: vec![12, 11, 1] },
        1,
        FloodResponse {
            flood_id: 1,
            path_trace: vec![
                (1, NodeType::Client),
                (11, NodeType::Drone),
                (12, NodeType::Drone),
            ],
        },
    );
    let f_res13 = Packet::new_flood_response(
        SourceRoutingHeader { hop_index: 2, hops: vec![13, 11, 1] },
        1,
        FloodResponse {
            flood_id: 1,
            path_trace: vec![
                (1, NodeType::Client),
                (11, NodeType::Drone),
                (13, NodeType::Drone),
            ],
        },
    );

    let first = c_recv.try_recv().unwrap();
    let second = c_recv.try_recv().unwrap();
    assert!(first == f_res12 || first == f_res13);
    assert!(second == f_res12 || second == f_res13);
    assert_ne!(first, second);
    // Neither 12 nor 13 hears the flood again from the other.
    assert!(d2_recv.try_recv().is_err());
    assert!(d3_recv.try_recv().is_err());
}

#[test]
fn test_flood_res_forward() {
    // A flood response travelling through a drone follows its route.
    let (c_send, c_recv) = unbounded::<Packet>();
    let (d_event_send, d_event_recv) = unbounded::<DroneEvent>();

    let mut senders = NeighborTable::new();
    senders.insert(1, c_send);
    let mut drone = RustezeDrone::new(11, d_event_send, senders, PacketDropRate::new(0));

    let mut res = Packet::new_flood_response(
        SourceRoutingHeader { hop_index: 1, hops: vec![12, 11, 1] },
        1,
        FloodResponse {
            flood_id: 1,
            path_trace: vec![
                (1, NodeType::Client),
                (11, NodeType::Drone),
                (12, NodeType::Drone),
            ],
        },
    );
    drone.packet_dispatcher(res.clone());
    res.routing_header.hop_index = 2;

    assert_eq!(c_recv.try_recv().unwrap(), res);
    assert_eq!(d_event_recv.try_recv().unwrap(), DroneEvent::PacketSent(res));
}

#[test]
fn test_known_flood_req() {
    // The second arrival of the same flood is answered, not forwarded again.
    let (c_send, c_recv) = unbounded::<Packet>();
    let (d2_send, d2_recv) = unbounded::<Packet>();
    let (d_event_send, _d_event_recv) = unbounded::<DroneEvent>();

    let mut senders = NeighborTable::new();
    senders.insert(1, c_send);
    senders.insert(12, d2_send);
    let mut drone = RustezeDrone::new(11, d_event_send, senders, PacketDropRate::new(0));

    drone.packet_dispatcher(create_sample_flood_req(1));
    assert!(matches!(
        d2_recv.try_recv().unwrap().pack_type,
        PacketType::FloodRequest(_)
    ));

    drone.packet_dispatcher(create_sample_flood_req(1));
    let flood_res = Packet::new_flood_response(
        SourceRoutingHeader { hop_index: 1, hops: vec![11, 1] },
        1,
        FloodResponse {
            flood_id: 1,
            path_trace: vec![(1, NodeType::Client), (11, NodeType::Drone)],
        },
    );
    assert_eq!(c_recv.try_recv().unwrap(), flood_res);
    // No second forward to 12, and the flood stays recorded.
    assert!(d2_recv.try_recv().is_err());
    assert!(drone.flood_history.contains(1, 1));
}

#[test]
fn test_flood_req_two_initiator() {
    // The same flood id from two initiators names two distinct floods.
    let (c_send, _c_recv) = unbounded::<Packet>();
    let (d2_send, d2_recv) = unbounded::<Packet>();
    let (d_event_send, _d_event_recv) = unbounded::<DroneEvent>();

    let mut senders = NeighborTable::new();
    senders.insert(1, c_send);
    senders.insert(12, d2_send);
    let mut drone = RustezeDrone::new(11, d_event_send, senders, PacketDropRate::new(0));

    drone.packet_dispatcher(create_sample_flood_req(1));
    assert!(matches!(
        d2_recv.try_recv().unwrap().pack_type,
        PacketType::FloodRequest(_)
    ));

    let other = Packet::new_flood_request(
        SourceRoutingHeader { hop_index: 0, hops: Vec::new() },
        1,
        FloodRequest { flood_id: 1, initiator_id: 2, path_trace: vec![(2, NodeType::Client)] },
    );
    drone.packet_dispatcher(other);

    // The second flood is fresh: it is forwarded to 12 again.
    assert!(matches!(
        d2_recv.try_recv().unwrap().pack_type,
        PacketType::FloodRequest(_)
    ));
    assert!(drone.flood_history.contains(1, 1));
    assert!(drone.flood_history.contains(2, 1));
}
