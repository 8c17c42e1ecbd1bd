//! The channel boundary: declarations for the outside channel types, the one
//! assumed contract on sending, and small helpers that build a packet and put
//! it on a channel.
//!
//! Channels connect this drone to its neighbors and to the simulation
//! controller.  Whether a send is accepted depends on whether the other end
//! still exists, which no contract here can pin down; callers must handle
//! both outcomes.

use vstd::prelude::*;

use crate::messages::{
    DroneEvent, Fragment, FloodRequest, FloodResponse, Nack, NackType, NodeId, Packet,
    SourceRoutingHeader,
};

verus! {

/// Multi-producer channel handle of the `crossbeam` crate; a drone holds one
/// per neighbor and one toward the simulation controller.
#[verifier::external_type_specification]
#[verifier::external_body]
#[verifier::reject_recursive_types(T)]
pub struct ExSender<T>(crossbeam::channel::Sender<T>);

/// Error returned by `crossbeam::channel::Sender::send`, carrying the
/// unsent message.
#[verifier::external_type_specification]
#[verifier::external_body]
#[verifier::reject_recursive_types(T)]
pub struct ExSendError<T>(crossbeam::channel::SendError<T>);

/// Relies on `crossbeam::channel::Sender::send`: on an unbounded channel it
/// never blocks, and it returns `Err` exactly when every receiver has been
/// dropped.  Which of the two happens depends on channel state outside this
/// crate, so nothing is assumed of the result.
pub assume_specification<T>[ crossbeam::channel::Sender::<T>::send ](
    sender: &crossbeam::channel::Sender<T>,
    msg: T,
) -> Result<(), crossbeam::channel::SendError<T>>;

/// Witness that a channel refused a message: its receiving end is gone.
#[derive(Debug, Clone, Copy, PartialEq, Eq, Structural)]
pub struct SendFailed;

/// Witness that a node id names no neighbor.
#[derive(Debug, Clone, Copy, PartialEq, Eq, Structural)]
pub struct UnknownNeighbor;

/// The channel toward `node_id`, if that node is a neighbor.
pub fn get_sender<'a>(node_id: NodeId, senders: &'a crate::neighbors::NeighborTable) -> (r: Result<
    &'a crossbeam::channel::Sender<Packet>,
    UnknownNeighbor,
>)
    ensures
        r matches Ok(s) ==> senders.contains_id(node_id) && exists|i: int|
            0 <= i < senders@.len() && senders@[i].0 == node_id && senders@[i].1 == *s,
        r is Err ==> !senders.contains_id(node_id),
{
    match senders.get_sender(node_id) {
        Some(s) => Ok(s),
        None => Err(UnknownNeighbor),
    }
}

/// Put a copy of `packet` on `sender`'s channel.  The result reports only
/// whether the channel accepted it.
pub fn send_packet(sender: &crossbeam::channel::Sender<Packet>, packet: &Packet) -> (r: Result<
    (),
    SendFailed,
>) {
    match sender.send(packet.clone()) {
        Ok(()) => Ok(()),
        Err(_) => Err(SendFailed),
    }
}

/// Put a copy of `event` on the simulation controller's channel.
pub fn sc_send_packet(sender: &crossbeam::channel::Sender<DroneEvent>, event: &DroneEvent) -> (r:
    Result<(), SendFailed>) {
    match sender.send(event.clone()) {
        Ok(()) => Ok(()),
        Err(_) => Err(SendFailed),
    }
}

/// Build a fragment packet and put it on `sender`'s channel.
pub fn send_fragment(
    drone_id: NodeId,
    routing_header: SourceRoutingHeader,
    session_id: u64,
    fragment: Fragment,
    sender: &crossbeam::channel::Sender<Packet>,
) -> (r: Result<(), SendFailed>) {
    let packet = Packet::new_fragment(routing_header, session_id, fragment);
    send_packet(sender, &packet)
}

/// Build an ack packet and put it on `sender`'s channel.
pub fn send_ack(
    drone_id: NodeId,
    routing_header: SourceRoutingHeader,
    session_id: u64,
    fragment_index: u64,
    sender: &crossbeam::channel::Sender<Packet>,
) -> (r: Result<(), SendFailed>) {
    let packet = Packet::new_ack(routing_header, session_id, fragment_index);
    send_packet(sender, &packet)
}

/// Build a nack packet and put it on `sender`'s channel.
pub fn send_nack(
    drone_id: NodeId,
    routing_header: SourceRoutingHeader,
    session_id: u64,
    fragment_index: u64,
    nack_type: NackType,
    sender: &crossbeam::channel::Sender<Packet>,
) -> (r: Result<(), SendFailed>) {
    let packet = Packet::new_nack(routing_header, session_id, Nack { fragment_index, nack_type });
    send_packet(sender, &packet)
}

/// Build a flood-request packet and put it on `sender`'s channel.
pub fn send_flood_request(
    drone_id: NodeId,
    routing_header: SourceRoutingHeader,
    session_id: u64,
    flood_request: FloodRequest,
    sender: &crossbeam::channel::Sender<Packet>,
) -> (r: Result<(), SendFailed>) {
    let packet = Packet::new_flood_request(routing_header, session_id, flood_request);
    send_packet(sender, &packet)
}

/// Build a flood-response packet and put it on `sender`'s channel.
pub fn send_flood_response(
    drone_id: NodeId,
    routing_header: SourceRoutingHeader,
    session_id: u64,
    flood_response: FloodResponse,
    sender: &crossbeam::channel::Sender<Packet>,
) -> (r: Result<(), SendFailed>) {
    let packet = Packet::new_flood_response(routing_header, session_id, flood_response);
    send_packet(sender, &packet)
}

} // verus!
