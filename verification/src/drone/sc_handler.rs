//! Handling of simulation-controller commands: neighbor table mutation, drop
//! rate updates, and the one-way crash transition.  Commands are ignored once
//! the drone is terminated.

use vstd::prelude::*;

use crate::drone::RustezeDrone;
use crate::messages::{DroneCommand, NodeId, Packet, PacketDropRate};

verus! {

/// Why a controller command was refused.  A refused command leaves the state
/// unchanged.
#[derive(Debug, Clone, Copy, PartialEq, Eq, Structural)]
pub enum CommandError {
    /// `AddSender` named an id that is already a neighbor.
    DuplicateSender,
    /// `RemoveSender` named an id that is not a neighbor.
    UnknownSender,
}

/// What one command does to a live drone's state.
pub open spec fn command_effect(pre: RustezeDrone, post: RustezeDrone, command: DroneCommand) -> bool {
    match command {
        DroneCommand::Crash => {
            &&& post.terminated
            &&& post.packet_senders == pre.packet_senders
            &&& post.pdr == pre.pdr
        },
        DroneCommand::SetPacketDropRate(p) => {
            &&& !post.terminated
            &&& post.pdr == p
            &&& post.packet_senders == pre.packet_senders
        },
        DroneCommand::AddSender(id, s) => {
            &&& !post.terminated
            &&& post.pdr == pre.pdr
            &&& if pre.packet_senders.contains_id(id) {
                post.packet_senders == pre.packet_senders
            } else {
                post.packet_senders@ == pre.packet_senders@.push((id, s))
            }
        },
        DroneCommand::RemoveSender(id) => {
            &&& !post.terminated
            &&& post.pdr == pre.pdr
            &&& !post.packet_senders.contains_id(id)
            &&& (!pre.packet_senders.contains_id(id) ==> post.packet_senders
                == pre.packet_senders)
            &&& (forall|x: NodeId|
                x != id ==> post.packet_senders.contains_id(x) == pre.packet_senders.contains_id(
                    x,
                ))
        },
    }
}

impl RustezeDrone {
    /// Replace the fragment drop probability.
    pub fn set_pdr(&mut self, new_pdr: PacketDropRate)
        requires
            new_pdr.wf(),
        ensures
            final(self).pdr == new_pdr,
            final(self).id == old(self).id,
            final(self).packet_senders == old(self).packet_senders,
            final(self).controller_send == old(self).controller_send,
            final(self).terminated == old(self).terminated,
            final(self).flood_history == old(self).flood_history,
            final(self).log() == old(self).log(),
            old(self).wf() ==> final(self).wf(),
    {
        self.pdr = new_pdr;
    }

    /// Connect a new neighbor; an id already present is refused and nothing
    /// changes.
    pub fn add_sender(
        &mut self,
        id: NodeId,
        sender: crossbeam::channel::Sender<Packet>,
    ) -> (r: Result<(), CommandError>)
        requires
            old(self).wf(),
        ensures
            final(self).wf(),
            final(self).id == old(self).id,
            final(self).pdr == old(self).pdr,
            final(self).controller_send == old(self).controller_send,
            final(self).terminated == old(self).terminated,
            final(self).flood_history == old(self).flood_history,
            final(self).log() == old(self).log(),
            r is Ok <==> !old(self).packet_senders.contains_id(id),
            r is Ok ==> final(self).packet_senders@ == old(self).packet_senders@.push((id, sender)),
            r is Err ==> final(self).packet_senders == old(self).packet_senders && r == Err::<
                (),
                CommandError,
            >(CommandError::DuplicateSender),
            final(self).packet_senders.contains_id(id),
    {
        if self.packet_senders.insert(id, sender) {
            Ok(())
        } else {
            Err(CommandError::DuplicateSender)
        }
    }

    /// Disconnect a neighbor; an unknown id is refused and nothing changes.
    pub fn remove_sender(&mut self, node_id: NodeId) -> (r: Result<(), CommandError>)
        requires
            old(self).wf(),
        ensures
            final(self).wf(),
            final(self).id == old(self).id,
            final(self).pdr == old(self).pdr,
            final(self).controller_send == old(self).controller_send,
            final(self).terminated == old(self).terminated,
            final(self).flood_history == old(self).flood_history,
            final(self).log() == old(self).log(),
            r is Ok <==> old(self).packet_senders.contains_id(node_id),
            r is Ok ==> exists|i: int|
                0 <= i < old(self).packet_senders@.len() && old(self).packet_senders@[i].0
                    == node_id && final(self).packet_senders@ == old(
                    self,
                ).packet_senders@.remove(i),
            r is Err ==> final(self).packet_senders == old(self).packet_senders && r == Err::<
                (),
                CommandError,
            >(CommandError::UnknownSender),
            !final(self).packet_senders.contains_id(node_id),
            forall|x: NodeId|
                x != node_id ==> final(self).packet_senders.contains_id(x) == old(
                    self,
                ).packet_senders.contains_id(x),
    {
        if self.packet_senders.remove(node_id) {
            Ok(())
        } else {
            Err(CommandError::UnknownSender)
        }
    }

    /// Enter the crash sequence.  The transition is one-way: the event loop
    /// will stop serving commands and drain remaining packets.
    pub fn crash(&mut self) -> (r: Result<(), CommandError>)
        ensures
            r is Ok,
            final(self).terminated,
            final(self).id == old(self).id,
            final(self).pdr == old(self).pdr,
            final(self).packet_senders == old(self).packet_senders,
            final(self).controller_send == old(self).controller_send,
            final(self).flood_history == old(self).flood_history,
            final(self).log() == old(self).log(),
            old(self).wf() ==> final(self).wf(),
    {
        self.terminated = true;
        Ok(())
    }

    /// Apply one controller command.  A terminated drone ignores commands
    /// entirely; in particular `AddSender` has no effect after `Crash`.
    pub fn command_dispatcher(&mut self, command: DroneCommand)
        requires
            old(self).wf(),
            command matches DroneCommand::SetPacketDropRate(p) ==> p.wf(),
        ensures
            final(self).wf(),
            final(self).id == old(self).id,
            final(self).controller_send == old(self).controller_send,
            final(self).flood_history == old(self).flood_history,
            final(self).log() == old(self).log(),
            old(self).terminated ==> *final(self) == *old(self),
            old(self).terminated ==> final(self).terminated,
            !old(self).terminated ==> command_effect(*old(self), *final(self), command),
    {
        if !self.terminated {
            match command {
                DroneCommand::RemoveSender(node_id) => {
                    let _ = self.remove_sender(node_id);
                },
                DroneCommand::AddSender(id, sender) => {
                    let _ = self.add_sender(id, sender);
                },
                DroneCommand::SetPacketDropRate(new_pdr) => {
                    self.set_pdr(new_pdr);
                },
                DroneCommand::Crash => {
                    let _ = self.crash();
                },
            }
        }
    }
}

} // verus!
