//! What a query's network makes of the commands that its transport delivers, and of the
//! messages it sends.
use crate::helpers::network::MessageChunks;
use crate::helpers::proposed_transport::{NetworkEventData, TransportCommand};
use crate::helpers::{HelperIdentity, RolesToHelpers};
use crate::protocol::QueryId;
use vstd::prelude::*;

verus! {

broadcast use vstd::std_specs::hash::group_hash_axioms;

/// The messages that a command delivers to a running query: those of a network event. Any
/// other command is handed back, as one that has no place in a query's stream.
pub fn message_chunks_of(command: TransportCommand) -> (r: Result<MessageChunks, TransportCommand>)
    ensures
        match command {
            TransportCommand::NetworkEvent(data) => r == Ok::<MessageChunks, TransportCommand>(
                data.message_chunks,
            ),
            other => r == Err::<MessageChunks, TransportCommand>(other),
        },
{
    match command {
        TransportCommand::NetworkEvent(NetworkEventData { message_chunks, .. }) => Ok(message_chunks),
        other_command => Err(other_command),
    }
}

/// Where the messages on a channel go, and the command that carries them there: the helper
/// that plays the channel's role, and a network event of the query that holds the messages
/// and the roles of all helpers. `None` when no helper plays that role.
pub fn network_event_for(
    query_id: QueryId,
    roles_to_helpers: &RolesToHelpers,
    message_chunks: MessageChunks,
) -> (r: Option<(HelperIdentity, TransportCommand)>)
    ensures
        ({
            let role = message_chunks.0.role.spec_index();
            match r {
                Some((destination, TransportCommand::NetworkEvent(data))) => {
                    &&& roles_to_helpers@.contains_key(role)
                    &&& destination == roles_to_helpers@[role]
                    &&& data.query_id == query_id
                    &&& data.roles_to_helpers@ == roles_to_helpers@
                    &&& data.message_chunks == message_chunks
                },
                Some(_) => false,
                None => !roles_to_helpers@.contains_key(role),
            }
        }),
{
    let role = message_chunks.0.role.index();
    match roles_to_helpers.get(&role) {
        Some(destination) => {
            let destination = *destination;
            let command = TransportCommand::NetworkEvent(
                NetworkEventData::new(query_id, roles_to_helpers.clone(), message_chunks),
            );
            Some((destination, command))
        },
        None => None,
    }
}

} // verus!
