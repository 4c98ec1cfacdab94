//! Channels between helpers and the envelopes sent on them.
use crate::helpers::{MessagePayload, Role};
use crate::protocol::{RecordId, Step};
use vstd::prelude::*;

verus! {

/// Combination of helper role and step that uniquely identifies a single channel of communication
/// between two helpers.
#[derive(Debug, PartialEq, Eq, Hash)]
pub struct ChannelId {
    pub role: Role,
    pub step: Step,
}

impl ChannelId {
    pub fn new(role: Role, step: Step) -> (r: Self)
        ensures
            r.role == role,
            r.step == step,
    {
        Self { role, step }
    }
}

impl Clone for ChannelId {
    fn clone(&self) -> (r: Self)
        ensures
            r.role == self.role,
            r.step@ == self.step@,
    {
        ChannelId { role: self.role, step: self.step.clone() }
    }
}

/// One record's payload, addressed by its record id.
#[derive(Debug, PartialEq, Eq)]
pub struct MessageEnvelope {
    pub record_id: RecordId,
    pub payload: MessagePayload,
}

/// The bytes that travel on one channel.
pub type MessageChunks = (ChannelId, Vec<u8>);

} // verus!
