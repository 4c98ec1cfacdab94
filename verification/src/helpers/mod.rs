//! Helper parties and the messages they exchange.
pub mod http;
pub mod network;
pub mod proposed_network;
pub mod proposed_transport;

use std::collections::HashMap;
use vstd::prelude::*;

verus! {

/// The role a helper plays in the 3-party computation of one query.
#[derive(Clone, Copy, Debug, PartialEq, Eq, Hash, Structural)]
pub enum Role {
    H1,
    H2,
    H3,
}

impl Role {
    /// The role's position among the three: 0, 1 or 2.
    pub open spec fn spec_index(self) -> u8 {
        match self {
            Role::H1 => 0,
            Role::H2 => 1,
            Role::H3 => 2,
        }
    }

    /// The role's position among the three, by which maps of roles are keyed.
    pub fn index(&self) -> (r: u8)
        ensures
            r == self.spec_index(),
    {
        match self {
            Role::H1 => 0,
            Role::H2 => 1,
            Role::H3 => 2,
        }
    }
}

/// The index is the role's position in the order `H1`, `H2`, `H3`: it is below three, it grows
/// with that order, and so distinct roles have distinct indices. A map keyed by it therefore
/// holds one entry per role, and a role's lookup never finds another role's helper.
pub proof fn law_role_index_is_position(a: Role, b: Role)
    ensures
        a.spec_index() < 3,
        Role::H1.spec_index() < Role::H2.spec_index(),
        Role::H2.spec_index() < Role::H3.spec_index(),
        (a.spec_index() == b.spec_index()) <==> (a == b),
{
}

/// The helper that plays each role, keyed by the role's index (`Role::index`).
pub type RolesToHelpers = HashMap<u8, HelperIdentity>;

/// Identity of a helper party, independent of the role it plays in a query.
#[derive(Clone, Copy, Debug, PartialEq, Eq, Hash, Structural)]
pub struct HelperIdentity {
    pub id: u8,
}

impl HelperIdentity {
    pub fn new(id: u8) -> (r: Self)
        ensures
            r.id == id,
    {
        HelperIdentity { id }
    }
}

/// The fixed-size payload of one message between helpers.
pub type MessagePayload = [u8; 8];

/// Input data of a query as it arrived: a sequence of byte arrays, in arrival order.
#[derive(Debug)]
pub struct ByteArrStream {
    chunks: Vec<Vec<u8>>,
}

impl ByteArrStream {
    pub fn new(chunks: Vec<Vec<u8>>) -> (r: Self)
        ensures
            r@ == chunks@.map_values(|c: Vec<u8>| c@),
    {
        ByteArrStream { chunks }
    }
}

impl View for ByteArrStream {
    type V = Seq<Seq<u8>>;

    closed spec fn view(&self) -> Seq<Seq<u8>> {
        self.chunks@.map_values(|c: Vec<u8>| c@)
    }
}

} // verus!
