//! Identifiers shared by the protocols: queries, records and steps.
pub mod context;
pub mod malicious;

use vstd::prelude::*;

verus! {

/// Identifies a query. Only one query runs at a time, so the identifier carries no data and
/// renders as `"0"`.
#[derive(Clone, Copy, Debug, PartialEq, Eq, Hash, Structural)]
pub struct QueryId;

impl QueryId {
    pub fn as_ref(&self) -> (r: &'static str)
        ensures
            r@ == "0"@,
    {
        "0"
    }
}

/// Index of a record within a step of a protocol.
#[derive(Clone, Copy, Debug, PartialEq, Eq, Hash, Structural)]
pub struct RecordId(pub u32);

/// A position in the tree of protocol steps, written as the path of its substep names from
/// the root, separated by `/`. Each channel between helpers is tied to one step.
#[derive(Debug, PartialEq, Eq, Hash)]
pub struct Step {
    id: String,
}

impl View for Step {
    type V = Seq<char>;

    closed spec fn view(&self) -> Seq<char> {
        self.id@
    }
}

impl Step {
    /// The path of the step a protocol starts in.
    pub open spec fn root_path() -> Seq<char> {
        "protocol"@
    }

    /// The step a protocol starts in.
    pub fn root() -> (r: Self)
        ensures
            r@ == Self::root_path(),
    {
        Step { id: String::from_str("protocol") }
    }

    /// The child step named `substep`.
    pub fn narrow(&self, substep: &str) -> (r: Self)
        ensures
            r@ == self@ + "/"@ + substep@,
    {
        let mut id = self.id.clone();
        id.append("/");
        id.append(substep);
        Step { id }
    }

    /// The path of the step.
    pub fn as_str(&self) -> (r: &str)
        ensures
            r@ == self@,
    {
        self.id.as_str()
    }
}

impl Clone for Step {
    fn clone(&self) -> (r: Self)
        ensures
            r@ == self@,
    {
        Step { id: self.id.clone() }
    }
}

} // verus!
