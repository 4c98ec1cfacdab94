//! Protocol contexts.
pub mod malicious;
pub mod semi_honest;

use vstd::prelude::*;

verus! {

/// Which security model a query runs under.
#[derive(Clone, Copy, Debug, PartialEq, Eq, Hash, Structural)]
pub enum ContextType {
    SemiHonest,
    Malicious,
}

} // verus!
