//! Where a piece of knowledge came from.

use vstd::prelude::*;

verus! {

#[derive(Debug, Clone, Copy, PartialEq, Eq, Structural)]
pub enum KnowledgeSource {
    MissionExecution,
    ExternalApi,
    ManualInput,
    Derived,
}

} // verus!
