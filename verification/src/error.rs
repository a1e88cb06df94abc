//! Failures surfaced by the resolver, the template engine and the
//! dispatcher. Each carries the 1-based positional index it complains
//! about where one applies.

use vstd::prelude::*;

verus! {

/// Everything that can go wrong between a parsed configuration and a
/// finished task plan or commit message.
#[derive(Clone, Copy, Debug, PartialEq, Eq, Structural)]
pub enum GlitterError {
    /// A per-action override collides with the requested action up to
    /// ASCII case without matching it exactly.
    ConfigMismatch,
    /// A template placeholder referred to this 1-based positional index,
    /// which lies beyond the supplied arguments.
    MissingArgument(usize),
    /// The argument at this 1-based index is not among the values its
    /// spec enumerates.
    InvalidEnumValue(usize),
    /// The spec for this 1-based index names a case transform that is
    /// not supported.
    UnknownCaseTransform(usize),
    /// The action is neither a builtin nor a custom task.
    UnknownAction,
}

} // verus!
