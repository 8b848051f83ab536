//! The kinds of failure that the engine reports.

use vstd::prelude::*;

verus! {

/// Why an operation of the engine did not succeed.
#[derive(Clone, Copy, Debug, PartialEq, Eq, Structural)]
pub enum EngineError {
    /// A persona id does not resolve in the catalog.
    PersonaNotFound,
    /// The channel has no persona bound to it.
    BindingAbsent,
    /// The generation backend could not be reached.
    BackendUnreachable,
    /// The generation backend did not answer within the allowed wait.
    BackendTimeout,
    /// The backend answered, but not with the payload it owes.
    MalformedBackendResponse,
    /// The prompt template could not be loaded.
    TemplateLoadFailure,
    /// A reply identity could not be found, created, deleted or posted through.
    IdentityOperationFailure,
}

} // verus!
