//! The authority registry: who may invoke which privileged operation.
//! Every rule is a flat comparison of identities; there are no roles and
//! no delegation.

use vstd::prelude::*;
use crate::error::AeternaError;
use crate::keys::Pubkey;

verus! {

/// A privileged operation, with the identity it is checked against.
#[derive(Clone, Copy, Debug, PartialEq, Eq)]
pub enum Operation {
    /// Managing an event's own records; reserved for the event's organizer.
    EventScoped { authority: Pubkey },
    /// Reporting a completed quest; reserved for the event's organizer,
    /// acting as the trusted scanner.
    QuestCompletion { authority: Pubkey },
    /// Granting experience directly; reserved for the backend service.
    DirectGrant,
}

/// The configured principals.
#[derive(Clone, Copy, Debug, PartialEq, Eq)]
pub struct AuthorityRegistry {
    /// The backend service allowed to grant experience directly.
    pub backend: Pubkey,
}

impl AuthorityRegistry {
    /// Whether `caller` may perform `operation`.
    pub open spec fn permits(self, caller: Pubkey, operation: Operation) -> bool {
        match operation {
            Operation::EventScoped { authority } => caller == authority,
            Operation::QuestCompletion { authority } => caller == authority,
            Operation::DirectGrant => caller == self.backend,
        }
    }

    /// A registry whose backend service is `backend`.
    pub fn new(backend: Pubkey) -> (registry: AuthorityRegistry)
        ensures
            registry.backend == backend,
    {
        AuthorityRegistry { backend }
    }

    /// Allows `operation` to `caller` or denies it as unauthorized.
    /// Changes nothing.
    pub fn authorize(&self, caller: &Pubkey, operation: &Operation) -> (decision: Result<
        (),
        AeternaError,
    >)
        ensures
            decision is Ok <==> self.permits(*caller, *operation),
            decision is Err ==> decision == Err::<(), AeternaError>(AeternaError::Unauthorized),
    {
        let allowed = match operation {
            Operation::EventScoped { authority } => caller.same(authority),
            Operation::QuestCompletion { authority } => caller.same(authority),
            Operation::DirectGrant => caller.same(&self.backend),
        };
        if allowed {
            Ok(())
        } else {
            Err(AeternaError::Unauthorized)
        }
    }
}

} // verus!
