//! The identity under which the process runs, and its one transition.
//!
//! The program is installed setuid: it starts with an effective identity
//! that may read privileged configuration, while its real identity is that
//! of the invoker. The effective identity is lowered to the real one once,
//! for good, before anything is delivered. The two handle types make the
//! order a matter of typing: a delivery asks for a `Dropped`, and the only
//! way to a `Dropped` leads through the lowering of an `Elevated`.

use vstd::prelude::*;
use crate::error::ForwardError;

verus! {

/// `nix::errno::Errno`, the error of the system calls. Nothing is known of
/// its values here: a failure is a failure, whatever its number.
#[verifier::external_type_specification]
#[verifier::external_body]
pub struct ExErrno(nix::errno::Errno);

/// The real and the effective user id of the process.
#[derive(Clone, Copy, Debug, PartialEq, Eq, Structural)]
pub struct Identity {
    pub real_id: u32,
    pub effective_id: u32,
}

impl Identity {
    /// Once lowered, the effective id is the real id.
    pub open spec fn is_lowered(self) -> bool {
        self.effective_id == self.real_id
    }

    /// The identity after the lowering: the real id stays, the effective id
    /// becomes the real id.
    pub open spec fn lowered(self) -> Identity {
        Identity { real_id: self.real_id, effective_id: self.real_id }
    }
}

/// The lowering keeps the real id and leaves a lowered identity, which a
/// further lowering would not change: there is no way back up.
pub proof fn lemma_lowering_is_final(identity: Identity)
    ensures
        identity.lowered().real_id == identity.real_id,
        identity.lowered().is_lowered(),
        identity.lowered().lowered() == identity.lowered(),
{
}

/// The handle held from the start of the run until the lowering.
#[derive(Debug)]
pub struct Elevated {
    identity: Identity,
}

/// The handle held after the lowering. Every delivery asks for it.
#[derive(Clone, Copy, Debug, PartialEq, Eq)]
pub struct Dropped {
    identity: Identity,
}

/// Asks the system for the real user id (`nix::unistd::getuid`). The call
/// cannot fail; its result is whatever the invoker's id is.
#[verifier::external_body]
fn real_user_id() -> (uid: u32) {
    nix::unistd::getuid().as_raw()
}

/// Asks the system for the effective user id (`nix::unistd::geteuid`). The
/// call cannot fail; its result depends on how the program was installed.
#[verifier::external_body]
fn effective_user_id() -> (uid: u32) {
    nix::unistd::geteuid().as_raw()
}

/// Sets the real, the effective and the saved user id to `uid`
/// (`nix::unistd::setresuid`). Whether the system grants it is not known
/// beforehand, so nothing is claimed of the result.
#[verifier::external_body]
fn set_user_ids(uid: u32) -> (outcome: Result<(), nix::errno::Errno>) {
    let id = nix::unistd::Uid::from_raw(uid);
    nix::unistd::setresuid(id, id, id)
}

impl Elevated {
    /// The identity that the handle stands for.
    pub closed spec fn identity(self) -> Identity {
        self.identity
    }

    /// The handle for a process with the given ids.
    pub fn new(real_id: u32, effective_id: u32) -> (handle: Elevated)
        ensures
            handle.identity() == (Identity { real_id, effective_id }),
    {
        Elevated { identity: Identity { real_id, effective_id } }
    }

    /// The handle for this process, with the ids that the system reports.
    pub fn capture() -> (handle: Elevated) {
        let real_id: u32 = real_user_id();
        let effective_id: u32 = effective_user_id();
        Elevated::new(real_id, effective_id)
    }

    /// The real user id, which no transition changes.
    pub fn real_uid(&self) -> (uid: u32)
        ensures
            uid == self.identity().real_id,
    {
        self.identity.real_id
    }

    /// The effective user id as it was at the start.
    pub fn effective_uid(&self) -> (uid: u32)
        ensures
            uid == self.identity().effective_id,
    {
        self.identity.effective_id
    }

    /// Concludes the transition from what the system answered: the lowered
    /// handle if the ids were set, `PrivilegeDrop` if they were not.
    pub fn settle(self, granted: bool) -> (outcome: Result<Dropped, ForwardError>)
        ensures
            match outcome {
                Ok(handle) => granted && handle.identity() == self.identity().lowered(),
                Err(failure) => !granted && failure == ForwardError::PrivilegeDrop,
            },
    {
        if granted {
            Ok(
                Dropped {
                    identity: Identity {
                        real_id: self.identity.real_id,
                        effective_id: self.identity.real_id,
                    },
                },
            )
        } else {
            Err(ForwardError::PrivilegeDrop)
        }
    }

    /// Lowers the effective identity of the process to its real identity and
    /// gives up the handle. The system decides whether the call succeeds;
    /// if it does not, the only outcome is `PrivilegeDrop`, and no `Dropped`
    /// comes into being.
    pub fn drop_privileges(self) -> (outcome: Result<Dropped, ForwardError>)
        ensures
            match outcome {
                Ok(handle) => handle.identity() == self.identity().lowered(),
                Err(failure) => failure == ForwardError::PrivilegeDrop,
            },
    {
        let granted = match set_user_ids(self.identity.real_id) {
            Ok(_) => true,
            Err(_) => false,
        };
        self.settle(granted)
    }
}

impl Dropped {
    /// The identity that the handle stands for.
    pub closed spec fn identity(self) -> Identity {
        self.identity
    }

    /// A handle that exists at run time stands for a lowered identity.
    #[verifier::type_invariant]
    spec fn lowered_for_good(self) -> bool {
        self.identity.is_lowered()
    }

    /// The id under which deliveries act: the real user id, which by now is
    /// the effective one too.
    pub fn uid(&self) -> (uid: u32)
        ensures
            uid == self.identity().real_id,
            uid == self.identity().effective_id,
    {
        proof {
            use_type_invariant(self);
        }
        self.identity.real_id
    }
}

} // verus!
