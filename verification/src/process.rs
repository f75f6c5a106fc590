//! Ownership of the child process and of the fallback that reaps it.

use vstd::prelude::*;

use crate::error::FailureEvidence;
use crate::io::{ErrorKind, IoError};
use crate::output::ExitStatus;

verus! {

/// The child that leads the owned process group, and the background reaper that takes it
/// over where cleanup cannot reap it.
pub struct OwnedChild<Child, Reaper> {
    /// The child, until it is reaped or handed over.
    pub child: Option<Child>,
    /// The group's identifier, which is the leader's.
    pub group: u32,
    /// The way to the background reaper, until it is used.
    pub reaper: Option<Reaper>,
}

/// What handing the child over takes.
pub enum Handoff<Child, Reaper> {
    /// There is no child to hand over.
    Nothing,
    /// The child cannot be handed over.
    Unavailable(FailureEvidence),
    /// The child has to be sent to the reaper.
    Send {
        /// The child.
        child: Child,
        /// The way to the reaper.
        reaper: Reaper,
    },
}

impl<Child, Reaper> OwnedChild<Child, Reaper> {
    /// Takes ownership of a spawned child.
    pub fn new(child: Child, group: u32, reaper: Reaper) -> (owned: Self)
        ensures
            owned == (OwnedChild { child: Some(child), group, reaper: Some(reaper) }),
    {
        OwnedChild { child: Some(child), group, reaper: Some(reaper) }
    }

    /// The leader's process identifier, or zero once it is gone.
    pub fn id(&self) -> (id: u32)
        ensures
            id == if self.child is Some {
                self.group
            } else {
                0
            },
    {
        if self.child.is_some() {
            self.group
        } else {
            0
        }
    }

    /// Whether the leader is still owned.
    pub fn has_child(&self) -> (has_child: bool)
        ensures
            has_child == (self.child is Some),
    {
        self.child.is_some()
    }

    /// Whether the leader can be reaped without waiting, given what a look at it showed. A
    /// leader that is gone needs no look.
    pub fn leader_waitable(&self, look: Result<bool, IoError>) -> (waitable: Result<bool, IoError>)
        ensures
            waitable == if self.child is Some {
                look
            } else {
                Ok(true)
            },
    {
        if self.child.is_none() {
            return Ok(true);
        }
        look
    }

    /// Settles a wait for the leader: with a status the child is gone.
    pub fn reap_waitable(&mut self, waited: Result<ExitStatus, IoError>) -> (reaped: Result<
        ExitStatus,
        IoError,
    >)
        ensures
            old(self).child is Some ==> reaped == waited && *final(self) == (OwnedChild {
                child: if waited is Ok {
                    None
                } else {
                    old(self).child
                },
                ..*old(self)
            }),
            old(self).child is None ==> *final(self) == *old(self) && (reaped matches Err(error)
                && error.is_made_of(ErrorKind::Other, "process leader was already reaped"@)),
    {
        if self.child.is_none() {
            return Err(IoError::other("process leader was already reaped"));
        }
        match waited {
            Ok(status) => {
                self.child = None;
                Ok(status)
            },
            Err(error) => Err(error),
        }
    }

    /// Takes out what has to be sent to the background reaper. A child without a reaper
    /// stays where it is.
    pub fn begin_handoff(&mut self) -> (handoff: Handoff<Child, Reaper>)
        ensures
            match (old(self).child, old(self).reaper) {
                (None, _) => handoff is Nothing && *final(self) == *old(self),
                (Some(child), Some(reaper)) => handoff == (Handoff::<Child, Reaper>::Send {
                    child,
                    reaper,
                }) && *final(self) == (OwnedChild::<Child, Reaper> {
                    child: None,
                    reaper: None,
                    ..*old(self)
                }),
                (Some(_), None) => *final(self) == *old(self) && (handoff matches Handoff::Unavailable(
                    failure,
                ) && failure.operation == "transfer child to background reaper" && failure.kind
                    == ErrorKind::Other && failure.message@ == "fallback reaper was unavailable"@),
            },
    {
        match self.child.take() {
            None => Handoff::Nothing,
            Some(child) => match self.reaper.take() {
                None => {
                    self.child = Some(child);
                    Handoff::Unavailable(
                        FailureEvidence::from_io(
                            "transfer child to background reaper",
                            IoError::other("fallback reaper was unavailable"),
                        ),
                    )
                },
                Some(reaper) => Handoff::Send { child, reaper },
            },
        }
    }

    /// Settles the sending: a child that the reaper did not take comes back.
    pub fn finish_handoff(&mut self, sent: Result<(), Child>) -> (result: Result<
        (),
        FailureEvidence,
    >)
        ensures
            match sent {
                Ok(_) => result is Ok && *final(self) == *old(self),
                Err(child) => *final(self) == (OwnedChild::<Child, Reaper> {
                    child: Some(child),
                    ..*old(self)
                }) && (result matches Err(failure) && failure.operation
                    == "transfer child to background reaper" && failure.kind
                    == ErrorKind::BrokenPipe && failure.message@
                    == "background reaper stopped before ownership transfer"@),
            },
    {
        match sent {
            Ok(_) => Ok(()),
            Err(child) => {
                self.child = Some(child);
                Err(
                    FailureEvidence::from_io(
                        "transfer child to background reaper",
                        IoError::new(
                            ErrorKind::BrokenPipe,
                            "background reaper stopped before ownership transfer",
                        ),
                    ),
                )
            },
        }
    }
}

} // verus!
