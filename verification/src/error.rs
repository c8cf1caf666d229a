//! The errors that the runtime reports.

use vstd::prelude::*;
use crate::identity::{ActorId, ActorIdView};

verus! {

/// An error as plain values.
pub enum SystemActorErrorView {
    StoreError(Seq<char>),
    ActorAlreadyExists(ActorIdView),
    ActorNotFound(ActorIdView),
    UnhealthyActor(ActorIdView),
    MessageTypeMismatch,
    ReplyTimeout,
    HandlerError(Seq<char>),
}

/// The kinds of error that the runtime reports.
#[derive(Debug)]
pub enum SystemActorError {
    /// A failure of the store, with the store's own description of it.
    StoreError(String),
    /// An actor was to be spawned under an id that has a record already,
    /// and the spawn options asked for an error in that case.
    ActorAlreadyExists(ActorId),
    /// No record exists for the actor.
    ActorNotFound(ActorId),
    /// The recipient was found unhealthy before a message was sent.
    UnhealthyActor(ActorId),
    /// A payload was asked for under a tag that is not the frame's.
    MessageTypeMismatch,
    /// No reply came within the time that the sender allowed.
    ReplyTimeout,
    /// The recipient's handler failed; the text is how its error reads.
    HandlerError(String),
}

impl View for SystemActorError {
    type V = SystemActorErrorView;

    open spec fn view(&self) -> SystemActorErrorView {
        match self {
            SystemActorError::StoreError(text) => SystemActorErrorView::StoreError(text@),
            SystemActorError::ActorAlreadyExists(id) => SystemActorErrorView::ActorAlreadyExists(
                id@,
            ),
            SystemActorError::ActorNotFound(id) => SystemActorErrorView::ActorNotFound(id@),
            SystemActorError::UnhealthyActor(id) => SystemActorErrorView::UnhealthyActor(id@),
            SystemActorError::MessageTypeMismatch => SystemActorErrorView::MessageTypeMismatch,
            SystemActorError::ReplyTimeout => SystemActorErrorView::ReplyTimeout,
            SystemActorError::HandlerError(text) => SystemActorErrorView::HandlerError(text@),
        }
    }
}

impl SystemActorError {
    /// The error for a failure of the store. The store's description is
    /// kept as it is.
    pub fn from_store(description: String) -> (error: SystemActorError)
        ensures
            error@ == SystemActorErrorView::StoreError(description@),
    {
        SystemActorError::StoreError(description)
    }
}

} // verus!
