//! Handles to spawned tasks: when an id may be told, and what awaiting a handle
//! does.
use vstd::prelude::*;
use vstd::string::*;

use crate::error::Error;
use crate::text::joined;

verus! {

/// Message delivered from a spawned background task to its handle.
///
/// A spawned task whose promise is still pending reports `Suspended` rather
/// than a value; awaiting the handle then signals the parent driver and parks.
#[derive(Debug)]
pub enum HandleMsg<T> {
    Done(Result<T, Error>),
    Suspended,
}

/// How far the server-side creation of a promise has come.
#[derive(Debug)]
pub enum CreationState {
    InFlight,
    Created,
    /// Creation failed, or was given up because an earlier creation in the same
    /// workflow failed.
    Failed(String),
}

/// What awaiting a handle does with what was received.
pub enum Received<T> {
    /// Hand the result to the awaiting code.
    Ready(Result<T, Error>),
    /// Signal the parent context's driver and park.
    Park,
}

/// The id of a promise, once its creation is confirmed; an error once it has
/// failed; nothing while it is in flight.
pub fn created_id(id: &str, state: &CreationState) -> (told: Option<Result<String, Error>>)
    ensures
        match *state {
            CreationState::InFlight => told is None,
            CreationState::Created => told matches Some(Ok(t)) && t@ == id@,
            CreationState::Failed(why) => told matches Some(Err(Error::PromiseCreation(m))) && m@
                == why@,
        },
{
    match state {
        CreationState::InFlight => None,
        CreationState::Created => Some(Ok(id.to_owned())),
        CreationState::Failed(why) => Some(Err(Error::PromiseCreation(why.clone()))),
    }
}

/// What awaiting the handle of the task `id` does, given the message of its
/// background task, or `None` where the task went away without one.
///
/// Suspension never reaches the awaiting code as a result.
pub fn receive<T>(id: &str, message: Option<HandleMsg<T>>) -> (received: Received<T>)
    ensures
        match message {
            Some(HandleMsg::Done(result)) => received == Received::Ready(result),
            Some(HandleMsg::Suspended) => received == Received::<T>::Park,
            None => received matches Received::Ready(Err(Error::JoinError(m))) && m@ == "task "@
                + id@ + " was dropped"@,
        },
{
    match message {
        Some(HandleMsg::Done(result)) => Received::Ready(result),
        Some(HandleMsg::Suspended) => Received::Park,
        None => {
            let mut text = joined("task ", id);
            text.append(" was dropped");
            Received::Ready(Err(Error::JoinError(text)))
        },
    }
}

/// What awaiting a handle comes to: the result of the task where it is done, and an error
/// where the task went away. Suspension never reaches the awaiting code as a result.
pub proof fn lemma_suspension_is_no_result<T>(
    id: &str,
    message: Option<HandleMsg<T>>,
    received: Received<T>,
)
    requires
        call_ensures(receive::<T>, (id, message), received),
    ensures
        received is Park <==> message == Some(HandleMsg::<T>::Suspended),
        message matches Some(HandleMsg::Done(result)) ==> received == Received::Ready(result),
        message is None ==> (received matches Received::Ready(Err(Error::JoinError(m))) && m@
            == "task "@ + id@ + " was dropped"@),
{
}

/// An id is told exactly where its promise was created, and then it is that id.
pub proof fn lemma_id_is_told_when_created(
    id: &str,
    state: CreationState,
    told: Option<Result<String, Error>>,
)
    requires
        call_ensures(created_id, (id, &state), told),
    ensures
        told is None <==> state is InFlight,
        told matches Some(Ok(t)) ==> state is Created && t@ == id@,
        told matches Some(Err(e)) ==> state is Failed && (e matches Error::PromiseCreation(m) && m@
            == state->Failed_0@),
{
}

} // verus!
