use crate::message::{Content, Message};
use vstd::prelude::*;

verus! {

/// A reply could not be narrowed to the requested type.
#[derive(Debug)]
pub struct ConvertContentError;

/// A receive failed: the queue is empty and every sender is gone.
#[derive(Debug)]
pub struct RecvError;

/// A message could not be sent because no receiver remains; it is handed
/// back.
pub struct SendMessageError(pub Message);

impl SendMessageError {
    /// Narrows the message that could not be sent.
    pub fn into<T: 'static>(self) -> (r: Option<T>)
        ensures
            self.0.payload() is None ==> r is None,
    {
        self.0.into()
    }
}

/// A reply could not be pushed because the requester side is gone; the
/// reply is handed back.
pub struct SendReplyError(pub Content);

impl SendReplyError {
    /// Narrows the reply that could not be pushed.
    pub fn into<T: 'static>(self) -> (r: Option<T>) {
        self.0.into()
    }
}

/// The ways a request/reply exchange can fail.
pub enum SendMessageWithReplyError {
    /// The request could not be sent; it is handed back.
    SendError(Message),
    /// No reply could be received.
    RecvError,
    /// The reply does not have the requested type.
    ConvertContentError,
}

impl SendMessageWithReplyError {
    /// Narrows the request that could not be sent; the other failures carry
    /// no payload.
    pub fn into<T: 'static>(self) -> (r: Option<T>)
        ensures
            !(self is SendError) ==> r is None,
            self matches SendMessageWithReplyError::SendError(m) && m.payload() is None ==> r is None,
    {
        match self {
            SendMessageWithReplyError::SendError(msg) => msg.into(),
            SendMessageWithReplyError::RecvError => None,
            SendMessageWithReplyError::ConvertContentError => None,
        }
    }
}

/// Failures of the operations of a cluster.
#[derive(Debug)]
pub enum ClusterError<'a> {
    /// The new actor could not be handed to the background thread, or the
    /// builder names no cluster.
    RegistrationError,
    /// The builder names no actor.
    UnsetIdError,
    /// The reply does not have the requested type.
    ContentConversionError,
    /// The actor's queue is closed.
    AlreadyDisconnected,
    /// The name is taken.
    IdAlreadyUsed(&'a str),
    /// No actor has that name.
    IdNotFound(&'a str),
}

} // verus!
