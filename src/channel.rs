use crate::error::{RecvError, SendMessageError, SendMessageWithReplyError, SendReplyError};
use crate::message::{Content, IntoMessage, Message};
use crossbeam_channel::{Receiver, RecvError as QueueClosed, SendError, Sender};
use vstd::prelude::*;

verus! {

/// crossbeam's sending handle of an unbounded or bounded queue.
#[verifier::external_type_specification]
#[verifier::external_body]
#[verifier::reject_recursive_types(T)]
pub struct ExSender<T>(crossbeam_channel::Sender<T>);

/// crossbeam's receiving handle.
#[verifier::external_type_specification]
#[verifier::external_body]
#[verifier::reject_recursive_types(T)]
pub struct ExReceiver<T>(crossbeam_channel::Receiver<T>);

/// crossbeam's failure of a send: it hands the message back in its field.
#[verifier::external_type_specification]
#[verifier::reject_recursive_types(T)]
pub struct ExSendError<T>(SendError<T>);

/// crossbeam's failure of a receive on an empty, disconnected queue.
#[verifier::external_type_specification]
#[verifier::external_body]
pub struct ExQueueClosed(QueueClosed);

/// crossbeam's `unbounded`: a fresh FIFO queue without a bound.
pub assume_specification<T>[ crossbeam_channel::unbounded::<T> ]() -> (Sender<T>, Receiver<T>);

/// crossbeam's `Sender::send`: on failure (every receiver is gone) the
/// error holds the very message that was given.
pub assume_specification<T>[ crossbeam_channel::Sender::<T>::send ](
    s: &Sender<T>,
    msg: T,
) -> (r: Result<(), SendError<T>>)
    ensures
        r matches Err(e) ==> e.0 == msg,
;

/// crossbeam's `Receiver::recv`: blocks until a message comes or the
/// queue is empty and disconnected.
pub assume_specification<T>[ crossbeam_channel::Receiver::<T>::recv ](
    r: &Receiver<T>,
) -> Result<T, QueueClosed>;

/// crossbeam's `Sender::clone`: another handle on the same queue.
pub assume_specification<T>[ <crossbeam_channel::Sender<T> as Clone>::clone ](
    s: &Sender<T>,
) -> Sender<T>;

/// crossbeam's `Receiver::clone`: another handle on the same queue.
pub assume_specification<T>[ <crossbeam_channel::Receiver<T> as Clone>::clone ](
    r: &Receiver<T>,
) -> Receiver<T>;

/// The callers' end of a duplex channel: pushes requests, pulls replies.
pub struct MessageSender {
    msg_sender: Sender<Message>,
    reply_recver: Receiver<Content>,
}

impl MessageSender {
    /// Sends `msg` fire-and-forget; on failure the message comes back.
    pub fn send_msg<T: Send + 'static>(&self, msg: T) -> (r: Result<(), SendMessageError>)
        ensures
            r matches Err(e) ==> e.0 is Simple,
    {
        match self.msg_sender.send(msg.into_msg()) {
            Ok(()) => Ok(()),
            Err(e) => Err(SendMessageError(e.0)),
        }
    }

    /// Sends `msg` as a request; the caller then receives the reply with
    /// [`MessageSender::recv_reply`].
    pub fn send_msg_with_reply<T: Send + 'static>(&self, msg: T) -> (r: Result<(), SendMessageError>)
        ensures
            r matches Err(e) ==> e.0 is WithReply,
    {
        match self.msg_sender.send(msg.into_msg_with_reply()) {
            Ok(()) => Ok(()),
            Err(e) => Err(SendMessageError(e.0)),
        }
    }

    /// Sends a message built by the caller, the sentinel included.
    pub fn send_message(&self, msg: Message) -> (r: Result<(), SendMessageError>)
        ensures
            r matches Err(e) ==> e.0 == msg,
    {
        match self.msg_sender.send(msg) {
            Ok(()) => Ok(()),
            Err(e) => Err(SendMessageError(e.0)),
        }
    }

    /// Blocks until a reply comes, or fails once no receiver side remains.
    pub fn recv_reply(&self) -> Result<Content, RecvError> {
        match self.reply_recver.recv() {
            Ok(c) => Ok(c),
            Err(_) => Err(RecvError),
        }
    }

    /// Sends `data` as a request, blocks until the reply comes and narrows it
    /// to `R`; a reply of another type is reported apart from a transport
    /// failure.
    pub fn request<M: Send + 'static, R: 'static>(&self, data: M) -> (r: Result<R, SendMessageWithReplyError>)
        ensures
            r matches Err(SendMessageWithReplyError::SendError(m)) ==> m is WithReply,
    {
        match self.send_msg_with_reply(data) {
            Err(e) => Err(SendMessageWithReplyError::SendError(e.0)),
            Ok(()) => match self.recv_reply() {
                Err(_) => Err(SendMessageWithReplyError::RecvError),
                Ok(reply) => match reply.into::<R>() {
                    Some(v) => Ok(v),
                    None => Err(SendMessageWithReplyError::ConvertContentError),
                },
            },
        }
    }

    /// Pushes the sentinel that ends the actor's loop; a closed queue is
    /// no failure here.
    pub fn disconnect(&self) {
        let _ = self.send_message(Message::Disconnect);
    }

    pub(crate) fn from(msg_send: Sender<Message>, reply_recv: Receiver<Content>) -> Self
    {
        MessageSender { msg_sender: msg_send, reply_recver: reply_recv }
    }
}

impl Clone for MessageSender {
    fn clone(&self) -> Self {
        MessageSender { msg_sender: self.msg_sender.clone(), reply_recver: self.reply_recver.clone() }
    }
}

/// The actor's end of a duplex channel: pulls requests, pushes replies.
pub struct MessageReceiver {
    msg_recver: Receiver<Message>,
    reply_sender: Sender<Content>,
}

impl MessageReceiver {
    /// Blocks until a message comes, or fails once the queue is empty and
    /// every sender is gone.
    pub fn recv_msg(&self) -> Result<Message, RecvError> {
        match self.msg_recver.recv() {
            Ok(m) => Ok(m),
            Err(_) => Err(RecvError),
        }
    }

    /// Pushes a reply; on failure the reply comes back.
    pub fn send_reply(&self, reply: Content) -> (r: Result<(), SendReplyError>)
        ensures
            r matches Err(e) ==> e.0 == reply,
    {
        match self.reply_sender.send(reply) {
            Ok(()) => Ok(()),
            Err(e) => Err(SendReplyError(e.0)),
        }
    }

    pub(crate) fn from(msg_recv: Receiver<Message>, reply_send: Sender<Content>) -> Self
    {
        MessageReceiver { msg_recver: msg_recv, reply_sender: reply_send }
    }

    /// The forward queue, for waiting on several receivers at once.
    pub fn msg_recver(&self) -> &Receiver<Message>
    {
        &self.msg_recver
    }
}

impl Clone for MessageReceiver {
    fn clone(&self) -> Self {
        MessageReceiver { msg_recver: self.msg_recver.clone(), reply_sender: self.reply_sender.clone() }
    }
}

/// A fresh duplex channel: a forward queue of messages and a reply queue,
/// each unbounded.
pub fn channel() -> (MessageSender, MessageReceiver) {
    let (msg_send, msg_recv) = crossbeam_channel::unbounded();
    let (reply_send, reply_recv) = crossbeam_channel::unbounded();
    (MessageSender::from(msg_send, reply_recv), MessageReceiver::from(msg_recv, reply_send))
}

} // verus!
