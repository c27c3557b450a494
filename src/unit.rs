use crate::channel::{MessageReceiver, MessageSender};
use crate::error::{RecvError, SendReplyError};
use crate::message::{Content, Message};
use vstd::prelude::*;

verus! {

/// An actor: state that is only ever touched by the thread hosting it and
/// that is reached by messages alone.
pub trait Unit: Send + 'static {
    /// Handles a fire-and-forget payload.
    fn on_message(&mut self, data: Content);

    /// Handles a request and gives exactly one reply.
    fn on_message_with_reply(&mut self, data: Content) -> Content;
}

/// An actor that takes a handle on its own channel before it starts to
/// receive, so that it can address itself or be forwarded.
pub trait WithContext {
    fn with_context(&mut self, channel: MessageSender);
}

/// What a receive loop does after one input.
#[derive(PartialEq, Eq, Structural, Debug, Clone, Copy)]
pub enum Flow {
    /// Wait for the next message.
    Continue,
    /// Stop processing messages for this actor.
    Terminate,
}

/// The kinds of input a receive loop meets.
#[derive(PartialEq, Eq, Structural, Debug, Clone, Copy)]
pub enum Input {
    Disconnect,
    Simple,
    WithReply,
    Closed,
}

/// The kind of a received input.
pub open spec fn input_of(msg: Result<Message, RecvError>) -> Input {
    match msg {
        Ok(Message::Disconnect) => Input::Disconnect,
        Ok(Message::Simple(_)) => Input::Simple,
        Ok(Message::WithReply(_)) => Input::WithReply,
        Err(_) => Input::Closed,
    }
}

/// The receive loop's table: the next state after one input, where
/// `replied` tells whether the reply to a request could be pushed.
pub open spec fn next_flow(input: Input, replied: bool) -> Flow {
    match input {
        Input::Disconnect => Flow::Terminate,
        Input::Simple => Flow::Continue,
        Input::WithReply => if replied {
            Flow::Continue
        } else {
            Flow::Terminate
        },
        Input::Closed => Flow::Terminate,
    }
}

/// What one step of a receive loop did.
pub struct Step {
    /// The kind of input the step met.
    pub input: Input,
    /// For a request, the outcome of pushing its reply.
    pub pushed: Option<Result<(), SendReplyError>>,
    /// What the loop does next.
    pub flow: Flow,
}

/// The loop's next state after a request, by whether its reply could be
/// pushed.
pub fn reply_flow(pushed: &Result<(), SendReplyError>) -> (r: Flow)
    ensures
        r == next_flow(Input::WithReply, pushed is Ok),
{
    match pushed {
        Ok(()) => Flow::Continue,
        Err(_) => Flow::Terminate,
    }
}

/// Applies one received input to `obj`: a payload goes to its handler, the
/// reply to a request is pushed on `rx` before anything else happens, and
/// the next state follows the table from the input and that push.
pub fn handle_message<U: Unit>(obj: &mut U, rx: &MessageReceiver, msg: Result<Message, RecvError>) -> (r: Step)
    ensures
        r.input == input_of(msg),
        r.pushed is Some <==> r.input == Input::WithReply,
        r.flow == next_flow(r.input, r.pushed matches Some(Ok(_))),
        r.input == Input::Disconnect || r.input == Input::Closed ==> *final(obj) == *old(obj),
{
    match msg {
        Ok(Message::Disconnect) => Step { input: Input::Disconnect, pushed: None, flow: Flow::Terminate },
        Ok(Message::Simple(content)) => {
            obj.on_message(content);
            Step { input: Input::Simple, pushed: None, flow: Flow::Continue }
        },
        Ok(Message::WithReply(content)) => {
            let reply = obj.on_message_with_reply(content);
            let pushed = rx.send_reply(reply);
            let flow = reply_flow(&pushed);
            Step { input: Input::WithReply, pushed: Some(pushed), flow }
        },
        Err(_) => Step { input: Input::Closed, pushed: None, flow: Flow::Terminate },
    }
}

} // verus!
