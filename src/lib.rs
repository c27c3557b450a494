//! An in-process actor runtime: type-erased payloads travel over duplex
//! channels to actors hosted either on a thread of their own or on a shared
//! background thread that multiplexes many of them.

mod channel;
mod cluster;
mod error;
mod message;
mod run_state;
mod tasks;
mod unit;

pub use crate::error::{
    ClusterError, ConvertContentError, RecvError, SendMessageError, SendMessageWithReplyError,
    SendReplyError,
};
pub use crate::message::{Content, IntoContent, IntoMessage, Message};
pub use crate::channel::{channel, MessageReceiver, MessageSender};
pub use crate::unit::{handle_message, reply_flow, Flow, Input, Step, Unit, WithContext};
pub use crate::cluster::{Cluster, ClusterMessage, HandleList, MessageEventHandle};
pub use crate::run_state::{runner_dropped_in, running_in, RunState, RunStatus};
pub use crate::tasks::TaskTable;
