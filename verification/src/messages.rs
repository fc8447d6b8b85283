//! The messages that nodes send each other, and that the parts of one node
//! hand each other.
//!
//! A message is what goes over the wire: its kind, an id, the time it was
//! made and a list of arguments by position. The channel for an answer is
//! never part of it. Inside a process a message travels in an [`Envelope`],
//! which may add that channel.

use crate::text::decimal_digits;
use crate::text::decimal_string;
use crate::text::views;
use std::sync::mpsc::Sender;
use std::time::SystemTime;
use uuid::Uuid;
use vstd::prelude::*;

verus! {

/// The unique id of a message, `uuid::Uuid`.
#[verifier::external_type_specification]
#[verifier::external_body]
pub struct ExUuid(Uuid);

/// A point in time, `std::time::SystemTime`.
#[verifier::external_type_specification]
#[verifier::external_body]
pub struct ExSystemTime(SystemTime);

/// `Uuid::new_v4` makes an id from random bits. Nothing is known of it. The
/// call panics where the operating system gives no random bits, which nothing
/// a caller does can bring about or prevent.
pub assume_specification[ Uuid::new_v4 ]() -> (id: Uuid);

/// `SystemTime::now` reads the clock. Nothing is known of what it shows.
pub assume_specification[ SystemTime::now ]() -> (now: SystemTime);

/// The kinds of message.
#[allow(non_camel_case_types)]
#[derive(Clone, Copy, Debug, PartialEq, Eq, Structural)]
pub enum MessageType {
    /// A sign of life.
    HEARTBEAT,
    /// A node asks to join; the arguments are its name, host and port.
    REGISTER,
    /// A request for the names of the registered nodes, or the answer to one.
    LIST_NODES,
    /// The node is to stop handling messages.
    SHUTDOWN,
}

/// A message as it goes over the wire.
pub struct Message {
    /// What the message is for.
    pub message_type: MessageType,
    /// The id of this message.
    pub message_id: Uuid,
    /// When the message was made.
    pub creation_time: SystemTime,
    /// The arguments, by position.
    pub args: Vec<String>,
}

/// A message on its way inside one process, with the channel for the answer
/// where one is wanted.
pub struct Envelope {
    /// The message.
    pub message: Message,
    /// Where to send the answer.
    pub response_chan: Option<Sender<Message>>,
}

impl Message {
    /// The arguments as texts.
    pub open spec fn arguments(&self) -> Seq<Seq<char>> {
        views(self.args@)
    }

    /// A message of kind `mt` without arguments, with a fresh id and the
    /// present time.
    pub fn new(mt: MessageType) -> (message: Message)
        ensures
            message.message_type == mt,
            message.args@.len() == 0,
    {
        Message::stamped(mt, Uuid::new_v4(), SystemTime::now())
    }

    /// A message of kind `mt` without arguments, with the given id and time.
    pub fn stamped(mt: MessageType, id: Uuid, time: SystemTime) -> (message: Message)
        ensures
            message.message_type == mt,
            message.message_id == id,
            message.creation_time == time,
            message.args@.len() == 0,
    {
        Message { message_type: mt, message_id: id, creation_time: time, args: Vec::new() }
    }

    /// The message with `arg` added as its last argument.
    pub fn arg(self, arg: String) -> (message: Message)
        ensures
            message.message_type == self.message_type,
            message.message_id == self.message_id,
            message.creation_time == self.creation_time,
            message.args@ == self.args@.push(arg),
            message.arguments() == self.arguments().push(arg@),
    {
        let mut message = self;
        message.args.push(arg);
        assert(message.arguments() =~= self.arguments().push(arg@));
        message
    }

    /// The message with `args` added after its arguments, in their order.
    pub fn args(self, args: Vec<String>) -> (message: Message)
        ensures
            message.message_type == self.message_type,
            message.message_id == self.message_id,
            message.creation_time == self.creation_time,
            message.args@ == self.args@ + args@,
            message.arguments() == self.arguments() + views(args@),
    {
        let mut message = self;
        let mut added = args;
        message.args.append(&mut added);
        assert(message.arguments() =~= self.arguments() + views(args@));
        message
    }

    /// The message in an envelope that carries `chan` for the answer.
    pub fn response_chan(self, chan: Sender<Message>) -> (envelope: Envelope)
        ensures
            envelope.message == self,
            envelope.response_chan == Some(chan),
    {
        Envelope { message: self, response_chan: Some(chan) }
    }

    /// The message in an envelope that asks for no answer.
    pub fn sealed(self) -> (envelope: Envelope)
        ensures
            envelope.message == self,
            envelope.response_chan is None,
    {
        Envelope { message: self, response_chan: None }
    }

    /// The request of the node `name`, which listens at `host` and `port`, to
    /// be registered: a `REGISTER` message whose arguments are the name, the
    /// host and the port in decimal.
    pub fn registration(name: &str, host: &str, port: u16) -> (message: Message)
        ensures
            message.message_type == MessageType::REGISTER,
            message.arguments() == seq![name@, host@, decimal_digits(port as nat)],
    {
        let mut args: Vec<String> = Vec::new();
        args.push(name.to_owned());
        args.push(host.to_owned());
        args.push(decimal_string(port as u64));
        assert(views(args@) =~= seq![name@, host@, decimal_digits(port as nat)]);
        Message::new(MessageType::REGISTER).args(args)
    }

    /// The answer to a request for the registered nodes: a `LIST_NODES`
    /// message whose arguments are the names.
    pub fn node_list(names: Vec<String>) -> (message: Message)
        ensures
            message.message_type == MessageType::LIST_NODES,
            message.arguments() == views(names@),
    {
        Message::new(MessageType::LIST_NODES).args(names)
    }
}

impl Envelope {
    /// The message of the envelope, without the channel for the answer: what
    /// goes over the wire.
    pub fn into_message(self) -> (message: Message)
        ensures
            message == self.message,
    {
        self.message
    }
}

} // verus!
