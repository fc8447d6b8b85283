//! The cluster, and the switchboard through which the parts of a process reach
//! the local node.

use crate::channel::acquire;
use crate::channel::guarded;
use crate::channel::receive_from;
use crate::channel::send_on;
use crate::messages::Envelope;
use crate::messages::Message;
use crate::node::NodeError;
use crate::node::NodeErrorKind;
use std::sync::mpsc::channel;
use std::sync::mpsc::Receiver;
use std::sync::mpsc::Sender;
use std::sync::Arc;
use std::sync::Mutex;
use vstd::prelude::*;

verus! {

/// A collection of nodes.
pub struct Cluster {
    /// Name of the cluster.
    pub name: String,
}

impl Cluster {
    /// A cluster called `name`.
    pub fn new(name: &str) -> (cluster: Cluster)
        ensures
            cluster.name@ == name@,
    {
        Cluster { name: name.to_owned() }
    }
}

/// What became of a message handed to a shared channel.
#[derive(Clone, Copy, Debug, PartialEq, Eq, Structural)]
pub enum Delivery {
    /// The channel took the message.
    Delivered,
    /// The receiving half of the channel is gone.
    Closed,
    /// The lock on the channel is poisoned.
    Poisoned,
}

/// Names the outcome of a delivery from what the lock and the channel did:
/// `sent` is `None` where the lock could not be taken, and else whether the
/// channel took the message.
pub fn delivery_of(sent: Option<bool>) -> (delivery: Delivery)
    ensures
        delivery == match sent {
            None => Delivery::Poisoned,
            Some(true) => Delivery::Delivered,
            Some(false) => Delivery::Closed,
        },
{
    match sent {
        None => Delivery::Poisoned,
        Some(true) => Delivery::Delivered,
        Some(false) => Delivery::Closed,
    }
}

/// Hands `envelope` to the node behind `tx`. The lock is held for the send
/// alone. A thread that already holds the lock on `tx` must not call this: it
/// would wait for itself.
pub fn deliver(tx: &Arc<Mutex<Sender<Envelope>>>, envelope: Envelope) -> (delivery: Delivery) {
    let sent = match acquire(tx) {
        Some(guard) => Some(send_on(guarded(&guard), envelope)),
        None => None,
    };
    delivery_of(sent)
}

/// The channels into the parts of the process; so far that of the local node.
pub struct Switchboard {
    /// The shared sending half of the node's channel.
    pub node_tx: Arc<Mutex<Sender<Envelope>>>,
}

impl Switchboard {
    /// A switchboard onto the node behind `node_tx`.
    pub fn new(node_tx: Arc<Mutex<Sender<Envelope>>>) -> (switchboard: Switchboard)
        ensures
            switchboard.node_tx == node_tx,
    {
        Switchboard { node_tx }
    }

    /// What the caller of `submit` gets for a delivery: the channel for the
    /// answer where the message was delivered, and else an internal error.
    pub fn submitted(delivery: Delivery, reply: Receiver<Message>) -> (outcome: Result<
        Receiver<Message>,
        NodeError,
    >)
        ensures
            outcome is Ok <==> delivery == Delivery::Delivered,
            outcome matches Ok(channel) ==> channel == reply,
            outcome matches Err(error) ==> error.kind == NodeErrorKind::Internal,
    {
        match delivery {
            Delivery::Delivered => Ok(reply),
            Delivery::Closed => Err(
                NodeError::of_kind(NodeErrorKind::Internal, "The node no longer takes messages"),
            ),
            Delivery::Poisoned => Err(
                NodeError::of_kind(
                    NodeErrorKind::Internal,
                    "The lock on the channel to the node is poisoned",
                ),
            ),
        }
    }

    /// What the caller of `await_reply` gets: the answer where one came, and
    /// an internal error where the channel was closed without one.
    pub fn replied(reply: Option<Message>) -> (outcome: Result<Message, NodeError>)
        ensures
            outcome is Ok <==> reply is Some,
            outcome matches Ok(message) ==> message == reply->0,
            outcome matches Err(error) ==> error.kind == NodeErrorKind::Internal,
    {
        match reply {
            Some(message) => Ok(message),
            None => Err(
                NodeError::of_kind(NodeErrorKind::Internal, "The node gave no answer"),
            ),
        }
    }

    /// Sends `message` to the node with a fresh channel for the answer, and
    /// returns the receiving half of that channel. A poisoned lock or a node
    /// that no longer listens gives an internal error.
    pub fn submit(&self, message: Message) -> (outcome: Result<Receiver<Message>, NodeError>)
        ensures
            outcome matches Err(error) ==> error.kind == NodeErrorKind::Internal,
    {
        let (reply_tx, reply_rx) = channel::<Message>();
        let delivery = deliver(&self.node_tx, message.response_chan(reply_tx));
        Switchboard::submitted(delivery, reply_rx)
    }

    /// Waits for the answer on `reply`. A channel that closes without an
    /// answer gives an internal error.
    pub fn await_reply(reply: &Receiver<Message>) -> (outcome: Result<Message, NodeError>)
        ensures
            outcome matches Err(error) ==> error.kind == NodeErrorKind::Internal,
    {
        Switchboard::replied(receive_from(reply))
    }

    /// Sends `message` to the node and waits for its answer.
    pub fn send_and_wait(&self, message: Message) -> (outcome: Result<Message, NodeError>)
        ensures
            outcome matches Err(error) ==> error.kind == NodeErrorKind::Internal,
    {
        match self.submit(message) {
            Ok(reply) => Switchboard::await_reply(&reply),
            Err(error) => Err(error),
        }
    }
}

} // verus!
