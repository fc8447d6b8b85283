//! A node of the cluster: its configuration, its membership database and its
//! link to the metadata server, with the rules by which it handles messages
//! and registers itself.

use crate::channel::acquire;
use crate::channel::guarded;
use crate::channel::receive_from;
use crate::channel::send_on;
use crate::cluster::Delivery;
use crate::db::names_of;
use crate::db::upsert;
use crate::db::MetadataDB;
use crate::db::Row;
use crate::json::error_text;
use crate::messages::Envelope;
use crate::messages::Message;
use crate::messages::MessageType;
use crate::text::append_decimal;
use crate::text::clone_strings;
use crate::text::decimal_digits;
use crate::text::lemma_port_round_trip;
use crate::text::parse_port;
use crate::text::port_of;
use crate::text::views;
use std::sync::mpsc::Receiver;
use std::sync::Arc;
use std::sync::Mutex;
use vstd::prelude::*;
use vstd::string::StringExecFns;

verus! {

/// Why an operation of a node failed.
#[derive(Clone, Copy, Debug, PartialEq, Eq, Structural)]
pub enum NodeErrorKind {
    /// The metadata server could not be reached, or was reached only now: the
    /// caller is to wait and try again.
    Retry,
    /// The connection to the metadata server did not take the message.
    Write,
    /// A message could not be written as JSON.
    Serialization,
    /// A message did not have the arguments its kind asks for.
    Protocol,
    /// A channel or a lock inside the process failed.
    Internal,
    /// Anything else.
    Other,
}

/// An error of a node.
#[derive(Debug)]
pub struct NodeError {
    /// What kind of failure this is.
    pub kind: NodeErrorKind,
    /// The message of the error.
    pub details: String,
}

/// The message of the error that asks the caller to try again.
pub open spec fn retry_text() -> Seq<char> {
    "Error with connection to metadata server. Attempting reconnect..."@
}

/// The start of the message of the error for a failed write.
pub open spec fn write_failure_prefix() -> Seq<char> {
    "Error writing to metadata conn: "@
}

impl NodeError {
    /// An error of no particular kind that carries `msg`.
    pub fn new(msg: &str) -> (error: NodeError)
        ensures
            error.kind == NodeErrorKind::Other,
            error.details@ == msg@,
    {
        NodeError { kind: NodeErrorKind::Other, details: msg.to_owned() }
    }

    /// An error of the given kind that carries `msg`.
    pub fn of_kind(kind: NodeErrorKind, msg: &str) -> (error: NodeError)
        ensures
            error.kind == kind,
            error.details@ == msg@,
    {
        NodeError { kind, details: msg.to_owned() }
    }

    /// The error that tells the caller to wait and register again.
    pub fn retry() -> (error: NodeError)
        ensures
            error.kind == NodeErrorKind::Retry,
            error.details@ == retry_text(),
    {
        NodeError::of_kind(
            NodeErrorKind::Retry,
            "Error with connection to metadata server. Attempting reconnect...",
        )
    }

    /// The error for a write that failed with `reason`.
    pub fn write_failed(reason: &str) -> (error: NodeError)
        ensures
            error.kind == NodeErrorKind::Write,
            error.details@ == write_failure_prefix() + reason@,
    {
        let mut details = String::from_str("Error writing to metadata conn: ");
        details.append(reason);
        NodeError { kind: NodeErrorKind::Write, details }
    }

    /// The error for a message that could not be written as JSON; its message
    /// is that of the JSON error.
    pub fn unserializable(cause: serde_json::Error) -> (error: NodeError)
        ensures
            error.kind == NodeErrorKind::Serialization,
    {
        NodeError { kind: NodeErrorKind::Serialization, details: error_text(&cause) }
    }

    /// The message of the error.
    pub fn description(&self) -> (text: &str)
        ensures
            text@ == self.details@,
    {
        self.details.as_str()
    }

    /// Whether the error asks the caller to wait and try again.
    pub fn is_retry(&self) -> (retry: bool)
        ensures
            retry == (self.kind == NodeErrorKind::Retry),
    {
        self.kind == NodeErrorKind::Retry
    }
}

impl From<serde_json::Error> for NodeError {
    /// The error for a message that could not be written as JSON.
    fn from(err: serde_json::Error) -> (error: NodeError)
        ensures
            error.kind == NodeErrorKind::Serialization,
    {
        NodeError::unserializable(err)
    }
}

impl vstd::std_specs::convert::FromSpecImpl<serde_json::Error> for NodeError {
    /// The conversion has no spec function to obey: the message of the result
    /// is the text of the JSON error, which is not known here.
    open spec fn obeys_from_spec() -> bool {
        false
    }

    open spec fn from_spec(err: serde_json::Error) -> NodeError {
        arbitrary()
    }
}

/// What a node is made from.
pub struct NodeConfiguration {
    /// Name of the node.
    pub name: String,
    /// Host of the metadata server.
    pub metadata_address: String,
    /// Directory on this machine below which the node keeps its data.
    pub data_path: String,
    /// Port of the metadata server.
    pub metadata_port: u16,
    /// Whether this node is the metadata server.
    pub am_metadata_server: bool,
    /// The channel on which the node is given its messages.
    pub rx: Arc<Mutex<Receiver<Envelope>>>,
    /// Host at which this node listens for other nodes.
    pub rpc_address: String,
    /// Port at which this node listens for other nodes.
    pub rpc_port: u16,
}

/// The state of a node's link to the metadata server.
#[derive(Clone, Copy, Debug, PartialEq, Eq, Structural)]
pub enum Link {
    /// No connection is open.
    Disconnected,
    /// A connection is open, and the node has not registered on it yet.
    Connecting,
    /// The node has sent its registration.
    Registered,
}

/// What came of the step that a node took to register.
pub enum LinkEvent {
    /// The registration could not be written as JSON.
    Unserializable(serde_json::Error),
    /// The connection took the registration.
    Written,
    /// The connection did not take the registration, for the reason given.
    WriteFailed(String),
    /// A connection was opened.
    Connected,
    /// No connection could be opened.
    ConnectFailed,
}

/// The step that a node must take next to register.
pub enum RegistrationStep {
    /// Open a connection to the metadata server at `endpoint`.
    Connect { endpoint: String },
    /// Send `message` on the open connection.
    Send { message: Message },
}

/// `host:port`, the form in which an address is dialled or bound.
pub open spec fn endpoint_of(host: Seq<char>, port: nat) -> Seq<char> {
    host + ":"@ + decimal_digits(port)
}

/// The link after `event`.
pub open spec fn link_after(link: Link, event: LinkEvent) -> Link {
    match event {
        LinkEvent::Unserializable(_) => link,
        LinkEvent::Written => Link::Registered,
        LinkEvent::WriteFailed(_) => link,
        LinkEvent::Connected => if link == Link::Disconnected {
            Link::Connecting
        } else {
            link
        },
        LinkEvent::ConnectFailed => Link::Disconnected,
    }
}

/// Builds `host:port`.
pub fn endpoint(host: &str, port: u32) -> (address: String)
    ensures
        address@ == endpoint_of(host@, port as nat),
{
    let mut address = String::from_str(host);
    address.append(":");
    append_decimal(&mut address, port as u64);
    address
}

/// A registration that a node has read from a message.
#[derive(Debug, PartialEq, Eq)]
pub struct Registration {
    /// The name under which the node registers.
    pub name: String,
    /// The host at which the node listens.
    pub host: String,
    /// The port at which the node listens.
    pub port: u16,
    /// Whether the database took the registration.
    pub registered: bool,
}

/// What a node did with one message.
#[derive(Debug, PartialEq, Eq)]
pub enum Processed {
    /// A heartbeat, which asks for nothing.
    Heartbeat,
    /// A registration that could be read.
    Register { registration: Registration },
    /// A registration without a name, a host and a port that can be read.
    Rejected,
    /// The names were asked for. `names` are the names that the answer
    /// carries. `delivered` is `None` where the request had no channel for the
    /// answer, else whether the answer was taken.
    ListNodes { names: Vec<String>, delivered: Option<bool> },
    /// The node was told to stop.
    Shutdown,
}

/// What one wait for a message gave.
#[derive(Debug, PartialEq, Eq)]
pub enum Received {
    /// A message came and was handled.
    Message(Processed),
    /// No message can come any more.
    HungUp,
    /// The lock on the channel is poisoned.
    Poisoned,
}

/// What happened on the connection of a peer.
pub enum ClientEvent {
    /// A read into the buffer returned this many bytes.
    Read { bytes: usize },
    /// A read failed.
    ReadFailed,
    /// The bytes of the last read were this message.
    Decoded { message: Message },
    /// The bytes of the last read were no message.
    Undecodable,
    /// The message was handed to the node's channel, with this outcome.
    Forwarded { delivery: Delivery },
}

/// What the handler of a connection is to do next.
pub enum ClientStep {
    /// Read from the connection again.
    Read,
    /// Take the first `length` bytes of the buffer for one message and decode
    /// them.
    Decode { length: usize },
    /// Hand `envelope` to the node's channel, with `deliver`.
    Forward { envelope: Envelope },
    /// The peer has closed the connection: stop.
    Close,
    /// The connection has failed: stop and report it.
    Abort,
}

/// The step that follows `event`.
///
/// A read of nothing means that the peer has closed. Whatever else one read
/// returns is one message, to be decoded. A decoded message is handed to the
/// node as it is and without a channel for an answer; bytes that are no
/// message are passed over. After that the handler reads on, whether or not
/// the node took the message. A failed read ends the handler.
pub open spec fn step_after(event: ClientEvent) -> ClientStep {
    match event {
        ClientEvent::Read { bytes } => if bytes == 0 {
            ClientStep::Close
        } else {
            ClientStep::Decode { length: bytes }
        },
        ClientEvent::ReadFailed => ClientStep::Abort,
        ClientEvent::Decoded { message } => ClientStep::Forward {
            envelope: Envelope { message, response_chan: None },
        },
        ClientEvent::Undecodable => ClientStep::Read,
        ClientEvent::Forwarded { .. } => ClientStep::Read,
    }
}

/// A server within a cluster.
pub struct Node {
    /// What the node was made from.
    pub config: NodeConfiguration,
    /// The membership database.
    pub db: MetadataDB,
    /// The state of the link to the metadata server.
    pub metadata_connection: Link,
}

/// Whether the arguments of a registration can be read: there are at least
/// three, and the third spells a port.
pub open spec fn registration_readable(arguments: Seq<Seq<char>>) -> bool {
    arguments.len() >= 3 && port_of(arguments[2]) is Some
}

/// The table after a registration with the given arguments, which stays as it
/// is where the arguments cannot be read.
pub open spec fn rows_after_registration(rows: Seq<Row>, arguments: Seq<Seq<char>>) -> Seq<Row> {
    if registration_readable(arguments) {
        upsert(rows, arguments[0], arguments[1], port_of(arguments[2])->0)
    } else {
        rows
    }
}

impl Registration {
    /// Whether the registration is what the arguments spell: the first is the
    /// name, the second the host and the third the port.
    pub open spec fn reads(self, arguments: Seq<Seq<char>>) -> bool {
        &&& registration_readable(arguments)
        &&& self.name@ == arguments[0]
        &&& self.host@ == arguments[1]
        &&& self.port == port_of(arguments[2])->0
    }
}

/// A registration that names a node, its host and its port in decimal can be
/// read, and registers the node at that host and port.
pub proof fn lemma_registration_is_readable(
    rows: Seq<Row>,
    name: Seq<char>,
    host: Seq<char>,
    port: u16,
)
    ensures
        registration_readable(seq![name, host, decimal_digits(port as nat)]),
        rows_after_registration(rows, seq![name, host, decimal_digits(port as nat)]) == upsert(
            rows,
            name,
            host,
            port,
        ),
{
    lemma_port_round_trip(port);
}

impl Node {
    /// A node with the given configuration. Its database has both tables and
    /// no rows, and its link to the metadata server is not open.
    pub fn new(config: NodeConfiguration) -> (node: Node)
        ensures
            node.config == config,
            node.db.has_node_table(),
            node.db.has_cluster_table(),
            node.db.rows() == Seq::<Row>::empty(),
            node.metadata_connection == Link::Disconnected,
    {
        let mut db = MetadataDB::new();
        db.create_cluster_table();
        db.create_node_table();
        Node { config, db, metadata_connection: Link::Disconnected }
    }

    /// The directory of the membership database, `{data_path}/metadata/`.
    pub fn metadata_directory(&self) -> (path: String)
        ensures
            path@ == self.config.data_path@ + "/metadata/"@,
    {
        let mut path = self.config.data_path.clone();
        path.append("/metadata/");
        path
    }

    /// The address of the metadata server.
    pub fn metadata_endpoint(&self) -> (address: String)
        ensures
            address@ == endpoint_of(
                self.config.metadata_address@,
                self.config.metadata_port as nat,
            ),
    {
        endpoint(self.config.metadata_address.as_str(), self.config.metadata_port as u32)
    }

    /// The address at which the node listens for other nodes.
    pub fn rpc_endpoint(&self) -> (address: String)
        ensures
            address@ == endpoint_of(self.config.rpc_address@, self.config.rpc_port as nat),
    {
        endpoint(self.config.rpc_address.as_str(), self.config.rpc_port as u32)
    }

    /// Whether the node must open a connection to the metadata server when it
    /// starts: every node but the metadata server itself does.
    pub fn connects_at_start(&self) -> (connects: bool)
        ensures
            connects == !self.config.am_metadata_server,
    {
        !self.config.am_metadata_server
    }

    /// A heartbeat asks for nothing.
    pub fn handle_heartbeat(&self, arguments: &Vec<String>) {
    }

    /// The names of the registered nodes.
    pub fn handle_list_nodes(&self, arguments: &Vec<String>) -> (names: Vec<String>)
        ensures
            views(names@) == names_of(self.db.rows()),
    {
        self.db.list_nodes()
    }

    /// Registers the node that the arguments name: the first is its name, the
    /// second its host and the third its port. Arguments that cannot be read
    /// are refused, and then nothing is registered.
    pub fn handle_register(&mut self, arguments: &Vec<String>) -> (outcome: Result<
        Registration,
        NodeError,
    >)
        ensures
            final(self).config == old(self).config,
            final(self).metadata_connection == old(self).metadata_connection,
            final(self).db.has_node_table() == old(self).db.has_node_table(),
            final(self).db.has_cluster_table() == old(self).db.has_cluster_table(),
            outcome is Ok <==> registration_readable(views(arguments@)),
            outcome matches Ok(registration) ==> registration.reads(views(arguments@))
                && registration.registered == old(self).db.has_node_table(),
            outcome matches Err(error) ==> error.kind == NodeErrorKind::Protocol,
            final(self).db.rows() == if old(self).db.has_node_table() {
                rows_after_registration(old(self).db.rows(), views(arguments@))
            } else {
                old(self).db.rows()
            },
    {
        if arguments.len() < 3 {
            return Err(
                NodeError::of_kind(
                    NodeErrorKind::Protocol,
                    "A registration needs a name, a host and a port",
                ),
            );
        }
        assert(views(arguments@)[0] == arguments@[0]@);
        assert(views(arguments@)[1] == arguments@[1]@);
        assert(views(arguments@)[2] == arguments@[2]@);
        match parse_port(arguments[2].as_str()) {
            Some(port) => {
                let name = arguments[0].clone();
                let host = arguments[1].clone();
                let registered = self.db.register_node(name.as_str(), host.as_str(), port);
                Ok(Registration { name, host, port, registered })
            },
            None => Err(
                NodeError::of_kind(
                    NodeErrorKind::Protocol,
                    "The port of a registration must be a number from 0 to 65535",
                ),
            ),
        }
    }

    /// Whether handling `envelope` turns this node into `after` and gives
    /// `processed`.
    ///
    /// Configuration, link and tables stay. A heartbeat and a shutdown change
    /// nothing. A registration whose arguments can be read is entered in the
    /// table of nodes, if there is one; one whose arguments cannot be read is
    /// rejected and changes nothing. A request for the nodes changes nothing;
    /// its answer carries the names of the registered nodes, and is sent
    /// exactly where the request came with a channel for the answer.
    pub open spec fn handles(self, envelope: Envelope, after: Node, processed: Processed) -> bool {
        &&& after.config == self.config
        &&& after.metadata_connection == self.metadata_connection
        &&& after.db.has_node_table() == self.db.has_node_table()
        &&& after.db.has_cluster_table() == self.db.has_cluster_table()
        &&& match envelope.message.message_type {
            MessageType::HEARTBEAT => processed == Processed::Heartbeat && after.db.rows()
                == self.db.rows(),
            MessageType::REGISTER => {
                &&& if registration_readable(envelope.message.arguments()) {
                    &&& processed matches Processed::Register { registration }
                    &&& registration.reads(envelope.message.arguments())
                    &&& registration.registered == self.db.has_node_table()
                } else {
                    processed == Processed::Rejected
                }
                &&& after.db.rows() == if self.db.has_node_table() {
                    rows_after_registration(self.db.rows(), envelope.message.arguments())
                } else {
                    self.db.rows()
                }
            },
            MessageType::LIST_NODES => {
                &&& processed matches Processed::ListNodes { names, delivered }
                &&& views(names@) == names_of(self.db.rows())
                &&& delivered is Some <==> envelope.response_chan is Some
                &&& after.db.rows() == self.db.rows()
            },
            MessageType::SHUTDOWN => processed == Processed::Shutdown && after.db.rows()
                == self.db.rows(),
        }
    }

    /// Handles one message.
    ///
    /// A heartbeat asks for nothing. A registration is entered in the
    /// database, or refused where its arguments cannot be read. A request for
    /// the nodes is answered on the channel that came with it, with the names
    /// of the registered nodes; without a channel there is no answer. A
    /// shutdown changes nothing here: it tells the caller to stop.
    pub fn process(&mut self, envelope: Envelope) -> (processed: Processed)
        ensures
            old(self).handles(envelope, *final(self), processed),
    {
        match envelope.message.message_type {
            MessageType::HEARTBEAT => {
                self.handle_heartbeat(&envelope.message.args);
                Processed::Heartbeat
            },
            MessageType::REGISTER => {
                match self.handle_register(&envelope.message.args) {
                    Ok(registration) => Processed::Register { registration },
                    Err(_) => Processed::Rejected,
                }
            },
            MessageType::LIST_NODES => {
                let names = self.db.list_nodes();
                let delivered = match envelope.response_chan {
                    Some(chan) => Some(send_on(&chan, Message::node_list(clone_strings(&names)))),
                    None => None,
                };
                Processed::ListNodes { names, delivered }
            },
            MessageType::SHUTDOWN => Processed::Shutdown,
        }
    }

    /// Serves the connection of a peer, one event at a time: given what
    /// happened last, tells what to do next.
    ///
    /// A read of nothing means that the peer has closed, and ends the handler.
    /// Whatever else one read returns is one message. A message that can be
    /// decoded is to be handed to the node as it is, without a channel for an
    /// answer; bytes that cannot be decoded are passed over. In both cases the
    /// handler reads on, whether or not the node took the message. A failed
    /// read ends the handler.
    pub fn handle_client(event: ClientEvent) -> (next: ClientStep)
        ensures
            next == step_after(event),
    {
        match event {
            ClientEvent::Read { bytes } => {
                if bytes == 0 {
                    ClientStep::Close
                } else {
                    ClientStep::Decode { length: bytes }
                }
            },
            ClientEvent::ReadFailed => ClientStep::Abort,
            ClientEvent::Decoded { message } => ClientStep::Forward { envelope: message.sealed() },
            ClientEvent::Undecodable => ClientStep::Read,
            ClientEvent::Forwarded { .. } => ClientStep::Read,
        }
    }

    /// Waits for the next message on the node's channel and handles it. The
    /// lock on the channel is held while waiting and given up before the
    /// message is handled.
    ///
    /// Which message comes, if any, is for the senders to decide. Where one
    /// comes, the node and the result are what `process` makes of it. Where
    /// none can come any more, or the lock is poisoned, the node stays as it
    /// is.
    pub fn receive_message(&mut self) -> (received: Received)
        ensures
            received matches Received::Message(processed) ==> exists|envelope: Envelope|
                #[trigger] old(self).handles(envelope, *final(self), processed),
            received is HungUp || received is Poisoned ==> *final(self) == *old(self),
    {
        let waited = wait_for_message(&self.config.rx);
        match waited {
            Ok(Some(envelope)) => Received::Message(self.process(envelope)),
            Ok(None) => Received::HungUp,
            Err(_) => Received::Poisoned,
        }
    }

    /// The step to take next to register with the metadata server: without an
    /// open connection, to open one; with one, to send the registration, which
    /// names this node and the address at which it listens.
    pub fn registration_step(&self) -> (step: RegistrationStep)
        ensures
            match step {
                RegistrationStep::Connect { endpoint } => self.metadata_connection
                    == Link::Disconnected && endpoint@ == endpoint_of(
                    self.config.metadata_address@,
                    self.config.metadata_port as nat,
                ),
                RegistrationStep::Send { message } => self.metadata_connection != Link::Disconnected
                    && message.message_type == MessageType::REGISTER && message.arguments()
                    == seq![
                    self.config.name@,
                    self.config.rpc_address@,
                    decimal_digits(self.config.rpc_port as nat),
                ],
            },
    {
        match self.metadata_connection {
            Link::Disconnected => RegistrationStep::Connect { endpoint: self.metadata_endpoint() },
            _ => RegistrationStep::Send {
                message: Message::registration(
                    self.config.name.as_str(),
                    self.config.rpc_address.as_str(),
                    self.config.rpc_port,
                ),
            },
        }
    }

    /// Takes note of what came of the registration step, and tells the caller
    /// whether the node has registered.
    ///
    /// Only a registration that the connection took is a success. A failed
    /// write is an error that carries the reason. An attempt to connect ends
    /// in the error that asks to try again, whether it opened a connection or
    /// not: the registration goes out with the next call.
    pub fn register_with_metadata_server(&mut self, event: LinkEvent) -> (outcome: Result<
        (),
        NodeError,
    >)
        ensures
            final(self).config == old(self).config,
            final(self).db == old(self).db,
            final(self).metadata_connection == link_after(old(self).metadata_connection, event),
            outcome is Ok <==> event is Written,
            match event {
                LinkEvent::Unserializable(_) => outcome matches Err(error) && error.kind
                    == NodeErrorKind::Serialization,
                LinkEvent::Written => outcome is Ok,
                LinkEvent::WriteFailed(reason) => outcome matches Err(error) && error.kind
                    == NodeErrorKind::Write && error.details@ == write_failure_prefix() + reason@,
                LinkEvent::Connected | LinkEvent::ConnectFailed => outcome matches Err(error)
                    && error.kind == NodeErrorKind::Retry && error.details@ == retry_text(),
            },
    {
        match event {
            LinkEvent::Unserializable(cause) => Err(NodeError::from(cause)),
            LinkEvent::Written => {
                self.metadata_connection = Link::Registered;
                Ok(())
            },
            LinkEvent::WriteFailed(reason) => Err(NodeError::write_failed(reason.as_str())),
            LinkEvent::Connected => {
                if self.metadata_connection == Link::Disconnected {
                    self.metadata_connection = Link::Connecting;
                }
                Err(NodeError::retry())
            },
            LinkEvent::ConnectFailed => {
                self.metadata_connection = Link::Disconnected;
                Err(NodeError::retry())
            },
        }
    }
}

/// Waits for the next message on a locked channel. `Err` tells that the lock
/// is poisoned, `Ok(None)` that no message can come any more. A thread that
/// already holds the lock on `rx` must not call this: it would wait for
/// itself.
pub fn wait_for_message(rx: &Arc<Mutex<Receiver<Envelope>>>) -> (waited: Result<
    Option<Envelope>,
    (),
>) {
    match acquire(rx) {
        Some(guard) => Ok(receive_from(guarded(&guard))),
        None => Err(()),
    }
}

/// Whether a message of these bytes reaches a peer in one piece: a peer reads
/// at most `MAX_MESSAGE_BYTES` at a time and takes each read for one message.
pub fn fits_one_read(bytes: &[u8]) -> (fits: bool)
    ensures
        fits == (0 < bytes@.len() <= crate::constants::MAX_MESSAGE_BYTES),
{
    0 < bytes.len() && bytes.len() <= crate::constants::MAX_MESSAGE_BYTES
}

} // verus!
