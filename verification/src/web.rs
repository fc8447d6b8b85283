//! The boundary towards the web server: which handler a request goes to, and
//! what the handlers answer.

use crate::channel::acquire;
use crate::channel::guarded;
use crate::channel::share;
use crate::cluster::Switchboard;
use crate::json::encode_names;
use crate::json::json_array;
use crate::messages::Message;
use crate::messages::MessageType;
use crate::node::NodeError;
use crate::router::routed;
use crate::router::Method;
use crate::router::Router;
use std::sync::Arc;
use std::sync::Mutex;
use vstd::prelude::*;

verus! {

/// The status of an answer.
#[derive(Clone, Copy, Debug, PartialEq, Eq, Structural)]
pub enum Status {
    /// 200: the request was answered.
    Success,
    /// 404: no route takes the request.
    NotFound,
    /// 500: the answer could not be made.
    InternalServerError,
}

impl Status {
    /// The number of the status.
    pub fn code(&self) -> (code: u16)
        ensures
            code == match self {
                Status::Success => 200u16,
                Status::NotFound => 404u16,
                Status::InternalServerError => 500u16,
            },
    {
        match self {
            Status::Success => 200,
            Status::NotFound => 404,
            Status::InternalServerError => 500,
        }
    }
}

/// An answer to a request: its status and its body.
pub struct Reply {
    pub status: Status,
    pub body: String,
}

impl Reply {
    /// An answer with the given status and no body.
    pub fn empty(status: Status) -> (reply: Reply)
        ensures
            reply.status == status,
            reply.body@ == Seq::<char>::empty(),
    {
        Reply { status, body: String::new() }
    }
}

/// What the handlers need beside the request.
pub struct ServiceConfiguration {
    /// The directory below which all data is kept.
    pub data_path: String,
    /// The switchboard through which handlers reach the node.
    pub switchboard: Arc<Mutex<Switchboard>>,
}

impl ServiceConfiguration {
    /// The configuration with the given data path and switchboard.
    pub fn new(data_path: String, switchboard: Arc<Mutex<Switchboard>>) -> (configuration:
        ServiceConfiguration)
        ensures
            configuration.data_path == data_path,
            configuration.switchboard == switchboard,
    {
        ServiceConfiguration { data_path, switchboard }
    }
}

/// Where a request goes.
pub enum Resolution<H> {
    /// To this handler.
    Handler(H),
    /// Nowhere: the answer is `Status::NotFound`.
    NotFound,
}

/// The service: a router and the configuration that its handlers are given.
pub struct Saga<H> {
    /// The router in which the handler of a request is looked up.
    pub router: Router<H>,
    /// What the handlers are given.
    pub config: ServiceConfiguration,
}

impl<H: Copy> Saga<H> {
    /// Where the request with this method and path goes: to the handler of the
    /// first route that takes it, or nowhere.
    pub fn call(&self, verb: &Method, path: &str) -> (resolution: Resolution<H>)
        ensures
            resolution == match routed(self.router.routes@, *verb, path@) {
                Some(handler) => Resolution::Handler(handler),
                None => Resolution::NotFound,
            },
    {
        match self.router.route(verb, path) {
            Some(handler) => Resolution::Handler(handler),
            None => Resolution::NotFound,
        }
    }
}

/// The answer to a health check: if the request came this far, all is well.
pub fn health_check() -> (reply: Reply)
    ensures
        reply.status == Status::Success,
        reply.body@ == Seq::<char>::empty(),
{
    Reply::empty(Status::Success)
}

/// The answer to a node that registers over the web.
pub fn register() -> (reply: Reply)
    ensures
        reply.status == Status::Success,
        reply.body@ == Seq::<char>::empty(),
{
    Reply::empty(Status::Success)
}

/// The answer to a request to create an index.
pub fn create_index() -> (reply: Reply)
    ensures
        reply.status == Status::Success,
        reply.body@ == Seq::<char>::empty(),
{
    Reply::empty(Status::Success)
}

/// The answer that carries a list of names, given its JSON text: the text as
/// the body where there is one, and an internal error where there is none.
pub fn names_reply(encoded: Result<String, serde_json::Error>) -> (reply: Reply)
    ensures
        match encoded {
            Ok(text) => reply.status == Status::Success && reply.body == text,
            Err(_) => reply.status == Status::InternalServerError && reply.body@ == Seq::<
                char,
            >::empty(),
        },
{
    match encoded {
        Ok(text) => Reply { status: Status::Success, body: text },
        Err(_) => Reply::empty(Status::InternalServerError),
    }
}

/// The answer to a request for the nodes, given what the node said: where the
/// node answered, success with the arguments of its message as a JSON array;
/// where it did not, an internal error without a body.
pub fn nodes_reply(answer: Result<Message, NodeError>) -> (reply: Reply)
    ensures
        match answer {
            Ok(message) => reply.status == Status::Success && reply.body@ == json_array(
                message.arguments(),
            ),
            Err(_) => reply.status == Status::InternalServerError && reply.body@ == Seq::<
                char,
            >::empty(),
        },
{
    match answer {
        Ok(message) => names_reply(encode_names(&message.args)),
        Err(_) => Reply::empty(Status::InternalServerError),
    }
}

/// Asks the node for the registered nodes and answers with their names as a
/// JSON array. The lock on the switchboard is held only to take a handle on
/// the node's channel. A lock that cannot be taken, a node that does not take
/// the question and a node that gives no answer all end in an internal error.
pub fn list_nodes(swb: &Arc<Mutex<Switchboard>>) -> (reply: Reply)
    ensures
        reply.status == Status::Success || reply.status == Status::InternalServerError,
        reply.status == Status::InternalServerError ==> reply.body@ == Seq::<char>::empty(),
{
    let node_tx = match acquire(swb) {
        Some(guard) => share(&guarded(&guard).node_tx),
        None => {
            return Reply::empty(Status::InternalServerError);
        },
    };
    let switchboard = Switchboard::new(node_tx);
    nodes_reply(switchboard.send_and_wait(Message::new(MessageType::LIST_NODES)))
}

/// The server of the cluster's remote calls.
#[derive(Clone, Copy, Debug)]
pub struct SagaRPCServer;

impl SagaRPCServer {
    /// Answers a heartbeat with the id that it came with.
    pub fn heartbeat(&self, id: String) -> (echo: String)
        ensures
            echo == id,
    {
        id
    }
}

} // verus!
