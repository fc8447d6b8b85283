use saga::cluster::Switchboard;
use saga::messages::Envelope;
use saga::messages::Message;
use saga::node::NodeError;
use saga::router::Method;
use saga::router::Route;
use saga::router::Router;
use saga::web::create_index;
use saga::web::health_check;
use saga::web::list_nodes;
use saga::web::names_reply;
use saga::web::nodes_reply;
use saga::web::register;
use saga::web::Reply;
use saga::web::Resolution;
use saga::web::Saga;
use saga::web::SagaRPCServer;
use saga::web::ServiceConfiguration;
use saga::web::Status;
use std::sync::{mpsc, Arc, Mutex};

fn switchboard() -> (mpsc::Receiver<Envelope>, Arc<Mutex<Switchboard>>) {
    let (tx, rx): (mpsc::Sender<Envelope>, mpsc::Receiver<Envelope>) = mpsc::channel();
    (rx, Arc::new(Mutex::new(Switchboard::new(Arc::new(Mutex::new(tx))))))
}

#[test]
fn status_codes_are_those_of_http() {
    assert_eq!(Status::Success.code(), 200);
    assert_eq!(Status::NotFound.code(), 404);
    assert_eq!(Status::InternalServerError.code(), 500);
}

#[test]
fn plain_handlers_answer_with_success_and_no_body() {
    for reply in [health_check(), register(), create_index()] {
        assert_eq!(reply.status, Status::Success);
        assert_eq!(reply.body, "");
    }
    let reply: Reply = Reply::empty(Status::NotFound);
    assert_eq!(reply.status, Status::NotFound);
    assert_eq!(reply.body, "");
}

#[test]
fn service_configuration_keeps_what_it_is_given() {
    let (_rx, swb) = switchboard();
    let configuration = ServiceConfiguration::new("/tmp".to_string(), swb.clone());
    assert_eq!(configuration.data_path, "/tmp");
    assert!(Arc::ptr_eq(&configuration.switchboard, &swb));
}

#[test]
fn service_sends_a_request_to_the_first_route_that_fits() {
    let (_rx, swb) = switchboard();
    let mut router = Router::new();
    router.add_route(Route::new("/healthz", Method::Get, 1u8).unwrap());
    router.add_route(Route::new("/nodes", Method::Get, 2u8).unwrap());
    let saga = Saga { router, config: ServiceConfiguration::new("/tmp".to_string(), swb) };
    assert!(matches!(saga.call(&Method::Get, "/healthz"), Resolution::Handler(1)));
    assert!(matches!(saga.call(&Method::Get, "/nodes"), Resolution::Handler(2)));
    assert!(matches!(saga.call(&Method::Post, "/nodes"), Resolution::NotFound));
    assert!(matches!(saga.call(&Method::Get, "/indices"), Resolution::NotFound));
}

#[test]
fn names_are_answered_as_a_json_array() {
    let reply = nodes_reply(Ok(Message::node_list(vec!["n1".to_string()])));
    assert_eq!(reply.status, Status::Success);
    assert_eq!(reply.body, "[\"n1\"]");
    let reply = nodes_reply(Ok(Message::node_list(vec![])));
    assert_eq!(reply.body, "[]");
    let reply =
        nodes_reply(Ok(Message::node_list(vec!["a\"b".to_string(), "c\\d\n".to_string()])));
    assert_eq!(reply.body, "[\"a\\\"b\",\"c\\\\d\\n\"]");
}

#[test]
fn a_failed_round_trip_is_an_internal_error() {
    let reply = nodes_reply(Err(NodeError::new("gone")));
    assert_eq!(reply.status, Status::InternalServerError);
    assert_eq!(reply.body, "");
}

#[test]
fn names_reply_passes_the_text_on() {
    let reply = names_reply(Ok("[\"n1\",\"n2\"]".to_string()));
    assert_eq!(reply.status, Status::Success);
    assert_eq!(reply.body, "[\"n1\",\"n2\"]");
    let reply = names_reply(Err(serde_json::from_str::<Vec<String>>("[").unwrap_err()));
    assert_eq!(reply.status, Status::InternalServerError);
    assert_eq!(reply.body, "");
}

#[test]
fn list_nodes_without_a_node_is_an_internal_error() {
    let (rx, swb) = switchboard();
    drop(rx);
    let reply = list_nodes(&swb);
    assert_eq!(reply.status, Status::InternalServerError);
    assert_eq!(reply.body, "");
}

#[test]
fn list_nodes_with_a_node_that_drops_the_question_is_an_internal_error() {
    let (rx, swb) = switchboard();
    let (tx, node_rx): (mpsc::Sender<Envelope>, mpsc::Receiver<Envelope>) = mpsc::channel();
    drop(rx);
    drop(node_rx);
    *swb.lock().unwrap() = Switchboard::new(Arc::new(Mutex::new(tx)));
    let reply = list_nodes(&swb);
    assert_eq!(reply.status, Status::InternalServerError);
}

#[test]
fn heartbeat_echoes_the_id() {
    let server = SagaRPCServer;
    assert_eq!(server.heartbeat("node-7".to_string()), "node-7");
    assert_eq!(server.heartbeat(String::new()), "");
}
