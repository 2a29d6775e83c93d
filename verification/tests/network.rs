use gprocess::api::request::Command;
use gprocess::api::{PsRequest, Request, WaitRequest};
use gprocess::network::{connection_step, ConnectionAction, ConnectionEvent};

#[test]
fn closed_connection_stops() {
    assert!(matches!(connection_step(ConnectionEvent::Closed), ConnectionAction::Stop));
}

#[test]
fn request_without_command_is_skipped() {
    let r = Request { request_id: 3, command: None };
    assert!(matches!(connection_step(ConnectionEvent::Request(r)), ConnectionAction::Skip));
}

#[test]
fn request_with_command_is_forwarded() {
    let r = Request { request_id: 4, command: Some(Command::Wait(WaitRequest { pid: 9 })) };
    match connection_step(ConnectionEvent::Request(r)) {
        ConnectionAction::Forward(id, Command::Wait(w)) => {
            assert_eq!(id, 4);
            assert_eq!(w.pid, 9);
        }
        _ => panic!("expected the wait to be forwarded"),
    }
    let r = Request { request_id: 5, command: Some(Command::Ps(PsRequest {})) };
    assert!(matches!(
        connection_step(ConnectionEvent::Request(r)),
        ConnectionAction::Forward(5, Command::Ps(_))
    ));
}
