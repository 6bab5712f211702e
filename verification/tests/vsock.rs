use d3os_virtio::error::Error;
use d3os_virtio::vsock::{
    greeting, text_of_reply, Notice, Report, Task, VsockAddr, VsockEvent, VsockSession, GREETING,
};

const HOST: VsockAddr = VsockAddr { cid: 2, port: 1234 };

fn go_on(session: &mut VsockSession, report: Report) -> Option<Notice> {
    assert!(session.accepts(&report));
    session.resume(report)
}

fn connected() -> VsockSession {
    let mut session = VsockSession::new();
    go_on(&mut session, Report::Status { result: Ok(()) });
    go_on(&mut session, Report::Polled { event: Some(VsockEvent::Connected) });
    go_on(&mut session, Report::Status { result: Ok(()) });
    session
}

#[test]
fn greeting_is_text() {
    assert_eq!(&GREETING, b"Hello from Guest!");
}

#[test]
fn conversation_takes_its_course() {
    let mut session = VsockSession::new();
    assert_eq!(session.task(), Task::Connect { peer: HOST, local_port: 5000 });
    assert!(go_on(&mut session, Report::Status { result: Ok(()) }).is_none());
    assert_eq!(session.task(), Task::Poll);
    assert!(go_on(&mut session, Report::Polled { event: None }).is_none());
    assert_eq!(session.task(), Task::Sleep { ms: 10 });
    go_on(&mut session, Report::Slept);
    go_on(&mut session, Report::Polled { event: Some(VsockEvent::Other) });
    go_on(&mut session, Report::Slept);
    let notice = go_on(&mut session, Report::Polled { event: Some(VsockEvent::Connected) });
    assert!(matches!(notice, Some(Notice::Connected)));
    assert_eq!(session.task(), Task::Send { peer: HOST, local_port: 5000 });
    assert!(go_on(&mut session, Report::Status { result: Ok(()) }).is_none());
    assert_eq!(session.task(), Task::Receive { peer: HOST, local_port: 5000 });
    go_on(&mut session, Report::Received { bytes: Ok(vec![]) });
    assert_eq!(session.task(), Task::Sleep { ms: 10 });
    go_on(&mut session, Report::Slept);
    let notice = go_on(&mut session, Report::Received { bytes: Ok(b"Moin".to_vec()) });
    assert!(matches!(notice, Some(Notice::Reply { text }) if text == "Moin"));
    assert_eq!(session.task(), Task::Shutdown { peer: HOST, local_port: 5000 });
    go_on(&mut session, Report::ShutDown);
    assert_eq!(session.task(), Task::Exit);
}

#[test]
fn refused_connection_ends_the_conversation() {
    let mut session = VsockSession::new();
    let notice = go_on(&mut session, Report::Status { result: Err(Error::NotReady) });
    assert!(matches!(notice, Some(Notice::ConnectFailed { error: Error::NotReady })));
    assert_eq!(session.task(), Task::Exit);

    let mut session = VsockSession::new();
    go_on(&mut session, Report::Status { result: Ok(()) });
    let notice = go_on(&mut session, Report::Polled { event: Some(VsockEvent::Disconnected) });
    assert!(matches!(notice, Some(Notice::Closed)));
    assert_eq!(session.task(), Task::Exit);
}

#[test]
fn failed_greeting_ends_the_conversation() {
    let mut session = VsockSession::new();
    go_on(&mut session, Report::Status { result: Ok(()) });
    go_on(&mut session, Report::Polled { event: Some(VsockEvent::Connected) });
    let notice = go_on(&mut session, Report::Status { result: Err(Error::IoError) });
    assert!(matches!(notice, Some(Notice::SendFailed { error: Error::IoError })));
    assert_eq!(session.task(), Task::Exit);
}

#[test]
fn failed_reception_shuts_down() {
    let mut session = connected();
    let notice = go_on(&mut session, Report::Received { bytes: Err(Error::IoError) });
    assert!(matches!(notice, Some(Notice::ReceiveFailed { error: Error::IoError })));
    assert_eq!(session.task(), Task::Shutdown { peer: HOST, local_port: 5000 });
}

#[test]
fn replies_that_do_not_fit_are_not_accepted() {
    let session = connected();
    assert!(session.accepts(&Report::Received { bytes: Ok(vec![0; 1024]) }));
    assert!(!session.accepts(&Report::Received { bytes: Ok(vec![0; 1025]) }));
    assert!(!session.accepts(&Report::Slept));
}

#[test]
fn reply_may_not_be_text() {
    assert_eq!(text_of_reply(&"grüße".as_bytes().to_vec()), "grüße");
    assert_eq!(text_of_reply(&vec![0x66, 0xff]), "Invalid UTF-8");
    assert_eq!(text_of_reply(&vec![0xc3]), "Invalid UTF-8");
}

#[test]
fn greeting_is_what_is_sent() {
    assert_eq!(greeting(), b"Hello from Guest!".to_vec());
}
