//! A conversation with the host over a VirtIO socket: connect, greet, wait for the reply,
//! shut down.
//!
//! [`VsockSession`] says what to do next with the socket; whoever runs it does so and
//! reports what came of it.

use crate::error::Error;
use vstd::prelude::*;

verus! {

/// The context of the host.
pub const VMADDR_CID_HOST: u64 = 2;

/// The port on the host.
pub const HOST_PORT: u32 = 1234;

/// The local port.
pub const LOCAL_PORT: u32 = 5000;

/// How long to wait before looking again, in milliseconds.
pub const POLL_INTERVAL_MS: usize = 10;

/// The room for a reply.
pub const BUFFER_BYTES: usize = 1024;

/// The greeting: `Hello from Guest!`
pub const GREETING: [u8; 17] = [
    0x48, 0x65, 0x6c, 0x6c, 0x6f, 0x20, 0x66, 0x72, 0x6f, 0x6d, 0x20, 0x47, 0x75, 0x65, 0x73, 0x74,
    0x21,
];

/// The bytes of the greeting.
pub fn greeting() -> (bytes: Vec<u8>)
    ensures
        bytes@ == seq![
            0x48u8, 0x65u8, 0x6cu8, 0x6cu8, 0x6fu8, 0x20u8, 0x66u8, 0x72u8, 0x6fu8, 0x6du8, 0x20u8,
            0x47u8, 0x75u8, 0x65u8, 0x73u8, 0x74u8, 0x21u8,
        ],
{
    let text: [u8; 17] = GREETING;
    let mut bytes: Vec<u8> = Vec::new();
    bytes.extend_from_slice(&text);
    assert(text@ =~= seq![
        0x48u8, 0x65u8, 0x6cu8, 0x6cu8, 0x6fu8, 0x20u8, 0x66u8, 0x72u8, 0x6fu8, 0x6du8, 0x20u8,
        0x47u8, 0x75u8, 0x65u8, 0x73u8, 0x74u8, 0x21u8,
    ]);
    bytes
}

/// The address of one end of a connection.
#[derive(Clone, Copy, Debug, PartialEq, Eq, Structural)]
pub struct VsockAddr {
    pub cid: u64,
    pub port: u32,
}

/// What is to be done next.
#[derive(Clone, Copy, Debug, PartialEq, Eq, Structural)]
pub enum Task {
    /// Ask for a connection.
    Connect { peer: VsockAddr, local_port: u32 },
    /// Look for an event of the connection.
    Poll,
    /// Sleep.
    Sleep { ms: usize },
    /// Send the [`greeting`].
    Send { peer: VsockAddr, local_port: u32 },
    /// Receive up to [`BUFFER_BYTES`] bytes.
    Receive { peer: VsockAddr, local_port: u32 },
    /// Shut the connection down; whether that works does not matter.
    Shutdown { peer: VsockAddr, local_port: u32 },
    /// Nothing more.
    Exit,
}

/// An event of a connection.
#[derive(Clone, Copy, Debug, PartialEq, Eq, Structural)]
pub enum VsockEvent {
    Connected,
    Disconnected,
    Other,
}

/// What came of a task.
#[derive(Debug)]
pub enum Report {
    /// The connection was asked for, or the greeting was sent, or that failed.
    Status { result: Result<(), Error> },
    /// There was an event, or there was none.
    Polled { event: Option<VsockEvent> },
    /// The time is over.
    Slept,
    /// These bytes arrived, or the connection failed.
    Received { bytes: Result<Vec<u8>, Error> },
    /// The connection is shut down.
    ShutDown,
}

/// What is worth telling.
#[derive(Debug)]
pub enum Notice {
    ConnectFailed { error: Error },
    Connected,
    Closed,
    SendFailed { error: Error },
    Reply { text: String },
    ReceiveFailed { error: Error },
}

/// The stage of a conversation.
#[derive(Clone, Copy, Debug, PartialEq, Eq, Structural)]
pub enum Stage {
    Connecting,
    AwaitingConnection,
    SleepingUnconnected,
    Sending,
    AwaitingReply,
    SleepingConnected,
    ShuttingDown,
    Finished,
}

/// A report, as the contracts see it.
pub ghost enum ReportView {
    Status { result: Result<(), Error> },
    Polled { event: Option<VsockEvent> },
    Slept,
    Received { bytes: Result<Seq<u8>, Error> },
    ShutDown,
}

/// A notice, as the contracts see it.
pub ghost enum NoticeView {
    ConnectFailed { error: Error },
    Connected,
    Closed,
    SendFailed { error: Error },
    Reply { text: Seq<char> },
    ReceiveFailed { error: Error },
}

impl View for Report {
    type V = ReportView;

    open spec fn view(&self) -> ReportView {
        match *self {
            Report::Status { result } => ReportView::Status { result },
            Report::Polled { event } => ReportView::Polled { event },
            Report::Slept => ReportView::Slept,
            Report::Received { bytes } => ReportView::Received {
                bytes: match bytes {
                    Ok(bytes) => Ok(bytes@),
                    Err(error) => Err(error),
                },
            },
            Report::ShutDown => ReportView::ShutDown,
        }
    }
}

impl View for Notice {
    type V = NoticeView;

    open spec fn view(&self) -> NoticeView {
        match *self {
            Notice::ConnectFailed { error } => NoticeView::ConnectFailed { error },
            Notice::Connected => NoticeView::Connected,
            Notice::Closed => NoticeView::Closed,
            Notice::SendFailed { error } => NoticeView::SendFailed { error },
            Notice::Reply { text } => NoticeView::Reply { text: text@ },
            Notice::ReceiveFailed { error } => NoticeView::ReceiveFailed { error },
        }
    }
}

/// The text of a reply, or a remark that it is none.
pub open spec fn reply_text(bytes: Seq<u8>) -> Seq<char> {
    if vstd::utf8::valid_utf8(bytes) {
        vstd::utf8::decode_utf8(bytes)
    } else {
        "Invalid UTF-8"@
    }
}

/// The host's end of the connection.
pub open spec fn host() -> VsockAddr {
    VsockAddr { cid: VMADDR_CID_HOST, port: HOST_PORT }
}

impl Stage {
    /// What is to be done at this stage.
    pub open spec fn task(self) -> Task {
        match self {
            Stage::Connecting => Task::Connect { peer: host(), local_port: LOCAL_PORT },
            Stage::AwaitingConnection => Task::Poll,
            Stage::SleepingUnconnected => Task::Sleep { ms: POLL_INTERVAL_MS },
            Stage::Sending => Task::Send { peer: host(), local_port: LOCAL_PORT },
            Stage::AwaitingReply => Task::Receive { peer: host(), local_port: LOCAL_PORT },
            Stage::SleepingConnected => Task::Sleep { ms: POLL_INTERVAL_MS },
            Stage::ShuttingDown => Task::Shutdown { peer: host(), local_port: LOCAL_PORT },
            Stage::Finished => Task::Exit,
        }
    }

    /// The report is one on the task.
    pub open spec fn accepts(self, report: ReportView) -> bool {
        match report {
            ReportView::Status { .. } => self is Connecting || self is Sending,
            ReportView::Polled { .. } => self is AwaitingConnection,
            ReportView::Slept => self is SleepingUnconnected || self is SleepingConnected,
            ReportView::Received { bytes } => {
                &&& self is AwaitingReply
                &&& bytes matches Ok(bytes) ==> bytes.len() <= BUFFER_BYTES
            },
            ReportView::ShutDown => self is ShuttingDown,
        }
    }

    /// The next stage after a report.
    pub open spec fn react(self, report: ReportView) -> Stage {
        match report {
            ReportView::Status { result } => match result {
                Err(_) => Stage::Finished,
                Ok(_) => if self is Connecting {
                    Stage::AwaitingConnection
                } else {
                    Stage::AwaitingReply
                },
            },
            ReportView::Polled { event } => match event {
                Some(VsockEvent::Connected) => Stage::Sending,
                Some(VsockEvent::Disconnected) => Stage::Finished,
                _ => Stage::SleepingUnconnected,
            },
            ReportView::Slept => if self is SleepingUnconnected {
                Stage::AwaitingConnection
            } else {
                Stage::AwaitingReply
            },
            ReportView::Received { bytes } => match bytes {
                Ok(bytes) => if bytes.len() > 0 {
                    Stage::ShuttingDown
                } else {
                    Stage::SleepingConnected
                },
                Err(_) => Stage::ShuttingDown,
            },
            ReportView::ShutDown => Stage::Finished,
        }
    }

    /// What a report has to tell.
    pub open spec fn notice(self, report: ReportView) -> Option<NoticeView> {
        match report {
            ReportView::Status { result: Err(error) } => Some(
                if self is Connecting {
                    NoticeView::ConnectFailed { error }
                } else {
                    NoticeView::SendFailed { error }
                },
            ),
            ReportView::Polled { event: Some(VsockEvent::Connected) } => Some(
                NoticeView::Connected,
            ),
            ReportView::Polled { event: Some(VsockEvent::Disconnected) } => Some(
                NoticeView::Closed,
            ),
            ReportView::Received { bytes: Ok(bytes) } => if bytes.len() > 0 {
                Some(NoticeView::Reply { text: reply_text(bytes) })
            } else {
                None
            },
            ReportView::Received { bytes: Err(error) } => Some(
                NoticeView::ReceiveFailed { error },
            ),
            _ => None,
        }
    }
}

/// A conversation with the host.
#[derive(Debug)]
pub struct VsockSession {
    stage: Stage,
}

impl View for VsockSession {
    type V = Stage;

    closed spec fn view(&self) -> Stage {
        self.stage
    }
}

impl VsockSession {
    /// A conversation that has not begun.
    pub fn new() -> (session: VsockSession)
        ensures
            session@ is Connecting,
    {
        VsockSession { stage: Stage::Connecting }
    }

    /// What is to be done next.
    pub fn task(&self) -> (task: Task)
        ensures
            task == self@.task(),
    {
        let peer = VsockAddr { cid: VMADDR_CID_HOST, port: HOST_PORT };
        match self.stage {
            Stage::Connecting => Task::Connect { peer, local_port: LOCAL_PORT },
            Stage::AwaitingConnection => Task::Poll,
            Stage::SleepingUnconnected => Task::Sleep { ms: POLL_INTERVAL_MS },
            Stage::Sending => Task::Send { peer, local_port: LOCAL_PORT },
            Stage::AwaitingReply => Task::Receive { peer, local_port: LOCAL_PORT },
            Stage::SleepingConnected => Task::Sleep { ms: POLL_INTERVAL_MS },
            Stage::ShuttingDown => Task::Shutdown { peer, local_port: LOCAL_PORT },
            Stage::Finished => Task::Exit,
        }
    }

    /// Whether a report is one on the task.
    pub fn accepts(&self, report: &Report) -> (accepted: bool)
        ensures
            accepted == self@.accepts(report@),
    {
        match report {
            Report::Status { .. } => matches!(self.stage, Stage::Connecting | Stage::Sending),
            Report::Polled { .. } => matches!(self.stage, Stage::AwaitingConnection),
            Report::Slept => matches!(
                self.stage,
                Stage::SleepingUnconnected | Stage::SleepingConnected
            ),
            Report::Received { bytes } => matches!(self.stage, Stage::AwaitingReply) && (
            match bytes {
                Ok(bytes) => bytes.len() <= BUFFER_BYTES,
                Err(_) => true,
            }),
            Report::ShutDown => matches!(self.stage, Stage::ShuttingDown),
        }
    }

    /// Takes the report on the task; the result is what it has to tell.
    pub fn resume(&mut self, report: Report) -> (notice: Option<Notice>)
        requires
            old(self)@.accepts(report@),
        ensures
            final(self)@ == old(self)@.react(report@),
            match notice {
                Some(notice) => old(self)@.notice(report@) == Some(notice@),
                None => old(self)@.notice(report@) is None,
            },
    {
        match report {
            Report::Status { result } => {
                let connecting = matches!(self.stage, Stage::Connecting);
                match result {
                    Err(error) => {
                        self.stage = Stage::Finished;
                        if connecting {
                            Some(Notice::ConnectFailed { error })
                        } else {
                            Some(Notice::SendFailed { error })
                        }
                    },
                    Ok(_) => {
                        self.stage = if connecting {
                            Stage::AwaitingConnection
                        } else {
                            Stage::AwaitingReply
                        };
                        None
                    },
                }
            },
            Report::Polled { event } => match event {
                Some(VsockEvent::Connected) => {
                    self.stage = Stage::Sending;
                    Some(Notice::Connected)
                },
                Some(VsockEvent::Disconnected) => {
                    self.stage = Stage::Finished;
                    Some(Notice::Closed)
                },
                _ => {
                    self.stage = Stage::SleepingUnconnected;
                    None
                },
            },
            Report::Slept => {
                self.stage = if matches!(self.stage, Stage::SleepingUnconnected) {
                    Stage::AwaitingConnection
                } else {
                    Stage::AwaitingReply
                };
                None
            },
            Report::Received { bytes } => match bytes {
                Ok(bytes) => {
                    if bytes.len() > 0 {
                        self.stage = Stage::ShuttingDown;
                        Some(Notice::Reply { text: text_of_reply(&bytes) })
                    } else {
                        self.stage = Stage::SleepingConnected;
                        None
                    }
                },
                Err(error) => {
                    self.stage = Stage::ShuttingDown;
                    Some(Notice::ReceiveFailed { error })
                },
            },
            Report::ShutDown => {
                self.stage = Stage::Finished;
                None
            },
        }
    }
}

/// The text of a reply, or a remark that it is none.
pub fn text_of_reply(bytes: &Vec<u8>) -> (text: String)
    ensures
        text@ == reply_text(bytes@),
{
    match from_utf8(bytes.as_slice()) {
        Some(text) => text.to_owned(),
        None => "Invalid UTF-8".to_owned(),
    }
}

/// `core::str::from_utf8`: the text that the bytes encode, or nothing if they are not valid
/// UTF-8.
#[verifier::external_body]
fn from_utf8(bytes: &[u8]) -> (text: Option<&str>)
    ensures
        text is Some <==> vstd::utf8::valid_utf8(bytes@),
        text matches Some(text) ==> text@ == vstd::utf8::decode_utf8(bytes@),
{
    core::str::from_utf8(bytes).ok()
}

/// The stage after some reports.
pub open spec fn reached(reports: Seq<ReportView>) -> Stage
    decreases reports.len(),
{
    if reports.len() == 0 {
        Stage::Connecting
    } else {
        reached(reports.drop_last()).react(reports.last())
    }
}

/// Each report is one on the task that it answers.
pub open spec fn all_accepted(reports: Seq<ReportView>) -> bool
    decreases reports.len(),
{
    reports.len() > 0 ==> {
        &&& all_accepted(reports.drop_last())
        &&& reached(reports.drop_last()).accepts(reports.last())
    }
}

/// The connection was confirmed.
pub open spec fn confirmed(reports: Seq<ReportView>) -> bool {
    reports.contains(ReportView::Polled { event: Some(VsockEvent::Connected) })
}

/// The greeting is sent only over a connection that was confirmed, and whatever was
/// confirmed is shut down in the end unless the greeting could not be sent.
pub proof fn greeting_needs_connection(reports: Seq<ReportView>)
    requires
        all_accepted(reports),
    ensures
        match reached(reports) {
            Stage::Connecting
            | Stage::AwaitingConnection
            | Stage::SleepingUnconnected => !confirmed(reports),
            Stage::Sending
            | Stage::AwaitingReply
            | Stage::SleepingConnected
            | Stage::ShuttingDown => confirmed(reports),
            Stage::Finished => confirmed(reports) ==> reports.last() is ShutDown
                || reports.last() is Status,
        },
    decreases reports.len(),
{
    if reports.len() > 0 {
        let rest = reports.drop_last();
        let last = reports.last();
        let sign = ReportView::Polled { event: Some(VsockEvent::Connected) };
        greeting_needs_connection(rest);
        assert(reports =~= rest.push(last));
        if confirmed(rest) {
            let i = rest.index_of(sign);
            assert(reports[i] == sign);
        }
        if last == sign {
            assert(reports[reports.len() - 1] == sign);
        }
        if confirmed(reports) && last != sign {
            let i = reports.index_of(sign);
            assert(rest[i] == sign);
        }
    }
}

/// The text of a reply is what its bytes encode: encoding it gives the bytes back. What is not
/// valid UTF-8 gives a remark instead.
pub proof fn reply_is_decoded(bytes: Vec<u8>, text: String)
    requires
        call_ensures(text_of_reply, (&bytes,), text),
    ensures
        vstd::utf8::valid_utf8(bytes@) ==> vstd::utf8::encode_utf8(text@) == bytes@,
        !vstd::utf8::valid_utf8(bytes@) ==> text@ == "Invalid UTF-8"@,
{
    if vstd::utf8::valid_utf8(bytes@) {
        vstd::utf8::decode_utf8_encode_utf8(bytes@);
    }
}

/// The tasks name both ends of the connection: the host at port 1234, and the local port 5000.
/// The waits are ten milliseconds.
pub proof fn tasks_name_the_connection(stage: Stage)
    ensures
        ({
            let peer = VsockAddr { cid: 2, port: 1234 };
            match stage {
                Stage::Connecting => stage.task() == (Task::Connect { peer, local_port: 5000 }),
                Stage::Sending => stage.task() == (Task::Send { peer, local_port: 5000 }),
                Stage::AwaitingReply => stage.task() == (Task::Receive { peer, local_port: 5000 }),
                Stage::ShuttingDown => stage.task() == (Task::Shutdown { peer, local_port: 5000 }),
                Stage::AwaitingConnection => stage.task() is Poll,
                Stage::SleepingUnconnected | Stage::SleepingConnected => stage.task()
                    == (Task::Sleep { ms: 10 }),
                Stage::Finished => stage.task() is Exit,
            }
        }),
{
}

/// What each report leads to, and what is told of it. A connection is asked for, then awaited:
/// an event that it is there leads to the greeting, an event that it is gone to the end, and
/// anything else to a wait and another look. A reply is awaited: the first bytes that come are
/// told, an empty answer leads to a wait and another try, and bytes and failures lead to the
/// shutdown. A failure to connect or to send is told and is the end.
pub proof fn conversation_goes_on(stage: Stage, report: ReportView)
    requires
        stage.accepts(report),
    ensures
        ({
            let task = stage.task();
            let next = stage.react(report).task();
            let told = stage.notice(report);
            match report {
                ReportView::Status { result: Ok(_) } => told is None && (if task is Connect {
                    next is Poll
                } else {
                    task is Send && next is Receive
                }),
                ReportView::Status { result: Err(error) } => next is Exit && (if task is Connect {
                    told == Some(NoticeView::ConnectFailed { error })
                } else {
                    task is Send && told == Some(NoticeView::SendFailed { error })
                }),
                ReportView::Polled { event } => task is Poll && (if event == Some(
                    VsockEvent::Connected,
                ) {
                    next is Send && told == Some(NoticeView::Connected)
                } else if event == Some(VsockEvent::Disconnected) {
                    next is Exit && told == Some(NoticeView::Closed)
                } else {
                    next is Sleep && told is None && stage.react(report).react(
                        ReportView::Slept,
                    ).task() is Poll
                }),
                ReportView::Received { bytes: Ok(bytes) } => task is Receive && (if bytes.len()
                    == 0 {
                    next is Sleep && told is None && stage.react(report).react(
                        ReportView::Slept,
                    ).task() is Receive
                } else {
                    &&& next is Shutdown
                    &&& told matches Some(NoticeView::Reply { text })
                    &&& vstd::utf8::valid_utf8(bytes) ==> vstd::utf8::encode_utf8(text) == bytes
                    &&& !vstd::utf8::valid_utf8(bytes) ==> text == "Invalid UTF-8"@
                }),
                ReportView::Received { bytes: Err(error) } => task is Receive && next is Shutdown
                    && told == Some(NoticeView::ReceiveFailed { error }),
                ReportView::ShutDown => task is Shutdown && next is Exit && told is None,
                ReportView::Slept => task is Sleep && told is None,
            }
        }),
{
    if let ReportView::Received { bytes: Ok(bytes) } = report {
        if vstd::utf8::valid_utf8(bytes) {
            vstd::utf8::decode_utf8_encode_utf8(bytes);
        }
    }
}

/// Every report on a task is taken, as long as no more bytes come than there is room for.
pub proof fn reports_on_the_task_are_taken(stage: Stage, report: ReportView)
    ensures
        stage.accepts(report) <==> match report {
            ReportView::Status { .. } => stage.task() is Connect || stage.task() is Send,
            ReportView::Polled { .. } => stage.task() is Poll,
            ReportView::Slept => stage.task() is Sleep,
            ReportView::Received { bytes: Ok(bytes) } => stage.task() is Receive && bytes.len()
                <= 1024,
            ReportView::Received { bytes: Err(_) } => stage.task() is Receive,
            ReportView::ShutDown => stage.task() is Shutdown,
        },
{
}

} // verus!
