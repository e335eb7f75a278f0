//! What a listener asks of the app server, and how it watches the connection.

use vstd::prelude::*;
use vstd::string::*;

use crate::json::Json;
use crate::text::{decimal, optional_view, write_decimal};

verus! {

/// The numbers of the requests of one connection.
#[derive(Debug)]
pub struct AppServerRequests {
    next_request_id: i64,
}

impl AppServerRequests {
    /// The number that the next request gets.
    pub closed spec fn upcoming(&self) -> i64 {
        self.next_request_id
    }

    /// Starts to count at one.
    pub fn new() -> (requests: AppServerRequests)
        ensures
            requests.upcoming() == 1,
    {
        AppServerRequests { next_request_id: 1 }
    }

    /// Numbers the next request; the count stays at the greatest number.
    pub fn next_request_id(&mut self) -> (id: i64)
        ensures
            id == old(self).upcoming(),
            final(self).upcoming() == if id < i64::MAX {
                id + 1
            } else {
                i64::MAX as int
            },
    {
        let id: i64 = self.next_request_id;
        if id < i64::MAX {
            self.next_request_id = id + 1;
        }
        id
    }
}

/// What a thread is resumed with. Everything that is not given stays as the thread has it.
#[derive(Debug, PartialEq, Eq)]
pub struct ThreadResumeParams {
    pub thread_id: String,
    pub history: Option<Json>,
    pub path: Option<String>,
    pub model: Option<String>,
    pub model_provider: Option<String>,
    pub cwd: Option<String>,
    pub approval_policy: Option<Json>,
    pub sandbox: Option<Json>,
    pub permissions: Option<Json>,
    pub config: Option<Json>,
    pub base_instructions: Option<String>,
    pub developer_instructions: Option<String>,
    pub exclude_turns: bool,
}

/// Resumes a thread for its subscription alone: no transcript comes back, and no setting of the
/// thread is touched.
pub fn subscription_resume_params(thread_id: &str) -> (params: ThreadResumeParams)
    ensures
        params.thread_id@ == thread_id@,
        params.exclude_turns,
        params.history is None,
        params.path is None,
        params.model is None,
        params.model_provider is None,
        params.cwd is None,
        params.approval_policy is None,
        params.sandbox is None,
        params.permissions is None,
        params.config is None,
        params.base_instructions is None,
        params.developer_instructions is None,
{
    ThreadResumeParams {
        thread_id: thread_id.to_owned(),
        history: None,
        path: None,
        model: None,
        model_provider: None,
        cwd: None,
        approval_policy: None,
        sandbox: None,
        permissions: None,
        config: None,
        base_instructions: None,
        developer_instructions: None,
        exclude_turns: true,
    }
}

/// What the app server sends of its own accord.
#[derive(Debug)]
pub enum AppServerEvent {
    Disconnected { message: String },
    ServerRequest { id: String },
    Lagged { skipped: u64 },
    ServerNotification,
}

/// What becomes of it.
#[derive(Debug, PartialEq, Eq)]
pub enum Monitored {
    /// The connection is gone, for that reason.
    Gone { reason: String },
    /// A line for the log.
    Noted { line: String },
    Ignored,
}

/// The reason that is given where the events of the app server just end.
pub open spec fn closed_reason() -> Seq<char> {
    "app-server event stream closed"@
}

/// Decides what becomes of an event of the app server; there is none once the stream has ended.
pub fn monitor_event(event: Option<&AppServerEvent>) -> (monitored: Monitored)
    ensures
        match event {
            None => monitored matches Monitored::Gone { reason } && reason@ == closed_reason(),
            Some(AppServerEvent::Disconnected { message }) => monitored matches Monitored::Gone {
                reason,
            } && reason@ == message@,
            Some(AppServerEvent::ServerRequest { id }) => monitored matches Monitored::Noted {
                line,
            } && line@ == "codex listen: ignored global app-server request "@ + id@
                + " so another client can respond"@,
            Some(AppServerEvent::Lagged { skipped }) => monitored matches Monitored::Noted {
                line,
            } && line@ == "codex listen: app-server event stream skipped "@ + decimal(
                *skipped as nat,
            ) + " events"@,
            Some(AppServerEvent::ServerNotification) => monitored is Ignored,
        },
{
    match event {
        None => Monitored::Gone { reason: "app-server event stream closed".to_owned() },
        Some(AppServerEvent::Disconnected { message }) => Monitored::Gone {
            reason: message.clone(),
        },
        Some(AppServerEvent::ServerRequest { id }) => {
            let mut line = "codex listen: ignored global app-server request ".to_owned();
            line.append(id.as_str());
            line.append(" so another client can respond");
            Monitored::Noted { line }
        },
        Some(AppServerEvent::Lagged { skipped }) => {
            let mut line = "codex listen: app-server event stream skipped ".to_owned();
            line.append(write_decimal(*skipped).as_str());
            line.append(" events");
            Monitored::Noted { line }
        },
        Some(AppServerEvent::ServerNotification) => Monitored::Ignored,
    }
}

/// The reason of a lost connection, where the monitor gave one.
pub open spec fn lost_reason(reason: Option<Seq<char>>) -> Seq<char> {
    match reason {
        Some(r) => r,
        None => "app-server event monitor stopped unexpectedly"@,
    }
}

/// Spells the failure of a listener whose connection is gone.
pub fn disconnect_message(reason: &Option<String>) -> (message: String)
    ensures
        message@ == "app-server disconnected: "@ + lost_reason(
            optional_view(*reason),
        ),
{
    let mut message = "app-server disconnected: ".to_owned();
    match reason {
        Some(reason) => {
            message.append(reason.as_str());
        },
        None => {
            message.append("app-server event monitor stopped unexpectedly");
        },
    }
    message
}

} // verus!
