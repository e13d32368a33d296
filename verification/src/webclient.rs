use vstd::prelude::*;
use crate::models::Search;
use crate::sql::client::ClientAuth;
use crate::text::join;

verus! {

/// Why a call to the server gave no usable answer.
#[derive(Debug)]
pub enum WebError {
    /// The request could not be sent or no answer came back.
    Reqwest(String),
    /// A setting that the call needs is missing.
    Config(String),
    /// The answer's body could not be read as the expected value.
    Json(String),
    /// The server answered with a status that the call cannot go on from.
    Status(u16),
}

/// HTTP status of an answer that grants what was asked.
pub const STATUS_OK: u16 = 200;

/// HTTP status of an answer to a caller that is not logged in.
pub const STATUS_UNAUTHORIZED: u16 = 401;

/// HTTP status of an answer from a server that failed.
pub const STATUS_INTERNAL_SERVER_ERROR: u16 = 500;

/// A call that an agent makes to the server.
#[derive(Debug, Clone, Copy, PartialEq, Eq, Structural)]
pub enum Call {
    Login,
    Logout,
    GetSearches,
    SendSearchResults,
    Create,
    ShouldRun,
    NotifyRunning,
}

impl Call {
    /// The path of the call on the server.
    pub open spec fn path(self) -> Seq<char> {
        match self {
            Call::Login => "/api/client/login"@,
            Call::Logout => "/api/client/logout"@,
            Call::GetSearches => "/api/client/get_searches"@,
            Call::SendSearchResults => "/api/client/send_search_results"@,
            Call::Create => "/api/client/create"@,
            Call::ShouldRun => "/api/client/should_run"@,
            Call::NotifyRunning => "/api/client/notify_running"@,
        }
    }
}

/// The address of a call on the server at `server`.
pub fn endpoint(server: &str, call: Call) -> (url: String)
    ensures
        url@ == server@ + call.path(),
{
    let path = match call {
        Call::Login => "/api/client/login",
        Call::Logout => "/api/client/logout",
        Call::GetSearches => "/api/client/get_searches",
        Call::SendSearchResults => "/api/client/send_search_results",
        Call::Create => "/api/client/create",
        Call::ShouldRun => "/api/client/should_run",
        Call::NotifyRunning => "/api/client/notify_running",
    };
    join(server, path)
}

/// Whether the answer to a login grants a session: only a status of 200
/// does.
pub fn login(status: u16) -> (granted: bool)
    ensures
        granted == (status == 200),
{
    status == STATUS_OK
}

/// Whether the answer to a logout confirms it: only a status of 200 does.
pub fn logout(status: u16) -> (confirmed: bool)
    ensures
        confirmed == (status == 200),
{
    status == STATUS_OK
}

/// The searches that the server handed out. With a status of 200 they are
/// what the body holds, and a body that cannot be read is an error. With
/// any other status there are none.
pub fn get_searches(status: u16, body: Result<Vec<Search>, WebError>) -> (r: Result<
    Vec<Search>,
    WebError,
>)
    ensures
        status == 200 ==> r == body,
        status != 200 ==> (r matches Ok(searches) && searches@.len() == 0),
{
    if status == STATUS_OK {
        body
    } else {
        Ok(Vec::new())
    }
}

/// Whether the server took a batch of results: only a status of 200 says
/// so.
pub fn send_search_results(status: u16) -> (taken: bool)
    ensures
        taken == (status == 200),
{
    status == STATUS_OK
}

/// The identifier and secret of an agent that the server created. With a
/// status of 200 they are what the body holds, and a body that cannot be
/// read is an error. Any other status is an error that names it.
pub fn create_client_token(status: u16, body: Result<ClientAuth, WebError>) -> (r: Result<
    ClientAuth,
    WebError,
>)
    ensures
        status == 200 ==> r == body,
        status != 200 ==> (r matches Err(WebError::Status(s)) && s == status),
{
    if status == STATUS_OK {
        body
    } else {
        Err(WebError::Status(status))
    }
}

/// The server's answer to the question whether to run.
#[derive(Debug, Clone, Copy, PartialEq, Eq, Structural)]
pub struct ClientShouldRun {
    pub should_run: bool,
}

/// Whether the server told the agent to run. With a status of 200 it is
/// what the body says, and a body that cannot be read is an error. With
/// any other status the agent is not to run.
pub fn get_should_run(status: u16, body: Result<ClientShouldRun, WebError>) -> (r: Result<
    bool,
    WebError,
>)
    ensures
        status == 200 ==> match body {
            Ok(answer) => r == Ok::<bool, WebError>(answer.should_run),
            Err(e) => r == Err::<bool, WebError>(e),
        },
        status != 200 ==> r == Ok::<bool, WebError>(false),
{
    if status == STATUS_OK {
        match body {
            Ok(answer) => Ok(answer.should_run),
            Err(e) => Err(e),
        }
    } else {
        Ok(false)
    }
}

/// Whether the server noted that a run starts: only a status of 200 says
/// so.
pub fn notify_running(status: u16) -> (noted: bool)
    ensures
        noted == (status == 200),
{
    status == STATUS_OK
}

} // verus!
