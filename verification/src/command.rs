//! What the foreground loop is asked to do after an event.
//!
//! The library makes no call to the remote service and touches no file. An
//! operation that needs one of these returns a command; the caller carries
//! it out and hands the outcome to the operation that takes it in.

use vstd::prelude::*;
use crate::models::{CreateDatabaseRequest, CreateProjectRequest, RedeployRequest};

verus! {

/// How long the caller waits before it carries out `Command::ReloadProject`,
/// in milliseconds: the service needs a moment to take note of a change.
pub const SETTLE_PAUSE_MS: u64 = 500;

/// One thing for the foreground loop to do.
#[derive(Debug)]
pub enum Command {
    /// Nothing.
    Nothing,
    /// End the run.
    Quit,
    /// Ask for the list of projects; the outcome goes to
    /// `App::fetch_projects`.
    ListProjects,
    /// Ask for the project with this identifier; the outcome goes to
    /// `App::fetch_project_detail`.
    GetProject(String),
    /// Wait for `SETTLE_PAUSE_MS`, then do as for `GetProject`.
    ReloadProject(String),
    /// Ask for the recent deployments; the outcome goes to
    /// `App::fetch_activity`.
    ListActivity,
    /// Ask for the list of databases, then for the usage figures; the two
    /// outcomes go to `App::fetch_storage_data`.
    LoadStorage,
    /// Create a project; the outcome goes to `App::project_created`.
    CreateProject(CreateProjectRequest),
    /// Deploy the project with this identifier again; the outcome goes to
    /// `App::redeployed`.
    Redeploy(String, RedeployRequest),
    /// Stop the project with this identifier; the outcome goes to
    /// `App::project_stopped`.
    StopProject(String),
    /// Ask for the credentials of the database with this identifier; the
    /// outcome goes to `App::credentials_fetched`.
    GetCredentials(u32),
    /// Delete a database; the outcome goes to `App::database_deleted`.
    DeleteDatabase(u32),
    /// Stop a database; the outcome goes to `App::database_stopped`.
    StopDatabase(u32),
    /// Restart a database; the outcome goes to `App::database_restarted`.
    RestartDatabase(u32),
    /// Create a database; the outcome goes to `App::database_created`.
    CreateDatabase(CreateDatabaseRequest),
    /// Delete the stored session, then end the run.
    ForgetSession,
}

/// A command with its identifier read as a sequence of characters.
pub enum CommandView {
    Nothing,
    Quit,
    ListProjects,
    GetProject(Seq<char>),
    ReloadProject(Seq<char>),
    ListActivity,
    LoadStorage,
    CreateProject(CreateProjectRequest),
    Redeploy(Seq<char>, RedeployRequest),
    StopProject(Seq<char>),
    GetCredentials(u32),
    DeleteDatabase(u32),
    StopDatabase(u32),
    RestartDatabase(u32),
    CreateDatabase(CreateDatabaseRequest),
    ForgetSession,
}

impl View for Command {
    type V = CommandView;

    open spec fn view(&self) -> CommandView {
        match *self {
            Command::Nothing => CommandView::Nothing,
            Command::Quit => CommandView::Quit,
            Command::ListProjects => CommandView::ListProjects,
            Command::GetProject(id) => CommandView::GetProject(id@),
            Command::ReloadProject(id) => CommandView::ReloadProject(id@),
            Command::ListActivity => CommandView::ListActivity,
            Command::LoadStorage => CommandView::LoadStorage,
            Command::CreateProject(request) => CommandView::CreateProject(request),
            Command::Redeploy(id, request) => CommandView::Redeploy(id@, request),
            Command::StopProject(id) => CommandView::StopProject(id@),
            Command::GetCredentials(id) => CommandView::GetCredentials(id),
            Command::DeleteDatabase(id) => CommandView::DeleteDatabase(id),
            Command::StopDatabase(id) => CommandView::StopDatabase(id),
            Command::RestartDatabase(id) => CommandView::RestartDatabase(id),
            Command::CreateDatabase(request) => CommandView::CreateDatabase(request),
            Command::ForgetSession => CommandView::ForgetSession,
        }
    }
}

} // verus!
