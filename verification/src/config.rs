//! The session: the address of the server and the credential, and what the
//! client decides at start-up.

use vstd::prelude::*;
use crate::app::App;
use crate::models::User;
use crate::text::join;

verus! {

/// The directory of the session file, below the configuration directory of
/// the user.
pub const CONFIG_DIR_NAME: &'static str = "clickploy";

/// The name of the session file.
pub const CONFIG_FILE_NAME: &'static str = "config.toml";

/// The address that is taken for the server where none is stored.
pub const DEFAULT_SERVER_URL: &'static str = "http://localhost:8080";

/// The exit code of a run that could not authenticate.
pub const EXIT_UNAUTHENTICATED: i32 = 1;

/// The address of the server and the credential for it.
#[derive(Debug)]
pub struct Config {
    pub server_url: String,
    pub api_key: String,
}

impl Clone for Config {
    fn clone(&self) -> (copy: Self)
        ensures
            copy == *self,
    {
        Config { server_url: self.server_url.clone(), api_key: self.api_key.clone() }
    }
}

impl Config {
    /// The session with this address and credential.
    pub fn new(server_url: String, api_key: String) -> (config: Self)
        ensures
            config.server_url == server_url,
            config.api_key == api_key,
    {
        Config { server_url, api_key }
    }
}

/// Whether a session is stored, given what the look for its file found:
/// whether the file is there, or nothing where the place of the file could
/// not be determined. Only a file that was found counts.
pub fn config_exists(found: Option<bool>) -> (exists: bool)
    ensures
        exists == (found == Some(true)),
{
    match found {
        Some(there) => there,
        None => false,
    }
}

/// The address of the server that the log stream goes to: that of the
/// stored session, or the default where no session could be loaded.
pub fn stream_server_url(config: Option<Config>) -> (url: String)
    ensures
        url@ == match config {
            Some(c) => c.server_url@,
            None => DEFAULT_SERVER_URL@,
        },
{
    match config {
        Some(c) => c.server_url,
        None => DEFAULT_SERVER_URL.to_string(),
    }
}

/// How a run begins once the stored session has been tried.
pub enum Startup {
    /// The session is good: the client runs from this state, and the list
    /// of projects is to be fetched.
    Run(App),
    /// The session is no good. The two lines are to be reported, the stored
    /// session deleted, and the process ended with this exit code.
    Abort { report: String, advice: String, exit_code: i32 },
}

/// Decides how the run begins, given the outcome of trying the stored
/// session: the user it belongs to, or the reason why it was not accepted.
pub fn startup(validated: Result<User, String>) -> (start: Startup)
    ensures
        match validated {
            Ok(user) => start matches Startup::Run(app) && app.begins_session_of(user)
                && app.wf(),
            Err(reason) => start matches Startup::Abort { report, advice, exit_code } && report@
                == "Failed to connect to server: "@ + reason@ && advice@
                == "Please reconfigure by running the setup again."@ && exit_code
                == EXIT_UNAUTHENTICATED,
        },
{
    match validated {
        Ok(user) => Startup::Run(App::signed_in(user)),
        Err(reason) => Startup::Abort {
            report: join("Failed to connect to server: ", reason.as_str()),
            advice: "Please reconfigure by running the setup again.".to_string(),
            exit_code: EXIT_UNAUTHENTICATED,
        },
    }
}

} // verus!
