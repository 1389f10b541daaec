//! The first set-up: what the form makes of a key, and of the outcome of
//! what it asked for.
//!
//! The form asks for the address of the server and the API key. Enter on
//! the address opens the page of the server that shows the key; Enter on
//! the key has the session tried, and stored once it was accepted.

use vstd::prelude::*;
use crate::config::Config;
use crate::field::text_of;
use crate::forms::{opt_text, SetupState};
use crate::keys::Key;
use crate::models::User;
use crate::text::{join, strip_trailing, trim, trimmed_copy, without_trailing};

verus! {

/// What the set-up loop is asked to do after an event.
#[derive(Debug)]
pub enum SetupCommand {
    /// Nothing.
    Nothing,
    /// Leave the set-up and end the process.
    Quit,
    /// Open this address in the browser; whether that works does not
    /// matter.
    OpenBrowser(String),
    /// Try this session at the server; the outcome goes to
    /// `SetupState::connection_checked`.
    Validate(Config),
    /// Store this session; the outcome goes to `SetupState::config_saved`.
    Save(Config),
    /// The set-up is complete.
    Done,
}

/// A set-up command with its texts read as sequences of characters.
pub enum SetupCommandView {
    Nothing,
    Quit,
    OpenBrowser(Seq<char>),
    Validate(Seq<char>, Seq<char>),
    Save(Seq<char>, Seq<char>),
    Done,
}

impl View for SetupCommand {
    type V = SetupCommandView;

    open spec fn view(&self) -> SetupCommandView {
        match *self {
            SetupCommand::Nothing => SetupCommandView::Nothing,
            SetupCommand::Quit => SetupCommandView::Quit,
            SetupCommand::OpenBrowser(url) => SetupCommandView::OpenBrowser(url@),
            SetupCommand::Validate(config) => SetupCommandView::Validate(
                config.server_url@,
                config.api_key@,
            ),
            SetupCommand::Save(config) => SetupCommandView::Save(
                config.server_url@,
                config.api_key@,
            ),
            SetupCommand::Done => SetupCommandView::Done,
        }
    }
}

/// The address of the page that shows the API key, for a server at
/// `server_url`: the address without slashes at its end, and the path of the
/// page behind it.
pub open spec fn session_page(server_url: Seq<char>) -> Seq<char> {
    without_trailing(server_url, '/') + "/settings/session"@
}

/// The address of the page that shows the API key.
pub fn session_page_url(server_url: &str) -> (url: String)
    ensures
        url@ == session_page(server_url@),
{
    join(strip_trailing(server_url, '/'), "/settings/session")
}

impl SetupState {
    /// The address of the server as it is used: the text of its field
    /// without the white space at either end.
    pub open spec fn address(&self) -> Seq<char> {
        trim(text_of(self.server_url))
    }

    /// The API key as it is used: the text of its field without the white
    /// space at either end.
    pub open spec fn key(&self) -> Seq<char> {
        trim(text_of(self.api_key))
    }

    /// Whether `after` is this form with nothing changed but the error,
    /// which is `text`.
    pub open spec fn refused(&self, text: Seq<char>, after: &Self) -> bool {
        &&& *after == (SetupState { error: after.error, ..*self })
        &&& opt_text(after.error) == Some(text)
    }

    /// Whether `after` and `command` are what Enter makes of this form.
    ///
    /// On the address: an address that is not blank has its key page opened
    /// and the focus moves on; a blank one is an error. On the key: a blank
    /// address is an error, then a blank key is; with both given the
    /// session is to be tried.
    pub open spec fn submit_step(&self, after: &Self, command: SetupCommandView) -> bool {
        if self.focused_field == 0 {
            if self.address().len() > 0 {
                &&& self.focus_next_step(after)
                &&& command == SetupCommandView::OpenBrowser(session_page(self.address()))
            } else {
                &&& self.refused("Server URL cannot be empty"@, after)
                &&& command == SetupCommandView::Nothing
            }
        } else if self.address().len() == 0 {
            &&& self.refused("Server URL cannot be empty"@, after)
            &&& command == SetupCommandView::Nothing
        } else if self.key().len() == 0 {
            &&& self.refused("API key cannot be empty"@, after)
            &&& command == SetupCommandView::Nothing
        } else {
            &&& *after == *self
            &&& command == SetupCommandView::Validate(self.address(), self.key())
        }
    }

    /// Whether `after` and `command` are what the key makes of this form.
    ///
    /// Escape and Ctrl-C leave the set-up. Tab and Shift-Tab move the focus,
    /// Enter submits, a character is typed and Backspace erases in the field
    /// that has the focus. No other key does anything.
    pub open spec fn key_step(
        &self,
        key: Key,
        ctrl: bool,
        after: &Self,
        command: SetupCommandView,
    ) -> bool {
        match key {
            Key::Esc => *after == *self && command == SetupCommandView::Quit,
            Key::Tab => self.focus_next_step(after) && command == SetupCommandView::Nothing,
            Key::BackTab => self.focus_previous_step(after) && command
                == SetupCommandView::Nothing,
            Key::Enter => self.submit_step(after, command),
            Key::Char(c) => if c == 'c' && ctrl {
                *after == *self && command == SetupCommandView::Quit
            } else {
                self.type_step(c, after) && command == SetupCommandView::Nothing
            },
            Key::Backspace => self.erase_step(after) && command == SetupCommandView::Nothing,
            _ => *after == *self && command == SetupCommandView::Nothing,
        }
    }

    /// Whether `after` and `command` are what this form makes of the
    /// outcome of trying `candidate`: an accepted session is to be stored, a
    /// refused one is reported on the form.
    pub open spec fn checked_step(
        &self,
        candidate: Config,
        outcome: Result<User, String>,
        after: &Self,
        command: SetupCommandView,
    ) -> bool {
        match outcome {
            Ok(_) => {
                &&& *after == *self
                &&& command == SetupCommandView::Save(candidate.server_url@, candidate.api_key@)
            },
            Err(reason) => {
                &&& self.refused("Connection failed: "@ + reason@, after)
                &&& command == SetupCommandView::Nothing
            },
        }
    }

    /// Whether `after` and `command` are what this form makes of the
    /// outcome of storing the session: once it is stored the set-up is
    /// complete, and a failure is reported on the form.
    pub open spec fn saved_step(
        &self,
        outcome: Result<(), String>,
        after: &Self,
        command: SetupCommandView,
    ) -> bool {
        match outcome {
            Ok(_) => *after == *self && command == SetupCommandView::Done,
            Err(reason) => {
                &&& self.refused("Failed to save config: "@ + reason@, after)
                &&& command == SetupCommandView::Nothing
            },
        }
    }

    /// Submits the form.
    pub fn submit(&mut self) -> (command: SetupCommand)
        ensures
            old(self).submit_step(final(self), command@),
    {
        let server_url = trimmed_copy(self.server_url.value());
        let api_key = trimmed_copy(self.api_key.value());
        if self.focused_field == 0 {
            if !server_url.as_str().is_empty() {
                let url = session_page_url(server_url.as_str());
                self.next_field();
                return SetupCommand::OpenBrowser(url);
            }
            self.error = Some("Server URL cannot be empty".to_string());
            return SetupCommand::Nothing;
        }
        if server_url.as_str().is_empty() {
            self.error = Some("Server URL cannot be empty".to_string());
            return SetupCommand::Nothing;
        }
        if api_key.as_str().is_empty() {
            self.error = Some("API key cannot be empty".to_string());
            return SetupCommand::Nothing;
        }
        SetupCommand::Validate(Config::new(server_url, api_key))
    }

    /// Takes in one key.
    pub fn handle_key(&mut self, key: Key, ctrl: bool) -> (command: SetupCommand)
        ensures
            old(self).key_step(key, ctrl, final(self), command@),
    {
        match key {
            Key::Esc => SetupCommand::Quit,
            Key::Tab => {
                self.next_field();
                SetupCommand::Nothing
            },
            Key::BackTab => {
                self.previous_field();
                SetupCommand::Nothing
            },
            Key::Enter => self.submit(),
            Key::Char(c) => {
                if c == 'c' && ctrl {
                    SetupCommand::Quit
                } else {
                    self.type_char(c);
                    SetupCommand::Nothing
                }
            },
            Key::Backspace => {
                self.erase();
                SetupCommand::Nothing
            },
            _ => SetupCommand::Nothing,
        }
    }

    /// Takes in the outcome of trying the session `candidate`.
    pub fn connection_checked(&mut self, candidate: Config, outcome: Result<User, String>) -> (command:
        SetupCommand)
        ensures
            old(self).checked_step(candidate, outcome, final(self), command@),
    {
        match outcome {
            Ok(_) => SetupCommand::Save(candidate),
            Err(reason) => {
                self.error = Some(join("Connection failed: ", reason.as_str()));
                SetupCommand::Nothing
            },
        }
    }

    /// Takes in the outcome of storing the session.
    pub fn config_saved(&mut self, outcome: Result<(), String>) -> (command: SetupCommand)
        ensures
            old(self).saved_step(outcome, final(self), command@),
    {
        match outcome {
            Ok(_) => SetupCommand::Done,
            Err(reason) => {
                self.error = Some(join("Failed to save config: ", reason.as_str()));
                SetupCommand::Nothing
            },
        }
    }
}

} // verus!
