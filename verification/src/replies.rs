//! What the state makes of the outcome of a call that changed something at
//! the remote service.
//!
//! The protocol is the same for each: a success is reported in the message
//! and the data it touched is asked for again; a failure is reported as an
//! error and leaves what was held untouched.

use vstd::prelude::*;
use crate::app::App;
use crate::command::{Command, CommandView};
use crate::forms::{opt_text, CreateProjectState};
use crate::models::{DatabaseCredentials, Project};
use crate::screen::{Screen, ScreenView};
use crate::text::join;

verus! {

impl App {
    /// Whether `after` and `command` are what this state makes of the
    /// outcome of creating a project.
    ///
    /// On success the list of projects is the screen, the message says so,
    /// the errors of the form and of the state are gone and the list is asked
    /// for again. On
    /// failure the form says why, and nothing else changes.
    pub open spec fn project_created_step(
        &self,
        outcome: Result<Project, String>,
        after: &App,
        command: CommandView,
    ) -> bool {
        match outcome {
            Ok(_) => {
                &&& self.entered(ScreenView::Projects, &after.with_project_form_of(self))
                &&& after.create_project_state == (CreateProjectState {
                    error: None,
                    ..self.create_project_state
                })
                &&& after.message@ == "Project created successfully"@
                &&& after.error is None
                &&& after.resettled(self.selected_index)
                &&& command == CommandView::ListProjects
            },
            Err(reason) => {
                &&& after.with_project_form_of(self) == *self
                &&& after.create_project_state == (CreateProjectState {
                    error: after.create_project_state.error,
                    ..self.create_project_state
                })
                &&& opt_text(after.create_project_state.error) == Some(
                    "Failed to create project: "@ + reason@,
                )
                &&& command == CommandView::Nothing
            },
        }
    }

    /// Whether `after` and `command` are what this state makes of the
    /// outcome of a call on the project `id`, with `done` to say on success
    /// and `failed` to say before the reason on failure.
    ///
    /// On success the message says so, the error is gone and the project is
    /// to be loaded again. On failure the error says why.
    pub open spec fn project_call_step(
        &self,
        id: Seq<char>,
        failure: Option<Seq<char>>,
        done: Seq<char>,
        failed: Seq<char>,
        after: &App,
        command: CommandView,
    ) -> bool {
        match failure {
            None => {
                &&& *after == (App { message: after.message, error: None, ..*self })
                &&& after.message@ == done
                &&& command == CommandView::ReloadProject(id)
            },
            Some(reason) => {
                &&& *after == (App { error: after.error, ..*self })
                &&& opt_text(after.error) == Some(failed + reason)
                &&& command == CommandView::Nothing
            },
        }
    }

    /// Whether `after` is what this state makes of the outcome of a request
    /// for credentials: they are held where the storage screen still shows
    /// the database, and dropped where it does not; a failure is reported as
    /// an error.
    pub open spec fn credentials_step(
        &self,
        outcome: Result<DatabaseCredentials, String>,
        after: &App,
    ) -> bool {
        match outcome {
            Ok(credentials) => if self.show_db_credentials && self.screen is Storage {
                *after == (App { db_credentials: Some(credentials), ..*self })
            } else {
                *after == *self
            },
            Err(reason) => {
                &&& *after == (App { error: after.error, ..*self })
                &&& opt_text(after.error) == Some("Failed to fetch credentials: "@ + reason@)
            },
        }
    }

    /// Whether `after` and `command` are what this state makes of the
    /// outcome of a call on a database, with `done` to say on success and
    /// `failed` to say before the reason on failure.
    ///
    /// On success the message says so and the storage data is asked for
    /// again. On failure the error says why.
    pub open spec fn database_call_step(
        &self,
        failure: Option<Seq<char>>,
        done: Seq<char>,
        failed: Seq<char>,
        after: &App,
        command: CommandView,
    ) -> bool {
        match failure {
            None => {
                &&& *after == (App { message: after.message, ..*self })
                &&& after.message@ == done
                &&& command == CommandView::LoadStorage
            },
            Some(reason) => {
                &&& *after == (App { error: after.error, ..*self })
                &&& opt_text(after.error) == Some(failed + reason)
                &&& command == CommandView::Nothing
            },
        }
    }

    /// Whether `after` and `command` are what this state makes of the
    /// outcome of creating a database.
    ///
    /// On success the storage screen is the screen, the form is as it
    /// opens, the message says so, an error that was shown is gone and the
    /// storage data is asked for again.
    /// On failure the error says why, and the form stays open as it is.
    pub open spec fn database_created_step(
        &self,
        failure: Option<Seq<char>>,
        after: &App,
        command: CommandView,
    ) -> bool {
        match failure {
            None => {
                &&& self.entered(ScreenView::Storage, &after.with_database_form_of(self))
                &&& after.create_database_state.is_fresh()
                &&& after.message@ == "Database created successfully"@
                &&& after.error is None
                &&& after.resettled(self.selected_index)
                &&& command == CommandView::LoadStorage
            },
            Some(reason) => {
                &&& *after == (App { error: after.error, ..*self })
                &&& opt_text(after.error) == Some("Failed to create database: "@ + reason)
                &&& command == CommandView::Nothing
            },
        }
    }

    /// Takes in the outcome of creating a project.
    pub fn project_created(&mut self, outcome: Result<Project, String>) -> (command: Command)
        ensures
            old(self).project_created_step(outcome, final(self), command@),
            old(self).wf() ==> final(self).wf(),
    {
        match outcome {
            Ok(_) => {
                self.message = "Project created successfully".to_string();
                self.create_project_state.error = None;
                self.switch_to(Screen::Projects);
                Command::ListProjects
            },
            Err(reason) => {
                self.create_project_state.error = Some(
                    join("Failed to create project: ", reason.as_str()),
                );
                Command::Nothing
            },
        }
    }

    fn project_call_finished(
        &mut self,
        id: String,
        outcome: Result<(), String>,
        done: &str,
        failed: &str,
    ) -> (command: Command)
        ensures
            old(self).project_call_step(
                id@,
                failure_of(outcome),
                done@,
                failed@,
                final(self),
                command@,
            ),
            old(self).wf() ==> final(self).wf(),
    {
        match outcome {
            Ok(_) => {
                self.message = done.to_string();
                self.error = None;
                Command::ReloadProject(id)
            },
            Err(reason) => {
                self.error = Some(join(failed, reason.as_str()));
                Command::Nothing
            },
        }
    }

    /// Takes in the outcome of deploying the project `id` again.
    pub fn redeployed(&mut self, id: String, outcome: Result<(), String>) -> (command: Command)
        ensures
            old(self).project_call_step(
                id@,
                failure_of(outcome),
                "Redeploy started successfully"@,
                "Redeploy failed: "@,
                final(self),
                command@,
            ),
            old(self).wf() ==> final(self).wf(),
    {
        self.project_call_finished(id, outcome, "Redeploy started successfully", "Redeploy failed: ")
    }

    /// Takes in the outcome of stopping the project `id`.
    pub fn project_stopped(&mut self, id: String, outcome: Result<(), String>) -> (command:
        Command)
        ensures
            old(self).project_call_step(
                id@,
                failure_of(outcome),
                "Project stopped successfully"@,
                "Stop failed: "@,
                final(self),
                command@,
            ),
            old(self).wf() ==> final(self).wf(),
    {
        self.project_call_finished(id, outcome, "Project stopped successfully", "Stop failed: ")
    }

    /// Takes in the outcome of a request for the credentials of the database
    /// that is shown.
    pub fn credentials_fetched(&mut self, outcome: Result<DatabaseCredentials, String>)
        ensures
            old(self).credentials_step(outcome, final(self)),
            old(self).wf() ==> final(self).wf(),
    {
        match outcome {
            Ok(credentials) => {
                let on_storage = match &self.screen {
                    Screen::Storage => true,
                    _ => false,
                };
                if self.show_db_credentials && on_storage {
                    self.db_credentials = Some(credentials);
                }
            },
            Err(reason) => {
                self.error = Some(join("Failed to fetch credentials: ", reason.as_str()));
            },
        }
    }

    fn database_call_finished(&mut self, outcome: Result<(), String>, done: &str, failed: &str) -> (command:
        Command)
        ensures
            old(self).database_call_step(
                failure_of(outcome),
                done@,
                failed@,
                final(self),
                command@,
            ),
            old(self).wf() ==> final(self).wf(),
    {
        match outcome {
            Ok(_) => {
                self.message = done.to_string();
                Command::LoadStorage
            },
            Err(reason) => {
                self.error = Some(join(failed, reason.as_str()));
                Command::Nothing
            },
        }
    }

    /// Takes in the outcome of deleting a database.
    pub fn database_deleted(&mut self, outcome: Result<(), String>) -> (command: Command)
        ensures
            old(self).database_call_step(
                failure_of(outcome),
                "Database deleted"@,
                "Failed to delete database: "@,
                final(self),
                command@,
            ),
            old(self).wf() ==> final(self).wf(),
    {
        self.database_call_finished(outcome, "Database deleted", "Failed to delete database: ")
    }

    /// Takes in the outcome of stopping a database.
    pub fn database_stopped(&mut self, outcome: Result<(), String>) -> (command: Command)
        ensures
            old(self).database_call_step(
                failure_of(outcome),
                "Database stopped"@,
                "Failed to stop database: "@,
                final(self),
                command@,
            ),
            old(self).wf() ==> final(self).wf(),
    {
        self.database_call_finished(outcome, "Database stopped", "Failed to stop database: ")
    }

    /// Takes in the outcome of restarting a database.
    pub fn database_restarted(&mut self, outcome: Result<(), String>) -> (command: Command)
        ensures
            old(self).database_call_step(
                failure_of(outcome),
                "Database restarted"@,
                "Failed to restart database: "@,
                final(self),
                command@,
            ),
            old(self).wf() ==> final(self).wf(),
    {
        self.database_call_finished(outcome, "Database restarted", "Failed to restart database: ")
    }

    /// Takes in the outcome of creating a database.
    pub fn database_created(&mut self, outcome: Result<(), String>) -> (command: Command)
        ensures
            old(self).database_created_step(failure_of(outcome), final(self), command@),
            old(self).wf() ==> final(self).wf(),
    {
        match outcome {
            Ok(_) => {
                self.message = "Database created successfully".to_string();
                self.create_database_state.reset();
                self.switch_to(Screen::Storage);
                Command::LoadStorage
            },
            Err(reason) => {
                self.error = Some(join("Failed to create database: ", reason.as_str()));
                Command::Nothing
            },
        }
    }
}

/// The reason of a failed call, where it failed.
pub open spec fn failure_of(outcome: Result<(), String>) -> Option<Seq<char>> {
    match outcome {
        Ok(_) => None,
        Err(reason) => Some(reason@),
    }
}

} // verus!
