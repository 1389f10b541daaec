//! Navigation: how an intent of the operator changes the active screen.
//!
//! `App::navigate` is total: every intent is answered on every screen. An
//! intent that makes no sense where it is given leaves the state as it is.

use vstd::prelude::*;
use crate::app::App;
use crate::command::{Command, CommandView};
use crate::forms::{opt_text, CreateProjectState};
use crate::models::Project;
use crate::screen::{Screen, ScreenView};

verus! {

/// Where the operator wants to go.
#[derive(Debug, Clone, Copy, PartialEq, Eq, Structural)]
pub enum Intent {
    /// Back from the active screen.
    Back,
    /// To the detail of the selected project.
    OpenProject,
    /// To the form for a new project.
    NewProject,
    /// From the form for a new project to the list of projects.
    CancelNewProject,
    /// To the recent activity.
    Activity,
    /// To the list of deployments.
    Deployments,
    /// To the network overview.
    Network,
    /// To the storage screen.
    Storage,
    /// To the help.
    Docs,
    /// To the settings of the client.
    Settings,
    /// To the live log of the latest deployment of the selected project.
    Logs,
    /// From the detail of a project to its settings.
    ProjectSettings,
    /// To the form for a new database.
    NewDatabase,
    /// From the form for a new database to the storage screen.
    CancelNewDatabase,
}

/// What is known of the latest deployment of a project.
pub enum Latest {
    /// No project is selected, or its deployments were not delivered.
    Unknown,
    /// The project has no deployment.
    Missing,
    /// The identifier of the latest deployment.
    Found(Seq<char>),
}

/// The latest deployment of the selected project: the first of its list.
pub open spec fn latest_deployment(selected: Option<Project>) -> Latest {
    match selected {
        Some(project) => match project.deployments {
            Some(list) => if list@.len() > 0 {
                Latest::Found(list@[0].id@)
            } else {
                Latest::Missing
            },
            None => Latest::Unknown,
        },
        None => Latest::Unknown,
    }
}

impl App {
    /// This state with the form for a new project of `other` in place of
    /// its own.
    pub open spec fn with_project_form_of(&self, other: &App) -> App {
        App { create_project_state: other.create_project_state, ..*self }
    }

    /// This state with the form for a new database of `other` in place of
    /// its own.
    pub open spec fn with_database_form_of(&self, other: &App) -> App {
        App { create_database_state: other.create_database_state, ..*self }
    }

    /// Whether `after` is this state with the list screen `target` entered
    /// from the top: the selection is 0, the message stays and an error that
    /// was shown is gone.
    pub open spec fn listed(&self, target: ScreenView, after: &App) -> bool {
        &&& self.entered(target, after)
        &&& after.selected_index == 0
        &&& after.message == self.message
        &&& after.error is None
    }

    /// Whether `after` is this state with `target` the screen and nothing
    /// else changed but what follows from the change.
    pub open spec fn switched(&self, target: ScreenView, after: &App) -> bool {
        self.switch_step(after) && after.screen@ == target
    }

    /// Whether `after` and `command` are what the intent makes of this
    /// state.
    pub open spec fn navigate_step(
        &self,
        intent: Intent,
        after: &App,
        command: CommandView,
    ) -> bool {
        match intent {
            Intent::Back => self.back_step(after) && command == CommandView::Nothing,
            Intent::OpenProject => {
                &&& self.open_project_step(after)
                &&& command == match after.screen@ {
                    ScreenView::ProjectDetail(id) => CommandView::GetProject(id),
                    _ => CommandView::Nothing,
                }
            },
            Intent::NewProject => {
                &&& self.switched(ScreenView::CreateProject, &after.with_project_form_of(self))
                &&& after.create_project_state.is_fresh()
                &&& command == CommandView::Nothing
            },
            Intent::CancelNewProject => {
                &&& self.switched(ScreenView::Projects, after)
                &&& command == CommandView::Nothing
            },
            Intent::Activity => {
                &&& self.listed(ScreenView::Activity, after)
                &&& command == CommandView::ListActivity
            },
            Intent::Deployments => {
                &&& self.listed(ScreenView::Deployments, after)
                &&& command == CommandView::ListActivity
            },
            Intent::Network => {
                &&& self.switched(ScreenView::Network, after)
                &&& command == CommandView::Nothing
            },
            Intent::Storage => {
                &&& self.listed(ScreenView::Storage, after)
                &&& command == CommandView::LoadStorage
            },
            Intent::Docs => {
                &&& self.switched(ScreenView::Docs, after)
                &&& command == CommandView::Nothing
            },
            Intent::Settings => {
                &&& self.switched(ScreenView::Settings, after)
                &&& command == CommandView::Nothing
            },
            Intent::Logs => {
                &&& command == CommandView::Nothing
                &&& match latest_deployment(self.selected_project) {
                    Latest::Found(id) => self.switched(ScreenView::DeploymentLogs(id), after),
                    Latest::Missing => {
                        &&& *after == (App { error: after.error, ..*self })
                        &&& opt_text(after.error) == Some("No deployments found"@)
                    },
                    Latest::Unknown => *after == *self,
                }
            },
            Intent::ProjectSettings => {
                &&& command == CommandView::Nothing
                &&& match self.screen@ {
                    ScreenView::ProjectDetail(id) => self.switched(
                        ScreenView::ProjectSettings(id),
                        after,
                    ),
                    _ => *after == *self,
                }
            },
            Intent::NewDatabase => {
                &&& command == CommandView::Nothing
                &&& if self.show_db_credentials {
                    *after == *self
                } else {
                    &&& self.switched(
                        ScreenView::CreateDatabase,
                        &after.with_database_form_of(self),
                    )
                    &&& after.create_database_state.is_fresh()
                }
            },
            Intent::CancelNewDatabase => {
                &&& command == CommandView::Nothing
                &&& self.switched(ScreenView::Storage, &after.with_database_form_of(self))
                &&& after.create_database_state.is_fresh()
            },
        }
    }

    /// Follows an intent, and says what is to be fetched for the screen that
    /// comes up.
    pub fn navigate(&mut self, intent: Intent) -> (command: Command)
        ensures
            old(self).navigate_step(intent, final(self), command@),
            old(self).wf() ==> final(self).wf(),
    {
        match intent {
            Intent::Back => {
                self.go_back();
                Command::Nothing
            },
            Intent::OpenProject => {
                self.select_project();
                match &self.screen {
                    Screen::ProjectDetail(id) => Command::GetProject(id.clone()),
                    _ => Command::Nothing,
                }
            },
            Intent::NewProject => {
                self.switch_to(Screen::CreateProject);
                self.create_project_state = CreateProjectState::new();
                Command::Nothing
            },
            Intent::CancelNewProject => {
                self.switch_to(Screen::Projects);
                Command::Nothing
            },
            Intent::Activity => {
                self.switch_to(Screen::Activity);
                self.selected_index = 0;
                Command::ListActivity
            },
            Intent::Deployments => {
                self.switch_to(Screen::Deployments);
                self.selected_index = 0;
                Command::ListActivity
            },
            Intent::Network => {
                self.switch_to(Screen::Network);
                Command::Nothing
            },
            Intent::Storage => {
                self.switch_to(Screen::Storage);
                self.selected_index = 0;
                Command::LoadStorage
            },
            Intent::Docs => {
                self.switch_to(Screen::Docs);
                Command::Nothing
            },
            Intent::Settings => {
                self.switch_to(Screen::Settings);
                Command::Nothing
            },
            Intent::Logs => {
                let latest = match &self.selected_project {
                    Some(project) => match &project.deployments {
                        Some(list) => if list.len() > 0 {
                            Some(Some(list[0].id.clone()))
                        } else {
                            Some(None)
                        },
                        None => None,
                    },
                    None => None,
                };
                match latest {
                    Some(Some(id)) => {
                        self.switch_to(Screen::DeploymentLogs(id));
                    },
                    Some(None) => {
                        self.error = Some("No deployments found".to_string());
                    },
                    None => {},
                }
                Command::Nothing
            },
            Intent::ProjectSettings => {
                let target = match &self.screen {
                    Screen::ProjectDetail(id) => Some(Screen::ProjectSettings(id.clone())),
                    _ => None,
                };
                match target {
                    Some(screen) => {
                        self.switch_to(screen);
                    },
                    None => {},
                }
                Command::Nothing
            },
            Intent::NewDatabase => {
                if !self.show_db_credentials {
                    self.create_database_state.reset();
                    self.switch_to(Screen::CreateDatabase);
                }
                Command::Nothing
            },
            Intent::CancelNewDatabase => {
                self.create_database_state.reset();
                self.switch_to(Screen::Storage);
                Command::Nothing
            },
        }
    }
}

} // verus!
