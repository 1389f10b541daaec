//! The actions that a key can stand for, and what each does to the state.
//!
//! An action is one of four kinds: a navigation intent, a movement in a
//! list, an edit of a form or of the scroll offset, or a call to the remote
//! service. `App::perform` is total: an action that makes no sense on the
//! active screen leaves the state as it is.

use vstd::prelude::*;
use crate::app::App;
use crate::command::{Command, CommandView};
use crate::logs::FOLLOW_TAIL;
use crate::models::RedeployRequest;
use crate::navigate::Intent;
use crate::screen::{Screen, ScreenView};
use crate::text::same;

verus! {

/// The number of lines that a page key scrolls.
pub const PAGE_LINES: u16 = 10;

/// A movement of the scroll offset of the live log.
#[derive(Debug, Clone, Copy, PartialEq, Eq, Structural)]
pub enum Scroll {
    LineDown,
    LineUp,
    PageDown,
    PageUp,
    Top,
    Bottom,
}

/// What a key stands for.
#[derive(Debug, Clone, Copy, PartialEq, Eq, Structural)]
pub enum Action {
    /// The key is not bound.
    Nothing,
    /// End the run.
    Quit,
    /// Go somewhere.
    Go(Intent),
    /// Move the selection down the list.
    SelectNext,
    /// Move the selection up the list.
    SelectPrevious,
    /// Load the list of projects again.
    RefreshProjects,
    /// Load the recent deployments again.
    RefreshActivity,
    /// Move the focus of the form to the next field.
    FocusNext,
    /// Move the focus of the form to the previous field.
    FocusPrevious,
    /// Type a character into the form.
    Type(char),
    /// Erase in the form.
    Erase,
    /// Send the form.
    Submit,
    /// Move the choice of engine up.
    EngineUp,
    /// Move the choice of engine down.
    EngineDown,
    /// Deploy the project on the screen again.
    Redeploy,
    /// Stop the project on the screen.
    StopProject,
    /// Close the credentials where they are shown, go back where not.
    CloseOrBack,
    /// Show the selected database.
    ShowDatabase,
    /// Delete the selected database.
    DeleteDatabase,
    /// Stop the selected database.
    StopDatabase,
    /// Restart the selected database.
    RestartDatabase,
    /// Scroll the live log.
    Scroll(Scroll),
    /// Delete the stored session and end the run.
    ForgetSession,
}

/// The scroll offset after a movement. It stops at 0 and at `FOLLOW_TAIL`.
pub open spec fn scrolled(offset: u16, motion: Scroll) -> u16 {
    match motion {
        Scroll::LineDown => if offset + 1 > FOLLOW_TAIL {
            FOLLOW_TAIL
        } else {
            (offset + 1) as u16
        },
        Scroll::LineUp => if offset < 1 {
            0
        } else {
            (offset - 1) as u16
        },
        Scroll::PageDown => if offset + PAGE_LINES > FOLLOW_TAIL {
            FOLLOW_TAIL
        } else {
            (offset + PAGE_LINES) as u16
        },
        Scroll::PageUp => if offset < PAGE_LINES {
            0
        } else {
            (offset - PAGE_LINES) as u16
        },
        Scroll::Top => 0,
        Scroll::Bottom => FOLLOW_TAIL,
    }
}

/// The scroll offset after a movement.
pub fn scroll_by(offset: u16, motion: Scroll) -> (r: u16)
    ensures
        r == scrolled(offset, motion),
{
    match motion {
        Scroll::LineDown => if offset >= FOLLOW_TAIL {
            FOLLOW_TAIL
        } else {
            offset + 1
        },
        Scroll::LineUp => if offset < 1 {
            0
        } else {
            offset - 1
        },
        Scroll::PageDown => if offset > FOLLOW_TAIL - PAGE_LINES {
            FOLLOW_TAIL
        } else {
            offset + PAGE_LINES
        },
        Scroll::PageUp => if offset < PAGE_LINES {
            0
        } else {
            offset - PAGE_LINES
        },
        Scroll::Top => 0,
        Scroll::Bottom => FOLLOW_TAIL,
    }
}

impl App {
    /// Whether a call on the selected database may go out: credentials are
    /// not on show and the selection names a database.
    pub open spec fn database_at_hand(&self) -> bool {
        !self.show_db_credentials && self.selected_index < self.databases@.len()
    }

    /// Whether `after` is this state with nothing changed but the message,
    /// which is `text`.
    pub open spec fn told(&self, text: Seq<char>, after: &App) -> bool {
        &&& *after == (App { message: after.message, ..*self })
        &&& after.message@ == text
    }

    /// Whether `after` and `command` are what moving the focus forward
    /// makes of this state: the form on the screen moves its focus.
    pub open spec fn focus_next_step(&self, after: &App) -> bool {
        match self.screen {
            Screen::CreateProject => {
                &&& after.with_project_form_of(self) == *self
                &&& self.create_project_state.focus_next_step(&after.create_project_state)
            },
            Screen::CreateDatabase => {
                &&& after.with_database_form_of(self) == *self
                &&& self.create_database_state.focus_next_step(&after.create_database_state)
            },
            _ => *after == *self,
        }
    }

    /// Whether `after` is this state with the focus of the form for a new
    /// project moved back. The form for a new database has no such
    /// movement.
    pub open spec fn focus_previous_step(&self, after: &App) -> bool {
        match self.screen {
            Screen::CreateProject => {
                &&& after.with_project_form_of(self) == *self
                &&& self.create_project_state.focus_previous_step(&after.create_project_state)
            },
            _ => *after == *self,
        }
    }

    /// Whether `after` is this state with `c` typed into the form on the
    /// screen.
    pub open spec fn type_step(&self, c: char, after: &App) -> bool {
        match self.screen {
            Screen::CreateProject => {
                &&& after.with_project_form_of(self) == *self
                &&& self.create_project_state.type_step(c, &after.create_project_state)
            },
            Screen::CreateDatabase => {
                &&& after.with_database_form_of(self) == *self
                &&& self.create_database_state.type_step(c, &after.create_database_state)
            },
            _ => *after == *self,
        }
    }

    /// Whether `after` is this state with the form on the screen erased in.
    /// In the form for a new database, erasing while the engine has the
    /// focus leaves the form.
    pub open spec fn erase_step(&self, after: &App) -> bool {
        match self.screen {
            Screen::CreateProject => {
                &&& after.with_project_form_of(self) == *self
                &&& self.create_project_state.erase_step(&after.create_project_state)
            },
            Screen::CreateDatabase => if self.create_database_state.focused_field == 0 {
                &&& after.with_database_form_of(self) == *self
                &&& self.create_database_state.erase_step(&after.create_database_state)
            } else {
                self.navigate_step(Intent::CancelNewDatabase, after, CommandView::Nothing)
            },
            _ => *after == *self,
        }
    }

    /// Whether `after` and `command` are what sending the form on the
    /// screen makes of this state.
    ///
    /// A complete form for a new project is announced in the message and
    /// goes out as a request; an incomplete one shows its error. A form for
    /// a new database goes out where it has a name.
    pub open spec fn submit_step(&self, after: &App, command: CommandView) -> bool {
        match self.screen {
            Screen::CreateProject => if self.create_project_state.complete() {
                &&& self.told("Creating project..."@, after)
                &&& command matches CommandView::CreateProject(request)
                &&& self.create_project_state.asks_for(request)
            } else {
                &&& after.with_project_form_of(self) == *self
                &&& self.create_project_state.submit_step(&after.create_project_state, None)
                &&& command == CommandView::Nothing
            },
            Screen::CreateDatabase => {
                &&& *after == *self
                &&& match command {
                    CommandView::CreateDatabase(request) => self.create_database_state.asks_for(
                        Some(request),
                    ),
                    CommandView::Nothing => self.create_database_state.asks_for(None),
                    _ => false,
                }
            },
            _ => *after == *self && command == CommandView::Nothing,
        }
    }

    /// Whether `after` is this state with the choice of engine moved, up or
    /// down, in the form for a new database.
    pub open spec fn engine_step(&self, up: bool, after: &App) -> bool {
        match self.screen {
            Screen::CreateDatabase => {
                &&& after.with_database_form_of(self) == *self
                &&& if up {
                    self.create_database_state.engine_up_step(&after.create_database_state)
                } else {
                    self.create_database_state.engine_down_step(&after.create_database_state)
                }
            },
            _ => *after == *self,
        }
    }

    /// Whether `after` and `command` are what showing the selected database
    /// makes of this state: the database is shown, and its credentials are
    /// asked for where its engine has any, which is so for `mongodb`.
    pub open spec fn show_step(&self, after: &App, command: CommandView) -> bool {
        if self.database_at_hand() {
            let database = self.databases@[self.selected_index as int];
            &&& self.show_database_step(after)
            &&& command == if database.db_type@ == "mongodb"@ {
                CommandView::GetCredentials(database.id)
            } else {
                CommandView::Nothing
            }
        } else {
            *after == *self && command == CommandView::Nothing
        }
    }

    /// Whether `after` and `command` are what the action makes of this
    /// state.
    pub open spec fn perform_step(&self, action: Action, after: &App, command: CommandView) -> bool {
        match action {
            Action::Nothing => *after == *self && command == CommandView::Nothing,
            Action::Quit => {
                &&& *after == (App { should_quit: true, ..*self })
                &&& command == CommandView::Quit
            },
            Action::Go(intent) => self.navigate_step(intent, after, command),
            Action::SelectNext => {
                &&& command == CommandView::Nothing
                &&& if self.screen is Storage && self.show_db_credentials {
                    *after == *self
                } else {
                    self.next_step(after)
                }
            },
            Action::SelectPrevious => {
                &&& command == CommandView::Nothing
                &&& if self.screen is Storage && self.show_db_credentials {
                    *after == *self
                } else {
                    self.previous_step(after)
                }
            },
            Action::RefreshProjects => *after == *self && command == CommandView::ListProjects,
            Action::RefreshActivity => *after == *self && command == CommandView::ListActivity,
            Action::FocusNext => self.focus_next_step(after) && command == CommandView::Nothing,
            Action::FocusPrevious => self.focus_previous_step(after) && command
                == CommandView::Nothing,
            Action::Type(c) => self.type_step(c, after) && command == CommandView::Nothing,
            Action::Erase => self.erase_step(after) && command == CommandView::Nothing,
            Action::Submit => self.submit_step(after, command),
            Action::EngineUp => self.engine_step(true, after) && command == CommandView::Nothing,
            Action::EngineDown => self.engine_step(false, after) && command
                == CommandView::Nothing,
            Action::Redeploy => match self.screen@ {
                ScreenView::ProjectDetail(id) => {
                    &&& self.told("Redeploying..."@, after)
                    &&& command == CommandView::Redeploy(id, RedeployRequest { commit: None })
                },
                _ => *after == *self && command == CommandView::Nothing,
            },
            Action::StopProject => match self.screen@ {
                ScreenView::ProjectDetail(id) => {
                    &&& self.told("Stopping project..."@, after)
                    &&& command == CommandView::StopProject(id)
                },
                _ => *after == *self && command == CommandView::Nothing,
            },
            Action::CloseOrBack => {
                &&& command == CommandView::Nothing
                &&& if self.show_db_credentials {
                    *after == (App { show_db_credentials: false, db_credentials: None, ..*self })
                } else {
                    self.back_step(after)
                }
            },
            Action::ShowDatabase => self.show_step(after, command),
            Action::DeleteDatabase => {
                &&& *after == *self
                &&& command == if self.database_at_hand() {
                    CommandView::DeleteDatabase(self.databases@[self.selected_index as int].id)
                } else {
                    CommandView::Nothing
                }
            },
            Action::StopDatabase => {
                &&& *after == *self
                &&& command == if self.database_at_hand() {
                    CommandView::StopDatabase(self.databases@[self.selected_index as int].id)
                } else {
                    CommandView::Nothing
                }
            },
            Action::RestartDatabase => {
                &&& *after == *self
                &&& command == if self.database_at_hand() {
                    CommandView::RestartDatabase(self.databases@[self.selected_index as int].id)
                } else {
                    CommandView::Nothing
                }
            },
            Action::Scroll(motion) => {
                &&& *after == (App { log_scroll: scrolled(self.log_scroll, motion), ..*self })
                &&& command == CommandView::Nothing
            },
            Action::ForgetSession => {
                &&& *after == (App { should_quit: true, ..*self })
                &&& command == CommandView::ForgetSession
            },
        }
    }

    fn on_storage_list(&self) -> (yes: bool)
        ensures
            yes == !(self.screen is Storage && self.show_db_credentials),
    {
        match &self.screen {
            Screen::Storage => !self.show_db_credentials,
            _ => true,
        }
    }

    fn erase(&mut self)
        ensures
            old(self).erase_step(final(self)),
            old(self).wf() ==> final(self).wf(),
    {
        match &self.screen {
            Screen::CreateProject => {
                self.create_project_state.erase();
            },
            Screen::CreateDatabase => {
                let leave = self.create_database_state.erase();
                if leave {
                    let _ = self.navigate(Intent::CancelNewDatabase);
                }
            },
            _ => {},
        }
    }

    fn submit(&mut self) -> (command: Command)
        ensures
            old(self).submit_step(final(self), command@),
            old(self).wf() ==> final(self).wf(),
    {
        match &self.screen {
            Screen::CreateProject => {
                match self.create_project_state.submit() {
                    Some(request) => {
                        self.message = "Creating project...".to_string();
                        Command::CreateProject(request)
                    },
                    None => Command::Nothing,
                }
            },
            Screen::CreateDatabase => {
                match self.create_database_state.request() {
                    Some(request) => Command::CreateDatabase(request),
                    None => Command::Nothing,
                }
            },
            _ => Command::Nothing,
        }
    }

    fn show_database(&mut self) -> (command: Command)
        ensures
            old(self).show_step(final(self), command@),
            old(self).wf() ==> final(self).wf(),
    {
        if !self.show_db_credentials && self.selected_index < self.databases.len() {
            self.select_database();
            let database = &self.databases[self.selected_index];
            if same(database.db_type.as_str(), "mongodb") {
                Command::GetCredentials(database.id)
            } else {
                Command::Nothing
            }
        } else {
            Command::Nothing
        }
    }

    fn selected_database_id(&self) -> (id: Option<u32>)
        ensures
            id == if self.database_at_hand() {
                Some(self.databases@[self.selected_index as int].id)
            } else {
                None
            },
    {
        if !self.show_db_credentials && self.selected_index < self.databases.len() {
            Some(self.databases[self.selected_index].id)
        } else {
            None
        }
    }

    /// Carries out an action, and says what the foreground loop has to do
    /// for it.
    pub fn perform(&mut self, action: Action) -> (command: Command)
        ensures
            old(self).perform_step(action, final(self), command@),
            old(self).wf() ==> final(self).wf(),
    {
        match action {
            Action::Nothing => Command::Nothing,
            Action::Quit => {
                self.should_quit = true;
                Command::Quit
            },
            Action::Go(intent) => self.navigate(intent),
            Action::SelectNext => {
                if self.on_storage_list() {
                    self.next();
                }
                Command::Nothing
            },
            Action::SelectPrevious => {
                if self.on_storage_list() {
                    self.previous();
                }
                Command::Nothing
            },
            Action::RefreshProjects => Command::ListProjects,
            Action::RefreshActivity => Command::ListActivity,
            Action::FocusNext => {
                match &self.screen {
                    Screen::CreateProject => {
                        self.create_project_state.next_field();
                    },
                    Screen::CreateDatabase => {
                        self.create_database_state.next_field();
                    },
                    _ => {},
                }
                Command::Nothing
            },
            Action::FocusPrevious => {
                match &self.screen {
                    Screen::CreateProject => {
                        self.create_project_state.previous_field();
                    },
                    _ => {},
                }
                Command::Nothing
            },
            Action::Type(c) => {
                match &self.screen {
                    Screen::CreateProject => {
                        self.create_project_state.type_char(c);
                    },
                    Screen::CreateDatabase => {
                        self.create_database_state.type_char(c);
                    },
                    _ => {},
                }
                Command::Nothing
            },
            Action::Erase => {
                self.erase();
                Command::Nothing
            },
            Action::Submit => self.submit(),
            Action::EngineUp => {
                match &self.screen {
                    Screen::CreateDatabase => {
                        self.create_database_state.engine_up();
                    },
                    _ => {},
                }
                Command::Nothing
            },
            Action::EngineDown => {
                match &self.screen {
                    Screen::CreateDatabase => {
                        self.create_database_state.engine_down();
                    },
                    _ => {},
                }
                Command::Nothing
            },
            Action::Redeploy => {
                let target = match &self.screen {
                    Screen::ProjectDetail(id) => Some(id.clone()),
                    _ => None,
                };
                match target {
                    Some(id) => {
                        self.message = "Redeploying...".to_string();
                        Command::Redeploy(id, RedeployRequest { commit: None })
                    },
                    None => Command::Nothing,
                }
            },
            Action::StopProject => {
                let target = match &self.screen {
                    Screen::ProjectDetail(id) => Some(id.clone()),
                    _ => None,
                };
                match target {
                    Some(id) => {
                        self.message = "Stopping project...".to_string();
                        Command::StopProject(id)
                    },
                    None => Command::Nothing,
                }
            },
            Action::CloseOrBack => {
                if self.show_db_credentials {
                    self.show_db_credentials = false;
                    self.db_credentials = None;
                } else {
                    self.go_back();
                }
                Command::Nothing
            },
            Action::ShowDatabase => self.show_database(),
            Action::DeleteDatabase => match self.selected_database_id() {
                Some(id) => Command::DeleteDatabase(id),
                None => Command::Nothing,
            },
            Action::StopDatabase => match self.selected_database_id() {
                Some(id) => Command::StopDatabase(id),
                None => Command::Nothing,
            },
            Action::RestartDatabase => match self.selected_database_id() {
                Some(id) => Command::RestartDatabase(id),
                None => Command::Nothing,
            },
            Action::Scroll(motion) => {
                self.log_scroll = scroll_by(self.log_scroll, motion);
                Command::Nothing
            },
            Action::ForgetSession => {
                self.should_quit = true;
                Command::ForgetSession
            },
        }
    }
}

} // verus!
