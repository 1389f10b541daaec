//! The state of the running client, and the operations that change it.
//!
//! One `App` is the single source of truth: which screen is active, what the
//! service last returned, which item is selected and what the operator is
//! told. Every operation is total. Calls to the remote service are not made
//! here: an operation that follows a call takes the outcome of the call, a
//! value on success and a message on failure.

use vstd::prelude::*;
use crate::forms::{opt_text, CreateDatabaseState, CreateProjectState, DATABASE_FIELDS, PROJECT_FIELDS};
use crate::models::{Database, DatabaseCredentials, Deployment, Project, StorageStats, User};
use crate::screen::{Screen, ScreenView};
use crate::selection::{settle, settled, step_next, step_prev, wrap_next, wrap_prev};
use crate::text::{decimal, decimal_text, join};

verus! {

/// Everything the client knows while it runs.
pub struct App {
    pub screen: Screen,
    pub projects: Vec<Project>,
    pub selected_project: Option<Project>,
    pub activity: Vec<Deployment>,
    pub user: Option<User>,
    pub message: String,
    pub error: Option<String>,
    pub selected_index: usize,
    pub should_quit: bool,
    pub create_project_state: CreateProjectState,
    pub live_logs: String,
    pub log_scroll: u16,
    pub databases: Vec<Database>,
    pub selected_database: Option<Database>,
    pub storage_stats: Option<StorageStats>,
    pub create_database_state: CreateDatabaseState,
    pub show_db_credentials: bool,
    pub db_credentials: Option<DatabaseCredentials>,
}

/// The identifier of the project that is selected, where one is.
pub open spec fn project_id(selected: Option<Project>) -> Option<Seq<char>> {
    match selected {
        Some(project) => Some(project.id@),
        None => None,
    }
}

/// Where "back" leads from a screen, given the identifier of the selected
/// project. The live log returns to the project it belongs to where one is
/// selected; every other screen but the first two returns to the list of
/// projects; set-up and the list of projects stay.
pub open spec fn back_target(screen: ScreenView, selected: Option<Seq<char>>) -> ScreenView {
    match screen {
        ScreenView::Setup => ScreenView::Setup,
        ScreenView::DeploymentLogs(_) => match selected {
            Some(id) => ScreenView::ProjectDetail(id),
            None => ScreenView::Projects,
        },
        _ => ScreenView::Projects,
    }
}

/// The deployment whose live log a screen shows, where it shows one.
pub open spec fn log_subject(screen: ScreenView) -> Option<Seq<char>> {
    match screen {
        ScreenView::DeploymentLogs(id) => Some(id),
        _ => None,
    }
}

/// The text of `count` followed by a noun, after the word "Loaded".
pub open spec fn loaded_text(count: nat, noun: Seq<char>) -> Seq<char> {
    "Loaded "@ + decimal(count) + noun
}

fn loaded(count: usize, noun: &str) -> (text: String)
    ensures
        text@ == loaded_text(count as nat, noun@),
{
    let number = decimal_text(count as u64);
    let head = join("Loaded ", number.as_str());
    join(head.as_str(), noun)
}

impl App {
    /// The number of items in the list that the active screen shows; 0 on a
    /// screen without a list.
    pub open spec fn active_len(&self) -> nat {
        match self.screen {
            Screen::Projects => self.projects@.len(),
            Screen::Activity => self.activity@.len(),
            Screen::Storage => self.databases@.len(),
            _ => 0,
        }
    }

    /// The selection points at an item of the active list, unless that list
    /// is empty.
    pub open spec fn selection_valid(&self) -> bool {
        self.active_len() == 0 || self.selected_index < self.active_len()
    }

    /// Credentials are held only while they are shown, and that only on the
    /// storage screen.
    pub open spec fn credentials_guarded(&self) -> bool {
        self.db_credentials is Some ==> self.show_db_credentials && self.screen is Storage
    }

    /// The log buffer and the scroll offset follow a change of screen: the
    /// buffer is kept while the screen shows the log of the same deployment
    /// and is empty otherwise, and the offset is 0 once a log screen has
    /// been left.
    pub open spec fn logs_follow(&self, after: &App) -> bool {
        &&& if log_subject(self.screen@) == log_subject(after.screen@) {
            after.live_logs == self.live_logs
        } else {
            after.live_logs@ == Seq::<char>::empty()
        }
        &&& if self.screen is DeploymentLogs && !(after.screen is DeploymentLogs) {
            after.log_scroll == 0
        } else {
            after.log_scroll == self.log_scroll
        }
    }

    /// Credentials follow a change of screen: they are dropped, and no
    /// longer shown, once the storage screen has been left.
    pub open spec fn credentials_follow(&self, after: &App) -> bool {
        if self.screen is Storage && !(after.screen is Storage) {
            !after.show_db_credentials && after.db_credentials is None
        } else {
            after.show_db_credentials == self.show_db_credentials && after.db_credentials
                == self.db_credentials
        }
    }

    /// Whether `after` is this state turned to another screen, or left on
    /// the same one: what the service returned, the user and the forms are
    /// as before. The screen, the selection, the message and the error are
    /// left open here; the log buffer, the scroll offset and the credentials
    /// are left open too, for the two rules that the name of each says.
    pub open spec fn turned(&self, after: &App) -> bool {
        *after == (App {
            screen: after.screen,
            selected_index: after.selected_index,
            message: after.message,
            error: after.error,
            live_logs: after.live_logs,
            log_scroll: after.log_scroll,
            show_db_credentials: after.show_db_credentials,
            db_credentials: after.db_credentials,
            ..*self
        })
    }

    /// Whether `after` is this state with `target` entered: the log buffer
    /// and the credentials follow the change of screen. The selection, the
    /// message and the error are left open.
    pub open spec fn entered(&self, target: ScreenView, after: &App) -> bool {
        &&& self.turned(after)
        &&& after.screen@ == target
        &&& self.logs_follow(after)
        &&& self.credentials_follow(after)
    }

    /// Whether `after` is this state with the screen changed, and what
    /// follows from that: the log buffer and the credentials follow the
    /// change, an error that was shown is gone, and the selection is settled
    /// for the list that comes up.
    pub open spec fn switch_step(&self, after: &App) -> bool {
        &&& self.entered(after.screen@, after)
        &&& after.message == self.message
        &&& after.error is None
        &&& after.resettled(self.selected_index)
    }

    /// The log buffer holds text only while the log of a deployment is the
    /// screen.
    pub open spec fn buffer_owned(&self) -> bool {
        self.live_logs@.len() > 0 ==> self.screen is DeploymentLogs
    }

    /// Nothing is loaded, selected, shown or said to be wrong, both forms are
    /// as they open, and the run is not at its end. The screen, the user and
    /// the message are left open.
    pub open spec fn is_blank(&self) -> bool {
        &&& self.projects@.len() == 0
        &&& self.selected_project is None
        &&& self.activity@.len() == 0
        &&& self.error is None
        &&& self.selected_index == 0
        &&& !self.should_quit
        &&& self.create_project_state.is_fresh()
        &&& self.live_logs@ == Seq::<char>::empty()
        &&& self.log_scroll == 0
        &&& self.databases@.len() == 0
        &&& self.selected_database is None
        &&& self.storage_stats is None
        &&& self.create_database_state.is_fresh()
        &&& !self.show_db_credentials
        &&& self.db_credentials is None
    }

    /// The state with which the session of `user` begins: blank, on the
    /// list of projects, the user known and greeted by name.
    pub open spec fn begins_session_of(&self, user: User) -> bool {
        &&& self.is_blank()
        &&& self.screen@ == ScreenView::Projects
        &&& self.user == Some(user)
        &&& self.message@ == "Welcome, "@ + user.name@ + "!"@
    }

    /// The state is well formed: the selection is valid, credentials are
    /// guarded, the log buffer is owned, and the focus of each form names
    /// one of its fields.
    pub open spec fn wf(&self) -> bool {
        &&& self.selection_valid()
        &&& self.credentials_guarded()
        &&& self.buffer_owned()
        &&& self.create_project_state.focused_field < PROJECT_FIELDS
        &&& self.create_database_state.focused_field < DATABASE_FIELDS
    }

    /// The selection after the list of the active screen has changed: as
    /// before where that is valid for the list now shown, the first item
    /// where it is not.
    pub open spec fn resettled(&self, before: usize) -> bool {
        self.selected_index == settled(before as nat, self.active_len())
    }

    /// Whether `after` is this state one step further down the active list.
    pub open spec fn next_step(&self, after: &App) -> bool {
        &&& *after == (App { selected_index: after.selected_index, ..*self })
        &&& after.selected_index == if self.active_len() > 0 {
            wrap_next(self.selected_index as nat, self.active_len())
        } else {
            self.selected_index as nat
        }
    }

    /// Whether `after` is this state one step further up the active list.
    pub open spec fn previous_step(&self, after: &App) -> bool {
        &&& *after == (App { selected_index: after.selected_index, ..*self })
        &&& after.selected_index == if self.active_len() > 0 {
            wrap_prev(self.selected_index as nat, self.active_len())
        } else {
            self.selected_index as nat
        }
    }

    /// Whether `after` is this state with the selected project opened: its
    /// detail is the screen, the selection is back at 0, and message and
    /// error are cleared. Where the selection names no project nothing
    /// changes.
    pub open spec fn open_project_step(&self, after: &App) -> bool {
        if self.selected_index < self.projects@.len() {
            &&& self.entered(
                ScreenView::ProjectDetail(self.projects@[self.selected_index as int].id@),
                after,
            )
            &&& after.selected_index == 0
            &&& after.message@ == Seq::<char>::empty()
            &&& after.error is None
        } else {
            *after == *self
        }
    }

    /// Whether `after` is this state with the selected database shown.
    /// Where the selection names no database nothing changes.
    pub open spec fn show_database_step(&self, after: &App) -> bool {
        if self.selected_index < self.databases@.len() {
            *after == (App {
                selected_database: Some(self.databases@[self.selected_index as int]),
                show_db_credentials: true,
                ..*self
            })
        } else {
            *after == *self
        }
    }

    /// Whether `after` is this state after "back".
    ///
    /// The screen is the one that `back_target` names. From the live log the
    /// log buffer is emptied, the scroll offset is 0, message and error are
    /// cleared and the selection is settled for the list that comes up. From
    /// set-up and from the list of projects nothing changes. From every other
    /// screen the selection is 0, message and error are cleared and
    /// credentials are dropped.
    pub open spec fn back_step(&self, after: &App) -> bool {
        &&& after.screen@ == back_target(self.screen@, project_id(self.selected_project))
        &&& match self.screen {
            Screen::Setup | Screen::Projects => *after == *self,
            Screen::DeploymentLogs(_) => {
                &&& self.turned(after)
                &&& after.message@ == Seq::<char>::empty()
                &&& after.error is None
                &&& after.live_logs@ == Seq::<char>::empty()
                &&& after.log_scroll == 0
                &&& after.show_db_credentials == self.show_db_credentials
                &&& after.db_credentials == self.db_credentials
                &&& after.resettled(self.selected_index)
            },
            _ => {
                &&& self.turned(after)
                &&& after.message@ == Seq::<char>::empty()
                &&& after.error is None
                &&& after.live_logs == self.live_logs
                &&& after.log_scroll == self.log_scroll
                &&& after.selected_index == 0
                &&& !after.show_db_credentials
                &&& after.db_credentials is None
            },
        }
    }

    /// Whether `after` is this state once a request for the list of projects
    /// has come back with `outcome`.
    ///
    /// On success the list is replaced, the message counts it and the
    /// selection is settled. On failure the list stays and the error says
    /// why. Either way an earlier error is gone.
    pub open spec fn projects_step(
        &self,
        outcome: Result<Vec<Project>, String>,
        after: &App,
    ) -> bool {
        match outcome {
            Ok(list) => {
                &&& *after == (App {
                    projects: list,
                    message: after.message,
                    error: None,
                    selected_index: after.selected_index,
                    ..*self
                })
                &&& after.message@ == loaded_text(list@.len(), " projects"@)
                &&& after.resettled(self.selected_index)
            },
            Err(reason) => {
                &&& *after == (App { message: after.message, error: after.error, ..*self })
                &&& after.message@ == "Fetching projects..."@
                &&& opt_text(after.error) == Some("Failed to fetch projects: "@ + reason@)
            },
        }
    }

    /// Whether `after` is this state once a request for one project has come
    /// back with `outcome`: on success the project is the selected one and
    /// the message is cleared, on failure the error says why.
    pub open spec fn project_detail_step(
        &self,
        outcome: Result<Project, String>,
        after: &App,
    ) -> bool {
        match outcome {
            Ok(project) => {
                &&& *after == (App {
                    selected_project: Some(project),
                    message: after.message,
                    error: None,
                    ..*self
                })
                &&& after.message@ == Seq::<char>::empty()
            },
            Err(reason) => {
                &&& *after == (App { error: after.error, ..*self })
                &&& opt_text(after.error) == Some("Failed to fetch project: "@ + reason@)
            },
        }
    }

    /// Whether `after` is this state once a request for the recent
    /// deployments has come back with `outcome`.
    pub open spec fn activity_step(
        &self,
        outcome: Result<Vec<Deployment>, String>,
        after: &App,
    ) -> bool {
        match outcome {
            Ok(list) => {
                &&& *after == (App {
                    activity: list,
                    message: after.message,
                    error: None,
                    selected_index: after.selected_index,
                    ..*self
                })
                &&& after.message@ == loaded_text(list@.len(), " deployments"@)
                &&& after.resettled(self.selected_index)
            },
            Err(reason) => {
                &&& *after == (App { message: after.message, error: after.error, ..*self })
                &&& after.message@ == "Fetching activity..."@
                &&& opt_text(after.error) == Some("Failed to fetch activity: "@ + reason@)
            },
        }
    }

    /// Whether `after` is this state once the two requests of the storage
    /// screen have come back: the list of databases and the usage figures.
    ///
    /// Each part that succeeded replaces what was held, each part that
    /// failed leaves it. The error is that of the figures where they
    /// failed, else that of the list where it failed, else none. The message
    /// counts the databases now held where the figures came.
    pub open spec fn storage_step(
        &self,
        databases: Result<Vec<Database>, String>,
        stats: Result<StorageStats, String>,
        after: &App,
    ) -> bool {
        &&& *after == (App {
            databases: after.databases,
            storage_stats: after.storage_stats,
            message: after.message,
            error: after.error,
            selected_index: after.selected_index,
            ..*self
        })
        &&& after.databases == match databases {
            Ok(list) => list,
            Err(_) => self.databases,
        }
        &&& after.storage_stats == match stats {
            Ok(figures) => Some(figures),
            Err(_) => self.storage_stats,
        }
        &&& after.message@ == match stats {
            Ok(_) => loaded_text(after.databases@.len(), " databases"@),
            Err(_) => "Fetching storage data..."@,
        }
        &&& opt_text(after.error) == match (databases, stats) {
            (_, Err(reason)) => Some("Failed to fetch storage stats: "@ + reason@),
            (Err(reason), Ok(_)) => Some("Failed to fetch databases: "@ + reason@),
            (Ok(_), Ok(_)) => None,
        }
        &&& after.resettled(self.selected_index)
    }

    /// The state at start-up, before a session is known: the set-up screen,
    /// nothing loaded, nothing selected.
    pub fn new() -> (app: Self)
        ensures
            app.is_blank(),
            app.screen@ == ScreenView::Setup,
            app.user is None,
            app.message@ == Seq::<char>::empty(),
            app.wf(),
    {
        App {
            screen: Screen::Setup,
            projects: Vec::new(),
            selected_project: None,
            activity: Vec::new(),
            user: None,
            message: String::new(),
            error: None,
            selected_index: 0,
            should_quit: false,
            create_project_state: CreateProjectState::new(),
            live_logs: String::new(),
            log_scroll: 0,
            databases: Vec::new(),
            selected_database: None,
            storage_stats: None,
            create_database_state: CreateDatabaseState::new(),
            show_db_credentials: false,
            db_credentials: None,
        }
    }

    /// The state with which a session begins: the list of projects is the
    /// screen, the user is known and greeted, everything else is as at
    /// start-up.
    pub fn signed_in(user: User) -> (app: Self)
        ensures
            app.begins_session_of(user),
            app.wf(),
    {
        let mut app = App::new();
        let greeting = join("Welcome, ", user.name.as_str());
        app.message = join(greeting.as_str(), "!");
        app.screen = Screen::Projects;
        app.user = Some(user);
        app
    }

    /// The number of items in the list that the active screen shows.
    pub fn active_count(&self) -> (count: usize)
        ensures
            count == self.active_len(),
    {
        match &self.screen {
            Screen::Projects => self.projects.len(),
            Screen::Activity => self.activity.len(),
            Screen::Storage => self.databases.len(),
            _ => 0,
        }
    }

    fn settle_selection(&mut self)
        ensures
            *final(self) == (App { selected_index: final(self).selected_index, ..*old(self) }),
            final(self).resettled(old(self).selected_index),
            final(self).selection_valid(),
    {
        self.selected_index = settle(self.selected_index, self.active_count());
    }

    /// Makes `screen` the active screen, with what follows from the change.
    pub(crate) fn switch_to(&mut self, screen: Screen)
        ensures
            old(self).switch_step(final(self)),
            final(self).screen == screen,
            old(self).wf() ==> final(self).wf(),
    {
        let same_log = match (&self.screen, &screen) {
            (Screen::DeploymentLogs(a), Screen::DeploymentLogs(b)) => *a == *b,
            (Screen::DeploymentLogs(_), _) => false,
            (_, Screen::DeploymentLogs(_)) => false,
            _ => true,
        };
        let was_log = match &self.screen {
            Screen::DeploymentLogs(_) => true,
            _ => false,
        };
        let is_log = match &screen {
            Screen::DeploymentLogs(_) => true,
            _ => false,
        };
        let was_storage = match &self.screen {
            Screen::Storage => true,
            _ => false,
        };
        let is_storage = match &screen {
            Screen::Storage => true,
            _ => false,
        };
        if !same_log {
            self.live_logs = String::new();
        }
        if was_log && !is_log {
            self.log_scroll = 0;
        }
        if was_storage && !is_storage {
            self.show_db_credentials = false;
            self.db_credentials = None;
        }
        self.screen = screen;
        self.error = None;
        self.settle_selection();
    }

    /// Takes in the outcome of a request for the list of projects.
    pub fn fetch_projects(&mut self, outcome: Result<Vec<Project>, String>)
        ensures
            old(self).projects_step(outcome, final(self)),
            old(self).wf() ==> final(self).wf(),
    {
        self.message = "Fetching projects...".to_string();
        self.error = None;
        match outcome {
            Ok(projects) => {
                self.projects = projects;
                self.message = loaded(self.projects.len(), " projects");
                self.settle_selection();
            },
            Err(reason) => {
                self.error = Some(join("Failed to fetch projects: ", reason.as_str()));
            },
        }
    }

    /// Takes in the outcome of a request for one project.
    pub fn fetch_project_detail(&mut self, outcome: Result<Project, String>)
        ensures
            old(self).project_detail_step(outcome, final(self)),
            old(self).wf() ==> final(self).wf(),
    {
        self.error = None;
        match outcome {
            Ok(project) => {
                self.selected_project = Some(project);
                self.message = String::new();
            },
            Err(reason) => {
                self.error = Some(join("Failed to fetch project: ", reason.as_str()));
            },
        }
    }

    /// Takes in the outcome of a request for the recent deployments.
    pub fn fetch_activity(&mut self, outcome: Result<Vec<Deployment>, String>)
        ensures
            old(self).activity_step(outcome, final(self)),
            old(self).wf() ==> final(self).wf(),
    {
        self.message = "Fetching activity...".to_string();
        self.error = None;
        match outcome {
            Ok(activity) => {
                self.activity = activity;
                self.message = loaded(self.activity.len(), " deployments");
                self.settle_selection();
            },
            Err(reason) => {
                self.error = Some(join("Failed to fetch activity: ", reason.as_str()));
            },
        }
    }

    /// Takes in the outcomes of the two requests of the storage screen.
    pub fn fetch_storage_data(
        &mut self,
        databases: Result<Vec<Database>, String>,
        stats: Result<StorageStats, String>,
    )
        ensures
            old(self).storage_step(databases, stats, final(self)),
            old(self).wf() ==> final(self).wf(),
    {
        self.message = "Fetching storage data...".to_string();
        self.error = None;
        match databases {
            Ok(list) => {
                self.databases = list;
            },
            Err(reason) => {
                self.error = Some(join("Failed to fetch databases: ", reason.as_str()));
            },
        }
        match stats {
            Ok(figures) => {
                self.storage_stats = Some(figures);
                self.message = loaded(self.databases.len(), " databases");
            },
            Err(reason) => {
                self.error = Some(join("Failed to fetch storage stats: ", reason.as_str()));
            },
        }
        self.settle_selection();
    }

    /// Moves the selection one item down the active list; past the last item
    /// it returns to the first. With an empty list nothing changes.
    pub fn next(&mut self)
        ensures
            old(self).next_step(final(self)),
            old(self).wf() ==> final(self).wf(),
    {
        let len = self.active_count();
        if len > 0 {
            self.selected_index = step_next(self.selected_index, len);
        }
    }

    /// Moves the selection one item up the active list; before the first
    /// item it goes to the last. With an empty list nothing changes.
    pub fn previous(&mut self)
        ensures
            old(self).previous_step(final(self)),
            old(self).wf() ==> final(self).wf(),
    {
        let len = self.active_count();
        if len > 0 {
            self.selected_index = step_prev(self.selected_index, len);
        }
    }

    /// Opens the detail of the selected project.
    pub fn select_project(&mut self)
        ensures
            old(self).open_project_step(final(self)),
            old(self).wf() ==> final(self).wf(),
    {
        if self.selected_index < self.projects.len() {
            let id = self.projects[self.selected_index].id.clone();
            self.switch_to(Screen::ProjectDetail(id));
            self.selected_index = 0;
            self.message = String::new();
        }
    }

    /// Shows the selected database.
    pub fn select_database(&mut self)
        ensures
            old(self).show_database_step(final(self)),
            old(self).wf() ==> final(self).wf(),
    {
        if self.selected_index < self.databases.len() {
            self.selected_database = Some(self.databases[self.selected_index].clone());
            self.show_db_credentials = true;
        }
    }

    /// Goes back from the active screen.
    pub fn go_back(&mut self)
        ensures
            old(self).back_step(final(self)),
            old(self).wf() ==> final(self).wf(),
    {
        match &self.screen {
            Screen::Setup | Screen::Projects => {},
            Screen::DeploymentLogs(_) => {
                let target = match &self.selected_project {
                    Some(project) => Screen::ProjectDetail(project.id.clone()),
                    None => Screen::Projects,
                };
                self.switch_to(target);
                self.message = String::new();
            },
            _ => {
                self.switch_to(Screen::Projects);
                self.selected_index = 0;
                self.message = String::new();
                self.show_db_credentials = false;
                self.db_credentials = None;
            },
        }
    }
}

} // verus!
