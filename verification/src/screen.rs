//! The screens of the client. Exactly one is active at any time.

use vstd::prelude::*;
use vstd::std_specs::cmp::PartialEqSpecImpl;

verus! {

/// The mode that the client is in. Three of the screens show one entity and
/// carry its identifier.
#[derive(Debug)]
pub enum Screen {
    Setup,
    Projects,
    CreateProject,
    CreateDatabase,
    /// The detail of the project with this identifier.
    ProjectDetail(String),
    /// The settings of the project with this identifier.
    ProjectSettings(String),
    /// The live log of the deployment with this identifier.
    DeploymentLogs(String),
    Deployments,
    Activity,
    Network,
    Storage,
    Docs,
    Settings,
}

/// A screen with the identifier it carries read as a sequence of characters.
pub enum ScreenView {
    Setup,
    Projects,
    CreateProject,
    CreateDatabase,
    ProjectDetail(Seq<char>),
    ProjectSettings(Seq<char>),
    DeploymentLogs(Seq<char>),
    Deployments,
    Activity,
    Network,
    Storage,
    Docs,
    Settings,
}

impl View for Screen {
    type V = ScreenView;

    open spec fn view(&self) -> ScreenView {
        match *self {
            Screen::Setup => ScreenView::Setup,
            Screen::Projects => ScreenView::Projects,
            Screen::CreateProject => ScreenView::CreateProject,
            Screen::CreateDatabase => ScreenView::CreateDatabase,
            Screen::ProjectDetail(id) => ScreenView::ProjectDetail(id@),
            Screen::ProjectSettings(id) => ScreenView::ProjectSettings(id@),
            Screen::DeploymentLogs(id) => ScreenView::DeploymentLogs(id@),
            Screen::Deployments => ScreenView::Deployments,
            Screen::Activity => ScreenView::Activity,
            Screen::Network => ScreenView::Network,
            Screen::Storage => ScreenView::Storage,
            Screen::Docs => ScreenView::Docs,
            Screen::Settings => ScreenView::Settings,
        }
    }
}

impl Clone for Screen {
    fn clone(&self) -> (copy: Self)
        ensures
            copy == *self,
    {
        match self {
            Screen::Setup => Screen::Setup,
            Screen::Projects => Screen::Projects,
            Screen::CreateProject => Screen::CreateProject,
            Screen::CreateDatabase => Screen::CreateDatabase,
            Screen::ProjectDetail(id) => Screen::ProjectDetail(id.clone()),
            Screen::ProjectSettings(id) => Screen::ProjectSettings(id.clone()),
            Screen::DeploymentLogs(id) => Screen::DeploymentLogs(id.clone()),
            Screen::Deployments => Screen::Deployments,
            Screen::Activity => Screen::Activity,
            Screen::Network => Screen::Network,
            Screen::Storage => Screen::Storage,
            Screen::Docs => Screen::Docs,
            Screen::Settings => Screen::Settings,
        }
    }
}

impl PartialEq for Screen {
    fn eq(&self, other: &Screen) -> (same: bool) {
        match (self, other) {
            (Screen::Setup, Screen::Setup) => true,
            (Screen::Projects, Screen::Projects) => true,
            (Screen::CreateProject, Screen::CreateProject) => true,
            (Screen::CreateDatabase, Screen::CreateDatabase) => true,
            (Screen::ProjectDetail(a), Screen::ProjectDetail(b)) => *a == *b,
            (Screen::ProjectSettings(a), Screen::ProjectSettings(b)) => *a == *b,
            (Screen::DeploymentLogs(a), Screen::DeploymentLogs(b)) => *a == *b,
            (Screen::Deployments, Screen::Deployments) => true,
            (Screen::Activity, Screen::Activity) => true,
            (Screen::Network, Screen::Network) => true,
            (Screen::Storage, Screen::Storage) => true,
            (Screen::Docs, Screen::Docs) => true,
            (Screen::Settings, Screen::Settings) => true,
            _ => false,
        }
    }
}

impl PartialEqSpecImpl for Screen {
    open spec fn obeys_eq_spec() -> bool {
        true
    }

    open spec fn eq_spec(&self, other: &Screen) -> bool {
        self@ == other@
    }
}

} // verus!
