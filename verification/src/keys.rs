//! The key bindings: which action a key stands for on which screen.
//!
//! The table is keyed by the kind of the active screen and the key. Two
//! bindings apply on every screen and come first: `q` and Ctrl-C end the
//! run.

use vstd::prelude::*;
use crate::actions::{Action, Scroll};
use crate::app::App;
use crate::command::Command;
use crate::navigate::Intent;
use crate::screen::{Screen, ScreenView};

verus! {

/// A key of the terminal, as far as the client tells keys apart.
#[derive(Debug, Clone, Copy, PartialEq, Eq, Structural)]
pub enum Key {
    Char(char),
    Enter,
    Esc,
    Tab,
    BackTab,
    Backspace,
    Up,
    Down,
    Home,
    End,
    PageUp,
    PageDown,
    /// Any other key.
    Other,
}

/// Whether the key ends the run wherever it is pressed: `q`, with or without
/// a modifier, and `c` together with the control key.
pub open spec fn quits(key: Key, ctrl: bool) -> bool {
    key == Key::Char('q') || (key == Key::Char('c') && ctrl)
}

/// The action that `key` stands for on `screen`, with the control key held
/// or not.
pub open spec fn binding(screen: ScreenView, key: Key, ctrl: bool) -> Action {
    if quits(key, ctrl) {
        Action::Quit
    } else {
        match screen {
            ScreenView::Setup => Action::Nothing,
            ScreenView::Projects => match key {
                Key::Down | Key::Char('j') => Action::SelectNext,
                Key::Up | Key::Char('k') => Action::SelectPrevious,
                Key::Enter => Action::Go(Intent::OpenProject),
                Key::Char('n') => Action::Go(Intent::NewProject),
                Key::Char('r') => Action::RefreshProjects,
                Key::Char('a') => Action::Go(Intent::Activity),
                Key::Char('d') => Action::Go(Intent::Deployments),
                Key::Char('w') => Action::Go(Intent::Network),
                Key::Char('t') => Action::Go(Intent::Storage),
                Key::Char('h') => Action::Go(Intent::Docs),
                Key::Char('s') => Action::Go(Intent::Settings),
                _ => Action::Nothing,
            },
            ScreenView::CreateProject => match key {
                Key::Esc => Action::Go(Intent::CancelNewProject),
                Key::Tab => Action::FocusNext,
                Key::BackTab => Action::FocusPrevious,
                Key::Enter => Action::Submit,
                Key::Char(c) => Action::Type(c),
                Key::Backspace => Action::Erase,
                _ => Action::Nothing,
            },
            ScreenView::ProjectDetail(_) => match key {
                Key::Backspace => Action::Go(Intent::Back),
                Key::Char('r') => Action::Redeploy,
                Key::Char('s') => Action::StopProject,
                Key::Char('l') => Action::Go(Intent::Logs),
                Key::Char('c') => Action::Go(Intent::ProjectSettings),
                _ => Action::Nothing,
            },
            ScreenView::ProjectSettings(_) => match key {
                Key::Backspace => Action::Go(Intent::Back),
                _ => Action::Nothing,
            },
            ScreenView::Deployments => match key {
                Key::Backspace => Action::Go(Intent::Back),
                Key::Char('r') => Action::RefreshActivity,
                _ => Action::Nothing,
            },
            ScreenView::Network => match key {
                Key::Backspace => Action::Go(Intent::Back),
                Key::Char('r') => Action::RefreshProjects,
                _ => Action::Nothing,
            },
            ScreenView::Storage => match key {
                Key::Backspace | Key::Esc => Action::CloseOrBack,
                Key::Up | Key::Char('k') => Action::SelectPrevious,
                Key::Down | Key::Char('j') => Action::SelectNext,
                Key::Enter => Action::ShowDatabase,
                Key::Char('n') => Action::Go(Intent::NewDatabase),
                Key::Char('d') => Action::DeleteDatabase,
                Key::Char('s') => Action::StopDatabase,
                Key::Char('r') => Action::RestartDatabase,
                _ => Action::Nothing,
            },
            ScreenView::CreateDatabase => match key {
                Key::Esc => Action::Go(Intent::CancelNewDatabase),
                Key::Tab => Action::FocusNext,
                Key::Char(c) => Action::Type(c),
                Key::Backspace => Action::Erase,
                Key::Up => Action::EngineUp,
                Key::Down => Action::EngineDown,
                Key::Enter => Action::Submit,
                _ => Action::Nothing,
            },
            ScreenView::Docs => match key {
                Key::Backspace => Action::Go(Intent::Back),
                _ => Action::Nothing,
            },
            ScreenView::DeploymentLogs(_) => match key {
                Key::Backspace => Action::Go(Intent::Back),
                Key::Down | Key::Char('j') => Action::Scroll(Scroll::LineDown),
                Key::Up | Key::Char('k') => Action::Scroll(Scroll::LineUp),
                Key::Home => Action::Scroll(Scroll::Top),
                Key::End => Action::Scroll(Scroll::Bottom),
                Key::PageDown => Action::Scroll(Scroll::PageDown),
                Key::PageUp => Action::Scroll(Scroll::PageUp),
                _ => Action::Nothing,
            },
            ScreenView::Activity => match key {
                Key::Down => Action::SelectNext,
                Key::Up => Action::SelectPrevious,
                Key::Backspace => Action::Go(Intent::Back),
                Key::Char('r') => Action::RefreshActivity,
                _ => Action::Nothing,
            },
            ScreenView::Settings => match key {
                Key::Backspace => Action::Go(Intent::Back),
                Key::Char('c') | Key::Char('d') => Action::ForgetSession,
                _ => Action::Nothing,
            },
        }
    }
}

/// Looks up the action that `key` stands for on `screen`.
pub fn keymap(screen: &Screen, key: Key, ctrl: bool) -> (action: Action)
    ensures
        action == binding(screen@, key, ctrl),
{
    if key == Key::Char('q') || (key == Key::Char('c') && ctrl) {
        return Action::Quit;
    }
    match screen {
        Screen::Setup => Action::Nothing,
        Screen::Projects => match key {
            Key::Down | Key::Char('j') => Action::SelectNext,
            Key::Up | Key::Char('k') => Action::SelectPrevious,
            Key::Enter => Action::Go(Intent::OpenProject),
            Key::Char('n') => Action::Go(Intent::NewProject),
            Key::Char('r') => Action::RefreshProjects,
            Key::Char('a') => Action::Go(Intent::Activity),
            Key::Char('d') => Action::Go(Intent::Deployments),
            Key::Char('w') => Action::Go(Intent::Network),
            Key::Char('t') => Action::Go(Intent::Storage),
            Key::Char('h') => Action::Go(Intent::Docs),
            Key::Char('s') => Action::Go(Intent::Settings),
            _ => Action::Nothing,
        },
        Screen::CreateProject => match key {
            Key::Esc => Action::Go(Intent::CancelNewProject),
            Key::Tab => Action::FocusNext,
            Key::BackTab => Action::FocusPrevious,
            Key::Enter => Action::Submit,
            Key::Char(c) => Action::Type(c),
            Key::Backspace => Action::Erase,
            _ => Action::Nothing,
        },
        Screen::ProjectDetail(_) => match key {
            Key::Backspace => Action::Go(Intent::Back),
            Key::Char('r') => Action::Redeploy,
            Key::Char('s') => Action::StopProject,
            Key::Char('l') => Action::Go(Intent::Logs),
            Key::Char('c') => Action::Go(Intent::ProjectSettings),
            _ => Action::Nothing,
        },
        Screen::ProjectSettings(_) => match key {
            Key::Backspace => Action::Go(Intent::Back),
            _ => Action::Nothing,
        },
        Screen::Deployments => match key {
            Key::Backspace => Action::Go(Intent::Back),
            Key::Char('r') => Action::RefreshActivity,
            _ => Action::Nothing,
        },
        Screen::Network => match key {
            Key::Backspace => Action::Go(Intent::Back),
            Key::Char('r') => Action::RefreshProjects,
            _ => Action::Nothing,
        },
        Screen::Storage => match key {
            Key::Backspace | Key::Esc => Action::CloseOrBack,
            Key::Up | Key::Char('k') => Action::SelectPrevious,
            Key::Down | Key::Char('j') => Action::SelectNext,
            Key::Enter => Action::ShowDatabase,
            Key::Char('n') => Action::Go(Intent::NewDatabase),
            Key::Char('d') => Action::DeleteDatabase,
            Key::Char('s') => Action::StopDatabase,
            Key::Char('r') => Action::RestartDatabase,
            _ => Action::Nothing,
        },
        Screen::CreateDatabase => match key {
            Key::Esc => Action::Go(Intent::CancelNewDatabase),
            Key::Tab => Action::FocusNext,
            Key::Char(c) => Action::Type(c),
            Key::Backspace => Action::Erase,
            Key::Up => Action::EngineUp,
            Key::Down => Action::EngineDown,
            Key::Enter => Action::Submit,
            _ => Action::Nothing,
        },
        Screen::Docs => match key {
            Key::Backspace => Action::Go(Intent::Back),
            _ => Action::Nothing,
        },
        Screen::DeploymentLogs(_) => match key {
            Key::Backspace => Action::Go(Intent::Back),
            Key::Down | Key::Char('j') => Action::Scroll(Scroll::LineDown),
            Key::Up | Key::Char('k') => Action::Scroll(Scroll::LineUp),
            Key::Home => Action::Scroll(Scroll::Top),
            Key::End => Action::Scroll(Scroll::Bottom),
            Key::PageDown => Action::Scroll(Scroll::PageDown),
            Key::PageUp => Action::Scroll(Scroll::PageUp),
            _ => Action::Nothing,
        },
        Screen::Activity => match key {
            Key::Down => Action::SelectNext,
            Key::Up => Action::SelectPrevious,
            Key::Backspace => Action::Go(Intent::Back),
            Key::Char('r') => Action::RefreshActivity,
            _ => Action::Nothing,
        },
        Screen::Settings => match key {
            Key::Backspace => Action::Go(Intent::Back),
            Key::Char('c') | Key::Char('d') => Action::ForgetSession,
            _ => Action::Nothing,
        },
    }
}

impl App {
    /// Takes in one key: looks up what it stands for on the active screen
    /// and carries that out.
    pub fn handle_key(&mut self, key: Key, ctrl: bool) -> (command: Command)
        ensures
            old(self).perform_step(binding(old(self).screen@, key, ctrl), final(self), command@),
            old(self).wf() ==> final(self).wf(),
    {
        let action = keymap(&self.screen, key, ctrl);
        self.perform(action)
    }
}

} // verus!
