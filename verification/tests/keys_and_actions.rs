use clickploy::actions::{scroll_by, Action, Scroll};
use clickploy::app::App;
use clickploy::command::Command;
use clickploy::keys::{keymap, Key};
use clickploy::models::{Database, DatabaseCredentials, Deployment, Project, User};
use clickploy::navigate::Intent;
use clickploy::screen::Screen;
use tui_input::Input;

fn key_user() -> User {
    User {
        id: "u1".to_string(),
        email: "ada@example.org".to_string(),
        name: "Ada".to_string(),
        avatar: String::new(),
        is_admin: false,
        api_key: "k".to_string(),
    }
}

fn key_project(id: &str, deployments: Option<Vec<Deployment>>) -> Project {
    Project {
        id: id.to_string(),
        name: id.to_string(),
        repo_url: String::new(),
        port: 3000,
        owner_id: String::new(),
        webhook_secret: String::new(),
        build_command: String::new(),
        start_command: String::new(),
        install_command: String::new(),
        runtime: String::new(),
        created_at: String::new(),
        updated_at: String::new(),
        deployments,
        env_vars: None,
    }
}

fn key_deployment(id: &str) -> Deployment {
    Deployment {
        id: id.to_string(),
        project_id: "alpha".to_string(),
        status: "live".to_string(),
        commit: "abc".to_string(),
        logs: String::new(),
        url: String::new(),
        created_at: String::new(),
        updated_at: String::new(),
    }
}

fn key_database(id: u32, engine: &str) -> Database {
    Database {
        id,
        created_at: String::new(),
        updated_at: String::new(),
        deleted_at: None,
        name: format!("db{}", id),
        db_type: engine.to_string(),
        status: "running".to_string(),
        owner_id: String::new(),
        size_kb: 1,
        container_id: String::new(),
        port: 1,
    }
}

fn key_app() -> App {
    let mut app = App::signed_in(key_user());
    app.fetch_projects(Ok(vec![
        key_project("alpha", None),
        key_project("beta", None),
        key_project("gamma", None),
    ]));
    app
}

fn storage_app() -> App {
    let mut app = key_app();
    app.screen = Screen::Storage;
    app.databases = vec![key_database(11, "sqlite"), key_database(12, "mongodb")];
    app
}

#[test]
fn q_and_ctrl_c_quit_on_every_screen() {
    let screens = vec![
        Screen::Setup,
        Screen::Projects,
        Screen::CreateProject,
        Screen::CreateDatabase,
        Screen::ProjectDetail("p".to_string()),
        Screen::ProjectSettings("p".to_string()),
        Screen::DeploymentLogs("d".to_string()),
        Screen::Deployments,
        Screen::Activity,
        Screen::Network,
        Screen::Storage,
        Screen::Docs,
        Screen::Settings,
    ];
    for screen in screens {
        assert_eq!(keymap(&screen, Key::Char('q'), false), Action::Quit);
        assert_eq!(keymap(&screen, Key::Char('q'), true), Action::Quit);
        assert_eq!(keymap(&screen, Key::Char('c'), true), Action::Quit);
    }
}

#[test]
fn quit_sets_the_flag() {
    let mut app = key_app();
    assert!(matches!(app.handle_key(Key::Char('q'), false), Command::Quit));
    assert!(app.should_quit);
    assert_eq!(app.screen, Screen::Projects);
}

#[test]
fn bindings_of_the_project_list() {
    let s = Screen::Projects;
    assert_eq!(keymap(&s, Key::Down, false), Action::SelectNext);
    assert_eq!(keymap(&s, Key::Char('j'), false), Action::SelectNext);
    assert_eq!(keymap(&s, Key::Up, false), Action::SelectPrevious);
    assert_eq!(keymap(&s, Key::Char('k'), false), Action::SelectPrevious);
    assert_eq!(keymap(&s, Key::Enter, false), Action::Go(Intent::OpenProject));
    assert_eq!(keymap(&s, Key::Char('n'), false), Action::Go(Intent::NewProject));
    assert_eq!(keymap(&s, Key::Char('r'), false), Action::RefreshProjects);
    assert_eq!(keymap(&s, Key::Char('a'), false), Action::Go(Intent::Activity));
    assert_eq!(keymap(&s, Key::Char('d'), false), Action::Go(Intent::Deployments));
    assert_eq!(keymap(&s, Key::Char('w'), false), Action::Go(Intent::Network));
    assert_eq!(keymap(&s, Key::Char('t'), false), Action::Go(Intent::Storage));
    assert_eq!(keymap(&s, Key::Char('h'), false), Action::Go(Intent::Docs));
    assert_eq!(keymap(&s, Key::Char('s'), false), Action::Go(Intent::Settings));
    assert_eq!(keymap(&s, Key::Char('c'), false), Action::Nothing);
    assert_eq!(keymap(&s, Key::Backspace, false), Action::Nothing);
    assert_eq!(keymap(&s, Key::Other, false), Action::Nothing);
}

#[test]
fn bindings_of_the_project_form() {
    let s = Screen::CreateProject;
    assert_eq!(keymap(&s, Key::Esc, false), Action::Go(Intent::CancelNewProject));
    assert_eq!(keymap(&s, Key::Tab, false), Action::FocusNext);
    assert_eq!(keymap(&s, Key::BackTab, false), Action::FocusPrevious);
    assert_eq!(keymap(&s, Key::Enter, false), Action::Submit);
    assert_eq!(keymap(&s, Key::Char('x'), false), Action::Type('x'));
    assert_eq!(keymap(&s, Key::Char('c'), false), Action::Type('c'));
    assert_eq!(keymap(&s, Key::Backspace, false), Action::Erase);
    assert_eq!(keymap(&s, Key::Up, false), Action::Nothing);
}

#[test]
fn bindings_of_the_project_screens() {
    let s = Screen::ProjectDetail("p".to_string());
    assert_eq!(keymap(&s, Key::Backspace, false), Action::Go(Intent::Back));
    assert_eq!(keymap(&s, Key::Char('r'), false), Action::Redeploy);
    assert_eq!(keymap(&s, Key::Char('s'), false), Action::StopProject);
    assert_eq!(keymap(&s, Key::Char('l'), false), Action::Go(Intent::Logs));
    assert_eq!(keymap(&s, Key::Char('c'), false), Action::Go(Intent::ProjectSettings));
    assert_eq!(keymap(&s, Key::Enter, false), Action::Nothing);
    let s = Screen::ProjectSettings("p".to_string());
    assert_eq!(keymap(&s, Key::Backspace, false), Action::Go(Intent::Back));
    assert_eq!(keymap(&s, Key::Char('r'), false), Action::Nothing);
}

#[test]
fn bindings_of_the_overview_screens() {
    assert_eq!(keymap(&Screen::Deployments, Key::Backspace, false), Action::Go(Intent::Back));
    assert_eq!(keymap(&Screen::Deployments, Key::Char('r'), false), Action::RefreshActivity);
    assert_eq!(keymap(&Screen::Deployments, Key::Down, false), Action::Nothing);
    assert_eq!(keymap(&Screen::Network, Key::Backspace, false), Action::Go(Intent::Back));
    assert_eq!(keymap(&Screen::Network, Key::Char('r'), false), Action::RefreshProjects);
    assert_eq!(keymap(&Screen::Docs, Key::Backspace, false), Action::Go(Intent::Back));
    assert_eq!(keymap(&Screen::Docs, Key::Char('r'), false), Action::Nothing);
    assert_eq!(keymap(&Screen::Activity, Key::Down, false), Action::SelectNext);
    assert_eq!(keymap(&Screen::Activity, Key::Up, false), Action::SelectPrevious);
    assert_eq!(keymap(&Screen::Activity, Key::Char('j'), false), Action::Nothing);
    assert_eq!(keymap(&Screen::Activity, Key::Backspace, false), Action::Go(Intent::Back));
    assert_eq!(keymap(&Screen::Activity, Key::Char('r'), false), Action::RefreshActivity);
    assert_eq!(keymap(&Screen::Settings, Key::Backspace, false), Action::Go(Intent::Back));
    assert_eq!(keymap(&Screen::Settings, Key::Char('c'), false), Action::ForgetSession);
    assert_eq!(keymap(&Screen::Settings, Key::Char('d'), false), Action::ForgetSession);
    assert_eq!(keymap(&Screen::Setup, Key::Enter, false), Action::Nothing);
    assert_eq!(keymap(&Screen::Setup, Key::Backspace, false), Action::Nothing);
}

#[test]
fn bindings_of_the_storage_screens() {
    let s = Screen::Storage;
    assert_eq!(keymap(&s, Key::Backspace, false), Action::CloseOrBack);
    assert_eq!(keymap(&s, Key::Esc, false), Action::CloseOrBack);
    assert_eq!(keymap(&s, Key::Up, false), Action::SelectPrevious);
    assert_eq!(keymap(&s, Key::Char('k'), false), Action::SelectPrevious);
    assert_eq!(keymap(&s, Key::Down, false), Action::SelectNext);
    assert_eq!(keymap(&s, Key::Char('j'), false), Action::SelectNext);
    assert_eq!(keymap(&s, Key::Enter, false), Action::ShowDatabase);
    assert_eq!(keymap(&s, Key::Char('n'), false), Action::Go(Intent::NewDatabase));
    assert_eq!(keymap(&s, Key::Char('d'), false), Action::DeleteDatabase);
    assert_eq!(keymap(&s, Key::Char('s'), false), Action::StopDatabase);
    assert_eq!(keymap(&s, Key::Char('r'), false), Action::RestartDatabase);
    let s = Screen::CreateDatabase;
    assert_eq!(keymap(&s, Key::Esc, false), Action::Go(Intent::CancelNewDatabase));
    assert_eq!(keymap(&s, Key::Tab, false), Action::FocusNext);
    assert_eq!(keymap(&s, Key::BackTab, false), Action::Nothing);
    assert_eq!(keymap(&s, Key::Char('m'), false), Action::Type('m'));
    assert_eq!(keymap(&s, Key::Backspace, false), Action::Erase);
    assert_eq!(keymap(&s, Key::Up, false), Action::EngineUp);
    assert_eq!(keymap(&s, Key::Down, false), Action::EngineDown);
    assert_eq!(keymap(&s, Key::Enter, false), Action::Submit);
}

#[test]
fn bindings_of_the_log_screen() {
    let s = Screen::DeploymentLogs("d".to_string());
    assert_eq!(keymap(&s, Key::Backspace, false), Action::Go(Intent::Back));
    assert_eq!(keymap(&s, Key::Down, false), Action::Scroll(Scroll::LineDown));
    assert_eq!(keymap(&s, Key::Char('j'), false), Action::Scroll(Scroll::LineDown));
    assert_eq!(keymap(&s, Key::Up, false), Action::Scroll(Scroll::LineUp));
    assert_eq!(keymap(&s, Key::Char('k'), false), Action::Scroll(Scroll::LineUp));
    assert_eq!(keymap(&s, Key::Home, false), Action::Scroll(Scroll::Top));
    assert_eq!(keymap(&s, Key::End, false), Action::Scroll(Scroll::Bottom));
    assert_eq!(keymap(&s, Key::PageDown, false), Action::Scroll(Scroll::PageDown));
    assert_eq!(keymap(&s, Key::PageUp, false), Action::Scroll(Scroll::PageUp));
    assert_eq!(keymap(&s, Key::Enter, false), Action::Nothing);
}

#[test]
fn scrolling_stops_at_both_ends() {
    assert_eq!(scroll_by(0, Scroll::LineDown), 1);
    assert_eq!(scroll_by(0, Scroll::LineUp), 0);
    assert_eq!(scroll_by(5, Scroll::LineUp), 4);
    assert_eq!(scroll_by(u16::MAX, Scroll::LineDown), u16::MAX);
    assert_eq!(scroll_by(u16::MAX - 1, Scroll::LineDown), u16::MAX);
    assert_eq!(scroll_by(3, Scroll::PageDown), 13);
    assert_eq!(scroll_by(u16::MAX - 10, Scroll::PageDown), u16::MAX);
    assert_eq!(scroll_by(u16::MAX - 11, Scroll::PageDown), u16::MAX - 1);
    assert_eq!(scroll_by(u16::MAX - 3, Scroll::PageDown), u16::MAX);
    assert_eq!(scroll_by(25, Scroll::PageUp), 15);
    assert_eq!(scroll_by(10, Scroll::PageUp), 0);
    assert_eq!(scroll_by(9, Scroll::PageUp), 0);
    assert_eq!(scroll_by(77, Scroll::Top), 0);
    assert_eq!(scroll_by(77, Scroll::Bottom), u16::MAX);
}

#[test]
fn keys_scroll_the_log() {
    let mut app = key_app();
    app.screen = Screen::DeploymentLogs("d".to_string());
    assert!(matches!(app.handle_key(Key::PageDown, false), Command::Nothing));
    assert_eq!(app.log_scroll, 10);
    app.handle_key(Key::Char('j'), false);
    assert_eq!(app.log_scroll, 11);
    app.handle_key(Key::Up, false);
    assert_eq!(app.log_scroll, 10);
    app.handle_key(Key::End, false);
    assert_eq!(app.log_scroll, u16::MAX);
    app.handle_key(Key::Home, false);
    assert_eq!(app.log_scroll, 0);
}

#[test]
fn backspace_on_the_log_goes_back_and_clears_it() {
    let mut app = key_app();
    app.selected_project = Some(key_project("alpha", None));
    app.screen = Screen::DeploymentLogs("d".to_string());
    app.live_logs = "text".to_string();
    app.log_scroll = 9;
    assert!(matches!(app.handle_key(Key::Backspace, false), Command::Nothing));
    assert_eq!(app.screen, Screen::ProjectDetail("alpha".to_string()));
    assert_eq!(app.live_logs, "");
    assert_eq!(app.log_scroll, 0);
}

#[test]
fn keys_of_the_project_list_move_and_open() {
    let mut app = key_app();
    app.handle_key(Key::Down, false);
    app.handle_key(Key::Char('j'), false);
    assert_eq!(app.selected_index, 2);
    app.handle_key(Key::Down, false);
    assert_eq!(app.selected_index, 0);
    app.handle_key(Key::Char('k'), false);
    assert_eq!(app.selected_index, 2);
    match app.handle_key(Key::Enter, false) {
        Command::GetProject(id) => assert_eq!(id, "gamma"),
        other => panic!("unexpected command {:?}", other),
    }
    assert_eq!(app.screen, Screen::ProjectDetail("gamma".to_string()));
}

#[test]
fn refresh_keys_ask_for_the_lists() {
    let mut app = key_app();
    assert!(matches!(app.handle_key(Key::Char('r'), false), Command::ListProjects));
    app.screen = Screen::Network;
    assert!(matches!(app.handle_key(Key::Char('r'), false), Command::ListProjects));
    app.screen = Screen::Activity;
    assert!(matches!(app.handle_key(Key::Char('r'), false), Command::ListActivity));
    app.screen = Screen::Deployments;
    assert!(matches!(app.handle_key(Key::Char('r'), false), Command::ListActivity));
    assert_eq!(app.message, "Loaded 3 projects");
}

#[test]
fn redeploy_and_stop_announce_and_ask() {
    let mut app = key_app();
    app.screen = Screen::ProjectDetail("beta".to_string());
    match app.handle_key(Key::Char('r'), false) {
        Command::Redeploy(id, request) => {
            assert_eq!(id, "beta");
            assert!(request.commit.is_none());
        }
        other => panic!("unexpected command {:?}", other),
    }
    assert_eq!(app.message, "Redeploying...");
    match app.handle_key(Key::Char('s'), false) {
        Command::StopProject(id) => assert_eq!(id, "beta"),
        other => panic!("unexpected command {:?}", other),
    }
    assert_eq!(app.message, "Stopping project...");
    assert_eq!(app.screen, Screen::ProjectDetail("beta".to_string()));
}

#[test]
fn redeploy_elsewhere_does_nothing() {
    let mut app = key_app();
    assert!(matches!(app.perform(Action::Redeploy), Command::Nothing));
    assert!(matches!(app.perform(Action::StopProject), Command::Nothing));
    assert_eq!(app.message, "Loaded 3 projects");
}

#[test]
fn l_opens_the_log_and_c_the_settings_of_the_project() {
    let mut app = key_app();
    app.screen = Screen::ProjectDetail("alpha".to_string());
    app.selected_project = Some(key_project("alpha", Some(vec![key_deployment("d3")])));
    assert!(matches!(app.handle_key(Key::Char('l'), false), Command::Nothing));
    assert_eq!(app.screen, Screen::DeploymentLogs("d3".to_string()));
    app.screen = Screen::ProjectDetail("alpha".to_string());
    assert!(matches!(app.handle_key(Key::Char('c'), false), Command::Nothing));
    assert_eq!(app.screen, Screen::ProjectSettings("alpha".to_string()));
}

#[test]
fn typing_into_the_project_form() {
    let mut app = key_app();
    app.handle_key(Key::Char('n'), false);
    assert_eq!(app.screen, Screen::CreateProject);
    for c in "demo".chars() {
        app.handle_key(Key::Char(c), false);
    }
    app.handle_key(Key::Tab, false);
    for c in "git".chars() {
        app.handle_key(Key::Char(c), false);
    }
    app.handle_key(Key::Backspace, false);
    assert_eq!(app.create_project_state.name.value(), "demo");
    assert_eq!(app.create_project_state.repo_url.value(), "gi");
    app.handle_key(Key::BackTab, false);
    assert_eq!(app.create_project_state.focused_field, 0);
    app.handle_key(Key::BackTab, false);
    assert_eq!(app.create_project_state.focused_field, 4);
}

#[test]
fn submitting_the_project_form() {
    let mut app = key_app();
    app.handle_key(Key::Char('n'), false);
    assert!(matches!(app.handle_key(Key::Enter, false), Command::Nothing));
    assert_eq!(
        app.create_project_state.error.as_deref(),
        Some("Name and Repo URL are required")
    );
    assert_eq!(app.message, "Loaded 3 projects");
    app.create_project_state.name = Input::new(" demo ".to_string());
    app.create_project_state.repo_url = Input::new("https://example.org/r.git".to_string());
    app.create_project_state.install_command = Input::new("npm ci".to_string());
    match app.handle_key(Key::Enter, false) {
        Command::CreateProject(request) => {
            assert_eq!(request.name, "demo");
            assert_eq!(request.repo, "https://example.org/r.git");
            assert_eq!(request.port, Some(3000));
            assert_eq!(request.install_command.as_deref(), Some("npm ci"));
            assert!(request.build_command.is_none());
        }
        other => panic!("unexpected command {:?}", other),
    }
    assert_eq!(app.message, "Creating project...");
    assert_eq!(app.screen, Screen::CreateProject);
    assert_eq!(app.projects.len(), 3);
}

#[test]
fn escape_leaves_the_project_form() {
    let mut app = key_app();
    app.selected_index = 1;
    app.handle_key(Key::Char('n'), false);
    assert!(matches!(app.handle_key(Key::Esc, false), Command::Nothing));
    assert_eq!(app.screen, Screen::Projects);
    assert_eq!(app.selected_index, 1);
}

#[test]
fn storage_keys_move_the_selection() {
    let mut app = storage_app();
    app.handle_key(Key::Down, false);
    assert_eq!(app.selected_index, 1);
    app.handle_key(Key::Char('j'), false);
    assert_eq!(app.selected_index, 0);
    app.handle_key(Key::Char('k'), false);
    assert_eq!(app.selected_index, 1);
    app.show_db_credentials = true;
    app.handle_key(Key::Up, false);
    app.handle_key(Key::Down, false);
    app.handle_key(Key::Down, false);
    assert_eq!(app.selected_index, 1);
}

#[test]
fn enter_on_a_mongodb_database_asks_for_its_credentials() {
    let mut app = storage_app();
    app.selected_index = 1;
    match app.handle_key(Key::Enter, false) {
        Command::GetCredentials(id) => assert_eq!(id, 12),
        other => panic!("unexpected command {:?}", other),
    }
    assert!(app.show_db_credentials);
    assert_eq!(app.selected_database.as_ref().map(|d| d.id), Some(12));
}

#[test]
fn enter_on_a_sqlite_database_shows_it_without_a_call() {
    let mut app = storage_app();
    assert!(matches!(app.handle_key(Key::Enter, false), Command::Nothing));
    assert!(app.show_db_credentials);
    assert_eq!(app.selected_database.as_ref().map(|d| d.id), Some(11));
}

#[test]
fn enter_does_nothing_without_databases_or_while_one_is_shown() {
    let mut app = key_app();
    app.screen = Screen::Storage;
    assert!(matches!(app.handle_key(Key::Enter, false), Command::Nothing));
    assert!(!app.show_db_credentials);
    let mut app = storage_app();
    app.selected_index = 1;
    app.show_db_credentials = true;
    assert!(matches!(app.handle_key(Key::Enter, false), Command::Nothing));
    assert!(app.selected_database.is_none());
}

#[test]
fn backspace_on_storage_closes_the_credentials_first() {
    let mut app = storage_app();
    app.show_db_credentials = true;
    app.db_credentials = Some(DatabaseCredentials {
        username: "u".to_string(),
        password: "p".to_string(),
        uri: String::new(),
        public_uri: String::new(),
    });
    assert!(matches!(app.handle_key(Key::Backspace, false), Command::Nothing));
    assert_eq!(app.screen, Screen::Storage);
    assert!(!app.show_db_credentials);
    assert!(app.db_credentials.is_none());
    assert!(matches!(app.handle_key(Key::Esc, false), Command::Nothing));
    assert_eq!(app.screen, Screen::Projects);
}

#[test]
fn database_calls_name_the_selected_database() {
    let mut app = storage_app();
    app.selected_index = 1;
    assert!(matches!(app.handle_key(Key::Char('d'), false), Command::DeleteDatabase(12)));
    assert!(matches!(app.handle_key(Key::Char('s'), false), Command::StopDatabase(12)));
    assert!(matches!(app.handle_key(Key::Char('r'), false), Command::RestartDatabase(12)));
    app.selected_index = 0;
    assert!(matches!(app.handle_key(Key::Char('d'), false), Command::DeleteDatabase(11)));
}

#[test]
fn database_calls_wait_while_credentials_are_shown_or_nothing_is_selected() {
    let mut app = storage_app();
    app.show_db_credentials = true;
    assert!(matches!(app.handle_key(Key::Char('d'), false), Command::Nothing));
    assert!(matches!(app.handle_key(Key::Char('s'), false), Command::Nothing));
    assert!(matches!(app.handle_key(Key::Char('r'), false), Command::Nothing));
    let mut app = key_app();
    app.screen = Screen::Storage;
    assert!(matches!(app.handle_key(Key::Char('d'), false), Command::Nothing));
    let mut app = storage_app();
    app.selected_index = 2;
    assert!(matches!(app.handle_key(Key::Char('s'), false), Command::Nothing));
}

#[test]
fn the_database_form_is_filled_and_sent() {
    let mut app = storage_app();
    app.handle_key(Key::Char('n'), false);
    assert_eq!(app.screen, Screen::CreateDatabase);
    assert!(matches!(app.handle_key(Key::Enter, false), Command::Nothing));
    for c in "mainx".chars() {
        app.handle_key(Key::Char(c), false);
    }
    app.handle_key(Key::Backspace, false);
    app.handle_key(Key::Up, false);
    assert_eq!(app.create_database_state.db_type, "sqlite");
    app.handle_key(Key::Tab, false);
    app.handle_key(Key::Char('z'), false);
    app.handle_key(Key::Down, false);
    match app.handle_key(Key::Enter, false) {
        Command::CreateDatabase(request) => {
            assert_eq!(request.name, "main");
            assert_eq!(request.db_type, "mongodb");
        }
        other => panic!("unexpected command {:?}", other),
    }
    assert_eq!(app.screen, Screen::CreateDatabase);
}

#[test]
fn backspace_on_the_engine_leaves_the_database_form() {
    let mut app = storage_app();
    app.selected_index = 1;
    app.handle_key(Key::Char('n'), false);
    app.handle_key(Key::Char('a'), false);
    app.handle_key(Key::Tab, false);
    assert!(matches!(app.handle_key(Key::Backspace, false), Command::Nothing));
    assert_eq!(app.screen, Screen::Storage);
    assert_eq!(app.create_database_state.name, "");
    assert_eq!(app.create_database_state.focused_field, 0);
    assert_eq!(app.selected_index, 1);
}

#[test]
fn escape_leaves_the_database_form() {
    let mut app = storage_app();
    app.handle_key(Key::Char('n'), false);
    app.handle_key(Key::Char('a'), false);
    assert!(matches!(app.handle_key(Key::Esc, false), Command::Nothing));
    assert_eq!(app.screen, Screen::Storage);
    assert_eq!(app.create_database_state.name, "");
}

#[test]
fn forgetting_the_session_ends_the_run() {
    let mut app = key_app();
    app.screen = Screen::Settings;
    assert!(matches!(app.handle_key(Key::Char('d'), false), Command::ForgetSession));
    assert!(app.should_quit);
    let mut app = key_app();
    app.screen = Screen::Settings;
    assert!(matches!(app.handle_key(Key::Char('c'), false), Command::ForgetSession));
    assert!(app.should_quit);
}

#[test]
fn form_actions_do_nothing_away_from_a_form() {
    let mut app = key_app();
    for action in [
        Action::FocusNext,
        Action::FocusPrevious,
        Action::Type('x'),
        Action::Erase,
        Action::Submit,
        Action::EngineUp,
        Action::EngineDown,
        Action::Nothing,
    ] {
        assert!(matches!(app.perform(action), Command::Nothing));
    }
    assert_eq!(app.screen, Screen::Projects);
    assert_eq!(app.create_project_state.name.value(), "");
    assert_eq!(app.create_database_state.name, "");
    assert_eq!(app.create_database_state.db_type, "sqlite");
    assert_eq!(app.create_project_state.focused_field, 0);
    assert_eq!(app.message, "Loaded 3 projects");
}

#[test]
fn keys_without_a_binding_change_nothing() {
    let mut app = key_app();
    app.selected_index = 1;
    assert!(matches!(app.handle_key(Key::Other, false), Command::Nothing));
    assert!(matches!(app.handle_key(Key::Char('x'), false), Command::Nothing));
    assert!(matches!(app.handle_key(Key::Home, false), Command::Nothing));
    assert_eq!(app.screen, Screen::Projects);
    assert_eq!(app.selected_index, 1);
    let mut app = App::new();
    assert!(matches!(app.handle_key(Key::Enter, false), Command::Nothing));
    assert_eq!(app.screen, Screen::Setup);
}
