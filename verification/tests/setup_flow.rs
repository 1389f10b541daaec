use clickploy::app::App;
use clickploy::config::{config_exists, startup, stream_server_url, Config, Startup};
use clickploy::forms::SetupState;
use clickploy::keys::Key;
use clickploy::models::User;
use clickploy::screen::Screen;
use clickploy::setup::{session_page_url, SetupCommand};
use tui_input::Input;

fn ada() -> User {
    User {
        id: "u1".to_string(),
        email: "ada@example.org".to_string(),
        name: "Ada".to_string(),
        avatar: String::new(),
        is_admin: true,
        api_key: "k".to_string(),
    }
}

fn filled(url: &str, key: &str, focus: usize) -> SetupState {
    let mut form = SetupState::new();
    form.server_url = Input::new(url.to_string());
    form.api_key = Input::new(key.to_string());
    form.focused_field = focus;
    form
}

#[test]
fn without_a_session_the_client_begins_on_setup() {
    assert!(!config_exists(Some(false)));
    assert!(!config_exists(None));
    assert!(config_exists(Some(true)));
    assert_eq!(App::new().screen, Screen::Setup);
}

#[test]
fn submitting_an_empty_server_url_is_refused() {
    for focus in [0, 1] {
        let mut form = filled("   ", "key", focus);
        let command = form.handle_key(Key::Enter, false);
        assert!(matches!(command, SetupCommand::Nothing));
        assert_eq!(form.error.as_deref(), Some("Server URL cannot be empty"));
        assert_eq!(form.focused_field, focus);
    }
    let mut form = filled("", "", 1);
    assert!(matches!(form.submit(), SetupCommand::Nothing));
    assert_eq!(form.error.as_deref(), Some("Server URL cannot be empty"));
}

#[test]
fn submitting_an_empty_key_is_refused() {
    let mut form = filled("http://host", "  ", 1);
    let command = form.handle_key(Key::Enter, false);
    assert!(matches!(command, SetupCommand::Nothing));
    assert_eq!(form.error.as_deref(), Some("API key cannot be empty"));
}

#[test]
fn enter_on_the_address_opens_the_key_page_and_moves_on() {
    let mut form = filled(" http://host:8080// ", "", 0);
    match form.handle_key(Key::Enter, false) {
        SetupCommand::OpenBrowser(url) => assert_eq!(url, "http://host:8080/settings/session"),
        other => panic!("unexpected command {:?}", other),
    }
    assert_eq!(form.focused_field, 1);
    assert!(form.error.is_none());
}

#[test]
fn session_page_url_drops_every_trailing_slash() {
    assert_eq!(session_page_url("http://h"), "http://h/settings/session");
    assert_eq!(session_page_url("http://h/"), "http://h/settings/session");
    assert_eq!(session_page_url("http://h///"), "http://h/settings/session");
    assert_eq!(session_page_url("//"), "/settings/session");
}

#[test]
fn a_valid_submission_is_tried_stored_and_leads_to_the_project_list() {
    let mut form = filled(" http://host ", " secret\n", 1);
    let candidate = match form.handle_key(Key::Enter, false) {
        SetupCommand::Validate(config) => config,
        other => panic!("unexpected command {:?}", other),
    };
    assert_eq!(candidate.server_url, "http://host");
    assert_eq!(candidate.api_key, "secret");

    let stored = match form.connection_checked(candidate, Ok(ada())) {
        SetupCommand::Save(config) => config,
        other => panic!("unexpected command {:?}", other),
    };
    assert_eq!(stored.server_url, "http://host");
    assert_eq!(stored.api_key, "secret");
    assert!(matches!(form.config_saved(Ok(())), SetupCommand::Done));
    assert!(form.error.is_none());

    match startup(Ok(ada())) {
        Startup::Run(app) => {
            assert_eq!(app.screen, Screen::Projects);
            assert_eq!(app.message, "Welcome, Ada!");
            assert_eq!(app.user.as_ref().map(|u| u.is_admin), Some(true));
        }
        Startup::Abort { .. } => panic!("an accepted session runs"),
    }
}

#[test]
fn a_refused_session_is_reported_on_the_form() {
    let mut form = filled("http://host", "secret", 1);
    let command = form.connection_checked(
        Config::new("http://host".to_string(), "secret".to_string()),
        Err("Authentication failed: 401 Unauthorized".to_string()),
    );
    assert!(matches!(command, SetupCommand::Nothing));
    assert_eq!(
        form.error.as_deref(),
        Some("Connection failed: Authentication failed: 401 Unauthorized")
    );
}

#[test]
fn a_session_that_cannot_be_stored_is_reported_on_the_form() {
    let mut form = filled("http://host", "secret", 1);
    let command = form.config_saved(Err("disk full".to_string()));
    assert!(matches!(command, SetupCommand::Nothing));
    assert_eq!(form.error.as_deref(), Some("Failed to save config: disk full"));
}

#[test]
fn escape_and_ctrl_c_leave_the_setup() {
    let mut form = SetupState::new();
    assert!(matches!(form.handle_key(Key::Esc, false), SetupCommand::Quit));
    assert!(matches!(form.handle_key(Key::Char('c'), true), SetupCommand::Quit));
    assert_eq!(form.server_url.value(), "http://localhost:8080");
}

#[test]
fn setup_keys_edit_the_form() {
    let mut form = SetupState::new();
    assert!(matches!(form.handle_key(Key::Char('c'), false), SetupCommand::Nothing));
    assert!(matches!(form.handle_key(Key::Char('q'), false), SetupCommand::Nothing));
    assert_eq!(form.server_url.value(), "http://localhost:8080cq");
    assert!(matches!(form.handle_key(Key::Backspace, false), SetupCommand::Nothing));
    assert_eq!(form.server_url.value(), "http://localhost:8080c");
    assert!(matches!(form.handle_key(Key::Tab, false), SetupCommand::Nothing));
    assert_eq!(form.focused_field, 1);
    assert!(matches!(form.handle_key(Key::Char('k'), false), SetupCommand::Nothing));
    assert_eq!(form.api_key.value(), "k");
    assert!(matches!(form.handle_key(Key::BackTab, false), SetupCommand::Nothing));
    assert_eq!(form.focused_field, 0);
    assert!(matches!(form.handle_key(Key::Up, false), SetupCommand::Nothing));
    assert!(matches!(form.handle_key(Key::Other, true), SetupCommand::Nothing));
    assert_eq!(form.server_url.value(), "http://localhost:8080c");
}

#[test]
fn a_session_that_is_not_accepted_at_startup_aborts_the_run() {
    match startup(Err("Authentication failed: 401 Unauthorized".to_string())) {
        Startup::Abort { report, advice, exit_code } => {
            assert_eq!(
                report,
                "Failed to connect to server: Authentication failed: 401 Unauthorized"
            );
            assert_eq!(advice, "Please reconfigure by running the setup again.");
            assert_eq!(exit_code, 1);
        }
        Startup::Run(_) => panic!("a refused session does not run"),
    }
}

#[test]
fn config_new_keeps_both_values() {
    let config = Config::new("http://host/".to_string(), "key".to_string());
    assert_eq!(config.server_url, "http://host/");
    assert_eq!(config.api_key, "key");
    let copy = config.clone();
    assert_eq!(copy.server_url, "http://host/");
    assert_eq!(copy.api_key, "key");
}

#[test]
fn the_stream_goes_to_the_stored_server_or_to_the_default() {
    let config = Config::new("https://deploy.example.org".to_string(), "key".to_string());
    assert_eq!(stream_server_url(Some(config)), "https://deploy.example.org");
    assert_eq!(stream_server_url(None), "http://localhost:8080");
}
