use clickploy::forms::{CreateDatabaseState, CreateProjectState, SetupState};
use tui_input::Input;

#[test]
fn setup_form_opens_with_the_local_address() {
    let form = SetupState::new();
    assert_eq!(form.server_url.value(), "http://localhost:8080");
    assert_eq!(form.server_url.cursor(), 21);
    assert_eq!(form.api_key.value(), "");
    assert_eq!(form.api_key.cursor(), 0);
    assert_eq!(form.focused_field, 0);
    assert!(form.error.is_none());
}

#[test]
fn setup_focus_wraps_in_both_directions() {
    let mut form = SetupState::new();
    form.next_field();
    assert_eq!(form.focused_field, 1);
    form.next_field();
    assert_eq!(form.focused_field, 0);
    form.previous_field();
    assert_eq!(form.focused_field, 1);
    form.previous_field();
    assert_eq!(form.focused_field, 0);
}

#[test]
fn setup_typing_goes_to_the_focused_field() {
    let mut form = SetupState::new();
    form.type_char('/');
    assert_eq!(form.server_url.value(), "http://localhost:8080/");
    assert_eq!(form.api_key.value(), "");
    form.next_field();
    form.type_char('k');
    form.type_char('1');
    assert_eq!(form.api_key.value(), "k1");
    assert_eq!(form.api_key.cursor(), 2);
    assert_eq!(form.server_url.value(), "http://localhost:8080/");
}

#[test]
fn setup_erasing_takes_the_last_character_of_the_focused_field() {
    let mut form = SetupState::new();
    form.erase();
    assert_eq!(form.server_url.value(), "http://localhost:808");
    assert_eq!(form.server_url.cursor(), 20);
    form.next_field();
    form.erase();
    assert_eq!(form.api_key.value(), "");
    assert_eq!(form.api_key.cursor(), 0);
}

#[test]
fn typing_inserts_at_the_cursor() {
    let mut form = SetupState::new();
    form.server_url = Input::new("abd".to_string()).with_cursor(2);
    form.type_char('c');
    assert_eq!(form.server_url.value(), "abcd");
    assert_eq!(form.server_url.cursor(), 3);
}

#[test]
fn erasing_removes_what_precedes_the_cursor() {
    let mut form = SetupState::new();
    form.server_url = Input::new("abcd".to_string()).with_cursor(2);
    form.erase();
    assert_eq!(form.server_url.value(), "acd");
    assert_eq!(form.server_url.cursor(), 1);
    form.erase();
    assert_eq!(form.server_url.value(), "cd");
    assert_eq!(form.server_url.cursor(), 0);
    form.erase();
    assert_eq!(form.server_url.value(), "cd");
    assert_eq!(form.server_url.cursor(), 0);
}

#[test]
fn erasing_removes_a_whole_grapheme_cluster() {
    let mut form = SetupState::new();
    form.server_url = Input::new("ae\u{301}".to_string());
    assert_eq!(form.server_url.cursor(), 3);
    form.erase();
    assert_eq!(form.server_url.value(), "a");
    assert_eq!(form.server_url.cursor(), 1);
}

#[test]
fn project_form_opens_empty() {
    let form = CreateProjectState::new();
    assert_eq!(form.name.value(), "");
    assert_eq!(form.repo_url.value(), "");
    assert_eq!(form.build_command.value(), "");
    assert_eq!(form.start_command.value(), "");
    assert_eq!(form.install_command.value(), "");
    assert_eq!(form.focused_field, 0);
    assert!(form.error.is_none());
}

#[test]
fn project_focus_wraps_modulo_five() {
    let mut form = CreateProjectState::new();
    for expected in [1, 2, 3, 4, 0, 1] {
        form.next_field();
        assert_eq!(form.focused_field, expected);
    }
    let mut form = CreateProjectState::new();
    for expected in [4, 3, 2, 1, 0, 4] {
        form.previous_field();
        assert_eq!(form.focused_field, expected);
    }
}

#[test]
fn project_typing_follows_the_order_of_the_fields() {
    let mut form = CreateProjectState::new();
    for c in ['n', 'r', 'i', 'b', 's'] {
        form.type_char(c);
        form.next_field();
    }
    assert_eq!(form.name.value(), "n");
    assert_eq!(form.repo_url.value(), "r");
    assert_eq!(form.install_command.value(), "i");
    assert_eq!(form.build_command.value(), "b");
    assert_eq!(form.start_command.value(), "s");
    assert_eq!(form.focused_field, 0);
}

#[test]
fn project_erasing_follows_the_focus() {
    let mut form = CreateProjectState::new();
    form.type_char('a');
    form.type_char('b');
    form.next_field();
    form.type_char('c');
    form.erase();
    assert_eq!(form.name.value(), "ab");
    assert_eq!(form.repo_url.value(), "");
    form.previous_field();
    form.erase();
    assert_eq!(form.name.value(), "a");
}

#[test]
fn project_typing_with_a_focus_that_names_no_field_changes_nothing() {
    let mut form = CreateProjectState::new();
    form.focused_field = 9;
    form.type_char('x');
    form.erase();
    assert_eq!(form.name.value(), "");
    assert_eq!(form.start_command.value(), "");
    assert_eq!(form.focused_field, 9);
}

#[test]
fn project_submit_needs_name_and_repository() {
    let mut form = CreateProjectState::new();
    assert!(form.submit().is_none());
    assert_eq!(form.error.as_deref(), Some("Name and Repo URL are required"));

    let mut form = CreateProjectState::new();
    form.name = Input::new("  demo ".to_string());
    form.repo_url = Input::new("   ".to_string());
    assert!(form.submit().is_none());
    assert_eq!(form.error.as_deref(), Some("Name and Repo URL are required"));
    assert_eq!(form.name.value(), "  demo ");
}

#[test]
fn project_submit_builds_the_request() {
    let mut form = CreateProjectState::new();
    form.name = Input::new("  demo ".to_string());
    form.repo_url = Input::new("https://example.org/r.git\n".to_string());
    form.build_command = Input::new(" make ".to_string());
    form.start_command = Input::new("   ".to_string());
    let request = form.submit().expect("a complete form gives a request");
    assert_eq!(request.name, "demo");
    assert_eq!(request.repo, "https://example.org/r.git");
    assert_eq!(request.port, Some(3000));
    assert!(request.git_token.is_none());
    assert!(request.env_vars.is_none());
    assert_eq!(request.build_command.as_deref(), Some("make"));
    assert!(request.start_command.is_none());
    assert!(request.install_command.is_none());
    assert!(request.runtime.is_none());
    assert!(form.error.is_none());
}

#[test]
fn database_form_opens_with_sqlite() {
    let form = CreateDatabaseState::new();
    assert_eq!(form.name, "");
    assert_eq!(form.db_type, "sqlite");
    assert_eq!(form.focused_field, 0);
}

#[test]
fn database_form_reset_puts_everything_back() {
    let mut form = CreateDatabaseState::new();
    form.name = "x".to_string();
    form.db_type = "mongodb".to_string();
    form.focused_field = 1;
    form.reset();
    assert_eq!(form.name, "");
    assert_eq!(form.db_type, "sqlite");
    assert_eq!(form.focused_field, 0);
}

#[test]
fn database_focus_wraps_modulo_two() {
    let mut form = CreateDatabaseState::new();
    form.next_field();
    assert_eq!(form.focused_field, 1);
    form.next_field();
    assert_eq!(form.focused_field, 0);
}

#[test]
fn database_typing_and_erasing_work_on_the_name_only() {
    let mut form = CreateDatabaseState::new();
    form.type_char('a');
    form.type_char('b');
    assert_eq!(form.name, "ab");
    assert!(!form.erase());
    assert_eq!(form.name, "a");
    assert!(!form.erase());
    assert!(!form.erase());
    assert_eq!(form.name, "");
    form.type_char('z');
    form.next_field();
    form.type_char('q');
    assert_eq!(form.name, "z");
    assert!(form.erase());
    assert_eq!(form.name, "z");
    assert_eq!(form.db_type, "sqlite");
}

#[test]
fn database_engine_toggles_only_with_the_focus() {
    let mut form = CreateDatabaseState::new();
    form.engine_up();
    form.engine_down();
    assert_eq!(form.db_type, "sqlite");
    form.next_field();
    form.engine_down();
    assert_eq!(form.db_type, "mongodb");
    form.engine_down();
    assert_eq!(form.db_type, "sqlite");
    form.engine_up();
    assert_eq!(form.db_type, "mongodb");
    form.engine_up();
    assert_eq!(form.db_type, "sqlite");
}

#[test]
fn database_engine_keys_turn_an_unknown_engine_into_a_known_one() {
    let mut form = CreateDatabaseState::new();
    form.focused_field = 1;
    form.db_type = "postgres".to_string();
    form.engine_up();
    assert_eq!(form.db_type, "mongodb");
    form.db_type = "postgres".to_string();
    form.engine_down();
    assert_eq!(form.db_type, "sqlite");
}

#[test]
fn database_request_needs_a_name() {
    let mut form = CreateDatabaseState::new();
    assert!(form.request().is_none());
    form.type_char('d');
    form.db_type = "mongodb".to_string();
    let request = form.request().expect("a named form gives a request");
    assert_eq!(request.name, "d");
    assert_eq!(request.db_type, "mongodb");
}
