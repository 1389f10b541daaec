use clickploy::api::{ApiClient, Body, Detail, Method, Request};
use clickploy::models::CreateProjectRequest;

fn client() -> ApiClient {
    ApiClient::new("http://host:8080/".to_string(), "key-1".to_string())
}

fn check(
    request: &Request,
    method: Method,
    url: &str,
    unsent: &str,
    refused: &str,
    detail: Detail,
    unread: Option<&str>,
) {
    assert_eq!(request.method, method);
    assert_eq!(request.url, url);
    assert_eq!(request.authorization, "key-1");
    assert_eq!(request.unsent, unsent);
    assert_eq!(request.refused, refused);
    assert_eq!(request.detail, detail);
    assert_eq!(request.unread.as_deref(), unread);
}

#[test]
fn the_client_drops_slashes_at_the_end_of_the_address() {
    assert_eq!(client().base_url(), "http://host:8080");
    let other = ApiClient::new("http://host///".to_string(), "k".to_string());
    assert_eq!(other.base_url(), "http://host");
    let plain = ApiClient::new("http://host".to_string(), "k".to_string());
    assert_eq!(plain.base_url(), "http://host");
}

#[test]
fn request_validate_connection() {
    let r = client().validate_connection();
    check(
        &r,
        Method::Get,
        "http://host:8080/api/user",
        "Failed to connect to server",
        "Authentication failed",
        Detail::Status,
        Some("Failed to parse user response"),
    );
    assert!(matches!(r.body, Body::Empty));
    assert_eq!(r.refusal("401 Unauthorized", "no"), "Authentication failed: 401 Unauthorized");
}

#[test]
fn request_list_projects() {
    let r = client().list_projects();
    check(
        &r,
        Method::Get,
        "http://host:8080/api/projects",
        "Failed to fetch projects",
        "Failed to fetch projects",
        Detail::Status,
        Some("Failed to parse projects response"),
    );
    assert!(matches!(r.body, Body::Empty));
    assert_eq!(r.refusal("500 Internal Server Error", ""), "Failed to fetch projects: 500 Internal Server Error");
}

#[test]
fn request_get_project() {
    let r = client().get_project("p-7");
    check(
        &r,
        Method::Get,
        "http://host:8080/api/projects/p-7",
        "Failed to fetch project",
        "Failed to fetch project",
        Detail::Status,
        Some("Failed to parse project response"),
    );
    assert!(matches!(r.body, Body::Empty));
}

#[test]
fn request_create_project() {
    let r = client().create_project(CreateProjectRequest {
        name: "demo".to_string(),
        repo: "https://example.org/r.git".to_string(),
        port: Some(3000),
        git_token: None,
        env_vars: None,
        build_command: None,
        start_command: Some("run".to_string()),
        install_command: None,
        runtime: None,
    });
    check(
        &r,
        Method::Post,
        "http://host:8080/api/projects",
        "Failed to create project",
        "Failed to create project",
        Detail::AnswerText,
        Some("Failed to parse project response"),
    );
    match &r.body {
        Body::CreateProject(body) => {
            assert_eq!(body.name, "demo");
            assert_eq!(body.start_command.as_deref(), Some("run"));
        }
        other => panic!("unexpected body {:?}", other),
    }
    assert_eq!(r.refusal("409 Conflict", "name taken"), "Failed to create project: name taken");
}

#[test]
fn request_redeploy_project() {
    let r = client().redeploy_project("alpha", Some("abc".to_string()));
    check(
        &r,
        Method::Post,
        "http://host:8080/api/projects/alpha/redeploy",
        "Failed to redeploy project",
        "Failed to redeploy project",
        Detail::Status,
        Some("Failed to parse redeploy response"),
    );
    match &r.body {
        Body::Redeploy(body) => assert_eq!(body.commit.as_deref(), Some("abc")),
        other => panic!("unexpected body {:?}", other),
    }
    let r = client().redeploy_project("alpha", None);
    match &r.body {
        Body::Redeploy(body) => assert!(body.commit.is_none()),
        other => panic!("unexpected body {:?}", other),
    }
}

#[test]
fn request_stop_project() {
    let r = client().stop_project("alpha");
    check(
        &r,
        Method::Post,
        "http://host:8080/api/projects/alpha/stop",
        "Failed to stop project",
        "Failed to stop project",
        Detail::Status,
        Some("Failed to parse stop response"),
    );
    assert!(matches!(r.body, Body::Empty));
}

#[test]
fn request_get_activity() {
    let r = client().get_activity();
    check(
        &r,
        Method::Get,
        "http://host:8080/api/activity",
        "Failed to fetch activity",
        "Failed to fetch activity",
        Detail::Status,
        Some("Failed to parse activity response"),
    );
}

#[test]
fn request_get_storage_stats() {
    let r = client().get_storage_stats();
    check(
        &r,
        Method::Get,
        "http://host:8080/api/storage/stats",
        "Failed to fetch storage stats",
        "Failed to fetch storage stats",
        Detail::Status,
        Some("Failed to parse storage stats response"),
    );
}

#[test]
fn request_list_databases() {
    let r = client().list_databases();
    check(
        &r,
        Method::Get,
        "http://host:8080/api/storage/databases",
        "Failed to fetch databases",
        "Failed to fetch databases",
        Detail::Status,
        Some("Failed to parse databases response"),
    );
}

#[test]
fn request_create_database() {
    let r = client().create_database("main".to_string(), "mongodb".to_string());
    check(
        &r,
        Method::Post,
        "http://host:8080/api/storage/databases",
        "Failed to create database",
        "Failed to create database",
        Detail::AnswerText,
        Some("Failed to parse create database response"),
    );
    match &r.body {
        Body::CreateDatabase(body) => {
            assert_eq!(body.name, "main");
            assert_eq!(body.db_type, "mongodb");
        }
        other => panic!("unexpected body {:?}", other),
    }
    assert_eq!(r.refusal("400 Bad Request", "bad name"), "Failed to create database: bad name");
}

#[test]
fn request_delete_database() {
    let r = client().delete_database(42);
    check(
        &r,
        Method::Delete,
        "http://host:8080/api/storage/databases/42",
        "Failed to delete database",
        "Failed to delete database",
        Detail::Status,
        None,
    );
    assert!(matches!(r.body, Body::Empty));
    let r = client().delete_database(0);
    assert_eq!(r.url, "http://host:8080/api/storage/databases/0");
    let r = client().delete_database(u32::MAX);
    assert_eq!(r.url, "http://host:8080/api/storage/databases/4294967295");
}

#[test]
fn request_get_database_credentials() {
    let r = client().get_database_credentials(7);
    check(
        &r,
        Method::Get,
        "http://host:8080/api/storage/databases/7/credentials",
        "Failed to fetch database credentials",
        "Failed to fetch database credentials",
        Detail::Status,
        Some("Failed to parse database credentials response"),
    );
}

#[test]
fn request_update_database_credentials() {
    let r = client().update_database_credentials(7, "root".to_string(), "pw".to_string());
    check(
        &r,
        Method::Put,
        "http://host:8080/api/storage/databases/7/credentials",
        "Failed to update database credentials",
        "Failed to update database credentials",
        Detail::Status,
        None,
    );
    match &r.body {
        Body::UpdateCredentials(body) => {
            assert_eq!(body.username, "root");
            assert_eq!(body.password, "pw");
        }
        other => panic!("unexpected body {:?}", other),
    }
}

#[test]
fn request_stop_and_restart_database() {
    let r = client().stop_database(105);
    check(
        &r,
        Method::Post,
        "http://host:8080/api/storage/databases/105/stop",
        "Failed to stop database",
        "Failed to stop database",
        Detail::Status,
        None,
    );
    let r = client().restart_database(105);
    check(
        &r,
        Method::Post,
        "http://host:8080/api/storage/databases/105/restart",
        "Failed to restart database",
        "Failed to restart database",
        Detail::Status,
        None,
    );
    assert_eq!(r.refusal("404 Not Found", "gone"), "Failed to restart database: 404 Not Found");
}
