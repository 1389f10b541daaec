//! The requests that the client sends to the remote service.
//!
//! Nothing is sent from here. For each call `ApiClient` describes the
//! request: the method, the address, the credential, what goes in the body,
//! and how each kind of failure is worded. The caller sends the request and
//! reads the answer.

use vstd::prelude::*;
use vstd::string::StringExecFns;
use crate::models::{
    CreateDatabaseRequest, CreateProjectRequest, RedeployRequest,
    UpdateDatabaseCredentialsRequest,
};
use crate::text::{decimal, decimal_text, join, strip_trailing, without_trailing};

verus! {

/// The method of a request.
#[derive(Debug, Clone, Copy, PartialEq, Eq, Structural)]
pub enum Method {
    Get,
    Post,
    Put,
    Delete,
}

/// What a request carries in its body.
#[derive(Debug)]
pub enum Body {
    Empty,
    CreateProject(CreateProjectRequest),
    Redeploy(RedeployRequest),
    CreateDatabase(CreateDatabaseRequest),
    UpdateCredentials(UpdateDatabaseCredentialsRequest),
}

/// What follows the words of a refusal: the status that the service
/// answered with, or the text of its answer.
#[derive(Debug, Clone, Copy, PartialEq, Eq, Structural)]
pub enum Detail {
    Status,
    AnswerText,
}

/// One request, and the words for what can go wrong with it.
#[derive(Debug)]
pub struct Request {
    pub method: Method,
    pub url: String,
    /// The value of the `Authorization` header.
    pub authorization: String,
    pub body: Body,
    /// What to say where the request could not be sent.
    pub unsent: String,
    /// What to say, before the detail, where the service refused.
    pub refused: String,
    pub detail: Detail,
    /// What to say where the answer could not be read; none where the
    /// answer is not read.
    pub unread: Option<String>,
}

/// The words of a request: its method, its path below the address of the
/// server, and the wording of its failures.
pub struct Wording {
    pub method: Method,
    pub path: Seq<char>,
    pub unsent: Seq<char>,
    pub refused: Seq<char>,
    pub detail: Detail,
    pub unread: Option<Seq<char>>,
}

/// The path of a project.
pub open spec fn project_path(id: Seq<char>) -> Seq<char> {
    "/api/projects/"@ + id
}

/// The path of a database.
pub open spec fn database_path(id: u32) -> Seq<char> {
    "/api/storage/databases/"@ + decimal(id as nat)
}

impl Request {
    /// Whether this request goes to the server at `base` with the
    /// credential `key` and is worded as `wording` says.
    pub open spec fn matches_wording(&self, base: Seq<char>, key: Seq<char>, wording: Wording) -> bool {
        &&& self.method == wording.method
        &&& self.url@ == base + wording.path
        &&& self.authorization@ == key
        &&& self.unsent@ == wording.unsent
        &&& self.refused@ == wording.refused
        &&& self.detail == wording.detail
        &&& match self.unread {
            Some(text) => wording.unread == Some(text@),
            None => wording.unread is None,
        }
    }

    /// The message for a refusal: the words for it, a colon, and the status
    /// or the text of the answer, whichever this request asks for.
    pub open spec fn refusal_text(&self, status: Seq<char>, answer: Seq<char>) -> Seq<char> {
        self.refused@ + ": "@ + match self.detail {
            Detail::Status => status,
            Detail::AnswerText => answer,
        }
    }

    /// The message for a refusal, given the status that the service
    /// answered with and the text of its answer.
    pub fn refusal(&self, status: &str, answer: &str) -> (message: String)
        ensures
            message@ == self.refusal_text(status@, answer@),
    {
        let mut message = join(self.refused.as_str(), ": ");
        match self.detail {
            Detail::Status => message.append(status),
            Detail::AnswerText => message.append(answer),
        }
        message
    }
}

/// The address of the server and the credential that requests are made
/// with.
#[derive(Debug)]
pub struct ApiClient {
    base_url: String,
    api_key: String,
}

impl ApiClient {
    /// The address of the server, without a slash at its end.
    pub closed spec fn base(&self) -> Seq<char> {
        self.base_url@
    }

    /// The credential.
    pub closed spec fn key(&self) -> Seq<char> {
        self.api_key@
    }

    /// Whether `request` is the request of this client that is worded as
    /// `wording` says.
    pub open spec fn asks(&self, request: Request, wording: Wording) -> bool {
        request.matches_wording(self.base(), self.key(), wording)
    }

    /// A client for the server at `base_url`; slashes at the end of the
    /// address are dropped.
    pub fn new(base_url: String, api_key: String) -> (client: Self)
        ensures
            client.base() == without_trailing(base_url@, '/'),
            client.key() == api_key@,
    {
        ApiClient {
            base_url: String::from_str(strip_trailing(base_url.as_str(), '/')),
            api_key,
        }
    }

    /// The address of the server, without a slash at its end.
    pub fn base_url(&self) -> (url: &str)
        ensures
            url@ == self.base(),
    {
        self.base_url.as_str()
    }

    fn request(
        &self,
        method: Method,
        path: &str,
        body: Body,
        unsent: &str,
        refused: &str,
        detail: Detail,
        unread: Option<&str>,
    ) -> (request: Request)
        ensures
            self.asks(
                request,
                Wording {
                    method,
                    path: path@,
                    unsent: unsent@,
                    refused: refused@,
                    detail,
                    unread: match unread {
                        Some(text) => Some(text@),
                        None => None,
                    },
                },
            ),
            request.body == body,
    {
        Request {
            method,
            url: join(self.base_url.as_str(), path),
            authorization: self.api_key.clone(),
            body,
            unsent: String::from_str(unsent),
            refused: String::from_str(refused),
            detail,
            unread: match unread {
                Some(text) => Some(String::from_str(text)),
                None => None,
            },
        }
    }

    /// The request that tries the credential: it asks for the user.
    pub fn validate_connection(&self) -> (request: Request)
        ensures
            self.asks(
                request,
                Wording {
                    method: Method::Get,
                    path: "/api/user"@,
                    unsent: "Failed to connect to server"@,
                    refused: "Authentication failed"@,
                    detail: Detail::Status,
                    unread: Some("Failed to parse user response"@),
                },
            ),
            request.body is Empty,
    {
        self.request(
            Method::Get,
            "/api/user",
            Body::Empty,
            "Failed to connect to server",
            "Authentication failed",
            Detail::Status,
            Some("Failed to parse user response"),
        )
    }

    /// The request for the list of projects.
    pub fn list_projects(&self) -> (request: Request)
        ensures
            self.asks(
                request,
                Wording {
                    method: Method::Get,
                    path: "/api/projects"@,
                    unsent: "Failed to fetch projects"@,
                    refused: "Failed to fetch projects"@,
                    detail: Detail::Status,
                    unread: Some("Failed to parse projects response"@),
                },
            ),
            request.body is Empty,
    {
        self.request(
            Method::Get,
            "/api/projects",
            Body::Empty,
            "Failed to fetch projects",
            "Failed to fetch projects",
            Detail::Status,
            Some("Failed to parse projects response"),
        )
    }

    /// The request for the project `id`.
    pub fn get_project(&self, id: &str) -> (request: Request)
        ensures
            self.asks(
                request,
                Wording {
                    method: Method::Get,
                    path: project_path(id@),
                    unsent: "Failed to fetch project"@,
                    refused: "Failed to fetch project"@,
                    detail: Detail::Status,
                    unread: Some("Failed to parse project response"@),
                },
            ),
            request.body is Empty,
    {
        let path = join("/api/projects/", id);
        self.request(
            Method::Get,
            path.as_str(),
            Body::Empty,
            "Failed to fetch project",
            "Failed to fetch project",
            Detail::Status,
            Some("Failed to parse project response"),
        )
    }

    /// The request that creates a project. A refusal is worded with the text
    /// of the answer.
    pub fn create_project(&self, request: CreateProjectRequest) -> (out: Request)
        ensures
            self.asks(
                out,
                Wording {
                    method: Method::Post,
                    path: "/api/projects"@,
                    unsent: "Failed to create project"@,
                    refused: "Failed to create project"@,
                    detail: Detail::AnswerText,
                    unread: Some("Failed to parse project response"@),
                },
            ),
            out.body == Body::CreateProject(request),
    {
        self.request(
            Method::Post,
            "/api/projects",
            Body::CreateProject(request),
            "Failed to create project",
            "Failed to create project",
            Detail::AnswerText,
            Some("Failed to parse project response"),
        )
    }

    /// The request that deploys the project `id` again, at `commit` or at
    /// the latest commit.
    pub fn redeploy_project(&self, id: &str, commit: Option<String>) -> (request: Request)
        ensures
            self.asks(
                request,
                Wording {
                    method: Method::Post,
                    path: project_path(id@) + "/redeploy"@,
                    unsent: "Failed to redeploy project"@,
                    refused: "Failed to redeploy project"@,
                    detail: Detail::Status,
                    unread: Some("Failed to parse redeploy response"@),
                },
            ),
            request.body == Body::Redeploy(RedeployRequest { commit }),
    {
        let project = join("/api/projects/", id);
        let path = join(project.as_str(), "/redeploy");
        self.request(
            Method::Post,
            path.as_str(),
            Body::Redeploy(RedeployRequest { commit }),
            "Failed to redeploy project",
            "Failed to redeploy project",
            Detail::Status,
            Some("Failed to parse redeploy response"),
        )
    }

    /// The request that stops the project `id`.
    pub fn stop_project(&self, id: &str) -> (request: Request)
        ensures
            self.asks(
                request,
                Wording {
                    method: Method::Post,
                    path: project_path(id@) + "/stop"@,
                    unsent: "Failed to stop project"@,
                    refused: "Failed to stop project"@,
                    detail: Detail::Status,
                    unread: Some("Failed to parse stop response"@),
                },
            ),
            request.body is Empty,
    {
        let project = join("/api/projects/", id);
        let path = join(project.as_str(), "/stop");
        self.request(
            Method::Post,
            path.as_str(),
            Body::Empty,
            "Failed to stop project",
            "Failed to stop project",
            Detail::Status,
            Some("Failed to parse stop response"),
        )
    }

    /// The request for the recent deployments.
    pub fn get_activity(&self) -> (request: Request)
        ensures
            self.asks(
                request,
                Wording {
                    method: Method::Get,
                    path: "/api/activity"@,
                    unsent: "Failed to fetch activity"@,
                    refused: "Failed to fetch activity"@,
                    detail: Detail::Status,
                    unread: Some("Failed to parse activity response"@),
                },
            ),
            request.body is Empty,
    {
        self.request(
            Method::Get,
            "/api/activity",
            Body::Empty,
            "Failed to fetch activity",
            "Failed to fetch activity",
            Detail::Status,
            Some("Failed to parse activity response"),
        )
    }

    /// The request for the usage figures of the storage.
    pub fn get_storage_stats(&self) -> (request: Request)
        ensures
            self.asks(
                request,
                Wording {
                    method: Method::Get,
                    path: "/api/storage/stats"@,
                    unsent: "Failed to fetch storage stats"@,
                    refused: "Failed to fetch storage stats"@,
                    detail: Detail::Status,
                    unread: Some("Failed to parse storage stats response"@),
                },
            ),
            request.body is Empty,
    {
        self.request(
            Method::Get,
            "/api/storage/stats",
            Body::Empty,
            "Failed to fetch storage stats",
            "Failed to fetch storage stats",
            Detail::Status,
            Some("Failed to parse storage stats response"),
        )
    }

    /// The request for the list of databases.
    pub fn list_databases(&self) -> (request: Request)
        ensures
            self.asks(
                request,
                Wording {
                    method: Method::Get,
                    path: "/api/storage/databases"@,
                    unsent: "Failed to fetch databases"@,
                    refused: "Failed to fetch databases"@,
                    detail: Detail::Status,
                    unread: Some("Failed to parse databases response"@),
                },
            ),
            request.body is Empty,
    {
        self.request(
            Method::Get,
            "/api/storage/databases",
            Body::Empty,
            "Failed to fetch databases",
            "Failed to fetch databases",
            Detail::Status,
            Some("Failed to parse databases response"),
        )
    }

    /// The request that creates a database with this name and engine. A
    /// refusal is worded with the text of the answer.
    pub fn create_database(&self, name: String, db_type: String) -> (request: Request)
        ensures
            self.asks(
                request,
                Wording {
                    method: Method::Post,
                    path: "/api/storage/databases"@,
                    unsent: "Failed to create database"@,
                    refused: "Failed to create database"@,
                    detail: Detail::AnswerText,
                    unread: Some("Failed to parse create database response"@),
                },
            ),
            request.body == Body::CreateDatabase(CreateDatabaseRequest { name, db_type }),
    {
        self.request(
            Method::Post,
            "/api/storage/databases",
            Body::CreateDatabase(CreateDatabaseRequest { name, db_type }),
            "Failed to create database",
            "Failed to create database",
            Detail::AnswerText,
            Some("Failed to parse create database response"),
        )
    }

    fn database_url_path(id: u32, tail: &str) -> (path: String)
        ensures
            path@ == database_path(id) + tail@,
    {
        let number = decimal_text(id as u64);
        let database = join("/api/storage/databases/", number.as_str());
        join(database.as_str(), tail)
    }

    /// The request that deletes the database `id`.
    pub fn delete_database(&self, id: u32) -> (request: Request)
        ensures
            self.asks(
                request,
                Wording {
                    method: Method::Delete,
                    path: database_path(id),
                    unsent: "Failed to delete database"@,
                    refused: "Failed to delete database"@,
                    detail: Detail::Status,
                    unread: None,
                },
            ),
            request.body is Empty,
    {
        let path = Self::database_url_path(id, "");
        proof {
            reveal_strlit("");
            assert(database_path(id) + ""@ =~= database_path(id));
        }
        self.request(
            Method::Delete,
            path.as_str(),
            Body::Empty,
            "Failed to delete database",
            "Failed to delete database",
            Detail::Status,
            None,
        )
    }

    /// The request for the credentials of the database `id`.
    pub fn get_database_credentials(&self, id: u32) -> (request: Request)
        ensures
            self.asks(
                request,
                Wording {
                    method: Method::Get,
                    path: database_path(id) + "/credentials"@,
                    unsent: "Failed to fetch database credentials"@,
                    refused: "Failed to fetch database credentials"@,
                    detail: Detail::Status,
                    unread: Some("Failed to parse database credentials response"@),
                },
            ),
            request.body is Empty,
    {
        let path = Self::database_url_path(id, "/credentials");
        self.request(
            Method::Get,
            path.as_str(),
            Body::Empty,
            "Failed to fetch database credentials",
            "Failed to fetch database credentials",
            Detail::Status,
            Some("Failed to parse database credentials response"),
        )
    }

    /// The request that replaces the credentials of the database `id`.
    pub fn update_database_credentials(&self, id: u32, username: String, password: String) -> (request:
        Request)
        ensures
            self.asks(
                request,
                Wording {
                    method: Method::Put,
                    path: database_path(id) + "/credentials"@,
                    unsent: "Failed to update database credentials"@,
                    refused: "Failed to update database credentials"@,
                    detail: Detail::Status,
                    unread: None,
                },
            ),
            request.body == Body::UpdateCredentials(
                UpdateDatabaseCredentialsRequest { username, password },
            ),
    {
        let path = Self::database_url_path(id, "/credentials");
        self.request(
            Method::Put,
            path.as_str(),
            Body::UpdateCredentials(UpdateDatabaseCredentialsRequest { username, password }),
            "Failed to update database credentials",
            "Failed to update database credentials",
            Detail::Status,
            None,
        )
    }

    /// The request that stops the database `id`.
    pub fn stop_database(&self, id: u32) -> (request: Request)
        ensures
            self.asks(
                request,
                Wording {
                    method: Method::Post,
                    path: database_path(id) + "/stop"@,
                    unsent: "Failed to stop database"@,
                    refused: "Failed to stop database"@,
                    detail: Detail::Status,
                    unread: None,
                },
            ),
            request.body is Empty,
    {
        let path = Self::database_url_path(id, "/stop");
        self.request(
            Method::Post,
            path.as_str(),
            Body::Empty,
            "Failed to stop database",
            "Failed to stop database",
            Detail::Status,
            None,
        )
    }

    /// The request that restarts the database `id`.
    pub fn restart_database(&self, id: u32) -> (request: Request)
        ensures
            self.asks(
                request,
                Wording {
                    method: Method::Post,
                    path: database_path(id) + "/restart"@,
                    unsent: "Failed to restart database"@,
                    refused: "Failed to restart database"@,
                    detail: Detail::Status,
                    unread: None,
                },
            ),
            request.body is Empty,
    {
        let path = Self::database_url_path(id, "/restart");
        self.request(
            Method::Post,
            path.as_str(),
            Body::Empty,
            "Failed to restart database",
            "Failed to restart database",
            Detail::Status,
            None,
        )
    }
}

} // verus!
