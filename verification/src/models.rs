//! The records that the remote service hands out and takes in.
//!
//! The library treats them as values: it stores them, copies them and reads
//! the few fields that its decisions rest on.

use vstd::prelude::*;
use std::collections::HashMap;

verus! {

/// The account that the credential belongs to.
#[derive(Debug, Clone)]
pub struct User {
    pub id: String,
    pub email: String,
    pub name: String,
    pub avatar: String,
    pub is_admin: bool,
    pub api_key: String,
}

/// A deployable project. Its deployments are listed most recent first.
#[derive(Debug, Clone)]
pub struct Project {
    pub id: String,
    pub name: String,
    pub repo_url: String,
    pub port: i32,
    pub owner_id: String,
    pub webhook_secret: String,
    pub build_command: String,
    pub start_command: String,
    pub install_command: String,
    pub runtime: String,
    pub created_at: String,
    pub updated_at: String,
    pub deployments: Option<Vec<Deployment>>,
    pub env_vars: Option<Vec<EnvVar>>,
}

/// One build and run of a project.
#[derive(Debug, Clone)]
pub struct Deployment {
    pub id: String,
    pub project_id: String,
    pub status: String,
    pub commit: String,
    pub logs: String,
    pub url: String,
    pub created_at: String,
    pub updated_at: String,
}

/// One environment variable of a project.
#[derive(Debug, Clone)]
pub struct EnvVar {
    pub id: u32,
    pub project_id: String,
    pub key: String,
    pub value: String,
}

/// What the service needs to create a project.
#[derive(Debug)]
pub struct CreateProjectRequest {
    pub name: String,
    pub repo: String,
    pub port: Option<i32>,
    pub git_token: Option<String>,
    pub env_vars: Option<HashMap<String, String>>,
    pub build_command: Option<String>,
    pub start_command: Option<String>,
    pub install_command: Option<String>,
    pub runtime: Option<String>,
}

/// What the service needs to deploy a project again: the commit to build,
/// or none for the latest.
#[derive(Debug)]
pub struct RedeployRequest {
    pub commit: Option<String>,
}

/// A hosted database. Its size is held in whole kilobytes.
#[derive(Debug)]
pub struct Database {
    pub id: u32,
    pub created_at: String,
    pub updated_at: String,
    pub deleted_at: Option<String>,
    pub name: String,
    pub db_type: String,
    pub status: String,
    pub owner_id: String,
    pub size_kb: u64,
    pub container_id: String,
    pub port: i32,
}

impl Clone for Database {
    fn clone(&self) -> (copy: Self)
        ensures
            copy == *self,
    {
        let deleted_at = match &self.deleted_at {
            Some(at) => Some(at.clone()),
            None => None,
        };
        Database {
            id: self.id,
            created_at: self.created_at.clone(),
            updated_at: self.updated_at.clone(),
            deleted_at,
            name: self.name.clone(),
            db_type: self.db_type.clone(),
            status: self.status.clone(),
            owner_id: self.owner_id.clone(),
            size_kb: self.size_kb,
            container_id: self.container_id.clone(),
            port: self.port,
        }
    }
}

/// How much of the storage is in use, in bytes and in whole percent.
#[derive(Debug)]
pub struct StorageStats {
    pub used: u64,
    pub total: u64,
    pub percent: u16,
}

/// The secrets that give access to a database.
#[derive(Debug)]
pub struct DatabaseCredentials {
    pub username: String,
    pub password: String,
    pub uri: String,
    pub public_uri: String,
}

/// What the service needs to create a database.
#[derive(Debug)]
pub struct CreateDatabaseRequest {
    pub name: String,
    pub db_type: String,
}

/// What the service needs to replace the credentials of a database.
#[derive(Debug)]
pub struct UpdateDatabaseCredentialsRequest {
    pub username: String,
    pub password: String,
}

} // verus!
