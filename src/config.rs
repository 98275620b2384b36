//! Settings read from `config.json`.
use vstd::prelude::*;

verus! {

/// The kind of cluster that disks are removed from and added back to.
#[derive(Debug, Clone, Copy, PartialEq, Eq, Structural)]
pub enum BackendType {
    Ceph,
}

/// Settings of one host: the cluster kind, where the repair store lives, and
/// how to reach the ticketing system.
#[derive(Debug, Clone, PartialEq, Eq)]
pub struct ConfigSettings {
    pub backend: BackendType,
    pub db_location: String,
    pub jira_user: String,
    pub jira_password: String,
    pub jira_host: String,
    pub jira_issue_type: String,
    pub jira_priority: String,
    pub jira_project_id: String,
    pub jira_ticket_assignee: String,
    pub proxy: Option<String>,
}

} // verus!
