//! The records that the remote service returns.

use vstd::prelude::*;

verus! {

/// A project.
#[derive(Debug, PartialEq, Eq)]
pub struct Project {
    pub id: String,
    pub name: String,
    pub description: Option<String>,
    pub summary: Option<String>,
    pub icon: Option<String>,
    pub color: Option<String>,
    pub url: Option<String>,
    pub state: Option<String>,
    pub labels: Vec<ProjectLabel>,
}

/// A label of a project.
#[derive(Debug, PartialEq, Eq)]
pub struct ProjectLabel {
    pub id: String,
    pub name: String,
    pub color: Option<String>,
    pub parent: Option<ParentLabel>,
}

/// The group that a label belongs to.
#[derive(Debug, PartialEq, Eq)]
pub struct ParentLabel {
    pub name: String,
}

/// An issue.
#[derive(Debug, PartialEq, Eq)]
pub struct Issue {
    pub id: String,
    pub identifier: String,
    pub title: String,
    pub description: Option<String>,
    pub priority: Option<i32>,
    pub state: Option<IssueState>,
    pub url: Option<String>,
}

/// The workflow state of an issue.
#[derive(Debug, PartialEq, Eq)]
pub struct IssueState {
    pub name: String,
    pub color: Option<String>,
}

/// A team.
#[derive(Debug, PartialEq, Eq)]
pub struct Team {
    pub id: String,
    pub name: String,
    pub key: String,
}

} // verus!
