//! Stopwatch orchestration decisions: resolving user-entered names to ids,
//! assembling the start request, and checking the service's answers for
//! the defensive consistency conditions.

use vstd::prelude::*;

use crate::model::{Customer, Project, Service, StatusResponse, StopResponse, TimeEntry};
use crate::numfmt::dec_str;
use crate::numfmt::u64_to_string;
use crate::resource::{find_resource_by_name, first_match};

verus! {

/// Why a start command failed before or at the start request.
#[derive(Clone, Debug, PartialEq, Eq)]
pub enum StartError {
    /// No customer of the given name exists remotely.
    CustomerNotFound(String),
    /// No service of the given name exists remotely.
    ServiceNotFound(String),
    /// No project of the given name exists remotely.
    ProjectNotFound(String),
    /// The start request succeeded but the answer carried no running entry.
    FailedToStart,
}

impl StartError {
    /// The message reported to the user.
    pub open spec fn message_spec(self) -> Seq<char> {
        match self {
            StartError::CustomerNotFound(n) => "Could not find customer "@ + n@,
            StartError::ServiceNotFound(n) => "Could not find service "@ + n@,
            StartError::ProjectNotFound(n) => "Could not find project "@ + n@,
            StartError::FailedToStart => "Failed to start the stopclock (API request was successfull, but no time entry seems to be present)"@,
        }
    }

    pub fn message(&self) -> (r: String)
        ensures
            r@ == self.message_spec(),
    {
        match self {
            StartError::CustomerNotFound(n) => {
                let mut s = String::from_str("Could not find customer ");
                s.append(n.as_str());
                s
            },
            StartError::ServiceNotFound(n) => {
                let mut s = String::from_str("Could not find service ");
                s.append(n.as_str());
                s
            },
            StartError::ProjectNotFound(n) => {
                let mut s = String::from_str("Could not find project ");
                s.append(n.as_str());
                s
            },
            StartError::FailedToStart => String::from_str(
                "Failed to start the stopclock (API request was successfull, but no time entry seems to be present)",
            ),
        }
    }
}

/// Why a stop command failed.
#[derive(Clone, Debug, PartialEq, Eq)]
pub enum StopError {
    /// No entry was running, so there was nothing to stop.
    NotRunning,
    /// The stop request succeeded but the answer carried no stopped entry.
    NotStopped,
}

impl StopError {
    /// The message reported to the user.
    pub open spec fn message_spec(self) -> Seq<char> {
        match self {
            StopError::NotRunning => "The stopclock is not currently running"@,
            StopError::NotStopped => "Couldn't stop the clock (the running time entry doesn't seem to be stopped, even though the API request was successfull)"@,
        }
    }

    pub fn message(&self) -> (r: String)
        ensures
            r@ == self.message_spec(),
    {
        match self {
            StopError::NotRunning => String::from_str("The stopclock is not currently running"),
            StopError::NotStopped => String::from_str(
                "Couldn't stop the clock (the running time entry doesn't seem to be stopped, even though the API request was successfull)",
            ),
        }
    }
}

/// Resolves a customer name against the fetched customer list: the first
/// exact match, or `CustomerNotFound` carrying the searched name when no
/// record matches. Resolution failure precedes, and so prevents, the
/// start request.
pub fn resolve_customer(customers: Vec<Customer>, name: &String) -> (r: Result<
    Customer,
    StartError,
>)
    ensures
        match r {
            Ok(c) => first_match(customers@, name@) == Some(c),
            Err(e) => first_match(customers@, name@) is None && (e matches StartError::CustomerNotFound(n) && n@ == name@),
        },
{
    match find_resource_by_name(customers, name) {
        Some(c) => Ok(c),
        None => Err(StartError::CustomerNotFound(name.clone())),
    }
}

/// Resolves a service name; `ServiceNotFound` carries the searched name.
pub fn resolve_service(services: Vec<Service>, name: &String) -> (r: Result<Service, StartError>)
    ensures
        match r {
            Ok(s) => first_match(services@, name@) == Some(s),
            Err(e) => first_match(services@, name@) is None && (e matches StartError::ServiceNotFound(n) && n@ == name@),
        },
{
    match find_resource_by_name(services, name) {
        Some(s) => Ok(s),
        None => Err(StartError::ServiceNotFound(name.clone())),
    }
}

/// Resolves a project name; `ProjectNotFound` carries the searched name.
pub fn resolve_project(projects: Vec<Project>, name: &String) -> (r: Result<Project, StartError>)
    ensures
        match r {
            Ok(p) => first_match(projects@, name@) == Some(p),
            Err(e) => first_match(projects@, name@) is None && (e matches StartError::ProjectNotFound(n) && n@ == name@),
        },
{
    match find_resource_by_name(projects, name) {
        Some(p) => Ok(p),
        None => Err(StartError::ProjectNotFound(name.clone())),
    }
}

/// One query parameter of the start request.
#[derive(Clone, Debug, PartialEq, Eq)]
pub struct Param {
    pub key: String,
    pub value: String,
}

/// The key/value views of a parameter list.
pub open spec fn param_views(s: Seq<Param>) -> Seq<(Seq<char>, Seq<char>)> {
    s.map_values(|p: Param| (p.key@, p.value@))
}

/// The rendering of a boolean.
pub open spec fn bool_str(b: bool) -> Seq<char> {
    if b {
        "true"@
    } else {
        "false"@
    }
}

fn bool_literal(b: bool) -> (r: &'static str)
    ensures
        r@ == bool_str(b),
{
    if b {
        "true"
    } else {
        "false"
    }
}

/// The query parameters a start request carries: the two resolved ids
/// always, then the billable flag, the resolved project id and the
/// free-text description, each only when given, in this order.
pub open spec fn start_params_spec(
    customers_id: u32,
    services_id: u32,
    billable: Option<bool>,
    projects_id: Option<u32>,
    text: Option<Seq<char>>,
) -> Seq<(Seq<char>, Seq<char>)> {
    let base = seq![
        ("customers_id"@, dec_str(customers_id as nat)),
        ("services_id"@, dec_str(services_id as nat)),
    ];
    let with_billable = match billable {
        Some(b) => base.push(("billable"@, bool_str(b))),
        None => base,
    };
    let with_project = match projects_id {
        Some(p) => with_billable.push(("projects_id"@, dec_str(p as nat))),
        None => with_billable,
    };
    match text {
        Some(t) => with_project.push(("text"@, t)),
        None => with_project,
    }
}

/// The view of an optional borrowed string.
pub open spec fn opt_str_view(o: Option<&String>) -> Option<Seq<char>> {
    match o {
        Some(s) => Some(s@),
        None => None,
    }
}

/// Builds the start request's query parameters from the resolved ids and
/// the optional flag, project and description.
pub fn start_params(
    customers_id: u32,
    services_id: u32,
    billable: Option<bool>,
    projects_id: Option<u32>,
    text: Option<&String>,
) -> (r: Vec<Param>)
    ensures
        param_views(r@) == start_params_spec(
            customers_id,
            services_id,
            billable,
            projects_id,
            opt_str_view(text),
        ),
{
    let mut ps: Vec<Param> = Vec::new();
    ps.push(Param { key: String::from_str("customers_id"), value: u64_to_string(customers_id as u64) });
    ps.push(Param { key: String::from_str("services_id"), value: u64_to_string(services_id as u64) });
    if let Some(b) = billable {
        ps.push(Param { key: String::from_str("billable"), value: String::from_str(bool_literal(b)) });
    }
    if let Some(p) = projects_id {
        ps.push(Param { key: String::from_str("projects_id"), value: u64_to_string(p as u64) });
    }
    if let Some(t) = text {
        ps.push(Param { key: String::from_str("text"), value: t.clone() });
    }
    proof {
        assert(param_views(ps@) =~~= start_params_spec(
            customers_id,
            services_id,
            billable,
            projects_id,
            opt_str_view(text),
        ));
    }
    ps
}

/// The entry a successful start request must carry. An answer without a
/// running entry, despite apparent success, is the defensive
/// `FailedToStart` condition.
pub fn start_response_entry(resp: StatusResponse) -> (r: Result<TimeEntry, StartError>)
    ensures
        match resp.running {
            Some(e) => r == Ok::<TimeEntry, StartError>(e),
            None => r == Err::<TimeEntry, StartError>(StartError::FailedToStart),
        },
{
    match resp.running {
        Some(e) => Ok(e),
        None => Err(StartError::FailedToStart),
    }
}

/// The decision a stop command takes after observing the stopwatch: when
/// nothing is running it fails with `NotRunning` and no delete request is
/// to be issued; otherwise the running entry (whose id the delete request
/// names) is handed on.
pub fn stop_requires_entry(status: StatusResponse) -> (r: Result<TimeEntry, StopError>)
    ensures
        match status.running {
            Some(e) => r == Ok::<TimeEntry, StopError>(e),
            None => r == Err::<TimeEntry, StopError>(StopError::NotRunning),
        },
{
    match status.running {
        Some(e) => Ok(e),
        None => Err(StopError::NotRunning),
    }
}

/// The entry a successful stop request must report as stopped. An answer
/// without one, despite apparent success, is the defensive `NotStopped`
/// condition.
pub fn stop_response_entry(resp: StopResponse) -> (r: Result<TimeEntry, StopError>)
    ensures
        match resp.stopped {
            Some(e) => r == Ok::<TimeEntry, StopError>(e),
            None => r == Err::<TimeEntry, StopError>(StopError::NotStopped),
        },
{
    match resp.stopped {
        Some(e) => Ok(e),
        None => Err(StopError::NotStopped),
    }
}

/// The path of the stopwatch endpoint.
pub fn clock_path() -> (r: &'static str)
    ensures
        r@ == "/api/v2/clock"@,
{
    "/api/v2/clock"
}

/// The path that stops the running entry with the given id.
pub fn stop_path(id: u32) -> (r: String)
    ensures
        r@ == "/api/v2/clock/"@ + dec_str(id as nat),
{
    let mut s = String::from_str("/api/v2/clock/");
    let id_str = u64_to_string(id as u64);
    s.append(id_str.as_str());
    s
}

} // verus!
