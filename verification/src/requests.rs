//! The request and response bodies of the protected routes, and the
//! whole-request validation each route applies before its domain
//! operation runs. Identifiers are carried as UUID-formatted strings and
//! moments as seconds since the Unix epoch.

use vstd::prelude::*;
use vstd::string::*;

verus! {

use crate::text::{is_blank, str_is_blank};
use crate::validation::{
    ValidationError,
    spec_title_rule,
    check_title,
    valid_status,
    valid_priority,
    valid_sort_by,
    valid_color,
    is_valid_status,
    is_valid_priority,
    is_valid_sort_by,
    is_valid_color,
};

/// A field-for-field copy of an optional string whose value Verus knows.
pub fn clone_opt_string(o: &Option<String>) -> (r: Option<String>)
    ensures
        r == *o,
{
    match o {
        None => None,
        Some(s) => Some(s.clone()),
    }
}

// ---------------------------------------------------------------- tasks

pub struct CreateTaskRequest {
    pub title: String,
    pub project_id: Option<String>,
    pub description: Option<String>,
    pub status: Option<String>,
    pub priority: Option<String>,
    pub due_date: Option<i64>,
}

pub struct CreateTaskResponse {
    pub task_id: String,
    pub message: String,
}

/// The values actually handed to the persistence layer once a creation
/// request passed validation: status and priority defaulted, the due
/// date clamped.
#[derive(Debug)]
pub struct TaskPayload {
    pub title: String,
    pub project_id: Option<String>,
    pub description: Option<String>,
    pub status: String,
    pub priority: String,
    pub due_date: Option<i64>,
}

/// A due date in the past is moved up to now, unless past dates are
/// allowed by configuration.
pub open spec fn spec_clamp_due_date(due: Option<i64>, past_dates_enabled: bool, now: i64) -> Option<
    i64,
> {
    match due {
        None => None,
        Some(d) => if !past_dates_enabled && d < now {
            Some(now)
        } else {
            Some(d)
        },
    }
}

pub fn clamp_due_date(due: Option<i64>, past_dates_enabled: bool, now: i64) -> (r: Option<i64>)
    ensures
        r == spec_clamp_due_date(due, past_dates_enabled, now),
{
    match due {
        None => None,
        Some(d) => if !past_dates_enabled && d < now {
            Some(now)
        } else {
            Some(d)
        },
    }
}

/// Whether the configuration value switches past due dates on: exactly
/// the ASCII case variants of `true`.
pub open spec fn spec_past_dates_enabled(raw: Option<Seq<char>>) -> bool {
    match raw {
        None => false,
        Some(s) => s.len() == 4 && (s[0] == 't' || s[0] == 'T') && (s[1] == 'r' || s[1] == 'R')
            && (s[2] == 'u' || s[2] == 'U') && (s[3] == 'e' || s[3] == 'E'),
    }
}

/// Reads the past-dates switch from its raw configuration value; absent
/// or anything but a case variant of `true` means off.
pub fn past_dates_enabled(raw: Option<&str>) -> (r: bool)
    ensures
        r == spec_past_dates_enabled(crate::headers::opt_str_view(raw)),
{
    match raw {
        None => false,
        Some(s) => {
            if s.unicode_len() != 4 {
                return false;
            }
            let c0 = s.get_char(0);
            let c1 = s.get_char(1);
            let c2 = s.get_char(2);
            let c3 = s.get_char(3);
            (c0 == 't' || c0 == 'T') && (c1 == 'r' || c1 == 'R') && (c2 == 'u' || c2 == 'U') && (
            c3 == 'e' || c3 == 'E')
        },
    }
}

/// Validates and normalizes a task creation request: rejects a bad
/// title, status or priority, defaults an absent status to `todo` and an
/// absent priority to `med`, and clamps the due date.
pub fn prepare_create_task(req: &CreateTaskRequest, past_dates: bool, now: i64) -> (r: Result<
    TaskPayload,
    ValidationError,
>)
    ensures
        (match r {
            Ok(p) => {
                &&& spec_title_rule(req.title@) is Ok
                &&& (req.status matches Some(s) ==> valid_status(s@) && p.status == s)
                &&& (req.status is None ==> p.status@ == "todo"@)
                &&& (req.priority matches Some(s) ==> valid_priority(s@) && p.priority == s)
                &&& (req.priority is None ==> p.priority@ == "med"@)
                &&& p.title == req.title
                &&& p.project_id == req.project_id
                &&& p.description == req.description
                &&& p.due_date == spec_clamp_due_date(req.due_date, past_dates, now)
            },
            Err(e) => {
                &&& (match spec_title_rule(req.title@) {
                    Err(te) => e == te,
                    Ok(_) => {
                        ||| (req.status matches Some(s) && !valid_status(s@) && e
                            == ValidationError::InvalidStatus)
                        ||| ((req.status matches Some(s) ==> valid_status(s@)) && (
                        req.priority matches Some(pr) && !valid_priority(pr@)) && e
                            == ValidationError::InvalidPriority)
                    },
                })
            },
        }),
{
    if let Err(e) = check_title(req.title.as_str()) {
        return Err(e);
    }
    let status: String = match &req.status {
        Some(s) => {
            if !is_valid_status(s.as_str()) {
                return Err(ValidationError::InvalidStatus);
            }
            s.clone()
        },
        None => String::from_str("todo"),
    };
    let priority: String = match &req.priority {
        Some(p) => {
            if !is_valid_priority(p.as_str()) {
                return Err(ValidationError::InvalidPriority);
            }
            p.clone()
        },
        None => String::from_str("med"),
    };
    Ok(TaskPayload {
        title: req.title.clone(),
        project_id: clone_opt_string(&req.project_id),
        description: clone_opt_string(&req.description),
        status,
        priority,
        due_date: clamp_due_date(req.due_date, past_dates, now),
    })
}

pub struct UpdateTaskRequest {
    pub title: Option<String>,
    pub project_id: Option<String>,
    pub description: Option<String>,
    pub status: Option<String>,
    pub priority: Option<String>,
    pub due_date: Option<i64>,
}

pub struct UpdateTaskResponse {
    pub message: String,
    pub updated: bool,
}

pub struct DeleteTaskResponse {
    pub message: String,
    pub deleted: bool,
}

/// What task update accepts: at least one field, a non-blank title if
/// one is given, and status and priority from their sets.
pub open spec fn spec_validate_update_task(req: UpdateTaskRequest) -> Result<
    (),
    ValidationError,
> {
    if req.title is None && req.project_id is None && req.description is None && req.status
        is None && req.priority is None && req.due_date is None {
        Err(ValidationError::NoFieldsToUpdate)
    } else if req.title matches Some(t) && is_blank(t@) {
        Err(ValidationError::TitleEmpty)
    } else if req.status matches Some(s) && !valid_status(s@) {
        Err(ValidationError::InvalidStatus)
    } else if req.priority matches Some(p) && !valid_priority(p@) {
        Err(ValidationError::InvalidPriority)
    } else {
        Ok(())
    }
}

pub fn validate_update_task(req: &UpdateTaskRequest) -> (r: Result<(), ValidationError>)
    ensures
        r == spec_validate_update_task(*req),
{
    if req.title.is_none() && req.project_id.is_none() && req.description.is_none()
        && req.status.is_none() && req.priority.is_none() && req.due_date.is_none() {
        return Err(ValidationError::NoFieldsToUpdate);
    }
    if let Some(t) = &req.title {
        if str_is_blank(t.as_str()) {
            return Err(ValidationError::TitleEmpty);
        }
    }
    if let Some(s) = &req.status {
        if !is_valid_status(s.as_str()) {
            return Err(ValidationError::InvalidStatus);
        }
    }
    if let Some(p) = &req.priority {
        if !is_valid_priority(p.as_str()) {
            return Err(ValidationError::InvalidPriority);
        }
    }
    Ok(())
}

/// The filters and paging of a task listing request.
pub struct GetTasksQuery {
    pub status: Option<String>,
    pub priority: Option<String>,
    pub project_id: Option<String>,
    pub search: Option<String>,
    pub sort_by: Option<String>,
    pub page: Option<i32>,
    pub limit: Option<i32>,
}

/// What the task listing accepts: status, priority and sort key each
/// from its set when given.
pub open spec fn spec_validate_get_tasks(q: GetTasksQuery) -> Result<(), ValidationError> {
    if q.status matches Some(s) && !valid_status(s@) {
        Err(ValidationError::InvalidStatus)
    } else if q.priority matches Some(p) && !valid_priority(p@) {
        Err(ValidationError::InvalidPriority)
    } else if q.sort_by matches Some(k) && !valid_sort_by(k@) {
        Err(ValidationError::InvalidSortBy)
    } else {
        Ok(())
    }
}

pub fn validate_get_tasks(q: &GetTasksQuery) -> (r: Result<(), ValidationError>)
    ensures
        r == spec_validate_get_tasks(*q),
{
    if let Some(s) = &q.status {
        if !is_valid_status(s.as_str()) {
            return Err(ValidationError::InvalidStatus);
        }
    }
    if let Some(p) = &q.priority {
        if !is_valid_priority(p.as_str()) {
            return Err(ValidationError::InvalidPriority);
        }
    }
    if let Some(k) = &q.sort_by {
        if !is_valid_sort_by(k.as_str()) {
            return Err(ValidationError::InvalidSortBy);
        }
    }
    Ok(())
}

// ------------------------------------------------------------- projects

pub struct CreateProjectRequest {
    pub name: String,
    pub color: Option<String>,
}

pub struct CreateProjectResponse {
    pub project_id: String,
    pub message: String,
}

pub struct UpdateProjectRequest {
    pub name: Option<String>,
    pub color: Option<String>,
}

pub struct UpdateProjectResponse {
    pub message: String,
    pub updated: bool,
}

pub struct DeleteProjectResponse {
    pub message: String,
    pub deleted: bool,
}

/// What project creation accepts: a non-blank name and an acceptable
/// colour.
pub open spec fn spec_validate_create_project(req: CreateProjectRequest) -> Result<
    (),
    ValidationError,
> {
    if is_blank(req.name@) {
        Err(ValidationError::ProjectNameRequired)
    } else if req.color matches Some(c) && !valid_color(c@) {
        Err(ValidationError::InvalidColor)
    } else {
        Ok(())
    }
}

pub fn validate_create_project(req: &CreateProjectRequest) -> (r: Result<(), ValidationError>)
    ensures
        r == spec_validate_create_project(*req),
{
    if str_is_blank(req.name.as_str()) {
        return Err(ValidationError::ProjectNameRequired);
    }
    if let Some(c) = &req.color {
        if !is_valid_color(c.as_str()) {
            return Err(ValidationError::InvalidColor);
        }
    }
    Ok(())
}

/// What project update accepts: at least one field, a non-blank name if
/// one is given, and an acceptable colour.
pub open spec fn spec_validate_update_project(req: UpdateProjectRequest) -> Result<
    (),
    ValidationError,
> {
    if req.name is None && req.color is None {
        Err(ValidationError::NoFieldsToUpdate)
    } else if req.name matches Some(n) && is_blank(n@) {
        Err(ValidationError::ProjectNameEmpty)
    } else if req.color matches Some(c) && !valid_color(c@) {
        Err(ValidationError::InvalidColor)
    } else {
        Ok(())
    }
}

pub fn validate_update_project(req: &UpdateProjectRequest) -> (r: Result<(), ValidationError>)
    ensures
        r == spec_validate_update_project(*req),
{
    if req.name.is_none() && req.color.is_none() {
        return Err(ValidationError::NoFieldsToUpdate);
    }
    if let Some(n) = &req.name {
        if str_is_blank(n.as_str()) {
            return Err(ValidationError::ProjectNameEmpty);
        }
    }
    if let Some(c) = &req.color {
        if !is_valid_color(c.as_str()) {
            return Err(ValidationError::InvalidColor);
        }
    }
    Ok(())
}

// ----------------------------------------------------------------- tags

pub struct CreateTagRequest {
    pub normalized_name: String,
    pub display_name: Option<String>,
    pub color: Option<String>,
}

pub struct CreateTagResponse {
    pub tag_id: String,
    pub message: String,
}

pub struct UpdateTagRequest {
    pub display_name: Option<String>,
    pub color: Option<String>,
}

pub struct UpdateTagResponse {
    pub message: String,
    pub updated: bool,
}

pub struct DeleteTagResponse {
    pub message: String,
    pub deleted: bool,
}

/// What tag creation accepts: a non-blank normalized name and an
/// acceptable colour.
pub open spec fn spec_validate_create_tag(req: CreateTagRequest) -> Result<(), ValidationError> {
    if is_blank(req.normalized_name@) {
        Err(ValidationError::TagNameRequired)
    } else if req.color matches Some(c) && !valid_color(c@) {
        Err(ValidationError::InvalidColor)
    } else {
        Ok(())
    }
}

pub fn validate_create_tag(req: &CreateTagRequest) -> (r: Result<(), ValidationError>)
    ensures
        r == spec_validate_create_tag(*req),
{
    if str_is_blank(req.normalized_name.as_str()) {
        return Err(ValidationError::TagNameRequired);
    }
    if let Some(c) = &req.color {
        if !is_valid_color(c.as_str()) {
            return Err(ValidationError::InvalidColor);
        }
    }
    Ok(())
}

/// What tag update accepts: at least one field, a non-blank display name
/// if one is given, and an acceptable colour.
pub open spec fn spec_validate_update_tag(req: UpdateTagRequest) -> Result<(), ValidationError> {
    if req.display_name is None && req.color is None {
        Err(ValidationError::NoFieldsToUpdate)
    } else if req.display_name matches Some(n) && is_blank(n@) {
        Err(ValidationError::DisplayNameEmpty)
    } else if req.color matches Some(c) && !valid_color(c@) {
        Err(ValidationError::InvalidColor)
    } else {
        Ok(())
    }
}

pub fn validate_update_tag(req: &UpdateTagRequest) -> (r: Result<(), ValidationError>)
    ensures
        r == spec_validate_update_tag(*req),
{
    if req.display_name.is_none() && req.color.is_none() {
        return Err(ValidationError::NoFieldsToUpdate);
    }
    if let Some(n) = &req.display_name {
        if str_is_blank(n.as_str()) {
            return Err(ValidationError::DisplayNameEmpty);
        }
    }
    if let Some(c) = &req.color {
        if !is_valid_color(c.as_str()) {
            return Err(ValidationError::InvalidColor);
        }
    }
    Ok(())
}

// ------------------------------------------------------------ task tags

pub struct AddTagToTaskResponse {
    pub message: String,
    pub added: bool,
}

pub struct RemoveTagFromTaskResponse {
    pub message: String,
    pub removed: bool,
}

/// The tag identifiers a multi-tag task query names.
pub struct MultipleTagsQuery {
    pub tags: Vec<String>,
}

pub struct TaskIdsResponse {
    pub task_ids: Vec<String>,
}

/// A multi-tag query must name at least one tag.
pub fn validate_multiple_tags(q: &MultipleTagsQuery) -> (r: Result<(), ValidationError>)
    ensures
        r == Ok::<(), ValidationError>(()) <==> q.tags@.len() > 0,
        r == Err::<(), ValidationError>(ValidationError::NoTagsProvided) <==> q.tags@.len() == 0,
{
    if q.tags.len() == 0 {
        return Err(ValidationError::NoTagsProvided);
    }
    Ok(())
}

} // verus!
