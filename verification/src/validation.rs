//! The request validation rules of the protected routes: the closed set
//! of validation failures, and the field rules they come from. Every rule
//! is stated over the characters of the field; the messages and the
//! 400 status they are reported under are pinned exactly.

use vstd::prelude::*;
use vstd::string::*;

verus! {

use crate::text::{is_blank, trimmed};

/// Every way a request body can be refused before the domain operation
/// runs. Reported with HTTP status 400 and the matching message.
#[derive(Clone, Copy, Debug, PartialEq, Eq, Structural)]
pub enum ValidationError {
    /// A task must have a title.
    TitleRequired,
    /// A task title must hold at least three characters after trimming.
    TitleTooShort,
    /// A task title must hold no more than 120 characters after trimming.
    TitleTooLong,
    /// An updated task title may not be blank.
    TitleEmpty,
    /// A task status must be `todo`, `doing` or `done`.
    InvalidStatus,
    /// A task priority must be `low`, `med`, `high` or `urgent`.
    InvalidPriority,
    /// Tasks can be sorted by `title`, `priority` or `due_date` only.
    InvalidSortBy,
    /// An update must name at least one field.
    NoFieldsToUpdate,
    /// A project must have a name.
    ProjectNameRequired,
    /// An updated project name may not be blank.
    ProjectNameEmpty,
    /// A tag must have a normalized name.
    TagNameRequired,
    /// An updated tag display name may not be blank.
    DisplayNameEmpty,
    /// A colour must be empty or start with `#`.
    InvalidColor,
    /// A tag query must name at least one tag.
    NoTagsProvided,
}

/// The message each validation failure is reported with.
pub open spec fn spec_validation_message(e: ValidationError) -> Seq<char> {
    match e {
        ValidationError::TitleRequired => "Title is required"@,
        ValidationError::TitleTooShort => "Title must be at least 3 characters long"@,
        ValidationError::TitleTooLong => "Title must be no more than 120 characters long"@,
        ValidationError::TitleEmpty => "Title cannot be empty"@,
        ValidationError::InvalidStatus => "Invalid status. Must be one of: todo, doing, done"@,
        ValidationError::InvalidPriority => "Invalid priority. Must be one of: low, med, high, urgent"@,
        ValidationError::InvalidSortBy => "Invalid sort_by. Must be one of: title, priority, due_date"@,
        ValidationError::NoFieldsToUpdate => "At least one field must be provided for update"@,
        ValidationError::ProjectNameRequired => "Project name is required"@,
        ValidationError::ProjectNameEmpty => "Project name cannot be empty"@,
        ValidationError::TagNameRequired => "Tag normalized name is required"@,
        ValidationError::DisplayNameEmpty => "Display name cannot be empty"@,
        ValidationError::InvalidColor => "Color must be in HEX format (e.g., #FF5733)"@,
        ValidationError::NoTagsProvided => "At least one tag must be provided"@,
    }
}

pub fn validation_message(e: &ValidationError) -> (message: String)
    ensures
        message@ == spec_validation_message(*e),
{
    match e {
        ValidationError::TitleRequired => String::from_str("Title is required"),
        ValidationError::TitleTooShort => String::from_str(
            "Title must be at least 3 characters long",
        ),
        ValidationError::TitleTooLong => String::from_str(
            "Title must be no more than 120 characters long",
        ),
        ValidationError::TitleEmpty => String::from_str("Title cannot be empty"),
        ValidationError::InvalidStatus => String::from_str(
            "Invalid status. Must be one of: todo, doing, done",
        ),
        ValidationError::InvalidPriority => String::from_str(
            "Invalid priority. Must be one of: low, med, high, urgent",
        ),
        ValidationError::InvalidSortBy => String::from_str(
            "Invalid sort_by. Must be one of: title, priority, due_date",
        ),
        ValidationError::NoFieldsToUpdate => String::from_str(
            "At least one field must be provided for update",
        ),
        ValidationError::ProjectNameRequired => String::from_str("Project name is required"),
        ValidationError::ProjectNameEmpty => String::from_str("Project name cannot be empty"),
        ValidationError::TagNameRequired => String::from_str("Tag normalized name is required"),
        ValidationError::DisplayNameEmpty => String::from_str("Display name cannot be empty"),
        ValidationError::InvalidColor => String::from_str(
            "Color must be in HEX format (e.g., #FF5733)",
        ),
        ValidationError::NoTagsProvided => String::from_str("At least one tag must be provided"),
    }
}

/// The statuses a task can have.
pub open spec fn valid_status(s: Seq<char>) -> bool {
    s == "todo"@ || s == "doing"@ || s == "done"@
}

/// The priorities a task can have.
pub open spec fn valid_priority(s: Seq<char>) -> bool {
    s == "low"@ || s == "med"@ || s == "high"@ || s == "urgent"@
}

/// The keys tasks can be sorted by.
pub open spec fn valid_sort_by(s: Seq<char>) -> bool {
    s == "title"@ || s == "priority"@ || s == "due_date"@
}

/// A colour is acceptable when it is empty or starts with `#`.
pub open spec fn valid_color(s: Seq<char>) -> bool {
    s.len() == 0 || s[0] == '#'
}

pub fn is_valid_status(s: &str) -> (r: bool)
    ensures
        r == valid_status(s@),
{
    crate::text::str_eq(s, "todo") || crate::text::str_eq(s, "doing") || crate::text::str_eq(
        s,
        "done",
    )
}

pub fn is_valid_priority(s: &str) -> (r: bool)
    ensures
        r == valid_priority(s@),
{
    crate::text::str_eq(s, "low") || crate::text::str_eq(s, "med") || crate::text::str_eq(
        s,
        "high",
    ) || crate::text::str_eq(s, "urgent")
}

pub fn is_valid_sort_by(s: &str) -> (r: bool)
    ensures
        r == valid_sort_by(s@),
{
    crate::text::str_eq(s, "title") || crate::text::str_eq(s, "priority") || crate::text::str_eq(
        s,
        "due_date",
    )
}

pub fn is_valid_color(s: &str) -> (r: bool)
    ensures
        r == valid_color(s@),
{
    if s.unicode_len() == 0 {
        return true;
    }
    s.get_char(0) == '#'
}

/// The rule a new task title must meet: not blank, and three to 120
/// characters once trimmed.
pub open spec fn spec_title_rule(title: Seq<char>) -> Result<(), ValidationError> {
    if is_blank(title) {
        Err(ValidationError::TitleRequired)
    } else if trimmed(title).len() < 3 {
        Err(ValidationError::TitleTooShort)
    } else if trimmed(title).len() > 120 {
        Err(ValidationError::TitleTooLong)
    } else {
        Ok(())
    }
}

pub fn check_title(title: &str) -> (r: Result<(), ValidationError>)
    ensures
        r == spec_title_rule(title@),
{
    let len = crate::text::trimmed_len(title);
    if len == 0 {
        Err(ValidationError::TitleRequired)
    } else if len < 3 {
        Err(ValidationError::TitleTooShort)
    } else if len > 120 {
        Err(ValidationError::TitleTooLong)
    } else {
        Ok(())
    }
}

} // verus!
