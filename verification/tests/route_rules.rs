//! The request validation, paging and intersection rules of the
//! protected routes.

use authcore::paging::{normalize_limit, normalize_page, page_offset, total_pages};
use authcore::requests::{
    clamp_due_date, past_dates_enabled, prepare_create_task, validate_create_project,
    validate_create_tag, validate_get_tasks, validate_multiple_tags, validate_update_project,
    validate_update_tag, validate_update_task, CreateProjectRequest, CreateTagRequest,
    CreateTaskRequest, GetTasksQuery, MultipleTagsQuery, UpdateProjectRequest, UpdateTagRequest,
    UpdateTaskRequest,
};
use authcore::tasklinks::{intersect_ids, vec_contains_str};
use authcore::validation::{
    check_title, is_valid_color, is_valid_priority, is_valid_sort_by, is_valid_status,
    validation_message, ValidationError,
};

fn create_task(title: &str) -> CreateTaskRequest {
    CreateTaskRequest {
        title: title.to_string(),
        project_id: None,
        description: None,
        status: None,
        priority: None,
        due_date: None,
    }
}

fn empty_update_task() -> UpdateTaskRequest {
    UpdateTaskRequest {
        title: None,
        project_id: None,
        description: None,
        status: None,
        priority: None,
        due_date: None,
    }
}

#[test]
fn title_rules() {
    assert_eq!(check_title("").unwrap_err(), ValidationError::TitleRequired);
    assert_eq!(check_title("   ").unwrap_err(), ValidationError::TitleRequired);
    assert_eq!(check_title("ab").unwrap_err(), ValidationError::TitleTooShort);
    assert_eq!(check_title("  ab  ").unwrap_err(), ValidationError::TitleTooShort);
    let long = "x".repeat(121);
    assert_eq!(check_title(long.as_str()).unwrap_err(), ValidationError::TitleTooLong);
    let exactly = "x".repeat(120);
    assert!(check_title(exactly.as_str()).is_ok());
    assert!(check_title("abc").is_ok());
    assert!(check_title("  abc  ").is_ok());
    // trimming follows str::trim, Unicode whitespace included
    assert!(check_title("\u{3000}abc\u{3000}").is_ok());
    assert_eq!(
        check_title("\u{2003}ab\u{2003}").unwrap_err(),
        ValidationError::TitleTooShort
    );
}

#[test]
fn status_priority_and_sort_sets() {
    for s in ["todo", "doing", "done"] {
        assert!(is_valid_status(s));
    }
    assert!(!is_valid_status("finished"));
    for p in ["low", "med", "high", "urgent"] {
        assert!(is_valid_priority(p));
    }
    assert!(!is_valid_priority("medium"));
    for k in ["title", "priority", "due_date"] {
        assert!(is_valid_sort_by(k));
    }
    assert!(!is_valid_sort_by("created_at"));
}

#[test]
fn color_must_be_empty_or_hex_like() {
    assert!(is_valid_color(""));
    assert!(is_valid_color("#FF5733"));
    assert!(!is_valid_color("FF5733"));
}

#[test]
fn create_task_defaults_and_errors() {
    let ok = prepare_create_task(&create_task("Write the report"), false, 0).expect("valid");
    assert_eq!(ok.status, "todo");
    assert_eq!(ok.priority, "med");
    assert_eq!(ok.title, "Write the report");

    let mut bad_status = create_task("Write the report");
    bad_status.status = Some("finished".to_string());
    assert_eq!(
        prepare_create_task(&bad_status, false, 0).unwrap_err(),
        ValidationError::InvalidStatus
    );

    let mut bad_priority = create_task("Write the report");
    bad_priority.priority = Some("medium".to_string());
    assert_eq!(
        prepare_create_task(&bad_priority, false, 0).unwrap_err(),
        ValidationError::InvalidPriority
    );

    assert_eq!(
        prepare_create_task(&create_task("  "), false, 0).unwrap_err(),
        ValidationError::TitleRequired
    );

    let mut kept = create_task("Write the report");
    kept.status = Some("doing".to_string());
    kept.priority = Some("urgent".to_string());
    let got = prepare_create_task(&kept, false, 0).expect("valid");
    assert_eq!(got.status, "doing");
    assert_eq!(got.priority, "urgent");
}

#[test]
fn due_dates_are_clamped_unless_past_dates_are_enabled() {
    let now: i64 = 1_000_000;
    assert_eq!(clamp_due_date(Some(now - 50), false, now), Some(now));
    assert_eq!(clamp_due_date(Some(now - 50), true, now), Some(now - 50));
    assert_eq!(clamp_due_date(Some(now + 50), false, now), Some(now + 50));
    assert_eq!(clamp_due_date(None, false, now), None);

    let mut req = create_task("Write the report");
    req.due_date = Some(now - 50);
    let got = prepare_create_task(&req, false, now).expect("valid");
    assert_eq!(got.due_date, Some(now));
}

#[test]
fn past_dates_switch_reads_case_variants_of_true() {
    assert!(past_dates_enabled(Some("true")));
    assert!(past_dates_enabled(Some("TRUE")));
    assert!(past_dates_enabled(Some("True")));
    assert!(!past_dates_enabled(Some("false")));
    assert!(!past_dates_enabled(Some("yes")));
    assert!(!past_dates_enabled(Some("")));
    assert!(!past_dates_enabled(None));
}

#[test]
fn update_task_rules() {
    assert_eq!(
        validate_update_task(&empty_update_task()).unwrap_err(),
        ValidationError::NoFieldsToUpdate
    );
    let mut blank_title = empty_update_task();
    blank_title.title = Some("  ".to_string());
    assert_eq!(
        validate_update_task(&blank_title).unwrap_err(),
        ValidationError::TitleEmpty
    );
    let mut bad_status = empty_update_task();
    bad_status.status = Some("finished".to_string());
    assert_eq!(
        validate_update_task(&bad_status).unwrap_err(),
        ValidationError::InvalidStatus
    );
    let mut fine = empty_update_task();
    fine.description = Some("notes".to_string());
    assert!(validate_update_task(&fine).is_ok());
}

#[test]
fn get_tasks_query_rules() {
    let mut q = GetTasksQuery {
        status: None,
        priority: None,
        project_id: None,
        search: None,
        sort_by: None,
        page: None,
        limit: None,
    };
    assert!(validate_get_tasks(&q).is_ok());
    q.sort_by = Some("created_at".to_string());
    assert_eq!(validate_get_tasks(&q).unwrap_err(), ValidationError::InvalidSortBy);
}

#[test]
fn project_rules() {
    let blank = CreateProjectRequest { name: " ".to_string(), color: None };
    assert_eq!(
        validate_create_project(&blank).unwrap_err(),
        ValidationError::ProjectNameRequired
    );
    let bad_color = CreateProjectRequest {
        name: "Home".to_string(),
        color: Some("red".to_string()),
    };
    assert_eq!(
        validate_create_project(&bad_color).unwrap_err(),
        ValidationError::InvalidColor
    );
    let fine = CreateProjectRequest {
        name: "Home".to_string(),
        color: Some("#00FF00".to_string()),
    };
    assert!(validate_create_project(&fine).is_ok());

    let nothing = UpdateProjectRequest { name: None, color: None };
    assert_eq!(
        validate_update_project(&nothing).unwrap_err(),
        ValidationError::NoFieldsToUpdate
    );
    let blank_name = UpdateProjectRequest { name: Some("  ".to_string()), color: None };
    assert_eq!(
        validate_update_project(&blank_name).unwrap_err(),
        ValidationError::ProjectNameEmpty
    );
}

#[test]
fn tag_rules() {
    let blank = CreateTagRequest {
        normalized_name: "".to_string(),
        display_name: None,
        color: None,
    };
    assert_eq!(validate_create_tag(&blank).unwrap_err(), ValidationError::TagNameRequired);
    let fine = CreateTagRequest {
        normalized_name: "errand".to_string(),
        display_name: Some("Errand".to_string()),
        color: Some("#FF5733".to_string()),
    };
    assert!(validate_create_tag(&fine).is_ok());

    let nothing = UpdateTagRequest { display_name: None, color: None };
    assert_eq!(
        validate_update_tag(&nothing).unwrap_err(),
        ValidationError::NoFieldsToUpdate
    );
    let blank_display = UpdateTagRequest { display_name: Some(" ".to_string()), color: None };
    assert_eq!(
        validate_update_tag(&blank_display).unwrap_err(),
        ValidationError::DisplayNameEmpty
    );
}

#[test]
fn multiple_tags_must_name_at_least_one() {
    let none = MultipleTagsQuery { tags: Vec::new() };
    assert_eq!(
        validate_multiple_tags(&none).unwrap_err(),
        ValidationError::NoTagsProvided
    );
    let one = MultipleTagsQuery { tags: vec!["t".to_string()] };
    assert!(validate_multiple_tags(&one).is_ok());
}

#[test]
fn validation_messages_are_exact() {
    assert_eq!(
        validation_message(&ValidationError::TitleRequired),
        "Title is required"
    );
    assert_eq!(
        validation_message(&ValidationError::InvalidStatus),
        "Invalid status. Must be one of: todo, doing, done"
    );
    assert_eq!(
        validation_message(&ValidationError::InvalidColor),
        "Color must be in HEX format (e.g., #FF5733)"
    );
    assert_eq!(
        validation_message(&ValidationError::NoFieldsToUpdate),
        "At least one field must be provided for update"
    );
}

#[test]
fn paging_normalization() {
    assert_eq!(normalize_page(None), 1);
    assert_eq!(normalize_page(Some(0)), 1);
    assert_eq!(normalize_page(Some(-3)), 1);
    assert_eq!(normalize_page(Some(5)), 5);
    assert_eq!(normalize_limit(None), 10);
    assert_eq!(normalize_limit(Some(0)), 1);
    assert_eq!(normalize_limit(Some(500)), 100);
    assert_eq!(normalize_limit(Some(25)), 25);
}

#[test]
fn paging_arithmetic() {
    assert_eq!(page_offset(1, 10), 0);
    assert_eq!(page_offset(3, 10), 20);
    assert_eq!(total_pages(0, 10), 0);
    assert_eq!(total_pages(1, 10), 1);
    assert_eq!(total_pages(10, 10), 1);
    assert_eq!(total_pages(11, 10), 2);
    assert_eq!(total_pages(101, 10), 11);
}

#[test]
fn intersection_keeps_order_and_drops_missing() {
    let a: Vec<String> = vec![
        "t1".to_string(),
        "t2".to_string(),
        "t3".to_string(),
        "t2".to_string(),
    ];
    let b: Vec<String> = vec!["t2".to_string(), "t3".to_string()];
    let got = intersect_ids(&a, &b);
    let expect: Vec<String> = vec!["t2".to_string(), "t3".to_string(), "t2".to_string()];
    assert_eq!(got, expect);

    let none: Vec<String> = Vec::new();
    assert_eq!(intersect_ids(&a, &none), none);
    assert!(vec_contains_str(&a, "t3"));
    assert!(!vec_contains_str(&a, "t4"));
}
