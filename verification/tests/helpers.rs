use todo_core::compile::ColumnId;
use todo_core::database::construct_db_uri;
use todo_core::errors::Error;
use todo_core::query::{FilterOps, SortOrder};
use todo_core::results::RowsAffected;
use todo_core::task::{apply_update, TaskData, TaskIdentifier, TaskUpdate};
use todo_core::mongo;
use todo_core::text::{str_eq, str_matches_lower};
use todo_core::validate::ValidationError;

#[test]
fn db_uri_is_assembled_in_order() {
    let uri = construct_db_uri("mongodb", "user", "pw", "localhost", "27017");
    assert_eq!(uri.as_str(), "mongodb://user:pw@localhost:27017");
}

#[test]
fn sort_order_names() {
    assert_eq!(SortOrder::Asc.as_str(), "SortOrder::Asc");
    assert_eq!(SortOrder::Desc.as_str(), "SortOrder::Desc");
}

#[test]
fn filter_op_names() {
    assert_eq!(FilterOps::Gte.as_str(), "FilterOps::Gte");
    assert_eq!(FilterOps::Lte.as_str(), "FilterOps::Lte");
}

#[test]
fn mongo_filter_op_names() {
    assert_eq!(mongo::FilterOps::Gte.as_str(), "$gte");
    assert_eq!(mongo::FilterOps::Lte.as_str(), "$lte");
}

#[test]
fn column_names() {
    assert_eq!(ColumnId::Title.as_str(), "title");
    assert_eq!(ColumnId::CreatedAt.as_str(), "created_at");
    assert_eq!(ColumnId::Deadline.as_str(), "deadline");
}

#[test]
fn update_overrides_present_fields() {
    let current = TaskData {
        title: "write report".to_string(),
        completed: false,
        deadline: Some(1000),
    };
    let update = TaskUpdate {
        title: Some("file report".to_string()),
        completed: Some(true),
        deadline: None,
    };
    let merged = apply_update(&current, &update);
    assert_eq!(merged.title.as_str(), "file report");
    assert!(merged.completed);
    assert_eq!(merged.deadline, Some(1000));
}

#[test]
fn update_keeps_absent_fields() {
    let current = TaskData {
        title: "write report".to_string(),
        completed: true,
        deadline: None,
    };
    let update = TaskUpdate {
        title: None,
        completed: None,
        deadline: Some(2000),
    };
    let merged = apply_update(&current, &update);
    assert_eq!(merged.title.as_str(), "write report");
    assert!(merged.completed);
    assert_eq!(merged.deadline, Some(2000));
}

#[test]
fn rows_affected_holds_its_count() {
    let r = RowsAffected { rows_affected: 7 };
    assert_eq!(r.rows_affected, 7);
}

#[test]
fn task_identifier_holds_its_id() {
    let id = TaskIdentifier {
        task_id: "67e55044-10b1-426f-9247-bb680e5fe0c8".to_string(),
    };
    assert_eq!(id.task_id.as_str(), "67e55044-10b1-426f-9247-bb680e5fe0c8");
}

#[test]
fn string_helpers() {
    assert!(str_eq("title", "title"));
    assert!(!str_eq("title", "Title"));
    assert!(str_matches_lower("DeSc", "desc"));
    assert!(!str_matches_lower("desc", "DESC"));
    assert!(!str_matches_lower("des", "desc"));
}

#[test]
fn service_error_messages() {
    assert_eq!(
        Error::EnvironmentVariableNotSet("DB_HOST".to_string())
            .message()
            .as_str(),
        "ENV VARIABLE for `DB_HOST` is not set"
    );
    assert_eq!(
        Error::NotFound("Task <id: 42>".to_string()).message().as_str(),
        "Resource Not Found: Task <id: 42>"
    );
    assert_eq!(
        Error::NotImplemented.message().as_str(),
        "Resource not implemented"
    );
}

#[test]
fn validation_error_equality_compares_payloads() {
    assert_eq!(
        ValidationError::UnknownAttribute("a".to_string()),
        ValidationError::UnknownAttribute("a".to_string())
    );
    assert_ne!(
        ValidationError::UnknownAttribute("a".to_string()),
        ValidationError::UnknownAttribute("b".to_string())
    );
    assert_ne!(
        ValidationError::MissingStart,
        ValidationError::MissingEnd
    );
}
