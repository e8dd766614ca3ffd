use tidyql_rs::app::{App, FileRead};
use tidyql_rs::diff::DiffKind;

fn two_entries() -> App {
    App::new(vec!["a.sql".to_string(), "b.txt".to_string()])
}

#[test]
fn select_reads_sql_file() {
    let mut app = two_entries();
    app.select_file(0, FileRead::Text("SELECT 1;".to_string()));
    assert_eq!(app.selected_file.as_deref(), Some("a.sql"));
    assert_eq!(app.selected_index, 0);
    assert_eq!(app.file_content, "SELECT 1;");
    assert!(app.formatted_content.is_none());
    assert!(app.diff_content.is_none());
}

#[test]
fn select_past_end_changes_nothing() {
    let mut app = two_entries();
    app.select_file(5, FileRead::Text("x".to_string()));
    assert!(app.selected_file.is_none());
    assert!(app.file_content.is_empty());
}

#[test]
fn select_directory_shows_placeholder() {
    let mut app = two_entries();
    app.select_file(1, FileRead::NotAFile);
    assert_eq!(app.file_content, "Selected item is not a file");
    app.select_file(1, FileRead::Unreadable);
    assert_eq!(app.file_content, "Selected file could not be read as text");
}

#[test]
fn selecting_again_drops_formatting() {
    let mut app = two_entries();
    app.select_file(0, FileRead::Text("select a from t;".to_string()));
    app.format_sql();
    assert!(app.formatted_content.is_some());
    app.select_file(0, FileRead::Text("select a from t;".to_string()));
    assert!(app.formatted_content.is_none());
    assert!(app.diff_content.is_none());
}

#[test]
fn format_single_statement() {
    let mut app = two_entries();
    app.select_file(0, FileRead::Text("SELECT * FROM t;".to_string()));
    app.format_sql();
    let formatted = app.formatted_content.clone().unwrap();
    assert_eq!(formatted, "SELECT\n    *\nFROM\n    t;");
    assert_eq!(formatted.matches(';').count(), 1);
    assert!(!formatted.contains("\n\n\n"));
    assert_eq!(app.notification.as_deref(), Some("SQL formatted successfully"));
    let diff = app.diff_content.as_ref().unwrap();
    assert!(diff.iter().any(|l| l.kind != DiffKind::Unchanged));
    assert_eq!(app.file_content, "SELECT * FROM t;");
}

#[test]
fn format_already_formatted_has_no_changes() {
    let mut app = two_entries();
    app.select_file(0, FileRead::Text("SELECT\n    *\nFROM\n    t;".to_string()));
    app.format_sql();
    assert_eq!(app.formatted_content.as_deref(), Some("SELECT\n    *\nFROM\n    t;"));
    let diff = app.diff_content.as_ref().unwrap();
    assert!(diff.iter().all(|l| l.kind == DiffKind::Unchanged));
}

#[test]
fn format_is_idempotent() {
    let mut app = two_entries();
    let query = "select a, b from t where a = 1 and b in (select c from u); insert into t values (1, 2);";
    app.select_file(0, FileRead::Text(query.to_string()));
    app.format_sql();
    let once = app.formatted_content.clone().unwrap();
    app.select_file(0, FileRead::Text(once.clone()));
    app.format_sql();
    assert_eq!(app.formatted_content.unwrap(), once);
}

#[test]
fn format_keeps_one_blank_line_between_statements() {
    let mut app = two_entries();
    app.select_file(0, FileRead::Text("SELECT 1; SELECT 2;".to_string()));
    app.format_sql();
    let formatted = app.formatted_content.unwrap();
    assert!(formatted.contains(";\n\nSELECT"));
    assert!(!formatted.contains("\n\n\n"));
}

#[test]
fn format_rejects_non_sql_file() {
    let mut app = two_entries();
    app.select_file(1, FileRead::Text("hello".to_string()));
    app.format_sql();
    assert_eq!(app.notification.as_deref(), Some("Selected file is not an SQL file"));
    assert!(app.formatted_content.is_none());
    assert_eq!(app.file_content, "hello");
}

#[test]
fn format_without_selection() {
    let mut app = two_entries();
    app.format_sql();
    assert_eq!(app.notification.as_deref(), Some("No file selected"));
    assert!(app.formatted_content.is_none());
}

#[test]
fn save_without_format_has_nothing_to_save() {
    let mut app = two_entries();
    app.select_file(0, FileRead::Text("SELECT * FROM t;".to_string()));
    assert!(app.save_formatted_file().is_none());
    assert_eq!(app.notification.as_deref(), Some("nothing to save"));
}

#[test]
fn save_after_format() {
    let mut app = two_entries();
    app.select_file(0, FileRead::Text("SELECT * FROM t;".to_string()));
    app.format_sql();
    let request = app.save_formatted_file().unwrap();
    assert_eq!(request.path, "a.sql");
    assert_eq!(request.content, "SELECT\n    *\nFROM\n    t;");
    assert!(app.diff_content.is_some());
    app.record_save(true);
    assert_eq!(app.notification.as_deref(), Some("File saved successfully"));
    assert!(app.diff_content.is_none());
    assert!(app.formatted_content.is_some());
}

#[test]
fn failed_save_keeps_diff() {
    let mut app = two_entries();
    app.select_file(0, FileRead::Text("SELECT * FROM t;".to_string()));
    app.format_sql();
    app.record_save(false);
    assert_eq!(app.notification.as_deref(), Some("Failed to save file"));
    assert!(app.diff_content.is_some());
}

#[test]
fn search_then_confirm() {
    let mut app = App::new(vec![
        "a.sql".to_string(),
        "ba.txt".to_string(),
        "c.sql".to_string(),
        "xa.sql".to_string(),
    ]);
    app.enter_search();
    assert!(app.is_searching);
    app.type_char('a');
    app.type_char('.');
    assert_eq!(app.search_query, "a.");
    assert_eq!(app.search_results, vec!["a.sql", "ba.txt", "xa.sql"]);
    let next = app.confirm_search();
    assert_eq!(next, Some(0));
    assert!(!app.is_searching);
    assert_eq!(app.files, vec!["a.sql", "ba.txt", "xa.sql"]);
    assert_eq!(app.selected_index, 0);
    app.select_file(0, FileRead::Text("SELECT 1;".to_string()));
    assert_eq!(app.selected_file.as_deref(), Some("a.sql"));
}

#[test]
fn search_backspace_and_empty_confirm() {
    let mut app = two_entries();
    app.enter_search();
    app.type_char('z');
    assert!(app.search_results.is_empty());
    app.backspace();
    assert_eq!(app.search_query, "");
    assert_eq!(app.search_results, vec!["a.sql", "b.txt"]);
    app.backspace();
    assert_eq!(app.search_query, "");
    app.type_char('q');
    app.type_char('q');
    assert_eq!(app.confirm_search(), None);
    assert_eq!(app.files, vec!["a.sql", "b.txt"]);
    assert!(!app.is_searching);
}

#[test]
fn search_is_case_sensitive() {
    let mut app = two_entries();
    app.enter_search();
    app.type_char('A');
    assert!(app.search_results.is_empty());
    app.cancel_search();
    assert!(!app.is_searching);
    assert_eq!(app.files, vec!["a.sql", "b.txt"]);
}

#[test]
fn move_down_at_last_index_is_no_op() {
    let mut app = two_entries();
    assert_eq!(app.move_down(), Some(1));
    app.select_file(1, FileRead::Text("b".to_string()));
    assert_eq!(app.move_down(), None);
    assert_eq!(app.selected_index, 1);
    assert_eq!(app.file_content, "b");
}

#[test]
fn move_up_at_first_index_is_no_op() {
    let mut app = two_entries();
    assert_eq!(app.move_up(), None);
    assert_eq!(app.selected_index, 0);
    app.move_down();
    assert_eq!(app.move_up(), Some(0));
}

#[test]
fn move_down_on_empty_list() {
    let mut app = App::new(Vec::new());
    assert_eq!(app.move_down(), None);
    assert_eq!(app.selected_index, 0);
}

#[test]
fn navigate_into_selected_folder() {
    let mut app = App::new(vec!["./src".to_string()]);
    app.navigate_into_folder(vec!["x".to_string()]);
    assert_eq!(app.current_dir, ".");
    app.select_file(0, FileRead::NotAFile);
    app.navigate_into_folder(vec!["./src/lib.rs".to_string()]);
    assert_eq!(app.current_dir, "./src");
    assert_eq!(app.files, vec!["./src/lib.rs"]);
    assert!(app.selected_file.is_none());
    assert_eq!(app.selected_index, 0);
}

#[test]
fn navigate_back_to_parent() {
    let mut app = App::new(Vec::new());
    app.current_dir = "work/project/src".to_string();
    assert_eq!(app.parent_dir().as_deref(), Some("work/project"));
    app.navigate_back(vec!["work/project/src".to_string()]);
    assert_eq!(app.current_dir, "work/project");
    assert_eq!(app.files, vec!["work/project/src"]);
}

#[test]
fn navigate_back_at_root_is_no_op() {
    let mut app = App::new(vec!["/etc".to_string()]);
    app.current_dir = "/".to_string();
    assert_eq!(app.parent_dir(), None);
    app.navigate_back(Vec::new());
    assert_eq!(app.current_dir, "/");
    assert_eq!(app.files, vec!["/etc"]);
}
