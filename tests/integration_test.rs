use tidyql_rs::app::{App, FileRead};

fn listing() -> Vec<String> {
    vec!["Cargo.toml".to_string(), "src".to_string(), "tests".to_string()]
}

#[test]
fn test_app_creation() {
    let app = App::new(listing());
    assert!(app.files.len() > 0);
    assert!(app.selected_file.is_none());
    assert!(app.file_content.is_empty());
    assert!(app.formatted_content.is_none());
    assert!(app.diff_content.is_none());
    assert!(app.notification.is_none());
}

#[test]
fn test_select_file() {
    let mut app = App::new(listing());
    app.select_file(0, FileRead::Text("[package]\nname = \"x\"\n".to_string()));
    assert!(app.selected_file.is_some());
}

#[test]
fn test_read_selected_file() {
    let mut app = App::new(listing());
    app.select_file(0, FileRead::Text("[package]\nname = \"x\"\n".to_string()));
    assert!(!app.file_content.is_empty());
}
