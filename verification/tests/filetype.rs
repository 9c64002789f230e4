use data_service::domain::connectors::github::GitHubConnector;
use data_service::domain::models::ContentType;

#[test]
fn rust_source_is_code_in_rust() {
    assert_eq!(GitHubConnector::get_content_type("src/main.rs"), ContentType::Code);
    assert_eq!(GitHubConnector::get_language("src/main.rs"), Some("rust".to_string()));
}

#[test]
fn markdown_is_markdown() {
    assert_eq!(GitHubConnector::get_content_type("README.md"), ContentType::Markdown);
    assert_eq!(GitHubConnector::get_language("README.md"), Some("markdown".to_string()));
}

#[test]
fn unknown_extension_has_no_language() {
    assert_eq!(GitHubConnector::get_content_type("path.unknownext"), ContentType::Unknown);
    assert_eq!(GitHubConnector::get_language("path.unknownext"), None);
}

#[test]
fn extension_is_told_whatever_its_case() {
    assert_eq!(GitHubConnector::get_content_type("A/B/NOTES.MD"), ContentType::Markdown);
    assert!(GitHubConnector::is_binary_file("logo.PNG"));
    assert!(!GitHubConnector::is_binary_file("logo.txt"));
}

#[test]
fn file_without_extension_is_in_no_table() {
    for path in ["db", "lock", "so", "png", "bin/exe", "v1.2/db", "release.d/zip", "rs", "md", "docs.v2/json"] {
        assert!(!GitHubConnector::is_binary_file(path), "for {}", path);
        assert_eq!(GitHubConnector::get_content_type(path), ContentType::Unknown, "for {}", path);
        assert_eq!(GitHubConnector::get_language(path), None, "for {}", path);
        assert_eq!(GitHubConnector::extension_of(path), None, "for {}", path);
    }
    assert!(GitHubConnector::is_binary_file("data.db"));
    assert!(GitHubConnector::is_binary_file("Cargo.lock"));
    assert!(GitHubConnector::is_binary_file(".lock"));
    assert!(GitHubConnector::is_binary_file("v1.2/lib.SO"));
    assert_eq!(GitHubConnector::extension_of("a/b.d/c.TAR.Gz"), Some("gz".to_string()));
    assert_eq!(GitHubConnector::extension_of("trailing."), Some(String::new()));
    assert_eq!(GitHubConnector::get_content_type("trailing."), ContentType::Unknown);
}
