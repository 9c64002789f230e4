use data_service::clients::github_api::TreeEntry;
use data_service::clients::http::ApiReply;
use data_service::clients::AuthClient;
use data_service::clients::GitHubApiClient;
use data_service::domain::connectors::github::GitHubConnector;
use data_service::domain::connectors::github::GitHubFetch;
use data_service::domain::connectors::github::SyncOptions;
use data_service::domain::connectors::session::AccessStep;
use data_service::domain::connectors::session::FetchReply;
use data_service::domain::connectors::session::FetchRequest;
use data_service::domain::connectors::session::FetchStep;
use data_service::domain::models::ConnectorType;
use data_service::domain::models::ContentType;
use data_service::domain::models::DataSource;
use data_service::domain::models::NormalizedDocument;
use data_service::error::AppError;
use data_service::error::ErrorKind;
use data_service::json::JsonNumber;
use data_service::json::JsonValue;

fn connector() -> GitHubConnector {
    GitHubConnector::new(AuthClient::new("http://auth".to_string()), GitHubApiClient::new())
}

fn source(members: Vec<(&str, JsonValue)>) -> DataSource {
    let config = JsonValue::Object(members.into_iter().map(|(k, v)| (k.to_string(), v)).collect());
    DataSource::new(7, "repo".to_string(), ConnectorType::GitHub, config)
}

fn text(s: &str) -> JsonValue {
    JsonValue::Text(s.to_string())
}

fn blob(path: &str, sha: &str, size: Option<u64>) -> TreeEntry {
    TreeEntry { path: path.to_string(), file_type: "blob".to_string(), sha: sha.to_string(), size }
}

fn asked_path(step: &FetchStep) -> String {
    match step {
        FetchStep::Ask(FetchRequest::Content { path, .. }) => path.clone(),
        other => panic!("no content was asked for: {:?}", other),
    }
}

fn until_contents(src: &DataSource, tree: Vec<TreeEntry>) -> (GitHubFetch, FetchStep) {
    let (fetch, step) = connector().fetch_content(src, 42);
    match step {
        FetchStep::Ask(FetchRequest::Token { provider, user_id }) => {
            assert_eq!(provider, "github");
            assert_eq!(user_id, 42);
        }
        other => panic!("no token was asked for: {:?}", other),
    }
    let (fetch, step) = fetch.advance(FetchReply::Token(Ok("tok".to_string())));
    match &step {
        FetchStep::Ask(FetchRequest::Tree { token, .. }) => assert_eq!(token, "tok"),
        other => panic!("no tree was asked for: {:?}", other),
    }
    fetch.advance(FetchReply::Tree(Ok(tree)))
}

fn done(step: FetchStep) -> (Vec<NormalizedDocument>, usize, usize) {
    match step {
        FetchStep::Done { documents, skipped, failed } => (documents, skipped, failed),
        other => panic!("the fetch is not done: {:?}", other),
    }
}

#[test]
fn fetch_asks_for_tree_of_configured_branch() {
    let src = source(vec![("repository", text("o/r")), ("branch", text("dev"))]);
    let (fetch, _) = connector().fetch_content(&src, 1);
    let (_, step) = fetch.advance(FetchReply::Token(Ok("t".to_string())));
    match step {
        FetchStep::Ask(FetchRequest::Tree { token, repository, branch }) => {
            assert_eq!(token, "t");
            assert_eq!(repository, "o/r");
            assert_eq!(branch, "dev");
        }
        other => panic!("no tree was asked for: {:?}", other),
    }
}

#[test]
fn fetch_defaults_to_branch_main() {
    let src = source(vec![("repository", text("o/r"))]);
    let (fetch, _) = connector().fetch_content(&src, 1);
    let (_, step) = fetch.advance(FetchReply::Token(Ok("t".to_string())));
    match step {
        FetchStep::Ask(FetchRequest::Tree { branch, .. }) => assert_eq!(branch, "main"),
        other => panic!("no tree was asked for: {:?}", other),
    }
}

#[test]
fn fetch_without_repository_fails_after_the_token() {
    let src = source(vec![("branch", text("main"))]);
    let (fetch, step) = connector().fetch_content(&src, 1);
    assert!(matches!(step, FetchStep::Ask(FetchRequest::Token { .. })));
    let (_, step) = fetch.advance(FetchReply::Token(Ok("t".to_string())));
    match step {
        FetchStep::Failed(e) => {
            assert_eq!(e.kind(), ErrorKind::BadRequest);
            assert_eq!(e.message(), "Missing repository in config");
        }
        other => panic!("the fetch has not failed: {:?}", other),
    }
}

#[test]
fn token_failure_fails_the_fetch() {
    let src = source(vec![("repository", text("o/r"))]);
    let (fetch, _) = connector().fetch_content(&src, 1);
    let (_, step) =
        fetch.advance(FetchReply::Token(Err(AppError::ExternalService("no token".to_string()))));
    match step {
        FetchStep::Failed(e) => {
            assert_eq!(e.kind(), ErrorKind::ExternalService);
            assert_eq!(e.message(), "no token");
        }
        other => panic!("the fetch has not failed: {:?}", other),
    }
}

#[test]
fn tree_failure_fails_the_fetch() {
    let src = source(vec![("repository", text("o/r"))]);
    let (fetch, _) = connector().fetch_content(&src, 1);
    let (fetch, _) = fetch.advance(FetchReply::Token(Ok("t".to_string())));
    let (fetch, step) = fetch.advance(FetchReply::Tree(Err(AppError::ExternalService(
        "GitHub API returned 404 Not Found: {}".to_string(),
    ))));
    match step {
        FetchStep::Failed(e) => {
            assert_eq!(e.to_text(), "External Service Error: GitHub API returned 404 Not Found: {}");
        }
        other => panic!("the fetch has not failed: {:?}", other),
    }
    let (_, step) = fetch.advance(FetchReply::Content(Ok("late".to_string())));
    assert!(matches!(step, FetchStep::Failed(_)));
}

#[test]
fn end_to_end_readme_image_and_source() {
    let src = source(vec![("repository", text("o/r")), ("branch", text("main"))]);
    let tree = vec![
        blob("README.md", "s1", Some(10)),
        blob("img.png", "s2", Some(2000)),
        blob("src/main.rs", "s3", Some(30)),
    ];
    let (fetch, step) = until_contents(&src, tree);
    assert_eq!(asked_path(&step), "README.md");
    let (fetch, step) = fetch.advance(FetchReply::Content(Ok("# Title".to_string())));
    assert_eq!(asked_path(&step), "src/main.rs");
    let (_, step) = fetch.advance(FetchReply::Content(Ok("fn main() {}".to_string())));
    let (docs, skipped, failed) = done(step);
    assert_eq!(skipped, 0);
    assert_eq!(failed, 0);
    assert_eq!(docs.len(), 2);

    let readme = &docs[0];
    assert_eq!(readme.name, "README.md");
    assert_eq!(readme.path, Some("README.md".to_string()));
    assert_eq!(readme.external_id, "s1");
    assert_eq!(readme.content, "# Title");
    assert_eq!(readme.content_type, ContentType::Markdown);
    assert_eq!(readme.language, Some("markdown".to_string()));
    assert_eq!(readme.connector_type, ConnectorType::GitHub);
    assert_eq!(readme.source_id, src.id);
    assert_eq!(readme.created_at, readme.updated_at);
    assert!(readme.chunks.is_none());
    assert!(readme.block_type.is_none());

    let main = &docs[1];
    assert_eq!(main.name, "main.rs");
    assert_eq!(main.path, Some("src/main.rs".to_string()));
    assert_eq!(main.external_id, "s3");
    assert_eq!(main.content_type, ContentType::Code);
    assert_eq!(main.language, Some("rust".to_string()));
    match &main.metadata {
        JsonValue::Object(members) => {
            assert_eq!(members.len(), 4);
            assert_eq!(members[0].0, "repository");
            assert!(matches!(&members[0].1, JsonValue::Text(t) if t == "o/r"));
            assert_eq!(members[1].0, "branch");
            assert!(matches!(&members[1].1, JsonValue::Text(t) if t == "main"));
            assert_eq!(members[2].0, "sha");
            assert!(matches!(&members[2].1, JsonValue::Text(t) if t == "s3"));
            assert_eq!(members[3].0, "size");
            assert!(matches!(&members[3].1, JsonValue::Number(JsonNumber::Unsigned(30))));
        }
        other => panic!("the metadata is no object: {:?}", other),
    }
    assert_ne!(readme.id, main.id);
}

#[test]
fn one_failed_content_leaves_the_other_documents() {
    let src = source(vec![("repository", text("o/r"))]);
    let tree = vec![blob("a.rs", "1", None), blob("b.rs", "2", None), blob("c.rs", "3", None)];
    let (fetch, step) = until_contents(&src, tree);
    assert_eq!(asked_path(&step), "a.rs");
    let (fetch, step) = fetch.advance(FetchReply::Content(Ok("a".to_string())));
    assert_eq!(asked_path(&step), "b.rs");
    let (fetch, step) = fetch
        .advance(FetchReply::Content(Err(AppError::ExternalService("transport".to_string()))));
    assert_eq!(asked_path(&step), "c.rs");
    let (_, step) = fetch.advance(FetchReply::Content(Ok("c".to_string())));
    let (docs, skipped, failed) = done(step);
    assert_eq!(docs.len(), 2);
    assert_eq!(failed, 1);
    assert_eq!(skipped, 0);
    assert_eq!(docs[0].name, "a.rs");
    assert_eq!(docs[1].name, "c.rs");
}

#[test]
fn failure_of_the_last_content_still_finishes() {
    let src = source(vec![("repository", text("o/r"))]);
    let (fetch, _) = until_contents(&src, vec![blob("only.txt", "1", None)]);
    let (_, step) =
        fetch.advance(FetchReply::Content(Err(AppError::Internal("Unexpected content format".to_string()))));
    let (docs, _, failed) = done(step);
    assert!(docs.is_empty());
    assert_eq!(failed, 1);
}

#[test]
fn binary_files_and_directories_are_never_asked_for() {
    let src = source(vec![
        ("repository", text("o/r")),
        ("include_languages", JsonValue::List(vec![text("png"), text("lock"), text("rs")])),
    ]);
    let tree = vec![
        TreeEntry { path: "src".to_string(), file_type: "tree".to_string(), sha: "t".to_string(), size: None },
        blob("logo.PNG", "1", Some(1)),
        blob("Cargo.lock", "2", Some(1)),
        TreeEntry { path: "sub.rs".to_string(), file_type: "commit".to_string(), sha: "c".to_string(), size: None },
        blob("lib.rs", "3", Some(1)),
        blob("archive.tar.gz", "4", Some(1)),
    ];
    let (fetch, step) = until_contents(&src, tree);
    assert_eq!(asked_path(&step), "lib.rs");
    let (_, step) = fetch.advance(FetchReply::Content(Ok("x".to_string())));
    let (docs, skipped, failed) = done(step);
    assert_eq!(docs.len(), 1);
    assert_eq!(docs[0].path, Some("lib.rs".to_string()));
    assert_eq!(skipped, 0);
    assert_eq!(failed, 0);
}

#[test]
fn files_left_out_by_the_options_are_counted() {
    let src = source(vec![
        ("repository", text("o/r")),
        ("include_languages", JsonValue::List(vec![text("py")])),
        ("exclude_paths", JsonValue::List(vec![text("tests/")])),
        ("max_file_size_mb", JsonValue::Number(JsonNumber::Unsigned(1))),
    ]);
    let tree = vec![
        blob("a.py", "1", Some(10)),
        blob("b.rs", "2", Some(10)),
        blob("tests/c.py", "3", Some(10)),
        blob("big.py", "4", Some(2 * 1024 * 1024)),
        blob("img.png", "5", Some(10)),
    ];
    let (fetch, step) = until_contents(&src, tree);
    assert_eq!(asked_path(&step), "a.py");
    let (_, step) = fetch.advance(FetchReply::Content(Ok("print()".to_string())));
    let (docs, skipped, failed) = done(step);
    assert_eq!(docs.len(), 1);
    assert_eq!(skipped, 3);
    assert_eq!(failed, 0);
    assert_eq!(docs[0].language, Some("python".to_string()));
}

#[test]
fn empty_tree_is_done_at_once() {
    let src = source(vec![("repository", text("o/r"))]);
    let (_, step) = until_contents(&src, vec![]);
    let (docs, skipped, failed) = done(step);
    assert!(docs.is_empty());
    assert_eq!((skipped, failed), (0, 0));
}

#[test]
fn reply_out_of_turn_fails_the_fetch() {
    let src = source(vec![("repository", text("o/r"))]);
    let (fetch, _) = connector().fetch_content(&src, 1);
    let (fetch, step) = fetch.advance(FetchReply::Tree(Ok(vec![])));
    match step {
        FetchStep::Failed(e) => {
            assert_eq!(e.kind(), ErrorKind::Internal);
            assert_eq!(e.message(), "Unexpected reply");
        }
        other => panic!("the fetch has not failed: {:?}", other),
    }
    let (_, step) = fetch.advance(FetchReply::Token(Ok("t".to_string())));
    assert!(matches!(step, FetchStep::Failed(_)));
}

#[test]
fn select_keeps_the_order_of_the_tree() {
    let tree = vec![
        blob("z.md", "1", None),
        blob("a.bin", "2", None),
        blob("m.txt", "3", None),
        blob("b.exe", "4", None),
        blob("a.json", "5", None),
    ];
    let (chosen, skipped) = GitHubConnector::select(&tree, &SyncOptions::default());
    let paths: Vec<&str> = chosen.iter().map(|e| e.path.as_str()).collect();
    assert_eq!(paths, vec!["z.md", "m.txt", "a.json"]);
    assert_eq!(skipped, 0);
}

#[test]
fn document_names_file_by_last_segment() {
    let entry = blob("a/b/c/deep.yaml", "sha9", None);
    let doc = GitHubConnector::document(5, "o/r", "main", &entry, "k: v".to_string());
    assert_eq!(doc.name, "deep.yaml");
    assert_eq!(doc.path, Some("a/b/c/deep.yaml".to_string()));
    assert_eq!(doc.content_type, ContentType::Yaml);
    assert_eq!(doc.language, Some("yaml".to_string()));
    assert_eq!(doc.source_id, 5);
    match &doc.metadata {
        JsonValue::Object(members) => assert!(matches!(&members[3].1, JsonValue::Null)),
        other => panic!("the metadata is no object: {:?}", other),
    }
}

#[test]
fn validate_access_asks_host_and_takes_its_word() {
    let src = source(vec![("repository", text("o/r"))]);
    let (check, step) = connector().validate_access(&src, 9);
    assert!(matches!(step, AccessStep::Ask(FetchRequest::Token { .. })));
    let (check, step) = check.advance(FetchReply::Token(Ok("t".to_string())));
    match step {
        AccessStep::Ask(FetchRequest::Access { token, repository }) => {
            assert_eq!(token, "t");
            assert_eq!(repository, "o/r");
        }
        other => panic!("the host was not asked: {:?}", other),
    }
    let (_, step) = check.advance(FetchReply::Access(Ok(false)));
    assert!(matches!(step, AccessStep::Decided(false)));
}

#[test]
fn validate_access_without_repository_is_a_bad_request() {
    let src = source(vec![]);
    let (check, _) = connector().validate_access(&src, 9);
    let (_, step) = check.advance(FetchReply::Token(Ok("t".to_string())));
    match step {
        AccessStep::Failed(e) => assert_eq!(e.to_text(), "Bad Request: Missing repository in config"),
        other => panic!("the check has not failed: {:?}", other),
    }
}

#[test]
fn files_named_like_extensions_are_fetched() {
    let src = source(vec![("repository", text("o/r"))]);
    let tree = vec![blob("db", "1", None), blob("bin/lock", "2", None), blob("v1.2/so", "3", None), blob("x.db", "4", None)];
    let (fetch, step) = until_contents(&src, tree);
    assert_eq!(asked_path(&step), "db");
    let (fetch, step) = fetch.advance(FetchReply::Content(Ok("a".to_string())));
    assert_eq!(asked_path(&step), "bin/lock");
    let (fetch, step) = fetch.advance(FetchReply::Content(Ok("b".to_string())));
    assert_eq!(asked_path(&step), "v1.2/so");
    let (_, step) = fetch.advance(FetchReply::Content(Ok("c".to_string())));
    let (docs, skipped, failed) = done(step);
    assert_eq!((docs.len(), skipped, failed), (3, 0, 0));
    for doc in &docs {
        assert_eq!(doc.content_type, ContentType::Unknown);
        assert_eq!(doc.language, None);
    }
    assert_eq!(docs[1].name, "lock");
}

#[test]
fn validate_access_passes_on_a_failure_of_the_host() {
    let src = source(vec![("repository", text("o/r"))]);
    let (check, _) = connector().validate_access(&src, 9);
    let (check, _) = check.advance(FetchReply::Token(Ok("t".to_string())));
    let probe = GitHubApiClient::validate_repo_access(ApiReply::Rejected {
        code: 500,
        status: "500 Internal Server Error".to_string(),
        body: "down".to_string(),
    });
    let (_, step) = check.advance(FetchReply::Access(probe));
    match step {
        AccessStep::Failed(e) => {
            assert_eq!(e.kind(), ErrorKind::ExternalService);
            assert_eq!(e.message(), "GitHub API returned 500 Internal Server Error: down");
        }
        other => panic!("the check has not failed: {:?}", other),
    }
    let (check, _) = connector().validate_access(&src, 9);
    let (check, _) = check.advance(FetchReply::Token(Ok("t".to_string())));
    let probe = GitHubApiClient::validate_repo_access(ApiReply::Accepted(()));
    let (_, step) = check.advance(FetchReply::Access(probe));
    assert!(matches!(step, AccessStep::Decided(true)));
}
