use data_service::api::documents::create_document;
use data_service::api::documents::delete_document;
use data_service::api::documents::document_from_upload;
use data_service::api::documents::get_analytics;
use data_service::api::documents::import_cloud;
use data_service::api::documents::list_cloud_files;
use data_service::api::documents::list_documents;
use data_service::api::documents::parse_content_type;
use data_service::api::documents::upload_document;
use data_service::api::documents::CloudFilesQuery;
use data_service::api::documents::CreateDocumentRequest;
use data_service::api::documents::ImportCloudRequest;
use data_service::api::documents::SearchQuery;
use data_service::api::documents::UploadedFile;
use data_service::api::github::access_validated;
use data_service::api::github::get_branches_legacy;
use data_service::api::github::get_languages_legacy;
use data_service::api::github::sync_oauth;
use data_service::api::github::sync_repository_legacy;
use data_service::api::github::validate_access;
use data_service::api::github::AccessVerdict;
use data_service::api::github::SyncOAuthRequest;
use data_service::api::github::SyncRepositoryRequest;
use data_service::api::github_app::callback;
use data_service::api::github_app::configure_repos;
use data_service::api::github_app::execute_job;
use data_service::api::github_app::get_install_url;
use data_service::api::github_app::get_job;
use data_service::api::github_app::get_selected_repos;
use data_service::api::github_app::list_installations;
use data_service::api::github_app::list_repos;
use data_service::api::github_app::sync_repo;
use data_service::api::github_app::CallbackQuery;
use data_service::api::github_app::ConfigureRepoItem;
use data_service::api::github_app::ConfigureReposRequest;
use data_service::api::health::health_check;
use data_service::api::health::status;
use data_service::api::local_sync::sync_local;
use data_service::api::local_sync::sync_path;
use data_service::api::local_sync::DirectoryFacts;
use data_service::api::local_sync::LocalSyncRequest;
use data_service::api::repositories::check_oauth;
use data_service::api::repositories::check_oauth_target;
use data_service::api::repositories::extract_repo_from_url;
use data_service::api::repositories::fetch_branches;
use data_service::api::repositories::fetch_branches_target;
use data_service::api::repositories::get_branches_oauth;
use data_service::api::repositories::list_repositories;
use data_service::api::repositories::provider_for;
use data_service::api::repositories::CheckOAuthRequest;
use data_service::api::repositories::FetchBranchesRequest;
use data_service::api::response::ApiResponse;
use data_service::clients::github_api::Branch;
use data_service::clients::github_api::BranchCommit;
use data_service::clients::github_api::RepoLanguages;
use data_service::clients::github_api::Repository;
use data_service::clients::AuthClient;
use data_service::clients::ChunkerClient;
use data_service::clients::GitHubApiClient;
use data_service::domain::models::ConnectorType;
use data_service::domain::models::ContentType;
use data_service::domain::models::SyncStatus;
use data_service::domain::sync::SyncOrchestrator;
use data_service::error::AppError;
use data_service::error::ErrorKind;
use data_service::json::JsonValue;
use data_service::storage::memory::InMemoryStorage;
use data_service::storage::Storage;

fn orchestrator() -> SyncOrchestrator {
    SyncOrchestrator::new(
        AuthClient::new("http://auth".to_string()),
        ChunkerClient::new("http://chunker".to_string()),
        GitHubApiClient::new(),
    )
}

fn repo(name: &str) -> Repository {
    Repository {
        id: 7,
        name: name.to_string(),
        full_name: format!("o/{}", name),
        private: true,
        description: Some("d".to_string()),
        default_branch: "main".to_string(),
        html_url: format!("https://github.com/o/{}", name),
    }
}

fn branch(name: &str) -> Branch {
    Branch { name: name.to_string(), commit: BranchCommit { sha: "s".to_string() } }
}

#[test]
fn content_types_are_parsed_by_name() {
    assert_eq!(parse_content_type("text"), ContentType::Text);
    assert_eq!(parse_content_type("Code"), ContentType::Code);
    assert_eq!(parse_content_type("markdown"), ContentType::Markdown);
    assert_eq!(parse_content_type("MD"), ContentType::Markdown);
    assert_eq!(parse_content_type("html"), ContentType::Html);
    assert_eq!(parse_content_type("json"), ContentType::Json);
    assert_eq!(parse_content_type("xml"), ContentType::Xml);
    assert_eq!(parse_content_type("yaml"), ContentType::Yaml);
    assert_eq!(parse_content_type("yml"), ContentType::Yaml);
    assert_eq!(parse_content_type("binary"), ContentType::Unknown);
    assert_eq!(parse_content_type(""), ContentType::Unknown);
    assert_eq!(ContentType::default(), ContentType::Unknown);
    assert_eq!(ContentType::Binary.label(), "binary");
    assert_eq!(ContentType::Unknown.label(), "unknown");
}

#[test]
fn document_is_created_with_its_size_in_bytes() {
    let mut storage = InMemoryStorage::new();
    let body = CreateDocumentRequest {
        name: "n.md".to_string(),
        content: "h\u{e9}llo".to_string(),
        content_type: Some("Markdown".to_string()),
        metadata: Some(JsonValue::Object(vec![("k".to_string(), JsonValue::Bool(true))])),
    };
    let answer = create_document(&mut storage, Some(4), &body).unwrap();
    assert_eq!(answer.name, "n.md");
    assert_eq!(answer.content_type, "markdown");
    assert_eq!(answer.file_size, Some(6));
    let kept = storage.get_document(answer.id).unwrap().unwrap();
    assert_eq!(kept.user_id, 4);
    assert_eq!(kept.content, "h\u{e9}llo");
    assert_eq!(kept.content_type, ContentType::Markdown);
    assert!(matches!(kept.metadata.get("k"), Some(JsonValue::Bool(true))));
    assert_eq!(kept.source_id, None);
    assert_eq!(answer.created_at, kept.created_at.to_rfc3339());
    let plain = CreateDocumentRequest { name: "p".to_string(), content: String::new(), content_type: None, metadata: None };
    let answer = create_document(&mut storage, Some(4), &plain).unwrap();
    assert_eq!(answer.content_type, "text");
    assert_eq!(answer.file_size, Some(0));
    assert_eq!(create_document(&mut storage, None, &plain).unwrap_err().kind(), ErrorKind::Unauthorized);
}

#[test]
fn documents_are_listed_and_searched() {
    let mut storage = InMemoryStorage::new();
    for (name, content) in [("one", "apple"), ("two", "Banana"), ("three", "cherry")] {
        let body = CreateDocumentRequest { name: name.to_string(), content: content.to_string(), content_type: None, metadata: None };
        create_document(&mut storage, Some(1), &body).unwrap();
    }
    assert_eq!(list_documents(&storage, Some(1), &SearchQuery { search: None }).unwrap().documents.len(), 3);
    let found = list_documents(&storage, Some(1), &SearchQuery { search: Some("BANANA".to_string()) }).unwrap();
    assert_eq!(found.documents.len(), 1);
    assert_eq!(found.documents[0].name, "two");
    assert!(list_documents(&storage, Some(2), &SearchQuery { search: None }).unwrap().documents.is_empty());
    assert!(list_documents(&storage, None, &SearchQuery { search: None }).is_err());
    let analytics = get_analytics(&storage, Some(1)).unwrap();
    assert_eq!(analytics.total_documents, 3);
    assert_eq!(analytics.total_size_bytes, 17);
    assert!(get_analytics(&storage, None).is_err());
}

#[test]
fn document_is_deleted_by_its_owner_only() {
    let mut storage = InMemoryStorage::new();
    let body = CreateDocumentRequest { name: "n".to_string(), content: "c".to_string(), content_type: None, metadata: None };
    let id = create_document(&mut storage, Some(1), &body).unwrap().id;
    let e = delete_document(&mut storage, Some(2), id).unwrap_err();
    assert_eq!(e.to_text(), "Forbidden: You don't own this document");
    let e = delete_document(&mut storage, Some(1), id + 1).unwrap_err();
    assert_eq!(e.to_text(), "Not Found: Document not found");
    assert_eq!(delete_document(&mut storage, None, id).unwrap_err().kind(), ErrorKind::Unauthorized);
    delete_document(&mut storage, Some(1), id).unwrap();
    assert!(storage.get_document(id).unwrap().is_none());
}

#[test]
fn uploads_become_documents_unless_they_hold_no_text() {
    let file = UploadedFile { filename: Some("notes.MD".to_string()), mime_type: Some("text/markdown".to_string()), bytes: b"# hi".to_vec() };
    let doc = document_from_upload(3, file).unwrap();
    assert_eq!(doc.name, "notes.MD");
    assert_eq!(doc.content, "# hi");
    assert_eq!(doc.content_type, ContentType::Markdown);
    assert_eq!(doc.file_size, Some(4));
    assert_eq!(doc.mime_type, Some("text/markdown".to_string()));
    let nameless = UploadedFile { filename: None, mime_type: None, bytes: b"x".to_vec() };
    let doc = document_from_upload(3, nameless).unwrap();
    assert_eq!(doc.name, "unknown");
    assert_eq!(doc.content_type, ContentType::Text);
    assert_eq!(doc.mime_type, Some("application/octet-stream".to_string()));
    let code = UploadedFile { filename: Some("a.cpp".to_string()), mime_type: None, bytes: vec![] };
    assert_eq!(document_from_upload(3, code).unwrap().content_type, ContentType::Code);
    let other = UploadedFile { filename: Some("a.swift".to_string()), mime_type: None, bytes: vec![] };
    assert_eq!(document_from_upload(3, other).unwrap().content_type, ContentType::Text);
    let binary = UploadedFile { filename: Some("a.txt".to_string()), mime_type: None, bytes: vec![0xff, 0xfe] };
    assert!(document_from_upload(3, binary).is_none());

    let mut storage = InMemoryStorage::new();
    let files = vec![
        UploadedFile { filename: Some("1.txt".to_string()), mime_type: None, bytes: b"one".to_vec() },
        UploadedFile { filename: Some("2.bin".to_string()), mime_type: None, bytes: vec![0x80] },
        UploadedFile { filename: Some("3.json".to_string()), mime_type: None, bytes: b"{}".to_vec() },
    ];
    let answer = upload_document(&mut storage, Some(3), files).unwrap();
    assert_eq!(answer.uploaded, 2);
    assert_eq!(answer.documents[0].name, "1.txt");
    assert_eq!(answer.documents[1].name, "3.json");
    assert_eq!(answer.documents[1].content_type, "json");
    assert_eq!(storage.get_documents_by_user(3).unwrap().len(), 2);
    assert!(upload_document(&mut storage, None, vec![]).is_err());
}

#[test]
fn cloud_import_is_not_there_yet() {
    let body = ImportCloudRequest { provider: "dropbox".to_string(), file_ids: vec!["a".to_string(), "b".to_string()] };
    let answer = import_cloud(Some(1), &body).unwrap();
    assert_eq!(answer.imported, 0);
    assert_eq!(answer.message, "Cloud import from dropbox not yet implemented. Requested 2 files.");
    assert!(import_cloud(None, &body).is_err());
    assert!(list_cloud_files(Some(1), &CloudFilesQuery { provider: "x".to_string() }).unwrap().files.is_empty());
    assert!(list_cloud_files(None, &CloudFilesQuery { provider: "x".to_string() }).is_err());
}

#[test]
fn legacy_access_check_goes_in_two_steps() {
    assert!(matches!(validate_access(Ok(true)).unwrap(), AccessVerdict::AskRepository));
    match validate_access(Ok(false)).unwrap() {
        AccessVerdict::Answer(answer) => {
            assert!(!answer.valid);
            assert!(answer.repository.is_none());
        }
        AccessVerdict::AskRepository => panic!("nothing more is to be asked"),
    }
    assert!(validate_access(Err(AppError::ExternalService("x".to_string()))).is_err());
    let answer = access_validated(Ok(repo("r"))).unwrap();
    assert!(answer.valid);
    let info = answer.repository.unwrap();
    assert_eq!((info.name.as_str(), info.full_name.as_str(), info.private, info.default_branch.as_str()), ("r", "o/r", true, "main"));
    assert!(access_validated(Err(AppError::ExternalService("x".to_string()))).is_err());
}

#[test]
fn legacy_sync_keeps_a_source_under_no_user() {
    let mut storage = InMemoryStorage::new();
    let body = SyncRepositoryRequest { access_token: "tok".to_string(), repository: "o/r".to_string(), branch: None };
    let answer = sync_repository_legacy(&mut storage, &body).unwrap();
    assert!(answer.success);
    assert_eq!(answer.message, "Sync initiated (legacy mode)");
    let kept = storage.get_source(answer.job_id.unwrap()).unwrap().unwrap();
    assert_eq!(kept.user_id, 0);
    assert_eq!(kept.name, "o/r");
    assert_eq!(kept.connector_type, ConnectorType::GitHub);
    assert_eq!(kept.config.text_at("repository"), Some("o/r".to_string()));
    assert_eq!(kept.config.text_at("branch"), Some("main".to_string()));
    assert_eq!(kept.config.text_at("access_token"), Some("tok".to_string()));
}

#[test]
fn legacy_lists_pass_on_names_and_failures() {
    let answer = get_branches_legacy(Ok(vec![branch("main"), branch("dev")])).unwrap();
    assert_eq!(answer.branches, vec!["main".to_string(), "dev".to_string()]);
    assert!(get_branches_legacy(Err(AppError::ExternalService("x".to_string()))).is_err());
    let langs = RepoLanguages(vec![("Rust".to_string(), 10), ("C".to_string(), 2)]);
    assert_eq!(get_languages_legacy(Ok(langs)).unwrap().languages, vec![("Rust".to_string(), 10), ("C".to_string(), 2)]);
    assert!(get_languages_legacy(Err(AppError::ExternalService("x".to_string()))).is_err());
}

#[test]
fn oauth_sync_keeps_source_and_job() {
    let mut storage = InMemoryStorage::new();
    let body = SyncOAuthRequest { repository: "o/r".to_string(), branch: Some("dev".to_string()) };
    let (answer, run) = sync_oauth(&orchestrator(), &mut storage, Some(6), &body).unwrap();
    assert!(answer.success);
    assert_eq!(answer.message, "Sync started");
    assert_eq!(answer.job_id, Some(run.job_id));
    assert_eq!(run.source.config.text_at("branch"), Some("dev".to_string()));
    assert_eq!(storage.get_sync_job(run.job_id).unwrap().unwrap().source_id, run.source.id);
    assert_eq!(storage.get_source(run.source.id).unwrap().unwrap().user_id, 6);
    assert!(sync_oauth(&orchestrator(), &mut storage, None, &body).is_err());
}

#[test]
fn app_installation_is_recorded_and_listed() {
    assert_eq!(get_install_url(None).url, "https://github.com/apps/conhub-data-connector/installations/new");
    assert_eq!(get_install_url(Some("mine".to_string())).url, "https://github.com/apps/mine/installations/new");
    let mut storage = InMemoryStorage::new();
    let query = CallbackQuery { installation_id: Some(44), setup_action: None };
    let answer = callback(&mut storage, Some(1), &query).unwrap();
    assert!(answer.success);
    assert_eq!(answer.installation_id, 44);
    assert_eq!(answer.message, "GitHub App installed successfully");
    let e = callback(&mut storage, Some(1), &CallbackQuery { installation_id: None, setup_action: None }).unwrap_err();
    assert_eq!(e.to_text(), "Bad Request: Missing installation_id");
    assert!(callback(&mut storage, None, &query).is_err());
    let listed = list_installations(&storage, Some(1)).unwrap();
    assert_eq!(listed.installations.len(), 1);
    assert_eq!(listed.installations[0].installation_id, 44);
    assert_eq!(listed.installations[0].account_login, "pending");
    assert_eq!(listed.installations[0].account_type, "User");
    assert!(list_installations(&storage, Some(2)).unwrap().installations.is_empty());
    assert!(list_repos(Some(1), 44).unwrap().repositories.is_empty());
    assert!(list_repos(None, 44).is_err());
}

#[test]
fn app_repositories_are_chosen_and_jobs_made() {
    let mut storage = InMemoryStorage::new();
    let body = ConfigureReposRequest {
        repositories: vec![
            ConfigureRepoItem { full_name: "o/a".to_string(), branch: Some("dev".to_string()) },
            ConfigureRepoItem { full_name: "o/b".to_string(), branch: None },
        ],
    };
    let answer = configure_repos(&mut storage, Some(1), 44, &body).unwrap();
    assert_eq!(answer.configured, 2);
    assert_eq!(answer.repo_configs[0].repo_full_name, "o/a");
    assert_eq!(answer.repo_configs[0].branch, Some("dev".to_string()));
    assert!(answer.repo_configs[1].sync_enabled);
    assert_eq!(get_selected_repos(&storage, Some(1), 44).unwrap().len(), 2);
    assert!(get_selected_repos(&storage, Some(1), 45).unwrap().is_empty());
    assert!(configure_repos(&mut storage, None, 44, &body).is_err());

    let config_id = answer.repo_configs[0].id;
    let started = sync_repo(&mut storage, Some(1), config_id).unwrap();
    assert_eq!(started.status, "pending");
    assert_eq!(started.message, "Sync initiated for o/a");
    let e = sync_repo(&mut storage, Some(1), 5).unwrap_err();
    assert_eq!(e.to_text(), "Not Found: Repository config not found");
    let info = get_job(&storage, Some(1), started.job_id).unwrap();
    assert_eq!(info.status, "pending");
    assert_eq!(info.source_id, config_id);
    assert_eq!(info.items_processed, 0);
    assert_eq!(info.completed_at, None);
    assert_eq!(get_job(&storage, Some(1), 5).unwrap_err().to_text(), "Not Found: Job not found");
    let going = execute_job(&mut storage, Some(1), started.job_id).unwrap();
    assert_eq!(going.status, "running");
    assert_eq!(going.message, "Job execution started");
    assert_eq!(storage.get_sync_job(started.job_id).unwrap().unwrap().status, SyncStatus::Running);
    assert_eq!(get_job(&storage, Some(1), started.job_id).unwrap().status, "running");
    assert!(execute_job(&mut storage, None, started.job_id).is_err());
}

#[test]
fn health_and_status() {
    assert_eq!(health_check().status, "ok");
    let s = status("1.2.3", 77);
    assert_eq!((s.service.as_str(), s.version.as_str(), s.status.as_str(), s.uptime_seconds), ("data-service", "1.2.3", "running", 77));
    let ok = ApiResponse::success(5u8);
    assert!(ok.success);
    assert_eq!(ok.data, Some(5));
    assert!(ok.error.is_none() && ok.code.is_none());
    let bad = ApiResponse::<()>::error("went wrong".to_string(), Some("SYNC_FAILED".to_string()));
    assert!(!bad.success);
    assert_eq!(bad.error, Some("went wrong".to_string()));
    assert_eq!(bad.code, Some("SYNC_FAILED".to_string()));
    assert!(bad.data.is_none());
}

#[test]
fn local_sync_checks_path_and_starts() {
    let body = LocalSyncRequest { path: String::new(), name: None, profile: Some("work".to_string()) };
    assert_eq!(sync_path(Some(1), &body, Some("/w".to_string())).unwrap(), "/w");
    let e = sync_path(Some(1), &body, None).unwrap_err();
    assert_eq!(e.to_text(), "Bad Request: No path provided and no default configured");
    assert!(sync_path(None, &body, Some("/w".to_string())).is_err());
    let named = LocalSyncRequest { path: "/given".to_string(), name: Some("Mine".to_string()), profile: None };
    assert_eq!(sync_path(Some(1), &named, Some("/w".to_string())).unwrap(), "/given");

    let mut storage = InMemoryStorage::new();
    let missing = DirectoryFacts { exists: false, is_dir: false, name: None };
    let e = sync_local(&orchestrator(), &mut storage, Some(1), &named, "/given".to_string(), &missing).unwrap_err();
    assert_eq!(e.to_text(), "Not Found: Path does not exist: /given");
    let file = DirectoryFacts { exists: true, is_dir: false, name: Some("given".to_string()) };
    let e = sync_local(&orchestrator(), &mut storage, Some(1), &named, "/given".to_string(), &file).unwrap_err();
    assert_eq!(e.to_text(), "Bad Request: Path is not a directory: /given");
    let dir = DirectoryFacts { exists: true, is_dir: true, name: Some("given".to_string()) };
    let (answer, run) = sync_local(&orchestrator(), &mut storage, Some(1), &named, "/given".to_string(), &dir).unwrap();
    assert_eq!(answer.path, "/given");
    assert_eq!(answer.message, "Local sync started");
    assert_eq!(answer.job_id, run.job_id);
    let kept = storage.get_source(answer.source_id).unwrap().unwrap();
    assert_eq!(kept.name, "Mine");
    assert_eq!(kept.connector_type, ConnectorType::LocalFile);
    assert_eq!(kept.config.text_at("path"), Some("/given".to_string()));
    assert!(matches!(kept.config.get("profile"), Some(JsonValue::Null)));
    let (answer, _) = sync_local(&orchestrator(), &mut storage, Some(1), &body, "/w".to_string(), &dir).unwrap();
    let kept = storage.get_source(answer.source_id).unwrap().unwrap();
    assert_eq!(kept.name, "given");
    assert_eq!(kept.config.text_at("profile"), Some("work".to_string()));
    let nameless = DirectoryFacts { exists: true, is_dir: true, name: None };
    let (answer, _) = sync_local(&orchestrator(), &mut storage, Some(1), &body, "/".to_string(), &nameless).unwrap();
    assert_eq!(storage.get_source(answer.source_id).unwrap().unwrap().name, "Local Files");
    assert!(sync_local(&orchestrator(), &mut storage, None, &body, "/w".to_string(), &dir).is_err());
}

#[test]
fn repositories_are_told_from_addresses() {
    let pair = |a: &str, b: &str| Some((a.to_string(), b.to_string()));
    assert_eq!(extract_repo_from_url("https://github.com/owner/repo"), pair("owner", "repo"));
    assert_eq!(extract_repo_from_url("https://github.com/owner/repo.git"), pair("owner", "repo"));
    assert_eq!(extract_repo_from_url("https://github.com/owner/repo.git/"), pair("owner", "repo"));
    assert_eq!(extract_repo_from_url("github.com/owner/repo/"), pair("owner", "repo"));
    assert_eq!(extract_repo_from_url("https://gitlab.com/g/s/p"), pair("s", "p"));
    assert_eq!(extract_repo_from_url("owner/repo"), pair("owner", "repo"));
    assert_eq!(extract_repo_from_url("owner/repo/extra"), pair("owner", "repo/extra"));
    assert_eq!(extract_repo_from_url("https://example.com/a/b"), pair("https:", "/example.com/a/b"));
    assert_eq!(extract_repo_from_url("github.com"), None);
    assert_eq!(extract_repo_from_url("justaname"), None);
    assert_eq!(extract_repo_from_url(""), None);
    assert_eq!(provider_for("https://github.com/o/r"), "github");
    assert_eq!(provider_for("https://gitlab.com/o/r"), "gitlab");
    assert_eq!(provider_for("https://bitbucket.org/o/r"), "bitbucket");
    assert_eq!(provider_for("o/r"), "github");
}

#[test]
fn oauth_check_answers() {
    let body = CheckOAuthRequest { provider: "github".to_string(), repo_url: Some("https://github.com/o/r.git".to_string()) };
    assert_eq!(check_oauth_target(Some(1), &body).unwrap(), ("o".to_string(), "r".to_string()));
    assert!(check_oauth_target(None, &body).is_err());
    let none = CheckOAuthRequest { provider: "github".to_string(), repo_url: None };
    assert_eq!(check_oauth_target(Some(1), &none).unwrap_err().to_text(), "Bad Request: Missing repository or repo_url field");
    let odd = CheckOAuthRequest { provider: "github".to_string(), repo_url: Some("nothing".to_string()) };
    assert_eq!(check_oauth_target(Some(1), &odd).unwrap_err().to_text(), "Bad Request: Invalid repository URL format");

    let langs = RepoLanguages(vec![("Rust".to_string(), 1), ("Go".to_string(), 2)]);
    let answer = check_oauth("github", Ok(repo("r")), Some(langs)).unwrap();
    assert!(answer.success && answer.has_read_access);
    assert_eq!(answer.name, Some("r".to_string()));
    assert_eq!(answer.full_name, Some("o/r".to_string()));
    assert_eq!(answer.default_branch, Some("main".to_string()));
    assert_eq!(answer.private, Some(true));
    assert_eq!(answer.languages, Some(vec!["Rust".to_string(), "Go".to_string()]));
    let answer = check_oauth("github", Err(AppError::ExternalService("GitHub API returned 404 Not Found: ".to_string())), None).unwrap();
    assert!(!answer.success && !answer.has_read_access);
    assert_eq!(answer.code, Some("ACCESS_DENIED".to_string()));
    assert_eq!(answer.error, Some("External Service Error: GitHub API returned 404 Not Found: ".to_string()));
    let e = check_oauth("gitlab", Ok(repo("r")), None).unwrap_err();
    assert_eq!(e.to_text(), "Bad Request: Unsupported provider: gitlab");
}

#[test]
fn branches_are_answered() {
    let answer = get_branches_oauth("github", Ok(repo("r")), Ok(vec![branch("main"), branch("x")])).unwrap();
    assert!(answer.success);
    assert_eq!(answer.data.branches, vec!["main".to_string(), "x".to_string()]);
    assert_eq!(answer.data.default_branch, Some("main".to_string()));
    assert!(get_branches_oauth("other", Ok(repo("r")), Ok(vec![])).is_err());
    let e = get_branches_oauth("github", Err(AppError::ExternalService("first".to_string())), Err(AppError::ExternalService("second".to_string()))).unwrap_err();
    assert_eq!(e.message(), "first");
    let body = FetchBranchesRequest { repo_url: Some("https://gitlab.com/o/r".to_string()) };
    let (owner, name) = fetch_branches_target(Some(1), &body).unwrap();
    let e = fetch_branches_target(Some(1), &FetchBranchesRequest { repo_url: None }).unwrap_err();
    assert_eq!(e.to_text(), "Bad Request: Missing repoUrl field");
    let answer = fetch_branches("https://gitlab.com/o/r", owner, name, Ok(repo("r")), Ok(vec![branch("b")])).unwrap();
    assert_eq!(answer.provider, "gitlab");
    assert_eq!(answer.default_branch, "main");
    assert_eq!(answer.branches, vec!["b".to_string()]);
    assert_eq!((answer.repo_info.owner.as_str(), answer.repo_info.repo.as_str()), ("o", "r"));
}

#[test]
fn user_repositories_are_listed() {
    let answer = list_repositories(Some(1), Some(vec![repo("a"), repo("b")])).unwrap();
    assert!(answer.success);
    assert_eq!(answer.data.repositories.len(), 2);
    let item = &answer.data.repositories[1];
    assert_eq!(item.name, "b");
    assert_eq!(item.full_name, "o/b");
    assert_eq!(item.provider, "github");
    assert_eq!(item.description, Some("d".to_string()));
    assert_eq!(item.html_url, "https://github.com/o/b");
    assert!(list_repositories(Some(1), None).unwrap().data.repositories.is_empty());
    assert!(list_repositories(None, None).is_err());
}
