use data_service::clients::chunker::ChunkJobResponse;
use data_service::clients::github_api::TreeEntry;
use data_service::clients::AuthClient;
use data_service::clients::ChunkerClient;
use data_service::clients::GitHubApiClient;
use data_service::domain::connectors::session::FetchReply;
use data_service::domain::connectors::session::FetchRequest;
use data_service::domain::connectors::Connector;
use data_service::domain::connectors::ConnectorManager;
use data_service::domain::models::ConnectorType;
use data_service::domain::models::DataSource;
use data_service::domain::models::SourceKind;
use data_service::domain::models::SyncJob;
use data_service::domain::models::SyncStatus;
use data_service::domain::sync::SyncOrchestrator;
use data_service::domain::sync::SyncReply;
use data_service::domain::sync::SyncRequest;
use data_service::domain::sync::SyncRun;
use data_service::domain::sync::SyncStage;
use data_service::domain::sync::SyncStep;
use data_service::error::AppError;
use data_service::error::ErrorKind;
use data_service::json::JsonValue;
use data_service::storage::memory::InMemoryStorage;
use data_service::storage::Storage;

fn orchestrator() -> SyncOrchestrator {
    SyncOrchestrator::new(
        AuthClient::new("http://auth".to_string()),
        ChunkerClient::new("http://chunker".to_string()),
        GitHubApiClient::new(),
    )
}

fn github_source(storage: &mut InMemoryStorage) -> DataSource {
    let config = JsonValue::Object(vec![
        ("repository".to_string(), JsonValue::Text("o/r".to_string())),
        ("branch".to_string(), JsonValue::Text("main".to_string())),
    ]);
    let source = DataSource::new(11, "o/r".to_string(), ConnectorType::GitHub, config);
    storage.save_source(source).unwrap()
}

fn blob(path: &str) -> TreeEntry {
    TreeEntry { path: path.to_string(), file_type: "blob".to_string(), sha: "s".to_string(), size: None }
}

fn started(storage: &mut InMemoryStorage) -> (DataSource, SyncJob, SyncRun) {
    let source = github_source(storage);
    let (job, run) = orchestrator().start_sync(storage, source.clone(), 11).unwrap();
    (source, job, run)
}

#[test]
fn start_sync_returns_pending_job_before_anything_is_asked() {
    let mut storage = InMemoryStorage::new();
    let (source, job, run) = started(&mut storage);
    assert_eq!(job.status, SyncStatus::Pending);
    assert_eq!(job.source_id, source.id);
    assert_eq!(job.user_id, 11);
    assert_eq!(job.items_processed, 0);
    assert_eq!(job.items_total, None);
    assert_eq!(job.error, None);
    assert_eq!(job.completed_at, None);
    assert!(matches!(run.stage, SyncStage::Scheduled));
    assert_eq!(run.job_id, job.id);
    let kept = storage.get_sync_job(job.id).unwrap().unwrap();
    assert_eq!(kept.status, SyncStatus::Pending);
    assert_eq!(kept.started_at, job.started_at);
    let src = storage.get_source(source.id).unwrap().unwrap();
    assert_eq!(src.status, SyncStatus::Pending);
}

#[test]
fn each_start_makes_one_new_job() {
    let mut storage = InMemoryStorage::new();
    let source = github_source(&mut storage);
    let (a, _) = orchestrator().start_sync(&mut storage, source.clone(), 11).unwrap();
    let (b, _) = orchestrator().start_sync(&mut storage, source.clone(), 11).unwrap();
    assert_ne!(a.id, b.id);
    assert!(storage.get_sync_job(a.id).unwrap().is_some());
    assert!(storage.get_sync_job(b.id).unwrap().is_some());
}

#[test]
fn run_goes_from_token_to_completed() {
    let mut storage = InMemoryStorage::new();
    let (source, job, run) = started(&mut storage);
    let (run, step) = run.begin(&mut storage);
    assert!(matches!(step, SyncStep::Ask(SyncRequest::Fetch(FetchRequest::Token { .. }))));
    assert_eq!(storage.get_sync_job(job.id).unwrap().unwrap().status, SyncStatus::Running);
    assert_eq!(storage.get_source(source.id).unwrap().unwrap().status, SyncStatus::Running);

    let (run, step) = run.advance(&mut storage, SyncReply::Fetch(FetchReply::Token(Ok("t".to_string()))));
    assert!(matches!(step, SyncStep::Ask(SyncRequest::Fetch(FetchRequest::Tree { .. }))));
    let tree = vec![blob("README.md"), blob("img.png"), blob("src/main.rs")];
    let (run, step) = run.advance(&mut storage, SyncReply::Fetch(FetchReply::Tree(Ok(tree))));
    match &step {
        SyncStep::Ask(SyncRequest::Fetch(FetchRequest::Content { path, .. })) => assert_eq!(path, "README.md"),
        other => panic!("no content was asked for: {:?}", other),
    }
    let (run, step) = run.advance(&mut storage, SyncReply::Fetch(FetchReply::Content(Ok("# r".to_string()))));
    match &step {
        SyncStep::Ask(SyncRequest::Fetch(FetchRequest::Content { path, .. })) => assert_eq!(path, "src/main.rs"),
        other => panic!("no content was asked for: {:?}", other),
    }
    let (run, step) = run.advance(&mut storage, SyncReply::Fetch(FetchReply::Content(Ok("fn main(){}".to_string()))));
    match &step {
        SyncStep::Ask(SyncRequest::Dispatch { source_id, source_kind, documents }) => {
            assert_eq!(*source_id, source.id);
            assert_eq!(*source_kind, SourceKind::CodeRepo);
            assert_eq!(documents.len(), 2);
            assert_eq!(documents[0].name, "README.md");
            assert_eq!(documents[1].name, "main.rs");
        }
        other => panic!("nothing was handed on: {:?}", other),
    }
    assert_eq!(storage.get_sync_job(job.id).unwrap().unwrap().status, SyncStatus::Running);
    let reply = ChunkJobResponse { job_id: 99, accepted: true, items_count: 2, message: None };
    let (run, step) = run.advance(&mut storage, SyncReply::Dispatched(Ok(reply)));
    assert!(matches!(step, SyncStep::Finished(Ok(()))));
    assert!(matches!(run.stage, SyncStage::Finished));

    let kept = storage.get_sync_job(job.id).unwrap().unwrap();
    assert_eq!(kept.status, SyncStatus::Completed);
    assert_eq!(kept.error, None);
    assert!(kept.completed_at.is_some());
    let src = storage.get_source(source.id).unwrap().unwrap();
    assert_eq!(src.status, SyncStatus::Completed);
    assert!(src.last_synced_at.is_some());
    assert_eq!(src.sync_status, SyncStatus::Pending);
}

#[test]
fn tree_failure_marks_job_failed_with_message() {
    let mut storage = InMemoryStorage::new();
    let (source, job, run) = started(&mut storage);
    let (run, _) = run.begin(&mut storage);
    let (run, _) = run.advance(&mut storage, SyncReply::Fetch(FetchReply::Token(Ok("t".to_string()))));
    let failure = AppError::ExternalService("GitHub API returned 500 Internal Server Error: boom".to_string());
    let (run, step) = run.advance(&mut storage, SyncReply::Fetch(FetchReply::Tree(Err(failure))));
    match step {
        SyncStep::Finished(Err(e)) => {
            assert_eq!(e.kind(), ErrorKind::ExternalService);
            assert_eq!(e.message(), "GitHub API returned 500 Internal Server Error: boom");
        }
        other => panic!("the run has not failed: {:?}", other),
    }
    assert!(matches!(run.stage, SyncStage::Finished));
    let kept = storage.get_sync_job(job.id).unwrap().unwrap();
    assert_eq!(kept.status, SyncStatus::Failed);
    assert_eq!(
        kept.error,
        Some("External Service Error: GitHub API returned 500 Internal Server Error: boom".to_string())
    );
    assert!(kept.completed_at.is_some());
    let src = storage.get_source(source.id).unwrap().unwrap();
    assert_eq!(src.status, SyncStatus::Running);
    assert_eq!(src.last_synced_at, None);
}

#[test]
fn dispatch_failure_fails_the_job() {
    let mut storage = InMemoryStorage::new();
    let (_, job, run) = started(&mut storage);
    let (run, _) = run.begin(&mut storage);
    let (run, _) = run.advance(&mut storage, SyncReply::Fetch(FetchReply::Token(Ok("t".to_string()))));
    let (run, _) = run.advance(&mut storage, SyncReply::Fetch(FetchReply::Tree(Ok(vec![blob("a.txt")]))));
    let (run, step) = run.advance(&mut storage, SyncReply::Fetch(FetchReply::Content(Ok("a".to_string()))));
    assert!(matches!(step, SyncStep::Ask(SyncRequest::Dispatch { .. })));
    let failure = AppError::ExternalService("Chunker service returned 503 Service Unavailable: ".to_string());
    let (_, step) = run.advance(&mut storage, SyncReply::Dispatched(Err(failure)));
    assert!(matches!(step, SyncStep::Finished(Err(_))));
    let kept = storage.get_sync_job(job.id).unwrap().unwrap();
    assert_eq!(kept.status, SyncStatus::Failed);
    assert_eq!(
        kept.error,
        Some("External Service Error: Chunker service returned 503 Service Unavailable: ".to_string())
    );
}

#[test]
fn run_without_documents_completes_without_dispatch() {
    let mut storage = InMemoryStorage::new();
    let (source, job, run) = started(&mut storage);
    let (run, _) = run.begin(&mut storage);
    let (run, _) = run.advance(&mut storage, SyncReply::Fetch(FetchReply::Token(Ok("t".to_string()))));
    let (_, step) = run.advance(&mut storage, SyncReply::Fetch(FetchReply::Tree(Ok(vec![blob("x.png")]))));
    assert!(matches!(step, SyncStep::Finished(Ok(()))));
    assert_eq!(storage.get_sync_job(job.id).unwrap().unwrap().status, SyncStatus::Completed);
    assert_eq!(storage.get_source(source.id).unwrap().unwrap().status, SyncStatus::Completed);
}

#[test]
fn run_of_unimplemented_connector_fails_the_job() {
    let mut storage = InMemoryStorage::new();
    let source = DataSource::new(1, "s".to_string(), ConnectorType::Slack, JsonValue::Object(vec![]));
    let source = storage.save_source(source).unwrap();
    let (job, run) = orchestrator().start_sync(&mut storage, source, 1).unwrap();
    let (_, step) = run.begin(&mut storage);
    match step {
        SyncStep::Finished(Err(e)) => {
            assert_eq!(e.kind(), ErrorKind::Internal);
            assert_eq!(e.message(), "Slack connector not yet implemented");
        }
        other => panic!("the run has not failed: {:?}", other),
    }
    let kept = storage.get_sync_job(job.id).unwrap().unwrap();
    assert_eq!(kept.status, SyncStatus::Failed);
    assert_eq!(kept.error, Some("Internal Error: Slack connector not yet implemented".to_string()));
}

#[test]
fn run_cannot_begin_twice_or_take_odd_replies() {
    let mut storage = InMemoryStorage::new();
    let (_, job, run) = started(&mut storage);
    let (run, step) = run.advance(&mut storage, SyncReply::Fetch(FetchReply::Token(Ok("t".to_string()))));
    match step {
        SyncStep::Finished(Err(e)) => assert_eq!(e.message(), "Unexpected reply"),
        other => panic!("the run has not failed: {:?}", other),
    }
    assert_eq!(storage.get_sync_job(job.id).unwrap().unwrap().status, SyncStatus::Failed);
    let (_, step) = run.begin(&mut storage);
    assert!(matches!(step, SyncStep::Finished(Err(_))));
}

#[test]
fn source_kinds_by_connector_type() {
    assert_eq!(SyncOrchestrator::source_kind(ConnectorType::GitHub), SourceKind::CodeRepo);
    assert_eq!(SyncOrchestrator::source_kind(ConnectorType::GitLab), SourceKind::CodeRepo);
    assert_eq!(SyncOrchestrator::source_kind(ConnectorType::Bitbucket), SourceKind::CodeRepo);
    assert_eq!(SyncOrchestrator::source_kind(ConnectorType::Slack), SourceKind::Chat);
    assert_eq!(SyncOrchestrator::source_kind(ConnectorType::Notion), SourceKind::Document);
    assert_eq!(SyncOrchestrator::source_kind(ConnectorType::Confluence), SourceKind::Document);
    assert_eq!(SyncOrchestrator::source_kind(ConnectorType::UrlScraper), SourceKind::Document);
    assert_eq!(SyncOrchestrator::source_kind(ConnectorType::GoogleDrive), SourceKind::Document);
    assert_eq!(SyncOrchestrator::source_kind(ConnectorType::Dropbox), SourceKind::Document);
    assert_eq!(SyncOrchestrator::source_kind(ConnectorType::LocalFile), SourceKind::Document);
}

#[test]
fn every_connector_type_has_a_connector() {
    let manager = ConnectorManager::new(AuthClient::new("a".to_string()), GitHubApiClient::new());
    let all = [
        (ConnectorType::LocalFile, ConnectorType::LocalFile),
        (ConnectorType::GitHub, ConnectorType::GitHub),
        (ConnectorType::GitLab, ConnectorType::GitLab),
        (ConnectorType::Bitbucket, ConnectorType::Bitbucket),
        (ConnectorType::GoogleDrive, ConnectorType::GoogleDrive),
        (ConnectorType::Dropbox, ConnectorType::Dropbox),
        (ConnectorType::Slack, ConnectorType::Slack),
        (ConnectorType::Notion, ConnectorType::UrlScraper),
        (ConnectorType::Confluence, ConnectorType::UrlScraper),
        (ConnectorType::UrlScraper, ConnectorType::UrlScraper),
    ];
    for (asked, served) in all {
        assert_eq!(manager.get_connector(asked).connector_type(), served);
    }
}

#[test]
fn stub_connectors_fail_with_their_own_words() {
    use_stub(ConnectorType::GitLab, "GitLab connector not yet implemented");
    use_stub(ConnectorType::Bitbucket, "Bitbucket connector not yet implemented");
    use_stub(ConnectorType::GoogleDrive, "Google Drive connector not yet implemented");
    use_stub(ConnectorType::Dropbox, "Dropbox connector not yet implemented");
    use_stub(ConnectorType::Slack, "Slack connector not yet implemented");
    use_stub(ConnectorType::UrlScraper, "URL scraper connector not yet implemented");
    use_stub(ConnectorType::Notion, "URL scraper connector not yet implemented");
    use_stub(ConnectorType::Confluence, "URL scraper connector not yet implemented");
}

fn use_stub(kind: ConnectorType, words: &str) {
    let manager = ConnectorManager::new(AuthClient::new("a".to_string()), GitHubApiClient::new());
    let connector: Connector = manager.get_connector(kind);
    let source = DataSource::new(1, "s".to_string(), kind, JsonValue::Null);
    let (_, step) = connector.fetch_content(&source, 1);
    match step {
        data_service::domain::connectors::session::FetchStep::Failed(e) => {
            assert_eq!(e.kind(), ErrorKind::Internal);
            assert_eq!(e.message(), words);
        }
        other => panic!("the fetch has not failed: {:?}", other),
    }
    let (_, step) = connector.validate_access(&source, 1);
    match step {
        data_service::domain::connectors::session::AccessStep::Failed(e) => assert_eq!(e.message(), words),
        other => panic!("the check has not failed: {:?}", other),
    }
}
