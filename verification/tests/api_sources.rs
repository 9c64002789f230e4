use data_service::api::data_sources::connect_source;
use data_service::api::data_sources::create_source;
use data_service::api::data_sources::delete_source;
use data_service::api::data_sources::extract_name_from_url;
use data_service::api::data_sources::get_source;
use data_service::api::data_sources::list_sources;
use data_service::api::data_sources::parse_connector_type;
use data_service::api::data_sources::sync_source;
use data_service::api::data_sources::ConnectSourceRequest;
use data_service::api::data_sources::CreateSourceRequest;
use data_service::api::data_sources::SyncOutcome;
use data_service::clients::AuthClient;
use data_service::clients::ChunkerClient;
use data_service::clients::GitHubApiClient;
use data_service::domain::models::ConnectorType;
use data_service::domain::models::SyncStatus;
use data_service::domain::sync::SyncOrchestrator;
use data_service::domain::sync::SyncStage;
use data_service::error::ErrorKind;
use data_service::json::JsonValue;
use data_service::storage::memory::InMemoryStorage;
use data_service::storage::Storage;

fn orchestrator() -> SyncOrchestrator {
    SyncOrchestrator::new(
        AuthClient::new("http://auth".to_string()),
        ChunkerClient::new("http://chunker".to_string()),
        GitHubApiClient::new(),
    )
}

fn object(members: &[(&str, &str)]) -> JsonValue {
    JsonValue::Object(members.iter().map(|(k, v)| (k.to_string(), JsonValue::Text(v.to_string()))).collect())
}

#[test]
fn connector_types_are_parsed_by_name() {
    let all = [
        ("github", ConnectorType::GitHub),
        ("GitHub", ConnectorType::GitHub),
        ("gitlab", ConnectorType::GitLab),
        ("bitbucket", ConnectorType::Bitbucket),
        ("google_drive", ConnectorType::GoogleDrive),
        ("googledrive", ConnectorType::GoogleDrive),
        ("dropbox", ConnectorType::Dropbox),
        ("SLACK", ConnectorType::Slack),
        ("notion", ConnectorType::Notion),
        ("confluence", ConnectorType::Confluence),
        ("url_scraper", ConnectorType::UrlScraper),
        ("urlscraper", ConnectorType::UrlScraper),
        ("url", ConnectorType::UrlScraper),
        ("local_file", ConnectorType::LocalFile),
        ("localfile", ConnectorType::LocalFile),
        ("Local", ConnectorType::LocalFile),
    ];
    for (name, kind) in all {
        assert_eq!(parse_connector_type(name).unwrap(), kind);
    }
    let e = parse_connector_type("Svn").unwrap_err();
    assert_eq!(e.kind(), ErrorKind::BadRequest);
    assert_eq!(e.message(), "Unknown source type: Svn");
    assert!(parse_connector_type("").is_err());
    assert!(parse_connector_type("git hub").is_err());
}

#[test]
fn connector_type_names() {
    assert_eq!(ConnectorType::LocalFile.as_str(), "local_file");
    assert_eq!(ConnectorType::GitHub.as_str(), "github");
    assert_eq!(ConnectorType::GitLab.as_str(), "gitlab");
    assert_eq!(ConnectorType::Bitbucket.as_str(), "bitbucket");
    assert_eq!(ConnectorType::GoogleDrive.as_str(), "google_drive");
    assert_eq!(ConnectorType::Dropbox.as_str(), "dropbox");
    assert_eq!(ConnectorType::Slack.as_str(), "slack");
    assert_eq!(ConnectorType::Notion.as_str(), "notion");
    assert_eq!(ConnectorType::Confluence.as_str(), "confluence");
    assert_eq!(ConnectorType::UrlScraper.as_str(), "url_scraper");
}

#[test]
fn names_are_taken_from_addresses() {
    assert_eq!(extract_name_from_url("https://github.com/owner/repo"), "owner/repo");
    assert_eq!(extract_name_from_url("https://github.com/owner/repo/"), "owner/repo");
    assert_eq!(extract_name_from_url("https://gitlab.com/group/sub/project///"), "sub/project");
    assert_eq!(extract_name_from_url("git@bitbucket.org:team/repo"), "git@bitbucket.org:team/repo");
    assert_eq!(extract_name_from_url("github.com/x"), "github.com/x");
    assert_eq!(extract_name_from_url("github.com"), "github.com");
    assert_eq!(extract_name_from_url("https://example.com/a/b"), "https://example.com/a/b");
    assert_eq!(extract_name_from_url("https://github.com/owner/repo.git"), "owner/repo.git");
}

#[test]
fn create_source_keeps_the_source_and_starts_sync_for_the_host() {
    let mut storage = InMemoryStorage::new();
    let body = CreateSourceRequest {
        name: "My repo".to_string(),
        source_type: "GitHub".to_string(),
        config: object(&[("repository", "o/r"), ("url", "https://github.com/o/r"), ("defaultBranch", "dev")]),
    };
    let (answer, run) = create_source(&orchestrator(), &mut storage, Some(5), &body).unwrap();
    assert!(answer.success);
    assert_eq!(answer.message, "Data source created successfully. Sync will be triggered automatically.");
    assert!(answer.sync_started);
    assert_eq!(answer.data.name, "My repo");
    assert_eq!(answer.data.source_type, "GitHub");
    assert_eq!(answer.data.url, Some("o/r".to_string()));
    assert_eq!(answer.data.status, "connected");
    assert_eq!(answer.data.default_branch, Some("dev".to_string()));
    let kept = storage.get_source(answer.data.id).unwrap().unwrap();
    assert_eq!(kept.user_id, 5);
    assert_eq!(kept.connector_type, ConnectorType::GitHub);
    assert_eq!(kept.status, SyncStatus::Pending);
    assert_eq!(answer.data.created_at, kept.created_at.to_rfc3339());
    let run = run.unwrap();
    assert!(matches!(run.stage, SyncStage::Scheduled));
    assert_eq!(run.user_id, 5);
    assert_eq!(run.source.id, kept.id);
    let job = storage.get_sync_job(run.job_id).unwrap().unwrap();
    assert_eq!(job.status, SyncStatus::Pending);
    assert_eq!(job.source_id, kept.id);
}

#[test]
fn create_source_of_another_kind_starts_no_sync() {
    let mut storage = InMemoryStorage::new();
    let body = CreateSourceRequest {
        name: "Chat".to_string(),
        source_type: "slack".to_string(),
        config: object(&[("url", "https://x.slack.com"), ("branch", "b")]),
    };
    let (answer, run) = create_source(&orchestrator(), &mut storage, Some(5), &body).unwrap();
    assert!(!answer.sync_started);
    assert!(run.is_none());
    assert_eq!(answer.data.url, Some("https://x.slack.com".to_string()));
    assert_eq!(answer.data.default_branch, Some("b".to_string()));
    assert_eq!(storage.get_sources_by_user(5).unwrap().len(), 1);
}

#[test]
fn create_source_refuses_strangers_and_unknown_kinds() {
    let mut storage = InMemoryStorage::new();
    let body = CreateSourceRequest { name: "n".to_string(), source_type: "svn".to_string(), config: JsonValue::Null };
    let e = create_source(&orchestrator(), &mut storage, None, &body).unwrap_err();
    assert_eq!(e.kind(), ErrorKind::Unauthorized);
    assert_eq!(e.message(), "Missing or invalid authorization");
    let e = create_source(&orchestrator(), &mut storage, Some(1), &body).unwrap_err();
    assert_eq!(e.kind(), ErrorKind::BadRequest);
    assert_eq!(e.message(), "Unknown source type: svn");
    assert!(storage.get_sources_by_user(1).unwrap().is_empty());
}

#[test]
fn connect_source_builds_config_and_name_from_the_address() {
    let mut storage = InMemoryStorage::new();
    let body = ConnectSourceRequest {
        source_type: "github".to_string(),
        url: Some("https://github.com/acme/tool/".to_string()),
        credentials: Some(object(&[("token", "t0"), ("other", "x")])),
        config: Some(object(&[("branch", "trunk")])),
    };
    assert!(body.is_writable());
    let (answer, run) = connect_source(&orchestrator(), &mut storage, Some(8), &body).unwrap();
    assert_eq!(answer.message, "Repository connected successfully");
    assert_eq!(answer.data.name, "acme/tool");
    assert_eq!(answer.data.url, Some("https://github.com/acme/tool/".to_string()));
    assert_eq!(answer.data.default_branch, Some("trunk".to_string()));
    assert!(answer.sync_started);
    assert!(run.is_some());
    let kept = storage.get_source(answer.data.id).unwrap().unwrap();
    assert_eq!(kept.name, "acme/tool");
    assert_eq!(kept.config.text_at("repository"), Some("acme/tool".to_string()));
    assert_eq!(kept.config.text_at("url"), Some("https://github.com/acme/tool/".to_string()));
    assert_eq!(kept.config.text_at("access_token"), Some("t0".to_string()));
    assert_eq!(kept.config.text_at("branch"), Some("trunk".to_string()));
}

#[test]
fn connect_source_prefers_configured_name_and_access_token() {
    let mut storage = InMemoryStorage::new();
    let body = ConnectSourceRequest {
        source_type: "gitlab".to_string(),
        url: Some("https://gitlab.com/a/b".to_string()),
        credentials: Some(object(&[("token", "second"), ("accessToken", "first")])),
        config: Some(object(&[("name", "Friendly"), ("defaultBranch", "d"), ("branch", "b")])),
    };
    let (answer, run) = connect_source(&orchestrator(), &mut storage, Some(8), &body).unwrap();
    assert_eq!(answer.data.name, "Friendly");
    assert_eq!(answer.data.default_branch, Some("d".to_string()));
    assert!(!answer.sync_started);
    assert!(run.is_none());
    let kept = storage.get_source(answer.data.id).unwrap().unwrap();
    assert_eq!(kept.config.text_at("access_token"), Some("first".to_string()));
}

#[test]
fn connect_source_without_address_is_named_by_kind() {
    let mut storage = InMemoryStorage::new();
    let body = ConnectSourceRequest { source_type: "Dropbox".to_string(), url: None, credentials: None, config: None };
    assert!(body.is_writable());
    let (answer, _) = connect_source(&orchestrator(), &mut storage, Some(8), &body).unwrap();
    assert_eq!(answer.data.name, "Dropbox Source");
    assert_eq!(answer.data.url, None);
    let kept = storage.get_source(answer.data.id).unwrap().unwrap();
    assert!(matches!(&kept.config, JsonValue::Object(m) if m.is_empty()));
    let odd = ConnectSourceRequest {
        source_type: "github".to_string(),
        url: Some("u".to_string()),
        credentials: None,
        config: Some(JsonValue::Text("not an object".to_string())),
    };
    assert!(!odd.is_writable());
    let fine = ConnectSourceRequest {
        source_type: "github".to_string(),
        url: None,
        credentials: Some(object(&[("user", "x")])),
        config: Some(JsonValue::Text("not an object".to_string())),
    };
    assert!(fine.is_writable());
}

#[test]
fn sources_are_listed_with_a_count() {
    let mut storage = InMemoryStorage::new();
    for name in ["a", "b", "c"] {
        let body = CreateSourceRequest {
            name: name.to_string(),
            source_type: "local".to_string(),
            config: object(&[("url", "u"), ("repository", "r"), ("branch", "main")]),
        };
        create_source(&orchestrator(), &mut storage, Some(2), &body).unwrap();
    }
    let answer = list_sources(&storage, Some(2)).unwrap();
    assert!(answer.success);
    assert_eq!(answer.message, "Retrieved 3 data sources");
    assert_eq!(answer.data.data_sources.len(), 3);
    let item = &answer.data.data_sources[0];
    assert_eq!(item.user_id, 2);
    assert_eq!(item.source_type, "local_file");
    assert_eq!(item.url, Some("u".to_string()));
    assert_eq!(item.default_branch, Some("main".to_string()));
    assert_eq!(item.status, "pending");
    assert_eq!(item.sync_status, "pending");
    assert_eq!(item.documents_count, 0);
    assert_eq!(item.last_synced_at, None);
    assert_eq!(list_sources(&storage, Some(3)).unwrap().message, "Retrieved 0 data sources");
    assert_eq!(list_sources(&storage, None).unwrap_err().kind(), ErrorKind::Unauthorized);
}

#[test]
fn source_is_shown_to_its_owner_only() {
    let mut storage = InMemoryStorage::new();
    let body = CreateSourceRequest { name: "n".to_string(), source_type: "local".to_string(), config: JsonValue::Null };
    let (answer, _) = create_source(&orchestrator(), &mut storage, Some(2), &body).unwrap();
    let id = answer.data.id;
    assert_eq!(get_source(&storage, Some(2), id).unwrap().name, "n");
    let e = get_source(&storage, Some(3), id).unwrap_err();
    assert_eq!(e.kind(), ErrorKind::Forbidden);
    assert_eq!(e.message(), "You don't have access to this data source");
    let e = get_source(&storage, Some(2), 17).unwrap_err();
    assert_eq!(e.kind(), ErrorKind::NotFound);
    assert_eq!(e.message(), "Data source 00000000-0000-0000-0000-000000000011 not found");
    assert_eq!(get_source(&storage, None, id).unwrap_err().kind(), ErrorKind::Unauthorized);
}

#[test]
fn source_is_deleted_by_its_owner_only() {
    let mut storage = InMemoryStorage::new();
    let body = CreateSourceRequest { name: "n".to_string(), source_type: "local".to_string(), config: JsonValue::Null };
    let (answer, _) = create_source(&orchestrator(), &mut storage, Some(2), &body).unwrap();
    let id = answer.data.id;
    assert_eq!(delete_source(&mut storage, Some(3), id).unwrap_err().kind(), ErrorKind::Forbidden);
    assert!(storage.get_source(id).unwrap().is_some());
    let done = delete_source(&mut storage, Some(2), id).unwrap();
    assert!(done.success);
    assert_eq!(done.message, format!("Data source {} deleted successfully", uuid::Uuid::from_u128(id)));
    assert!(storage.get_source(id).unwrap().is_none());
    assert_eq!(delete_source(&mut storage, Some(2), id).unwrap_err().kind(), ErrorKind::NotFound);
}

#[test]
fn sync_is_started_for_the_owner() {
    let mut storage = InMemoryStorage::new();
    let body = CreateSourceRequest { name: "n".to_string(), source_type: "local".to_string(), config: JsonValue::Null };
    let (answer, _) = create_source(&orchestrator(), &mut storage, Some(2), &body).unwrap();
    let id = answer.data.id;
    match sync_source(&orchestrator(), &mut storage, Some(2), id).unwrap() {
        SyncOutcome::Started(answer, run) => {
            assert!(answer.success);
            assert_eq!(answer.message, "Sync started successfully");
            assert_eq!(answer.data.status, "in-progress");
            assert_eq!(answer.data.sync_id, uuid::Uuid::from_u128(run.job_id).to_string());
            assert_eq!(answer.data.sync_id.len(), 36);
            assert_eq!(storage.get_sync_job(run.job_id).unwrap().unwrap().status, SyncStatus::Pending);
        }
        SyncOutcome::NotStarted(why) => panic!("the sync was not started: {}", why),
    }
    assert_eq!(sync_source(&orchestrator(), &mut storage, Some(9), id).unwrap_err().kind(), ErrorKind::Forbidden);
    assert_eq!(sync_source(&orchestrator(), &mut storage, Some(2), 1).unwrap_err().kind(), ErrorKind::NotFound);
    assert_eq!(sync_source(&orchestrator(), &mut storage, None, id).unwrap_err().kind(), ErrorKind::Unauthorized);
}
