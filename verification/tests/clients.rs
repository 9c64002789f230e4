use data_service::clients::auth::OAuthTokenResponse;
use data_service::clients::chunker::ChunkJobResponse;
use data_service::clients::github_api::ContentResponse;
use data_service::clients::github_api::TreeEntry;
use data_service::clients::http::ApiReply;
use data_service::clients::http::HttpMethod;
use data_service::clients::AuthClient;
use data_service::clients::ChunkerClient;
use data_service::clients::GitHubApiClient;
use data_service::clock::Timestamp;
use data_service::domain::connectors::github::GitHubConnector;
use data_service::domain::models::SourceKind;
use data_service::error::ErrorKind;
use data_service::json::JsonValue;

#[test]
fn token_request_names_provider_and_user() {
    let client = AuthClient::new("http://auth:3010".to_string());
    let req = client.token_request("github", 0x67e5504410b1426f9247bb680e5fe0c8);
    assert_eq!(req.method, HttpMethod::Get);
    assert_eq!(
        req.url,
        "http://auth:3010/api/auth/internal/tokens/github?user_id=67e55044-10b1-426f-9247-bb680e5fe0c8"
    );
    assert!(req.headers.is_empty());
}

#[test]
fn token_request_shows_the_key() {
    let client = AuthClient::with_api_key("http://a".to_string(), Some("SECRET-REDACTED".to_string()));
    let req = client.token_request("gitlab", 0);
    assert_eq!(req.url, "http://a/api/auth/internal/tokens/gitlab?user_id=00000000-0000-0000-0000-000000000000");
    assert_eq!(req.headers, vec![("X-Internal-Api-Key".to_string(), "SECRET-REDACTED".to_string())]);
    let none = AuthClient::with_api_key("http://a".to_string(), None);
    assert!(none.token_request("x", 1).headers.is_empty());
}

#[test]
fn token_is_read_from_the_answer() {
    let answer = OAuthTokenResponse { access_token: "tok".to_string(), token_type: None, expires_at: None };
    assert_eq!(AuthClient::get_oauth_token(ApiReply::Accepted(answer)).unwrap(), "tok");
}

#[test]
fn token_failures_are_service_failures() {
    let e = AuthClient::get_oauth_token(ApiReply::Unreachable("refused".to_string())).unwrap_err();
    assert_eq!(e.kind(), ErrorKind::ExternalService);
    assert_eq!(e.message(), "Auth service request failed: refused");
    let e = AuthClient::get_oauth_token(ApiReply::Rejected {
        code: 404,
        status: "404 Not Found".to_string(),
        body: "no token".to_string(),
    })
    .unwrap_err();
    assert_eq!(e.message(), "Auth service returned 404 Not Found: no token");
    let e = AuthClient::get_oauth_token(ApiReply::Garbled("missing field".to_string())).unwrap_err();
    assert_eq!(e.message(), "Failed to parse auth response: missing field");
    assert_eq!(e.kind(), ErrorKind::ExternalService);
}

#[test]
fn host_requests_carry_the_three_headers() {
    let req = GitHubApiClient::tree_request("tok", "o/r", "main");
    assert_eq!(req.method, HttpMethod::Get);
    assert_eq!(req.url, "https://api.github.com/repos/o/r/git/trees/main?recursive=1");
    assert_eq!(
        req.headers,
        vec![
            ("Authorization".to_string(), "Bearer tok".to_string()),
            ("User-Agent".to_string(), "data-service".to_string()),
            ("Accept".to_string(), "application/vnd.github+json".to_string()),
        ]
    );
}

#[test]
fn host_addresses() {
    assert_eq!(GitHubApiClient::repository_request("t", "o/r").url, "https://api.github.com/repos/o/r");
    assert_eq!(
        GitHubApiClient::content_request("t", "o/r", "src/a b.rs", "dev").url,
        "https://api.github.com/repos/o/r/contents/src/a b.rs?ref=dev"
    );
    assert_eq!(GitHubApiClient::branches_request("t", "o/r").url, "https://api.github.com/repos/o/r/branches");
    assert_eq!(GitHubApiClient::languages_request("t", "o/r").url, "https://api.github.com/repos/o/r/languages");
    assert_eq!(
        GitHubApiClient::user_repos_request("t").url,
        "https://api.github.com/user/repos?per_page=100&sort=updated"
    );
}

#[test]
fn access_is_told_from_the_status() {
    assert_eq!(GitHubApiClient::validate_repo_access(ApiReply::Accepted(())).unwrap(), true);
    for (code, status) in [(401u16, "401 Unauthorized"), (403, "403 Forbidden"), (404, "404 Not Found")] {
        let rejected = ApiReply::Rejected { code, status: status.to_string(), body: "{}".to_string() };
        assert_eq!(GitHubApiClient::validate_repo_access(rejected).unwrap(), false);
    }
    let e = GitHubApiClient::validate_repo_access(ApiReply::Unreachable("dns".to_string())).unwrap_err();
    assert_eq!(e.kind(), ErrorKind::ExternalService);
    assert_eq!(e.message(), "dns");
    let e = GitHubApiClient::validate_repo_access(ApiReply::Garbled("odd".to_string())).unwrap_err();
    assert_eq!(e.kind(), ErrorKind::ExternalService);
    assert_eq!(e.message(), "odd");
}

#[test]
fn access_probe_passes_on_failures_of_the_host() {
    let all = [
        (500u16, "500 Internal Server Error", "boom"),
        (502, "502 Bad Gateway", ""),
        (503, "503 Service Unavailable", "later"),
        (429, "429 Too Many Requests", "slow down"),
        (400, "400 Bad Request", "bad"),
        (301, "301 Moved Permanently", "elsewhere"),
    ];
    for (code, status, body) in all {
        let rejected = ApiReply::Rejected { code, status: status.to_string(), body: body.to_string() };
        let e = GitHubApiClient::validate_repo_access(rejected).unwrap_err();
        assert_eq!(e.kind(), ErrorKind::ExternalService);
        assert_eq!(*e.message(), format!("GitHub API returned {}: {}", status, body));
    }
}

#[test]
fn tree_answer_is_passed_on_or_fails() {
    let tree = vec![TreeEntry {
        path: "a".to_string(),
        file_type: "blob".to_string(),
        sha: "s".to_string(),
        size: Some(1),
    }];
    let got = GitHubApiClient::get_repo_tree(ApiReply::Accepted(tree)).unwrap();
    assert_eq!(got.len(), 1);
    assert_eq!(got[0].path, "a");
    let e = GitHubApiClient::get_repo_tree(ApiReply::Rejected {
        code: 403,
        status: "403 Forbidden".to_string(),
        body: "rate limit".to_string(),
    })
    .unwrap_err();
    assert_eq!(e.to_text(), "External Service Error: GitHub API returned 403 Forbidden: rate limit");
    let e = GitHubApiClient::get_repo_tree(ApiReply::Garbled("error decoding response body".to_string())).unwrap_err();
    assert_eq!(e.message(), "error decoding response body");
}

fn content(text: Option<&str>, encoding: Option<&str>) -> ApiReply<ContentResponse> {
    ApiReply::Accepted(ContentResponse {
        content: text.map(|s| s.to_string()),
        encoding: encoding.map(|s| s.to_string()),
    })
}

#[test]
fn file_content_is_decoded_from_base64_with_line_feeds() {
    let got = GitHubApiClient::get_file_content("a.txt", content(Some("aGVs\nbG8g\nd29ybGQ=\n"), Some("base64")));
    assert_eq!(got.unwrap(), "hello world");
    let got = GitHubApiClient::get_file_content("a.txt", content(Some(""), Some("base64")));
    assert_eq!(got.unwrap(), "");
    let got = GitHubApiClient::get_file_content("u.txt", content(Some("w6kg4oKs"), Some("base64")));
    assert_eq!(got.unwrap(), "\u{e9} \u{20ac}");
}

#[test]
fn file_content_that_is_no_base64_is_an_internal_failure() {
    let e = GitHubApiClient::get_file_content("a.txt", content(Some("!!!!"), Some("base64"))).unwrap_err();
    assert_eq!(e.kind(), ErrorKind::Internal);
    assert_eq!(e.message(), "Failed to decode base64: Invalid symbol 33, offset 0.");
    let e = GitHubApiClient::get_file_content("a.txt", content(Some("aGVsbG8"), Some("base64"))).unwrap_err();
    assert_eq!(e.kind(), ErrorKind::Internal);
    assert!(e.message().starts_with("Failed to decode base64: "));
}

#[test]
fn file_content_that_is_no_text_is_an_internal_failure() {
    let e = GitHubApiClient::get_file_content("a.bin", content(Some("/w=="), Some("base64"))).unwrap_err();
    assert_eq!(e.kind(), ErrorKind::Internal);
    assert_eq!(e.message(), "File is not valid UTF-8: invalid utf-8 sequence of 1 bytes from index 0");
}

#[test]
fn file_content_in_another_shape_is_unexpected() {
    for reply in [
        content(None, Some("base64")),
        content(Some("aGk="), None),
        content(Some("aGk="), Some("utf-8")),
        content(Some("aGk="), Some("BASE64")),
        content(None, None),
    ] {
        let e = GitHubApiClient::get_file_content("a", reply).unwrap_err();
        assert_eq!(e.kind(), ErrorKind::Internal);
        assert_eq!(e.message(), "Unexpected content format");
    }
}

#[test]
fn file_content_failure_names_path_and_status() {
    let e = GitHubApiClient::get_file_content(
        "src/lib.rs",
        ApiReply::Rejected { code: 404, status: "404 Not Found".to_string(), body: "ignored".to_string() },
    )
    .unwrap_err();
    assert_eq!(e.kind(), ErrorKind::ExternalService);
    assert_eq!(e.message(), "Failed to fetch file src/lib.rs: 404 Not Found");
    let e = GitHubApiClient::get_file_content("x", ApiReply::Unreachable("timeout".to_string())).unwrap_err();
    assert_eq!(e.message(), "timeout");
}

#[test]
fn chunk_items_follow_the_documents() {
    let entry = TreeEntry { path: "a.md".to_string(), file_type: "blob".to_string(), sha: "s".to_string(), size: None };
    let mut doc = GitHubConnector::document(9, "o/r", "main", &entry, "# a".to_string());
    doc.created_at = Timestamp { secs: 1_431_648_000, nanos: 0 };
    doc.updated_at = Timestamp { secs: 1_431_648_000, nanos: 500_000_000 };
    let docs = vec![doc];
    let batch = ChunkerClient::chunk_job(9, SourceKind::CodeRepo, &docs);
    assert_eq!(batch.source_id, 9);
    assert_eq!(batch.source_kind, SourceKind::CodeRepo);
    assert_eq!(batch.items.len(), 1);
    let item = &batch.items[0];
    assert_eq!(item.id, docs[0].id);
    assert_eq!(item.source_id, 9);
    assert_eq!(item.source_kind, SourceKind::CodeRepo);
    assert_eq!(item.content_type, "markdown");
    assert_eq!(item.content, "# a");
    assert_eq!(item.created_at, Some("2015-05-15T00:00:00+00:00".to_string()));
    assert_eq!(item.updated_at, Some("2015-05-15T00:00:00.500+00:00".to_string()));
    assert!(matches!(&item.metadata, JsonValue::Object(m) if m.len() == 4));
    assert!(ChunkerClient::chunk_job(1, SourceKind::Chat, &vec![]).items.is_empty());
}

#[test]
fn chunk_job_request_and_answers() {
    let client = ChunkerClient::new("http://chunker:3017".to_string());
    let req = client.chunk_job_request();
    assert_eq!(req.method, HttpMethod::Post);
    assert_eq!(req.url, "http://chunker:3017/chunk/jobs");
    let ok = ChunkJobResponse { job_id: 5, accepted: true, items_count: 2, message: None };
    let got = ChunkerClient::create_chunk_job(ApiReply::Accepted(ok)).unwrap();
    assert_eq!((got.job_id, got.accepted, got.items_count), (5, true, 2));
    let e = ChunkerClient::create_chunk_job(ApiReply::Unreachable("refused".to_string())).unwrap_err();
    assert_eq!(e.to_text(), "External Service Error: Chunker service request failed: refused");
    let e = ChunkerClient::create_chunk_job(ApiReply::Rejected {
        code: 500,
        status: "500 Internal Server Error".to_string(),
        body: "x".to_string(),
    })
    .unwrap_err();
    assert_eq!(e.message(), "Chunker service returned 500 Internal Server Error: x");
    let e = ChunkerClient::create_chunk_job(ApiReply::Garbled("eof".to_string())).unwrap_err();
    assert_eq!(e.message(), "Failed to parse chunker response: eof");
}

#[test]
fn timestamps_are_written_as_rfc3339() {
    assert_eq!(Timestamp { secs: 0, nanos: 0 }.to_rfc3339(), "1970-01-01T00:00:00+00:00");
    assert_eq!(Timestamp { secs: 1_431_648_000, nanos: 0 }.to_rfc3339(), "2015-05-15T00:00:00+00:00");
    assert_eq!(Timestamp { secs: -1, nanos: 123_456_789 }.to_rfc3339(), "1969-12-31T23:59:59.123456789+00:00");
    assert_eq!(Timestamp { secs: i64::MAX, nanos: 0 }.to_rfc3339(), "");
    assert_eq!(Timestamp { secs: i64::MIN, nanos: 0 }.to_rfc3339(), "");
    assert_eq!(Timestamp { secs: 8_210_000_000_000, nanos: 0 }.to_rfc3339(), "+262134-07-18T03:33:20+00:00");
    assert!(Timestamp { secs: -8_334_000_000_000, nanos: 1 }.to_rfc3339().starts_with("-262"));
    assert_eq!(Timestamp { secs: 59, nanos: 1_500_000_000 }.to_rfc3339(), "1970-01-01T00:00:60.500+00:00");
    assert_eq!(Timestamp { secs: 0, nanos: 2_000_000_000 }.to_rfc3339(), "");
}
