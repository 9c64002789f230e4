use data_service::config::parse_port;
use data_service::config::Config;
use data_service::error::AppError;
use data_service::error::ErrorKind;
use data_service::json::JsonNumber;
use data_service::json::JsonValue;
use data_service::middleware::bearer_token;
use data_service::middleware::parse_user_id_from_token;
use data_service::middleware::token_payload;
use data_service::middleware::token_payload_part;
use data_service::middleware::user_id_of;
use data_service::middleware::Checked;
use data_service::middleware::Claims;
use data_service::text::chars_of;
use data_service::text::decimal_text;
use data_service::text::text_after_last;
use data_service::text::text_contains;
use data_service::text::text_split_first;
use data_service::text::text_split_last;
use data_service::text::text_starts_with;
use data_service::text::text_trim_end;
use data_service::text::text_trim_end_text;

#[test]
fn after_last_takes_the_tail() {
    assert_eq!(text_after_last("a/b/c.rs", '/'), "c.rs");
    assert_eq!(text_after_last("a/b/c.rs", '.'), "rs");
    assert_eq!(text_after_last("nodot", '.'), "nodot");
    assert_eq!(text_after_last("trailing.", '.'), "");
    assert_eq!(text_after_last("", '.'), "");
    assert_eq!(text_after_last(".hidden", '.'), "hidden");
    assert_eq!(text_after_last("\u{e9}.\u{20ac}x", '.'), "\u{20ac}x");
}

#[test]
fn contains_finds_texts() {
    assert!(text_contains("hello world", "o w"));
    assert!(text_contains("hello", ""));
    assert!(text_contains("", ""));
    assert!(!text_contains("", "a"));
    assert!(!text_contains("abc", "abcd"));
    assert!(text_contains("aab", "ab"));
    assert!(!text_contains("abab", "bb"));
    assert!(text_contains("gr\u{fc}n", "\u{fc}n"));
}

#[test]
fn starts_with_and_trims() {
    assert!(text_starts_with("Bearer x", "Bearer "));
    assert!(!text_starts_with("bearer x", "Bearer "));
    assert!(!text_starts_with("Bea", "Bearer "));
    assert!(text_starts_with("x", ""));
    assert_eq!(text_trim_end("a/b///", '/'), "a/b");
    assert_eq!(text_trim_end("///", '/'), "");
    assert_eq!(text_trim_end("a/b", '/'), "a/b");
    assert_eq!(text_trim_end_text("repo.git", ".git"), "repo");
    assert_eq!(text_trim_end_text("repo.git.git", ".git"), "repo");
    assert_eq!(text_trim_end_text("repo.gitx", ".git"), "repo.gitx");
    assert_eq!(text_trim_end_text(".git", ".git"), "");
    assert_eq!(text_trim_end_text("abc", ""), "abc");
}

#[test]
fn splits_cut_at_first_and_last() {
    assert_eq!(text_split_last("a/b/c", '/'), Some(("a/b".to_string(), "c".to_string())));
    assert_eq!(text_split_last("abc", '/'), None);
    assert_eq!(text_split_last("/", '/'), Some((String::new(), String::new())));
    assert_eq!(text_split_first("a/b/c", '/'), Some(("a".to_string(), "b/c".to_string())));
    assert_eq!(text_split_first("abc", '/'), None);
    assert_eq!(text_split_first("a/", '/'), Some(("a".to_string(), String::new())));
}

#[test]
fn numbers_in_decimal_and_characters() {
    assert_eq!(decimal_text(0), "0");
    assert_eq!(decimal_text(7), "7");
    assert_eq!(decimal_text(10), "10");
    assert_eq!(decimal_text(1234567890), "1234567890");
    assert_eq!(decimal_text(u64::MAX), "18446744073709551615");
    assert_eq!(chars_of("a\u{e9}z"), vec!['a', '\u{e9}', 'z']);
}

#[test]
fn errors_have_headings_statuses_and_codes() {
    let all = [
        (AppError::BadRequest("m".to_string()), "Bad Request: m", 400u16, "BAD_REQUEST", ErrorKind::BadRequest),
        (AppError::Unauthorized("m".to_string()), "Unauthorized: m", 401, "UNAUTHORIZED", ErrorKind::Unauthorized),
        (AppError::Forbidden("m".to_string()), "Forbidden: m", 403, "FORBIDDEN", ErrorKind::Forbidden),
        (AppError::NotFound("m".to_string()), "Not Found: m", 404, "NOT_FOUND", ErrorKind::NotFound),
        (AppError::Internal("m".to_string()), "Internal Error: m", 500, "INTERNAL_ERROR", ErrorKind::Internal),
        (
            AppError::ExternalService("m".to_string()),
            "External Service Error: m",
            502,
            "EXTERNAL_SERVICE_ERROR",
            ErrorKind::ExternalService,
        ),
        (AppError::Validation("m".to_string()), "Validation Error: m", 422, "VALIDATION_ERROR", ErrorKind::Validation),
    ];
    for (e, text, status, code, kind) in all {
        assert_eq!(e.to_text(), text);
        assert_eq!(e.status_code(), status);
        assert_eq!(e.error_code(), code);
        assert_eq!(e.kind(), kind);
        assert_eq!(e.message(), "m");
        assert_eq!(e.clone().to_text(), text);
    }
}

#[test]
fn json_members_are_found_from_the_front() {
    let v = JsonValue::Object(vec![
        ("a".to_string(), JsonValue::Text("first".to_string())),
        ("b".to_string(), JsonValue::Number(JsonNumber::Signed(-2))),
        ("a".to_string(), JsonValue::Text("second".to_string())),
    ]);
    assert!(matches!(v.get("a"), Some(JsonValue::Text(t)) if t == "first"));
    assert!(v.get("c").is_none());
    assert_eq!(v.text_at("a"), Some("first".to_string()));
    assert_eq!(v.text_at("b"), None);
    assert_eq!(v.text_at_either("b", "a"), None);
    assert_eq!(v.text_at_either("c", "a"), Some("first".to_string()));
    assert!(JsonValue::Text("x".to_string()).get("a").is_none());
    assert_eq!(v.get("b").unwrap().as_number(), Some(JsonNumber::Signed(-2)));
    assert!(v.get("b").unwrap().as_text().is_none());
    assert!(v.as_list().is_none());
}

#[test]
fn json_with_replaces_or_appends() {
    let v = JsonValue::object().with("a", JsonValue::text("1")).with("b", JsonValue::text("2"));
    let v = v.with("a", JsonValue::text("3"));
    match &v {
        JsonValue::Object(members) => {
            assert_eq!(members.len(), 2);
            assert_eq!(members[0].0, "a");
            assert!(matches!(&members[0].1, JsonValue::Text(t) if t == "3"));
            assert_eq!(members[1].0, "b");
        }
        other => panic!("no object: {:?}", other),
    }
    let from_null = JsonValue::Null.with("k", JsonValue::count(Some(4)));
    assert!(matches!(from_null.get("k"), Some(JsonValue::Number(JsonNumber::Unsigned(4)))));
    assert!(matches!(JsonValue::count(None), JsonValue::Null));
    let copy = v.clone();
    assert_eq!(copy.text_at("a"), Some("3".to_string()));
    let list = JsonValue::list(vec![JsonValue::text("x"), JsonValue::Bool(false), JsonValue::text("y")]);
    assert_eq!(JsonValue::texts_in(list.as_list().unwrap()), vec!["x".to_string(), "y".to_string()]);
    assert!(matches!(list.clone(), JsonValue::List(items) if items.len() == 3));
}

#[test]
fn ports_are_parsed_strictly() {
    assert_eq!(parse_port("8080"), Some(8080));
    assert_eq!(parse_port("0"), Some(0));
    assert_eq!(parse_port("65535"), Some(65535));
    assert_eq!(parse_port("65536"), None);
    assert_eq!(parse_port("+80"), Some(80));
    assert_eq!(parse_port("0080"), Some(80));
    assert_eq!(parse_port(""), None);
    assert_eq!(parse_port("+"), None);
    assert_eq!(parse_port("-1"), None);
    assert_eq!(parse_port(" 80"), None);
    assert_eq!(parse_port("80 "), None);
    assert_eq!(parse_port("8o"), None);
    assert_eq!(parse_port("99999999999999999999"), None);
    assert_eq!(parse_port("++1"), None);
    for s in ["8080", "0", "65535", "65536", "+80", "0080", "", "+", "-1", " 80", "8o", "1e3", "٣"] {
        assert_eq!(parse_port(s), s.parse::<u16>().ok(), "for {:?}", s);
    }
}

fn env(pairs: &[(&str, &str)]) -> Vec<(String, String)> {
    pairs.iter().map(|(k, v)| (k.to_string(), v.to_string())).collect()
}

#[test]
fn config_has_defaults() {
    let c = Config::from_env(&vec![]);
    assert_eq!(c.port, 3013);
    assert_eq!(c.auth_service_url, "http://localhost:3010");
    assert_eq!(c.chunker_service_url, "http://localhost:3017");
    assert_eq!(c.embedding_service_url, "http://localhost:8082");
    assert_eq!(c.graph_service_url, "http://localhost:3018");
    assert!(c.embedding_enabled);
    assert!(c.graph_rag_enabled);
    assert_eq!(c.database_url, None);
    assert_eq!(c.redis_url, None);
    assert_eq!(c.local_sync_path_default, None);
    assert_eq!(c.jwt_secret, None);
    assert_eq!(c.jwt_public_key_path, None);
    assert_eq!(c.internal_api_key, None);
    assert_eq!(c.auth0_domain, None);
    assert_eq!(c.auth0_audience, None);
}

#[test]
fn config_reads_the_variables() {
    let c = Config::from_env(&env(&[
        ("PORT", "8000"),
        ("AUTH_SERVICE_URL", "http://a"),
        ("CHUNKER_SERVICE_URL", "http://c"),
        ("EMBEDDING_SERVICE_URL", "http://e"),
        ("RELATION_GRAPH_SERVICE_URL", "http://g"),
        ("EMBEDDING_ENABLED", "TRUE"),
        ("GRAPH_RAG_ENABLED", "no"),
        ("DATABASE_URL", "postgres://"),
        ("REDIS_URL", "redis://"),
        ("LOCAL_SYNC_PATH_DEFAULT", "/srv"),
        ("JWT_SECRET", "SECRET-REDACTED"),
        ("JWT_PUBLIC_KEY_PATH", "/k.pem"),
        ("INTERNAL_API_KEY", "SECRET-REDACTED"),
        ("AUTH0_DOMAIN", "d"),
        ("AUTH0_AUDIENCE", "aud"),
    ]));
    assert_eq!(c.port, 8000);
    assert_eq!(c.auth_service_url, "http://a");
    assert_eq!(c.chunker_service_url, "http://c");
    assert_eq!(c.embedding_service_url, "http://e");
    assert_eq!(c.graph_service_url, "http://g");
    assert!(c.embedding_enabled);
    assert!(!c.graph_rag_enabled);
    assert_eq!(c.database_url, Some("postgres://".to_string()));
    assert_eq!(c.redis_url, Some("redis://".to_string()));
    assert_eq!(c.local_sync_path_default, Some("/srv".to_string()));
    assert_eq!(c.jwt_secret, Some("SECRET-REDACTED".to_string()));
    assert_eq!(c.jwt_public_key_path, Some("/k.pem".to_string()));
    assert_eq!(c.internal_api_key, Some("SECRET-REDACTED".to_string()));
    assert_eq!(c.auth0_domain, Some("d".to_string()));
    assert_eq!(c.auth0_audience, Some("aud".to_string()));
    assert_eq!(Config::from_env(&env(&[("PORT", "http")])).port, 3013);
    assert_eq!(Config::from_env(&env(&[("PORT", "70000")])).port, 3013);
}

#[test]
fn local_sync_path_by_profile() {
    let vars = env(&[("LOCAL_SYNC_PATH_DEFAULT", "/d"), ("LOCAL_SYNC_PATH_WORK", "/w")]);
    let c = Config::from_env(&vars);
    assert_eq!(c.get_local_sync_path(None, &vars), Some("/d".to_string()));
    assert_eq!(c.get_local_sync_path(Some("work"), &vars), Some("/w".to_string()));
    assert_eq!(c.get_local_sync_path(Some("Work"), &vars), Some("/w".to_string()));
    assert_eq!(c.get_local_sync_path(Some("home"), &vars), None);
    assert_eq!(c.get_local_sync_path(Some("default"), &vars), Some("/d".to_string()));
}

fn claims(sub: &str) -> Claims {
    Claims { sub: sub.to_string(), exp: 2_000_000_000, iat: None, email: None }
}

#[test]
fn bearer_token_is_what_follows_the_word() {
    assert_eq!(bearer_token("Bearer abc.def.ghi"), Some("abc.def.ghi".to_string()));
    assert_eq!(bearer_token("Bearer "), Some(String::new()));
    assert_eq!(bearer_token("bearer abc"), None);
    assert_eq!(bearer_token("Basic abc"), None);
    assert_eq!(bearer_token(""), None);
    assert_eq!(bearer_token("Bearer"), None);
}

#[test]
fn user_is_read_from_the_subject() {
    let id = 0x67e5504410b1426f9247bb680e5fe0c8u128;
    assert_eq!(user_id_of(&claims("67e55044-10b1-426f-9247-bb680e5fe0c8")), Some(id));
    assert_eq!(user_id_of(&claims("67E55044-10B1-426F-9247-BB680E5FE0C8")), Some(id));
    assert_eq!(user_id_of(&claims("67e5504410b1426f9247bb680e5fe0c8")), Some(id));
    assert_eq!(user_id_of(&claims("00000000-0000-0000-0000-000000000000")), Some(0));
    assert_eq!(user_id_of(&claims("not-a-uuid")), None);
    assert_eq!(user_id_of(&claims("")), None);
}

#[test]
fn token_checks_count_in_their_order() {
    let a = "00000000-0000-0000-0000-00000000000a";
    let b = "00000000-0000-0000-0000-00000000000b";
    let c = "00000000-0000-0000-0000-00000000000c";
    let got = parse_user_id_from_token(&Checked::Valid(claims(a)), &Checked::Valid(claims(b)), &Some(claims(c)));
    assert_eq!(got, Some(0xa));
    let got = parse_user_id_from_token(&Checked::Rejected, &Checked::Valid(claims(b)), &Some(claims(c)));
    assert_eq!(got, Some(0xb));
    let got = parse_user_id_from_token(&Checked::NoKey, &Checked::Rejected, &Some(claims(c)));
    assert_eq!(got, None);
    let got = parse_user_id_from_token(&Checked::Rejected, &Checked::NoKey, &Some(claims(c)));
    assert_eq!(got, Some(0xc));
    let got = parse_user_id_from_token(&Checked::NoKey, &Checked::NoKey, &None);
    assert_eq!(got, None);
    let got = parse_user_id_from_token(&Checked::Valid(claims("junk")), &Checked::Valid(claims(b)), &None);
    assert_eq!(got, None);
}

#[test]
fn token_payload_is_the_middle_part_decoded() {
    assert_eq!(token_payload_part("a.b.c"), Some("b".to_string()));
    assert_eq!(token_payload_part("a..c"), Some(String::new()));
    assert_eq!(token_payload_part("a.b"), None);
    assert_eq!(token_payload_part("a.b.c.d"), None);
    assert_eq!(token_payload_part(""), None);
    assert_eq!(token_payload("x.eyJzdWIiOiJhIn0.y"), Some(b"{\"sub\":\"a\"}".to_vec()));
    assert_eq!(token_payload("x.-_-_.y"), Some(vec![0xfb, 0xff, 0xbf]));
    assert_eq!(token_payload("x.+/+/.y"), None);
    assert_eq!(token_payload("x.eyJzdWIiOiJhIn0=.y"), None);
    assert_eq!(token_payload("x.y"), None);
}
