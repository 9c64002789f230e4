use data_service::domain::connectors::github::SyncOptions;
use data_service::domain::connectors::limit::byte_limit_of;
use data_service::json::JsonNumber;
use data_service::json::JsonValue;

fn double(x: f64) -> JsonNumber {
    JsonNumber::Real { bits: x.to_bits() }
}

fn text_list(items: &[&str]) -> JsonValue {
    JsonValue::List(items.iter().map(|s| JsonValue::Text(s.to_string())).collect())
}

fn options(languages: &[&str], excluded: &[&str], max: Option<JsonNumber>) -> SyncOptions {
    SyncOptions {
        include_languages: languages.iter().map(|s| s.to_string()).collect(),
        exclude_paths: excluded.iter().map(|s| s.to_string()).collect(),
        max_file_size_mb: max,
    }
}

#[test]
fn listed_language_is_included_and_other_excluded() {
    let opts = options(&["py"], &[], None);
    assert!(opts.should_include("a.py", None));
    assert!(!opts.should_include("b.rs", None));
}

#[test]
fn empty_language_list_includes_everything() {
    let opts = options(&[], &[], None);
    assert!(opts.should_include("a.py", None));
    assert!(opts.should_include("b.rs", None));
}

#[test]
fn languages_match_whatever_the_case() {
    let opts = options(&["PY", "Md"], &[], None);
    assert!(opts.should_include("tools/run.py", None));
    assert!(opts.should_include("README.MD", None));
    assert!(!opts.should_include("main.rs", None));
}

#[test]
fn file_over_the_size_limit_is_excluded() {
    let opts = options(&[], &[], Some(double(1.0)));
    assert!(!opts.should_include("big.txt", Some(2 * 1024 * 1024)));
    assert!(opts.should_include("small.txt", Some(512 * 1024)));
}

#[test]
fn file_at_the_size_limit_is_included() {
    let opts = options(&[], &[], Some(double(1.0)));
    assert!(opts.should_include("edge.txt", Some(1024 * 1024)));
    assert!(!opts.should_include("edge.txt", Some(1024 * 1024 + 1)));
}

#[test]
fn file_of_unknown_size_passes_the_limit() {
    let opts = options(&[], &[], Some(double(0.0)));
    assert!(opts.should_include("any.txt", None));
    assert!(opts.should_include("empty.txt", Some(0)));
    assert!(!opts.should_include("one.txt", Some(1)));
}

#[test]
fn excluded_text_in_path_excludes() {
    let opts = options(&[], &["node_modules", "/vendor/"], None);
    assert!(!opts.should_include("web/node_modules/x.js", None));
    assert!(!opts.should_include("a/vendor/b.go", None));
    assert!(opts.should_include("a/vendors/b.go", None));
}

#[test]
fn empty_excluded_text_excludes_every_path() {
    let opts = options(&[], &[""], None);
    assert!(!opts.should_include("a.rs", None));
}

#[test]
fn path_without_dot_matches_no_listed_language() {
    let opts = options(&["makefile", "db", ""], &[], None);
    assert!(!opts.should_include("Makefile", None));
    assert!(!opts.should_include("makefile", None));
    assert!(!opts.should_include("src/Makefile", None));
    assert!(!opts.should_include("db", None));
    assert!(!opts.should_include("v1.2/db", None));
    assert!(opts.should_include("data.DB", None));
    assert!(opts.should_include("x.makefile", None));
    assert!(opts.should_include("trailing.", None));
    let unlisted = options(&[], &[], None);
    assert!(unlisted.should_include("Makefile", None));
    assert!(unlisted.should_include("db", None));
}

#[test]
fn options_from_config_reads_all_members() {
    let config = JsonValue::Object(vec![
        ("include_languages".to_string(), text_list(&["rs", "md"])),
        ("exclude_paths".to_string(), text_list(&["target/"])),
        ("max_file_size_mb".to_string(), JsonValue::Number(double(2.5))),
    ]);
    let opts = SyncOptions::from_config(&config);
    assert_eq!(opts.include_languages, vec!["rs".to_string(), "md".to_string()]);
    assert_eq!(opts.exclude_paths, vec!["target/".to_string()]);
    assert_eq!(opts.max_file_size_mb, Some(double(2.5)));
}

#[test]
fn options_from_config_falls_back_to_file_extensions() {
    let config = JsonValue::Object(vec![("file_extensions".to_string(), text_list(&["py"]))]);
    let opts = SyncOptions::from_config(&config);
    assert_eq!(opts.include_languages, vec!["py".to_string()]);
}

#[test]
fn include_languages_of_wrong_kind_hides_file_extensions() {
    let config = JsonValue::Object(vec![
        ("include_languages".to_string(), JsonValue::Text("rs".to_string())),
        ("file_extensions".to_string(), text_list(&["py"])),
    ]);
    let opts = SyncOptions::from_config(&config);
    assert!(opts.include_languages.is_empty());
}

#[test]
fn options_from_config_skips_what_is_no_text() {
    let config = JsonValue::Object(vec![(
        "exclude_paths".to_string(),
        JsonValue::List(vec![
            JsonValue::Text("a".to_string()),
            JsonValue::Bool(true),
            JsonValue::Null,
            JsonValue::Text("b".to_string()),
        ]),
    )]);
    let opts = SyncOptions::from_config(&config);
    assert_eq!(opts.exclude_paths, vec!["a".to_string(), "b".to_string()]);
}

#[test]
fn options_from_empty_config_leave_nothing_out() {
    let opts = SyncOptions::from_config(&JsonValue::Object(vec![]));
    assert!(opts.include_languages.is_empty());
    assert!(opts.exclude_paths.is_empty());
    assert_eq!(opts.max_file_size_mb, None);
    let opts = SyncOptions::from_config(&JsonValue::Null);
    assert!(opts.include_languages.is_empty());
    let opts = SyncOptions::default();
    assert!(opts.should_include("x.bin", Some(u64::MAX)));
}

#[test]
fn byte_limit_of_whole_numbers() {
    assert_eq!(byte_limit_of(JsonNumber::Unsigned(0)), 0);
    assert_eq!(byte_limit_of(JsonNumber::Unsigned(1)), 1_048_576);
    assert_eq!(byte_limit_of(JsonNumber::Unsigned(10)), 10_485_760);
    assert_eq!(byte_limit_of(JsonNumber::Unsigned((1 << 44) - 1)), ((1u64 << 44) - 1) << 20);
    assert_eq!(byte_limit_of(JsonNumber::Unsigned(1 << 44)), u64::MAX);
    assert_eq!(byte_limit_of(JsonNumber::Unsigned(u64::MAX)), u64::MAX);
    assert_eq!(byte_limit_of(JsonNumber::Signed(-1)), 0);
    assert_eq!(byte_limit_of(JsonNumber::Signed(i64::MIN)), 0);
    assert_eq!(byte_limit_of(JsonNumber::Signed(3)), 3 * 1_048_576);
}

#[test]
fn byte_limit_of_reals_has_exact_values() {
    assert_eq!(byte_limit_of(double(1.0)), 1_048_576);
    assert_eq!(byte_limit_of(double(0.5)), 524_288);
    assert_eq!(byte_limit_of(double(2.5)), 2_621_440);
    assert_eq!(byte_limit_of(double(0.1)), 104_857);
    assert_eq!(byte_limit_of(double(0.0)), 0);
    assert_eq!(byte_limit_of(double(-0.0)), 0);
    assert_eq!(byte_limit_of(double(-3.0)), 0);
    assert_eq!(byte_limit_of(double(f64::INFINITY)), u64::MAX);
    assert_eq!(byte_limit_of(double(f64::NEG_INFINITY)), 0);
    assert_eq!(byte_limit_of(double(f64::NAN)), 0);
}

#[test]
fn byte_limit_agrees_with_floating_point_arithmetic() {
    let samples: Vec<f64> = vec![
        0.0,
        -0.0,
        1.0,
        0.5,
        0.1,
        0.3,
        1.0 / 3.0,
        2.5,
        7.999_999_9,
        1e-7,
        9.5367431640625e-7,
        9.536743164062e-7,
        1e-30,
        1e-300,
        f64::MIN_POSITIVE,
        f64::MIN_POSITIVE / 4.0,
        5e-324,
        123_456.789,
        1e9,
        17_592_186_044_415.5,
        17_592_186_044_415.998,
        17_592_186_044_416.0,
        17_592_186_044_417.0,
        1e30,
        1e300,
        f64::MAX,
        f64::INFINITY,
        f64::NEG_INFINITY,
        f64::NAN,
        -f64::NAN,
        -1.5,
        -1e-300,
        -f64::MAX,
        4_503_599_627_370_496.0,
        9_007_199_254_740_992.0,
        0.999_999_999_999_999_9,
        1.000_000_000_000_000_2,
    ];
    for x in samples {
        let expected = (x * 1024.0 * 1024.0) as u64;
        assert_eq!(byte_limit_of(double(x)), expected, "for {}", x);
    }
    let mut bits: u64 = 0x9e37_79b9_7f4a_7c15;
    for _ in 0..20_000 {
        bits ^= bits << 13;
        bits ^= bits >> 7;
        bits ^= bits << 17;
        let x = f64::from_bits(bits);
        let expected = (x * 1024.0 * 1024.0) as u64;
        assert_eq!(byte_limit_of(double(x)), expected, "for bits {:x}", bits);
    }
    for exp in 1000u64..1100 {
        for frac in [0u64, 1, 0xf_ffff_ffff_ffff, 0x8_0000_0000_0000, 0x5_5555_5555_5555] {
            let b = (exp << 52) | frac;
            let x = f64::from_bits(b);
            assert_eq!(byte_limit_of(double(x)), (x * 1024.0 * 1024.0) as u64, "for bits {:x}", b);
        }
    }
}
