use lambda_utils::cache::{
    cache_path_for, dated_cache_path, try_cached, try_cached_query, try_write_cache, CacheError,
    FetchOutcome, FsEntry, FsModel,
};
use lambda_utils::date::UtcDate;

fn test_cache_path(name: &str) -> String {
    format!("/tmp/jluszcz_rust_utils_test_{name}.json")
}

fn empty_fs() -> FsModel {
    FsModel { entries: Vec::new(), write_allowed: true }
}

fn fs_with(path: &str, content: &str, readable: bool) -> FsModel {
    FsModel {
        entries: vec![FsEntry {
            path: path.to_string(),
            content: content.to_string(),
            readable,
        }],
        write_allowed: true,
    }
}

#[test]
fn test_dated_cache_path_is_in_temp_dir() {
    let path = dated_cache_path("/tmp", "app");
    assert_eq!(
        std::path::Path::new(&path).parent().unwrap(),
        std::path::Path::new("/tmp")
    );
}

#[test]
fn test_dated_cache_path_filename_format() {
    let path = dated_cache_path("/tmp", "myapp");
    let expected_date = chrono::Utc::now().date_naive().format("%Y%m%d").to_string();
    let file_name = std::path::Path::new(&path)
        .file_name()
        .unwrap()
        .to_str()
        .unwrap();
    assert_eq!(file_name, format!("myapp.{expected_date}.json"));
}

#[test]
fn test_cache_path_for_exact_value() {
    let d = UtcDate::new(2026, 10, 11);
    assert_eq!(cache_path_for("/tmp", "myapp", &d), "/tmp/myapp.20261011.json");
}

#[test]
fn test_cache_path_for_pads_short_fields() {
    let d = UtcDate::new(980, 3, 5);
    assert_eq!(cache_path_for("/tmp", "x", &d), "/tmp/x.09800305.json");
}

#[test]
fn test_cache_path_same_date_identical_different_date_differs() {
    let d1 = UtcDate::new(2026, 10, 11);
    let d2 = UtcDate::new(2026, 10, 11);
    let d3 = UtcDate::new(2026, 10, 12);
    let p1 = cache_path_for("/tmp", "n", &d1);
    let p2 = cache_path_for("/tmp", "n", &d2);
    let p3 = cache_path_for("/tmp", "n", &d3);
    assert_eq!(p1, p2);
    assert_ne!(p1, p3);
    // the two paths differ only in the embedded date segment
    assert_eq!(&p1[..7], &p3[..7]);
    assert_eq!(&p1[15..], &p3[15..]);
    assert_eq!(&p1[7..15], "20261011");
    assert_eq!(&p3[7..15], "20261012");
}

#[test]
fn test_try_cached_query_cache_disabled_does_not_write_file() {
    let path = test_cache_path("disabled");
    let mut fs = empty_fs();

    let result = try_cached_query(
        false,
        &path,
        &FetchOutcome::Success("data".to_string()),
        &mut fs,
    )
    .unwrap();

    assert_eq!(result, "data");
    assert!(!fs.exists_at(&path));
}

#[test]
fn test_try_cached_query_miss_calls_query_and_writes_cache() {
    let path = test_cache_path("miss");
    let mut fs = empty_fs();

    let result = try_cached_query(
        true,
        &path,
        &FetchOutcome::Success("fresh".to_string()),
        &mut fs,
    )
    .unwrap();

    assert_eq!(result, "fresh");
    assert_eq!(fs.read(&path).unwrap(), "fresh");
}

#[test]
fn test_try_cached_query_hit_returns_cached_content() {
    let path = test_cache_path("hit");
    let mut fs = fs_with(&path, "cached", true);

    let result = try_cached_query(
        true,
        &path,
        &FetchOutcome::Failure("should not be called".to_string()),
        &mut fs,
    )
    .unwrap();

    assert_eq!(result, "cached");
}

#[test]
fn test_try_cached_query_unreadable_file_is_hard_error() {
    let path = test_cache_path("unreadable");
    let mut fs = fs_with(&path, "cached", false);

    let err = try_cached_query(
        true,
        &path,
        &FetchOutcome::Success("fresh".to_string()),
        &mut fs,
    )
    .unwrap_err();

    assert_eq!(err, CacheError::CacheReadFailed(path));
}

#[test]
fn test_try_cached_query_write_failure_replaces_value() {
    let path = test_cache_path("nowrite");
    let mut fs = empty_fs();
    fs.write_allowed = false;

    let err = try_cached_query(
        true,
        &path,
        &FetchOutcome::Success("fresh".to_string()),
        &mut fs,
    )
    .unwrap_err();

    assert_eq!(err, CacheError::CacheWriteFailed(path.clone()));
    assert!(!fs.exists_at(&path));
}

#[test]
fn test_try_cached_query_fetch_failure_passes_through() {
    let path = test_cache_path("fetchfail");
    let mut fs = empty_fs();

    let err = try_cached_query(
        true,
        &path,
        &FetchOutcome::Failure("backend down".to_string()),
        &mut fs,
    )
    .unwrap_err();

    assert_eq!(err, CacheError::FetchFailed("backend down".to_string()));
    assert!(!fs.exists_at(&path));
}

#[test]
fn test_try_cached_reports_miss_without_cache_flag() {
    let path = test_cache_path("flagless");
    let fs = fs_with(&path, "cached", true);
    assert_eq!(try_cached(false, &path, &fs).unwrap(), None);
    assert_eq!(try_cached(true, &path, &fs).unwrap(), Some("cached".to_string()));
}

#[test]
fn test_try_write_cache_only_writes_when_enabled() {
    let path = test_cache_path("writeflag");
    let mut fs = empty_fs();
    try_write_cache(false, &path, &"v".to_string(), &mut fs).unwrap();
    assert!(!fs.exists_at(&path));
    try_write_cache(true, &path, &"v".to_string(), &mut fs).unwrap();
    assert_eq!(fs.read(&path).unwrap(), "v");
}

#[test]
fn test_write_overwrites_and_keeps_other_files() {
    let other = test_cache_path("other");
    let path = test_cache_path("target");
    let mut fs = FsModel {
        entries: vec![
            FsEntry { path: other.clone(), content: "keep".to_string(), readable: true },
            FsEntry { path: path.clone(), content: "old".to_string(), readable: true },
        ],
        write_allowed: true,
    };
    try_write_cache(true, &path, &"new".to_string(), &mut fs).unwrap();
    assert_eq!(fs.read(&path).unwrap(), "new");
    assert_eq!(fs.read(&other).unwrap(), "keep");
}
