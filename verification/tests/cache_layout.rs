use web_content_extract::cache::{
    cache_db_path, cache_dir_for_today, cache_entry_for, cache_file_name, cached_file_for, today_text, CacheRow,
};
use web_content_extract::path::{is_plain_name_text, join_path};

#[test]
fn join_adds_one_separator() {
    assert_eq!(join_path("/home/u/.cache", "x", '/'), "/home/u/.cache/x");
    assert_eq!(join_path("/home/u/.cache/", "x", '/'), "/home/u/.cache/x");
    assert_eq!(join_path("", "x", '/'), "x");
    assert_eq!(join_path("/", "x", '/'), "/x");
    assert_eq!(join_path("a\\b", "x", '/'), "a\\b/x");
    assert_eq!(
        join_path(&std::path::Path::new("/home/u").to_string_lossy(), "x", std::path::MAIN_SEPARATOR),
        std::path::Path::new("/home/u").join("x").to_string_lossy()
    );
}

#[test]
fn join_on_windows_uses_backslash() {
    assert_eq!(join_path("C:\\Users\\u\\AppData\\Local", "x", '\\'), "C:\\Users\\u\\AppData\\Local\\x");
    assert_eq!(join_path("C:\\Users\\", "x", '\\'), "C:\\Users\\x");
    assert_eq!(join_path("C:/Users/", "x", '\\'), "C:/Users/x");
    assert_eq!(join_path("C:", "x", '\\'), "C:x");
    assert_eq!(join_path("", "x", '\\'), "x");
}

#[test]
fn join_under_verbatim_directories_rebuilds_the_path() {
    assert_eq!(join_path("\\\\?\\C:\\Users\\u", "x", '\\'), "\\\\?\\C:\\Users\\u\\x");
    assert_eq!(join_path("\\\\?\\C:\\Users\\\\u\\", "x", '\\'), "\\\\?\\C:\\Users\\u\\x");
    assert_eq!(join_path("\\\\?\\C:", "x", '\\'), "\\\\?\\C:x");
    assert_eq!(join_path("\\\\?\\C:\\", "x", '\\'), "\\\\?\\C:\\x");
    assert_eq!(join_path("\\\\?\\UNC\\srv\\share\\dir", "x", '\\'), "\\\\?\\UNC\\srv\\share\\dir\\x");
    assert_eq!(join_path("\\\\?\\UNC\\srv\\share", "x", '\\'), "\\\\?\\UNC\\srv\\share\\x");
    assert_eq!(join_path("\\\\?\\pipe", "x", '\\'), "\\\\?\\pipe\\x");
    assert_eq!(join_path("\\\\?\\C:\\a/b/", "x", '\\'), "\\\\?\\C:\\a/b/\\x");
    assert_eq!(join_path("\\\\?\\C:\\.\\a", "x", '\\'), "\\\\?\\C:\\.\\a\\x");
    // On Unix a leading `\\?\\` is an ordinary name.
    assert_eq!(join_path("\\\\?\\a", "x", '/'), "\\\\?\\a/x");
}

#[test]
fn plain_names() {
    assert!(is_plain_name_text("2024-03-05"));
    assert!(is_plain_name_text("cache.db"));
    assert!(!is_plain_name_text(""));
    assert!(!is_plain_name_text("."));
    assert!(!is_plain_name_text(".."));
    assert!(is_plain_name_text("..."));
    assert!(!is_plain_name_text("a/b"));
    assert!(!is_plain_name_text("a\\b"));
    assert!(!is_plain_name_text("C:x"));
}

#[test]
fn date_text_is_iso() {
    assert_eq!(today_text(2024, 3, 5), Some("2024-03-05".to_string()));
    assert_eq!(today_text(2024, 12, 31), Some("2024-12-31".to_string()));
    assert_eq!(today_text(987, 1, 1), Some("0987-01-01".to_string()));
    assert_eq!(today_text(2024, 2, 29), Some("2024-02-29".to_string()));
    assert_eq!(today_text(2023, 2, 29), None);
    assert_eq!(today_text(1900, 2, 29), None);
    assert_eq!(today_text(2000, 2, 29), Some("2000-02-29".to_string()));
    assert_eq!(today_text(2024, 4, 31), None);
    assert_eq!(today_text(2024, 13, 1), None);
    assert_eq!(today_text(2024, 0, 1), None);
    assert_eq!(today_text(2024, 1, 0), None);
    assert_eq!(today_text(10000, 1, 1), Some("+10000-01-01".to_string()));
    assert_eq!(today_text(-1, 12, 31), Some("-0001-12-31".to_string()));
    assert_eq!(today_text(-262143, 1, 1), Some("-262143-01-01".to_string()));
    assert_eq!(today_text(262142, 12, 31), Some("+262142-12-31".to_string()));
    assert_eq!(today_text(262143, 1, 1), None);
    assert_eq!(today_text(-262144, 12, 31), None);
    assert_eq!(today_text(-4, 2, 29), Some("-0004-02-29".to_string()));
    assert_eq!(today_text(-100, 2, 29), None);
}

#[test]
fn day_directory_layout() {
    assert_eq!(
        cache_dir_for_today("/home/u/.cache", "2024-03-05", '/'),
        "/home/u/.cache/web-content-extract/2024-03-05"
    );
    assert_eq!(cache_db_path("/c/web-content-extract/2024-03-05", '/'), "/c/web-content-extract/2024-03-05/cache.db");
}

#[test]
fn file_name_is_url_safe_base64() {
    assert_eq!(cache_file_name("https://example.com"), "aHR0cHM6Ly9leGFtcGxlLmNvbQ.html");
    let name = cache_file_name("https://a.b/?x=1&y=~~~");
    assert_eq!(name, "aHR0cHM6Ly9hLmIvP3g9MSZ5PX5-fg.html");
    assert!(!name.contains('/'));
    assert_eq!(cache_file_name(""), ".html");
    assert_eq!(cache_file_name("a"), "YQ.html");
    assert_eq!(cache_file_name("ab"), "YWI.html");
    assert_eq!(cache_file_name("abc"), "YWJj.html");
    assert_eq!(cache_file_name("\u{ff}\u{fe}"), "w7_Dvg.html");
}

#[test]
fn distinct_urls_get_distinct_files() {
    let urls = ["https://a.example/", "https://a.example", "https://b.example/", "http://a.example/", "a", "b", ""];
    let mut paths: Vec<String> = urls.iter().map(|u| cache_entry_for("/c", "2024-03-05", u, '/').file_path).collect();
    paths.sort();
    paths.dedup();
    assert_eq!(paths.len(), urls.len());
}

#[test]
fn windows_layout() {
    let v = cache_entry_for("\\\\?\\C:\\Cache\\", "2024-03-05", "a", '\\');
    assert_eq!(v.file_path, "\\\\?\\C:\\Cache\\web-content-extract\\2024-03-05\\YQ.html");
    let e = cache_entry_for("C:\\Users\\u\\AppData\\Local", "2024-03-05", "a", '\\');
    assert_eq!(e.dir, "C:\\Users\\u\\AppData\\Local\\web-content-extract\\2024-03-05");
    assert_eq!(e.file_path, "C:\\Users\\u\\AppData\\Local\\web-content-extract\\2024-03-05\\YQ.html");
    assert_eq!(e.db_path, "C:\\Users\\u\\AppData\\Local\\web-content-extract\\2024-03-05\\cache.db");
}

#[test]
fn entry_points_at_the_page_file() {
    let e = cache_entry_for("/c", "2024-03-05", "https://example.com", '/');
    assert_eq!(e.dir, "/c/web-content-extract/2024-03-05");
    assert_eq!(e.file_path, "/c/web-content-extract/2024-03-05/aHR0cHM6Ly9leGFtcGxlLmNvbQ.html");
    assert_eq!(e.db_path, "/c/web-content-extract/2024-03-05/cache.db");
    assert_eq!(e.row.url, "https://example.com");
    assert_eq!(e.row.date, "2024-03-05");
    assert_eq!(e.row.file_path, e.file_path);
}

#[test]
fn stored_page_is_found_the_same_day_only() {
    let e = cache_entry_for("/c", "2024-03-05", "https://example.com", '/');
    let found = cached_file_for(
        Some(CacheRow { url: e.row.url.clone(), date: e.row.date.clone(), file_path: e.row.file_path.clone() }),
        "2024-03-05",
    );
    assert_eq!(found, Some(e.file_path.clone()));
    let stale = cached_file_for(Some(e.row), "2024-03-06");
    assert_eq!(stale, None);
    assert_eq!(cached_file_for(None, "2024-03-05"), None);
}
