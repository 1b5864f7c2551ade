use canvas_syncer::filter::{
    file_filter_check, get_file_type, object_filter_check, DeniedFileInfo, FileFilter, Filter,
    ObjectFilter,
};
use canvas_syncer::util::{SizeAmount, SizeUnit};

fn to_bytes(a: &SizeAmount) -> Option<u64> {
    let n = a.number.parse::<f64>().ok()?;
    let bytes = match a.unit {
        SizeUnit::Gigabytes => n * 1024.0 * 1024.0 * 1024.0,
        SizeUnit::Megabytes => n * 1024.0 * 1024.0,
        SizeUnit::Kilobytes => n * 1024.0,
        SizeUnit::Bytes => n,
    };
    Some(bytes as u64)
}

fn strings(v: &[&str]) -> Vec<String> {
    v.iter().map(|s| s.to_string()).collect()
}

fn open_filter() -> FileFilter {
    FileFilter {
        type_filter: None,
        extension_filter: None,
        mime_type_filter: None,
        size_rules: None,
        default: None,
    }
}

fn check(f: &FileFilter, size: u64, ext: &str, mime: &str) -> (bool, Vec<DeniedFileInfo>) {
    let mut denied = Vec::new();
    let r = file_filter_check(f, size, ext, mime, "file.bin", &mut denied, &to_bytes);
    (r, denied)
}

#[test]
fn file_types_by_extension() {
    assert_eq!(get_file_type("JPG"), "image");
    assert_eq!(get_file_type("Mp4"), "video");
    assert_eq!(get_file_type("flac"), "audio");
    assert_eq!(get_file_type("pdf"), "document");
    assert_eq!(get_file_type("7z"), "archive");
    assert_eq!(get_file_type("xyz"), "other");
    assert_eq!(get_file_type(""), "other");
}

#[test]
fn open_filter_lets_everything_through() {
    let (r, denied) = check(&open_filter(), 123, "exe", "application/x-msdownload");
    assert!(r);
    assert!(denied.is_empty());
}

#[test]
fn deny_size_rule_refuses_large_file() {
    let mut f = open_filter();
    f.size_rules = Some(strings(&["deny: >= 10MB"]));
    let (r, denied) = check(&f, 20 * 1024 * 1024, "pdf", "application/pdf");
    assert!(!r);
    assert_eq!(denied.len(), 1);
    assert_eq!(denied[0].reason, "Size rule: deny: >= 10MB ");
    assert_eq!(denied[0].name, "file.bin");
    assert_eq!(denied[0].size, 20 * 1024 * 1024);
    assert_eq!(denied[0].file_type, "document");
    assert_eq!(denied[0].extension, "pdf");
    assert_eq!(denied[0].mime_type, "application/pdf");
    let (r, denied) = check(&f, 1024, "pdf", "application/pdf");
    assert!(r);
    assert!(denied.is_empty());
}

#[test]
fn matching_allow_rule_does_not_stop_later_deny_rule() {
    let mut f = open_filter();
    f.size_rules = Some(strings(&["allow: < 1GB", "nonsense", "deny: > 1KB"]));
    let (r, denied) = check(&f, 4096, "txt", "text/plain");
    assert!(!r);
    assert_eq!(denied[0].reason, "Size rule: deny: > 1KB ");
}

#[test]
fn type_deny_list_refuses() {
    let mut f = open_filter();
    f.type_filter = Some(Filter { denies: Some(strings(&["video"])), allows: None });
    let (r, denied) = check(&f, 10, "MP4", "video/mp4");
    assert!(!r);
    assert_eq!(denied[0].reason, "Type filter (denies): Type video is denied");
}

#[test]
fn type_allow_list_restricts() {
    let mut f = open_filter();
    f.type_filter = Some(Filter { denies: None, allows: Some(strings(&["document"])) });
    let (r, denied) = check(&f, 10, "png", "image/png");
    assert!(!r);
    assert_eq!(denied[0].reason, "Type filter (allows): Type image is not allowed");
    let (r, _) = check(&f, 10, "pdf", "application/pdf");
    assert!(r);
}

#[test]
fn extension_lists() {
    let mut f = open_filter();
    f.extension_filter = Some(Filter { denies: Some(strings(&["exe"])), allows: None });
    let (r, denied) = check(&f, 10, "exe", "x");
    assert!(!r);
    assert_eq!(denied[0].reason, "Extension filter (denies): Extension exe is denied");
    f.extension_filter = Some(Filter { denies: None, allows: Some(strings(&["pdf"])) });
    let (r, denied) = check(&f, 10, "PDF", "x");
    assert!(!r);
    assert_eq!(denied[0].reason, "Extension filter (allows): Extension PDF is not allowed");
}

#[test]
fn mime_lists() {
    let mut f = open_filter();
    f.mime_type_filter = Some(Filter { denies: Some(strings(&["text/html"])), allows: None });
    let (r, denied) = check(&f, 10, "html", "text/html");
    assert!(!r);
    assert_eq!(denied[0].reason, "MIME type filter (denies): MIME type text/html is denied");
    f.mime_type_filter = Some(Filter { denies: None, allows: Some(strings(&["application/pdf"])) });
    let (r, denied) = check(&f, 10, "html", "text/html");
    assert!(!r);
    assert_eq!(denied[0].reason, "MIME type filter (allows): MIME type text/html is not allowed");
}

#[test]
fn deny_default_needs_an_allow_list() {
    let mut f = open_filter();
    f.default = Some("deny".to_string());
    let (r, denied) = check(&f, 10, "pdf", "application/pdf");
    assert!(!r);
    assert_eq!(denied[0].reason, "Default setting (deny): Did not match any allow rules");
    f.extension_filter = Some(Filter { denies: None, allows: Some(strings(&["pdf"])) });
    let (r, denied) = check(&f, 10, "pdf", "application/pdf");
    assert!(r);
    assert!(denied.is_empty());
}

#[test]
fn unknown_default_acts_as_allow() {
    let mut f = open_filter();
    f.default = Some("Deny".to_string());
    let (r, _) = check(&f, 10, "pdf", "application/pdf");
    assert!(r);
}

#[test]
fn earlier_denials_are_kept() {
    let mut f = open_filter();
    f.default = Some("deny".to_string());
    let mut denied = Vec::new();
    assert!(!file_filter_check(&f, 1, "a", "b", "one", &mut denied, &to_bytes));
    assert!(!file_filter_check(&f, 2, "c", "d", "two", &mut denied, &to_bytes));
    assert_eq!(denied.len(), 2);
    assert_eq!(denied[0].name, "one");
    assert_eq!(denied[1].name, "two");
}

fn object_filter(default: Option<&str>, ids: Filter<i64>, names: Filter<String>) -> ObjectFilter {
    ObjectFilter { name: Some(names), id: Some(ids), default: default.map(|s| s.to_string()) }
}

#[test]
fn deny_default_object_filter_needs_listing() {
    let f = object_filter(
        Some("deny"),
        Filter { denies: None, allows: Some(vec![7]) },
        Filter { denies: None, allows: Some(strings(&["Math"])) },
    );
    assert!(object_filter_check(&f, 7, &"Physics".to_string()));
    assert!(object_filter_check(&f, 8, &"Math".to_string()));
    assert!(!object_filter_check(&f, 8, &"Physics".to_string()));
}

#[test]
fn allow_default_object_filter_refuses_listed() {
    let f = object_filter(
        None,
        Filter { denies: Some(vec![3]), allows: None },
        Filter { denies: Some(strings(&["Art"])), allows: None },
    );
    assert!(!object_filter_check(&f, 3, &"Math".to_string()));
    assert!(!object_filter_check(&f, 4, &"Art".to_string()));
    assert!(object_filter_check(&f, 4, &"Math".to_string()));
}

#[test]
fn other_default_object_filter_accepts_all() {
    let f = object_filter(
        Some("maybe"),
        Filter { denies: Some(vec![3]), allows: Some(vec![]) },
        Filter { denies: Some(strings(&["Art"])), allows: None },
    );
    assert!(object_filter_check(&f, 3, &"Art".to_string()));
}

#[test]
fn ascii_case_does_not_change_the_type() {
    for e in ["pdf", "PDF", "Pdf", "mP4", "ZIP", "Md", "xYz"] {
        assert_eq!(get_file_type(e), get_file_type(&e.to_ascii_uppercase()));
        assert_eq!(get_file_type(e), get_file_type(&e.to_ascii_lowercase()));
    }
}

#[test]
fn file_name_does_not_change_the_verdict() {
    let mut f = open_filter();
    f.type_filter = Some(Filter { denies: Some(strings(&["video"])), allows: None });
    let mut d1 = Vec::new();
    let mut d2 = vec![];
    let r1 = file_filter_check(&f, 7, "mkv", "video/x", "a.mkv", &mut d1, &to_bytes);
    let r2 = file_filter_check(&f, 7, "mkv", "video/x", "other name", &mut d2, &to_bytes);
    assert_eq!(r1, r2);
    assert_eq!(d1.len(), d2.len());
    assert_eq!(d1[0].reason, d2[0].reason);
    assert_eq!(d1[0].name, "a.mkv");
    assert_eq!(d2[0].name, "other name");
}

#[test]
fn more_denials_let_nothing_through() {
    let mut f = open_filter();
    f.size_rules = Some(strings(&["deny: > 100"]));
    f.extension_filter = Some(Filter { denies: Some(strings(&["exe"])), allows: Some(strings(&["exe", "pdf"])) });
    let mut g = f.clone();
    g.size_rules = Some(strings(&["deny: > 100", "deny: < 5"]));
    g.extension_filter = Some(Filter { denies: Some(strings(&["exe", "pdf"])), allows: Some(strings(&["exe", "pdf"])) });
    g.mime_type_filter = Some(Filter { denies: Some(strings(&["text/plain"])), allows: None });
    for (size, ext, mime) in [(200, "pdf", "a"), (50, "exe", "a"), (50, "doc", "a"), (50, "pdf", "a"), (3, "pdf", "text/plain")] {
        let (rf, _) = check(&f, size, ext, mime);
        let (rg, _) = check(&g, size, ext, mime);
        if !rf {
            assert!(!rg);
        }
    }
    let (rf, _) = check(&f, 50, "pdf", "a");
    let (rg, _) = check(&g, 50, "pdf", "a");
    assert!(rf);
    assert!(!rg);
}
