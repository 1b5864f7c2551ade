use canvas_syncer::account::{
    assignment_dirs, backup_file_name, calculate_files, file_root, folder_dirs, page_dirs,
    safe_folder, safe_page, select_courses, specia_char_replace,
};
use canvas_syncer::config::{bearer_display, Config};
use canvas_syncer::course::Course;
use canvas_syncer::course_file::{CourseFile, FileStatus, Timestamp};
use canvas_syncer::download::{
    course_list_url, course_listing_url, file_link_url, page_step, page_url, PageStep,
};
use canvas_syncer::filter::{CourseFilter, Filter, Filters, ObjectFilter, TermFilter};
use canvas_syncer::folder::Folder;
use canvas_syncer::item::Item;
use canvas_syncer::module::Module;
use canvas_syncer::page::Page;
use canvas_syncer::assignment::Assignment;

#[test]
fn names_become_directory_names() {
    assert_eq!(specia_char_replace("a/b:c?*<>|\\d".to_string()), "a_b_c______d");
    assert_eq!(specia_char_replace("Lecture 1. . ".to_string()), "Lecture 1");
    assert_eq!(specia_char_replace("...".to_string()), "");
    assert_eq!(specia_char_replace("plain".to_string()), "plain");
    assert_eq!(specia_char_replace("".to_string()), "");
    assert_eq!(specia_char_replace("x?.".to_string()), "x_");
    let once = specia_char_replace("Week 3: intro?. ".to_string());
    assert_eq!(once, "Week 3_ intro_");
    assert_eq!(specia_char_replace(once.clone()), once);
}

fn course(id: i64, name: &str, term_id: i64, term: &str) -> Course {
    Course {
        id,
        name: name.to_string(),
        course_code: format!("C{}", id),
        term_id,
        term_name: term.to_string(),
    }
}

#[test]
fn courses_are_filtered_and_named_safely() {
    let courses = vec![
        course(1, "Math/Stats", 10, "Fall: 2024"),
        course(2, "Art", 10, "Fall: 2024"),
        course(3, "Bio", 20, "Spring"),
    ];
    let filters = Some(Filters {
        course_filter: Some(CourseFilter {
            object_filter: Some(ObjectFilter {
                name: Some(Filter { denies: Some(vec!["Art".to_string()]), allows: None }),
                id: None,
                default: None,
            }),
        }),
        term_filter: Some(TermFilter {
            object_filter: Some(ObjectFilter {
                name: None,
                id: Some(Filter { denies: None, allows: Some(vec![10]) }),
                default: Some("deny".to_string()),
            }),
        }),
        file_filter: None,
    });
    let kept = select_courses(&filters, courses);
    assert_eq!(kept.len(), 1);
    assert_eq!(kept[0].id, 1);
    assert_eq!(kept[0].name, "Math_Stats");
    assert_eq!(kept[0].term_name, "Fall_ 2024");
    assert_eq!(kept[0].course_code, "C1");
    let all = select_courses(&None, vec![course(4, "A.", 1, "T"), course(5, "B", 1, "T")]);
    assert_eq!(all.len(), 2);
    assert_eq!(all[0].name, "A");
}

fn folder() -> Folder {
    Folder {
        id: 1,
        name: "course files".to_string(),
        fullname: "course files/slides".to_string(),
        course: course(1, "Math", 2, "Fall"),
        filelink: "u?".to_string(),
    }
}

#[test]
fn directories_of_objects() {
    let f = safe_folder(folder());
    assert_eq!(f.fullname, "course files_slides");
    assert_eq!(
        folder_dirs("./canvas", true, &f),
        vec!["./canvas".to_string(), "Fall".to_string(), "Math".to_string(), "course files_slides".to_string()]
    );
    assert_eq!(
        folder_dirs("./canvas", false, &f),
        vec!["./canvas".to_string(), "Math".to_string(), "course files_slides".to_string()]
    );
    let a = Assignment { id: 1, name: "HW".to_string(), course: course(1, "Math", 2, "Fall"), filelink: vec![] };
    assert_eq!(assignment_dirs("d", false, &a), vec!["d".to_string(), "Math".to_string(), "HW".to_string()]);
    let m = Module { id: 1, name: "W1".to_string(), course: course(1, "Math", 2, "Fall"), itemline: "i".to_string() };
    let i = Item { id: 1, name: "It".to_string(), module: m, url: "u".to_string() };
    let p = safe_page(Page { name: "P?".to_string(), item: i, filelink: vec![] });
    assert_eq!(
        page_dirs("d", true, &p),
        vec!["d".to_string(), "Fall".to_string(), "Math".to_string(), "W1".to_string(), "It".to_string(), "P_".to_string()]
    );
    assert_eq!(file_root("./canvas", true, "Fall"), "./canvas/Fall");
    assert_eq!(file_root("./canvas", false, "Fall"), "./canvas");
}

fn file(size: u64) -> CourseFile {
    let t = Timestamp { seconds: 0, nanos: 0 };
    CourseFile {
        id: 1,
        display_name: "f".to_string(),
        filename: "f".to_string(),
        url: "u".to_string(),
        content_type: "t".to_string(),
        size,
        created_time: t,
        updated_time: t,
        modified_time: t,
        my_parent_path: vec![],
    }
}

#[test]
fn transfers_are_planned() {
    let files = vec![file(10), file(20), file(30), file(40)];
    let statuses =
        vec![FileStatus::NotExist, FileStatus::Latest, FileStatus::NeedUpdate, FileStatus::NotExist];
    let plan = calculate_files(&files, &statuses);
    assert_eq!(plan.need_download_files, vec![0, 3]);
    assert_eq!(plan.need_update_files, vec![2]);
    assert_eq!(plan.download_size, 50);
    assert_eq!(plan.update_size, 30);
    let empty = calculate_files(&vec![], &vec![]);
    assert!(empty.need_download_files.is_empty());
    assert_eq!(empty.download_size, 0);
}

#[test]
fn backup_names() {
    assert_eq!(backup_file_name(1700000000, "a.pdf"), "1700000000_a.pdf");
    assert_eq!(backup_file_name(0, ""), "0_");
}

#[test]
fn paging_decisions() {
    assert_eq!(page_step(true, "200 OK", None), PageStep::WaitForRateLimit);
    assert_eq!(page_step(false, "401 Unauthorized", None), PageStep::Stop);
    assert_eq!(page_step(false, "403 Forbidden", None), PageStep::Stop);
    assert_eq!(page_step(false, "404 Not Found", None), PageStep::Stop);
    assert_eq!(page_step(false, "500 Internal Server Error", None), PageStep::Retry);
    assert_eq!(
        page_step(false, "200 OK", Some("<https://x?page=2>; rel=\"next\", <https://x?page=9>; rel=\"last\"")),
        PageStep::Next
    );
    assert_eq!(page_step(false, "200 OK", Some("<https://x?page=1>; rel=\"first\"")), PageStep::Last);
    assert_eq!(page_step(false, "200 OK", None), PageStep::Last);
}

#[test]
fn addresses() {
    assert_eq!(page_url("https://x/api/v1/courses?include[]=term", 3), "https://x/api/v1/courses?include[]=term&page=3");
    assert_eq!(course_list_url("https://oc.sjtu.edu.cn"), "https://oc.sjtu.edu.cn/api/v1/courses?include[]=term");
    assert_eq!(course_listing_url("https://x", 42, "modules"), "https://x/api/v1/courses/42/modules?");
    assert_eq!(course_listing_url("https://x", -7, "folders"), "https://x/api/v1/courses/-7/folders?");
    assert_eq!(file_link_url("https://x/api/v1/files/3"), "https://x/api/v1/files/3?");
}

#[test]
fn key_display_and_first_config() {
    assert_eq!(bearer_display("abc"), "Bearer abc");
    assert_eq!(bearer_display("Bearer abc"), "Bearer abc");
    assert_eq!(bearer_display("B"), "B");
    assert_eq!(bearer_display(""), "Bearer ");
    let c = Config::from_answers("https://x".to_string(), "k".to_string(), "./canvas".to_string());
    assert!(c.allow_term);
    assert!(c.filters.is_none());
    assert_eq!(c.canvas_url, "https://x");
    assert_eq!(c.key, "k");
    assert_eq!(c.local_place, "./canvas");
}
