use canvas_syncer::assignment::Assignment;
use canvas_syncer::course::Course;
use canvas_syncer::course_file::{CourseFile, FileStatus, LocalFile, Timestamp};
use canvas_syncer::folder::Folder;
use canvas_syncer::item::Item;
use canvas_syncer::json::Json;
use canvas_syncer::module::Module;
use canvas_syncer::page::Page;
use canvas_syncer::util::{get_file_link_from_html, read_records, GetFromJson};

fn s(t: &str) -> Json {
    Json::Str(t.to_string())
}

fn obj(members: Vec<(&str, Json)>) -> Json {
    Json::Object(members.into_iter().map(|(k, v)| (k.to_string(), v)).collect())
}

fn course_record() -> Json {
    obj(vec![
        ("id", Json::PosInt(11)),
        ("name", s("Math/Stats")),
        ("course_code", s("MA101")),
        ("enrollment_term_id", Json::PosInt(3)),
        ("term", obj(vec![("name", s("Fall 2024"))])),
    ])
}

fn course() -> Course {
    Course::get_from_json(&course_record(), &1, &1).unwrap()
}

#[test]
fn course_record_is_read() {
    let c = course();
    assert_eq!(c.id, 11);
    assert_eq!(c.name, "Math/Stats");
    assert_eq!(c.course_code, "MA101");
    assert_eq!(c.term_id, 3);
    assert_eq!(c.term_name, "Fall 2024");
}

#[test]
fn course_record_missing_parts_gives_none() {
    let x = obj(vec![("id", Json::PosInt(11)), ("name", s("M"))]);
    assert!(Course::get_from_json(&x, &1, &1).is_none());
    let mut members = vec![
        ("id", Json::PosInt(11)),
        ("name", s("M")),
        ("course_code", s("C")),
        ("enrollment_term_id", Json::NegInt(-2)),
    ];
    members.push(("term", s("not an object")));
    assert!(Course::get_from_json(&obj(members), &1, &1).is_none());
    let big = obj(vec![
        ("id", Json::PosInt(u64::MAX)),
        ("name", s("M")),
        ("course_code", s("C")),
        ("enrollment_term_id", Json::PosInt(1)),
        ("term", obj(vec![("name", s("T"))])),
    ]);
    assert!(Course::get_from_json(&big, &1, &1).is_none());
    assert!(Course::get_from_json(&Json::Null, &1, &1).is_none());
}

#[test]
fn negative_ids_are_read() {
    let x = obj(vec![
        ("id", Json::NegInt(-5)),
        ("name", s("M")),
        ("course_code", s("C")),
        ("enrollment_term_id", Json::PosInt(1)),
        ("term", obj(vec![("name", s("T"))])),
    ]);
    assert_eq!(Course::get_from_json(&x, &1, &1).unwrap().id, -5);
}

fn folder_record(locked: bool, locked_for_user: Json) -> Json {
    obj(vec![
        ("id", Json::PosInt(5)),
        ("name", s("course files")),
        ("full_name", s("course files/slides")),
        ("files_url", s("https://x/api/v1/folders/5/files")),
        ("display_name", s("slides")),
        ("locked", Json::Bool(locked)),
        ("locked_for_user", locked_for_user),
    ])
}

#[test]
fn folder_record_is_read() {
    let f = Folder::get_from_json(&folder_record(false, Json::Bool(false)), &course(), &1).unwrap();
    assert_eq!(f.id, 5);
    assert_eq!(f.name, "course files");
    assert_eq!(f.fullname, "course files/slides");
    assert_eq!(f.filelink, "https://x/api/v1/folders/5/files?");
    assert_eq!(f.course.name, "Math/Stats");
}

#[test]
fn locked_folder_is_skipped() {
    let x = folder_record(true, Json::Null);
    assert!(Folder::get_from_json(&x, &course(), &1).is_none());
    assert_eq!(Folder::skipped_as_locked(&x), Some("slides".to_string()));
    let x = folder_record(false, Json::Bool(true));
    assert!(Folder::get_from_json(&x, &course(), &1).is_none());
    assert_eq!(Folder::skipped_as_locked(&x), Some("slides".to_string()));
    let x = folder_record(false, Json::Null);
    assert!(Folder::get_from_json(&x, &course(), &1).is_none());
    assert_eq!(Folder::skipped_as_locked(&x), None);
    assert_eq!(Folder::skipped_as_locked(&folder_record(false, Json::Bool(false))), None);
}

#[test]
fn html_links_are_found() {
    let html = "<p>see <a href=\"/f/1\" data-api-endpoint=\"https://x/api/v1/files/1\">one</a> \
                and <a data-api-endpoint=\"https://x/api/v1/files/2\">two</a> \
                <a href=\"/plain\">no</a> <span data-api-endpoint=\"nope\"></span></p>";
    assert_eq!(
        get_file_link_from_html(html),
        vec!["https://x/api/v1/files/1".to_string(), "https://x/api/v1/files/2".to_string()]
    );
    assert!(get_file_link_from_html("").is_empty());
}

fn assignment_record(locked: bool) -> Json {
    obj(vec![
        ("id", Json::PosInt(9)),
        ("name", s("HW 1")),
        ("display_name", s("HW 1")),
        ("locked_for_user", Json::Bool(locked)),
        ("description", s("<a data-api-endpoint=\"https://x/api/v1/files/3\">hw</a>")),
    ])
}

#[test]
fn assignment_record_is_read() {
    let a = Assignment::get_from_json(&assignment_record(false), &course(), &1).unwrap();
    assert_eq!(a.id, 9);
    assert_eq!(a.name, "HW 1");
    assert_eq!(a.filelink, vec!["https://x/api/v1/files/3".to_string()]);
    assert_eq!(Assignment::skipped_as_locked(&assignment_record(false)), None);
    assert!(Assignment::get_from_json(&assignment_record(true), &course(), &1).is_none());
    assert_eq!(Assignment::skipped_as_locked(&assignment_record(true)), Some("HW 1".to_string()));
}

fn module() -> Module {
    let x = obj(vec![
        ("id", Json::PosInt(2)),
        ("name", s("Week 1")),
        ("items_url", s("https://x/api/v1/modules/2/items")),
    ]);
    Module::get_from_json(&x, &course(), &1).unwrap()
}

fn item() -> Item {
    let x = obj(vec![
        ("id", Json::PosInt(4)),
        ("title", s("Intro")),
        ("url", s("https://x/api/v1/pages/intro")),
    ]);
    Item::get_from_json(&x, &module(), &1).unwrap()
}

#[test]
fn module_and_item_records_are_read() {
    let m = module();
    assert_eq!(m.id, 2);
    assert_eq!(m.name, "Week 1");
    assert_eq!(m.itemline, "https://x/api/v1/modules/2/items?");
    let i = item();
    assert_eq!(i.id, 4);
    assert_eq!(i.name, "Intro");
    assert_eq!(i.url, "https://x/api/v1/pages/intro?");
    assert_eq!(i.module.name, "Week 1");
    let no_title = obj(vec![("id", Json::PosInt(4)), ("url", s("u"))]);
    assert!(Item::get_from_json(&no_title, &module(), &1).is_none());
}

fn page() -> Page {
    let x = obj(vec![
        ("title", s("Intro page")),
        ("locked_for_user", Json::Bool(false)),
        ("body", s("<a data-api-endpoint=\"https://x/api/v1/files/8\">a</a>")),
    ]);
    Page::get_from_json(&x, &item(), &1).unwrap()
}

#[test]
fn page_record_is_read() {
    let p = page();
    assert_eq!(p.name, "Intro page");
    assert_eq!(p.filelink, vec!["https://x/api/v1/files/8".to_string()]);
    let locked = obj(vec![
        ("title", s("t")),
        ("display_name", s("hidden")),
        ("locked_for_user", Json::Bool(true)),
        ("body", s("")),
    ]);
    assert!(Page::get_from_json(&locked, &item(), &1).is_none());
    assert_eq!(Page::skipped_as_locked(&locked), Some("hidden".to_string()));
}

fn file_record(created: &str) -> Json {
    obj(vec![
        ("id", Json::PosInt(100)),
        ("display_name", s("notes.pdf")),
        ("filename", s("notes-1.pdf")),
        ("url", s("https://x/files/100/download")),
        ("content-type", s("application/pdf")),
        ("size", Json::PosInt(2048)),
        ("locked", Json::Bool(false)),
        ("locked_for_user", Json::Bool(false)),
        ("created_at", s(created)),
        ("updated_at", s("2024-01-02T03:04:06+01:00")),
        ("modified_at", s("2024-01-02T03:04:05.5Z")),
    ])
}

#[test]
fn file_record_is_read_with_dates() {
    let folder = Folder::get_from_json(&folder_record(false, Json::Bool(false)), &course(), &1).unwrap();
    let f = CourseFile::get_from_json(&file_record("2024-01-02T03:04:05Z"), &folder, &"./canvas".to_string())
        .unwrap();
    assert_eq!(f.id, 100);
    assert_eq!(f.display_name, "notes.pdf");
    assert_eq!(f.filename, "notes-1.pdf");
    assert_eq!(f.url, "https://x/files/100/download");
    assert_eq!(f.content_type, "application/pdf");
    assert_eq!(f.size, 2048);
    assert_eq!(f.created_time, Timestamp { seconds: 1704164645, nanos: 0 });
    assert_eq!(f.updated_time, Timestamp { seconds: 1704161046, nanos: 0 });
    assert_eq!(f.modified_time, Timestamp { seconds: 1704164645, nanos: 500_000_000 });
    assert_eq!(
        f.my_parent_path,
        vec!["./canvas".to_string(), "Math/Stats".to_string(), "course files/slides".to_string()]
    );
}

#[test]
fn file_record_with_bad_date_gives_none() {
    let folder = Folder::get_from_json(&folder_record(false, Json::Bool(false)), &course(), &1).unwrap();
    assert!(CourseFile::get_from_json(&file_record("yesterday"), &folder, &"r".to_string()).is_none());
}

#[test]
fn page_and_assignment_files_are_placed() {
    let f = CourseFile::get_from_json(&file_record("2024-01-02T03:04:05Z"), &page(), &"root".to_string())
        .unwrap();
    assert_eq!(
        f.my_parent_path,
        vec![
            "root".to_string(),
            "Math/Stats".to_string(),
            "Week 1".to_string(),
            "Intro".to_string(),
            "Intro page".to_string()
        ]
    );
    let a = Assignment::get_from_json(&assignment_record(false), &course(), &1).unwrap();
    let f = CourseFile::get_from_json(&file_record("2024-01-02T03:04:05Z"), &a, &"root".to_string()).unwrap();
    assert_eq!(f.my_parent_path, vec!["root".to_string(), "Math/Stats".to_string(), "HW 1".to_string()]);
}

#[test]
fn locked_file_is_skipped() {
    let mut x = file_record("2024-01-02T03:04:05Z");
    if let Json::Object(members) = &mut x {
        for m in members.iter_mut() {
            if m.0 == "locked" {
                m.1 = Json::Bool(true);
            }
        }
    }
    assert!(CourseFile::get_from_json(&x, &page(), &"r".to_string()).is_none());
    assert_eq!(CourseFile::skipped_as_locked(&x), Some("notes.pdf".to_string()));
    assert_eq!(CourseFile::skipped_as_locked(&file_record("2024-01-02T03:04:05Z")), None);
}

fn at(seconds: i64) -> Timestamp {
    Timestamp { seconds, nanos: 0 }
}

fn remote_file() -> CourseFile {
    CourseFile {
        id: 1,
        display_name: "a.pdf".to_string(),
        filename: "a.pdf".to_string(),
        url: "u".to_string(),
        content_type: "application/pdf".to_string(),
        size: 10,
        created_time: at(100),
        updated_time: at(300),
        modified_time: at(200),
        my_parent_path: vec![],
    }
}

#[test]
fn file_status_from_local_copy() {
    let f = remote_file();
    assert_eq!(f.get_status(None), FileStatus::NotExist);
    let current = LocalFile { modified: at(300), created: at(50), len: 10 };
    assert_eq!(f.get_status(Some(current)), FileStatus::Latest);
    let older = LocalFile { modified: at(299), created: at(250), len: 10 };
    assert_eq!(f.get_status(Some(older)), FileStatus::NeedUpdate);
    let created_late = LocalFile { modified: at(1), created: at(400), len: 10 };
    assert_eq!(f.get_status(Some(created_late)), FileStatus::Latest);
    let other_size = LocalFile { modified: at(500), created: at(500), len: 11 };
    assert_eq!(f.get_status(Some(other_size)), FileStatus::NeedUpdate);
    let by_nanos = LocalFile { modified: Timestamp { seconds: 299, nanos: 999_999_999 }, created: at(0), len: 10 };
    assert_eq!(f.get_status(Some(by_nanos)), FileStatus::NeedUpdate);
}

#[test]
fn answer_records() {
    let list = Json::Array(vec![course_record(), Json::Null, course_record()]);
    assert_eq!(list.records().len(), 3);
    let single = course_record();
    assert_eq!(single.records().len(), 1);
    let read: Vec<Course> =
        list.records().into_iter().filter_map(|x| Course::get_from_json(x, &1, &1)).collect();
    assert_eq!(read.len(), 2);
}

#[test]
fn duplicates_are_equal_copies() {
    let f = Folder::get_from_json(&folder_record(false, Json::Bool(false)), &course(), &1).unwrap();
    let d = f.duplicate();
    assert_eq!(d.id, f.id);
    assert_eq!(d.fullname, f.fullname);
    assert_eq!(d.course.term_name, f.course.term_name);
    let i = item().duplicate();
    assert_eq!(i.module.course.course_code, "MA101");
}
