//! A course file: where it comes from, where it goes, and whether the local copy is current.
use crate::assignment::Assignment;
use crate::folder::Folder;
use crate::json::{json_as_i64, json_as_str, json_as_u64, json_at, lock_flags, read_lock_flags, Json};
use crate::page::Page;
use crate::util::GetFromJson;
use vstd::prelude::*;

verus! {

/// An instant as seconds since the Unix epoch (UTC) and nanoseconds within the second (a leap
/// second carries nanoseconds of one second or more).
#[derive(Debug, Clone, Copy, PartialEq, Eq, Structural)]
pub struct Timestamp {
    pub seconds: i64,
    pub nanos: u32,
}

/// `a` is an earlier instant than `b`.
pub open spec fn earlier(a: Timestamp, b: Timestamp) -> bool {
    a.seconds < b.seconds || (a.seconds == b.seconds && a.nanos < b.nanos)
}

/// The later of two instants.
pub open spec fn later_of(a: Timestamp, b: Timestamp) -> Timestamp {
    if earlier(b, a) {
        a
    } else {
        b
    }
}

/// Whether `a` is an earlier instant than `b`.
pub fn is_earlier(a: Timestamp, b: Timestamp) -> (r: bool)
    ensures
        r == earlier(a, b),
{
    a.seconds < b.seconds || (a.seconds == b.seconds && a.nanos < b.nanos)
}

/// Names the instant, in seconds and nanoseconds since the epoch, that `chrono` reads from a
/// date-time text with the format `%+` (ISO 8601 / RFC 3339 with an offset).
pub uninterp spec fn iso8601_instant(text: Seq<char>) -> Option<(i64, u32)>;

/// Trusted: calls `chrono::DateTime::parse_from_str(text, "%+")` and turns the date-time into
/// UTC seconds and nanoseconds. The contract states only that the result is the instant that
/// `iso8601_instant` names for the text, `None` where `chrono` refuses it.
#[verifier::external_body]
fn parse_instant(text: &str) -> (r: Option<Timestamp>)
    ensures
        match r {
            Some(t) => iso8601_instant(text@) == Some((t.seconds, t.nanos)),
            None => iso8601_instant(text@) is None,
        },
{
    match chrono::DateTime::parse_from_str(text, "%+") {
        Ok(d) => Some(
            Timestamp { seconds: d.to_utc().timestamp(), nanos: d.to_utc().timestamp_subsec_nanos() },
        ),
        Err(_) => None,
    }
}

/// Whether the local copy of a file is current.
#[derive(Debug, Clone, Copy, PartialEq, Eq, Structural)]
pub enum FileStatus {
    Latest,
    NeedUpdate,
    NotExist,
}

/// What the file system tells of the local copy of a file.
#[derive(Debug, Clone, Copy, PartialEq, Eq, Structural)]
pub struct LocalFile {
    pub modified: Timestamp,
    pub created: Timestamp,
    pub len: u64,
}

/// A file of a course, with the directories (outermost first) its local copy goes into.
#[derive(Debug, Clone)]
pub struct CourseFile {
    pub id: i64,
    pub display_name: String,
    pub filename: String,
    pub url: String,
    pub content_type: String,
    pub size: u64,
    pub created_time: Timestamp,
    pub updated_time: Timestamp,
    pub modified_time: Timestamp,
    pub my_parent_path: Vec<String>,
}

/// The status of a file given its local copy (`None`: there is none): a copy older than the
/// newest of the remote creation, modification and update times, or of another size, needs an
/// update.
pub open spec fn status_of(f: CourseFile, local: Option<LocalFile>) -> FileStatus {
    match local {
        None => FileStatus::NotExist,
        Some(l) => {
            let newest_local = later_of(l.created, l.modified);
            let newest_remote = later_of(later_of(f.created_time, f.modified_time), f.updated_time);
            if earlier(newest_local, newest_remote) {
                FileStatus::NeedUpdate
            } else if l.len != f.size {
                FileStatus::NeedUpdate
            } else {
                FileStatus::Latest
            }
        },
    }
}

impl CourseFile {
    /// Whether the local copy is current, given what the file system tells of it.
    pub fn get_status(&self, local: Option<LocalFile>) -> (r: FileStatus)
        ensures
            r == status_of(*self, local),
    {
        match local {
            Some(y) => {
                let mod_time = y.modified;
                let create_time = y.created;
                let newest_local_time = if is_earlier(create_time, mod_time) {
                    mod_time
                } else {
                    create_time
                };
                let a = if is_earlier(self.modified_time, self.created_time) {
                    self.created_time
                } else {
                    self.modified_time
                };
                let newest_remote_time = if is_earlier(self.updated_time, a) {
                    a
                } else {
                    self.updated_time
                };
                if is_earlier(newest_local_time, newest_remote_time) {
                    return FileStatus::NeedUpdate;
                }
                if y.len != self.size {
                    return FileStatus::NeedUpdate;
                }
                FileStatus::Latest
            },
            None => FileStatus::NotExist,
        }
    }
}

/// The instant of the date-time member `key`.
pub open spec fn json_instant(x: Json, key: Seq<char>) -> Option<(i64, u32)> {
    match json_as_str(json_at(x, key)) {
        Some(t) => iso8601_instant(t),
        None => None,
    }
}

/// `r` is the file that the file record `x` describes, placed in `parent`: a record with a
/// `display_name`, unlocked, with `id`, `filename`, `url`, `content-type`, `size` and the
/// date-times `created_at`, `updated_at` and `modified_at`.
pub open spec fn course_file_read_as(x: Json, parent: Seq<Seq<char>>, r: Option<CourseFile>) -> bool {
    let display = json_as_str(json_at(x, "display_name"@));
    let id = json_as_i64(json_at(x, "id"@));
    let filename = json_as_str(json_at(x, "filename"@));
    let url = json_as_str(json_at(x, "url"@));
    let content_type = json_as_str(json_at(x, "content-type"@));
    let size = json_as_u64(json_at(x, "size"@));
    let created = json_instant(x, "created_at"@);
    let updated = json_instant(x, "updated_at"@);
    let modified = json_instant(x, "modified_at"@);
    if display is Some && lock_flags(x) == Some(false) && id is Some && filename is Some && url is Some
        && content_type is Some && size is Some && created is Some && updated is Some
        && modified is Some {
        &&& r is Some
        &&& r.unwrap().id == id.unwrap()
        &&& r.unwrap().display_name@ == display.unwrap()
        &&& r.unwrap().filename@ == filename.unwrap()
        &&& r.unwrap().url@ == url.unwrap()
        &&& r.unwrap().content_type@ == content_type.unwrap()
        &&& r.unwrap().size == size.unwrap()
        &&& (r.unwrap().created_time.seconds, r.unwrap().created_time.nanos) == created.unwrap()
        &&& (r.unwrap().updated_time.seconds, r.unwrap().updated_time.nanos) == updated.unwrap()
        &&& (r.unwrap().modified_time.seconds, r.unwrap().modified_time.nanos) == modified.unwrap()
        &&& r.unwrap().my_parent_path@.map_values(|s: String| s@) == parent
    } else {
        r is None
    }
}

fn read_instant(x: &Json, key: &str) -> (r: Option<Timestamp>)
    ensures
        match r {
            Some(t) => json_instant(*x, key@) == Some((t.seconds, t.nanos)),
            None => json_instant(*x, key@) is None,
        },
{
    parse_instant(x.member_str(key)?)
}

/// Reads a file record into a file placed in `parent`.
pub fn read_course_file(x: &Json, parent: Vec<String>) -> (r: Option<CourseFile>)
    ensures
        course_file_read_as(*x, parent@.map_values(|s: String| s@), r),
{
    let display_name = x.member_str("display_name")?;
    if read_lock_flags(x)? {
        return None;
    }
    let id: i64 = x.member_i64("id")?;
    let filename = x.member_str("filename")?;
    let url = x.member_str("url")?;
    let content_type = x.member_str("content-type")?;
    let size: u64 = x.member_u64("size")?;
    let created_time = read_instant(x, "created_at")?;
    let updated_time = read_instant(x, "updated_at")?;
    let modified_time = read_instant(x, "modified_at")?;
    Some(
        CourseFile {
            id,
            display_name: String::from_str(display_name),
            filename: String::from_str(filename),
            url: String::from_str(url),
            content_type: String::from_str(content_type),
            size,
            created_time,
            updated_time,
            modified_time,
            my_parent_path: parent,
        },
    )
}

/// The directories of a file of folder `f` under the download root `path`.
pub open spec fn folder_file_dirs(path: Seq<char>, f: Folder) -> Seq<Seq<char>> {
    seq![path, f.course.name@, f.fullname@]
}

/// The directories of a file of assignment `a` under the download root `path`.
pub open spec fn assignment_file_dirs(path: Seq<char>, a: Assignment) -> Seq<Seq<char>> {
    seq![path, a.course.name@, a.name@]
}

/// The directories of a file of page `p` under the download root `path`.
pub open spec fn page_file_dirs(path: Seq<char>, p: Page) -> Seq<Seq<char>> {
    seq![path, p.item.module.course.name@, p.item.module.name@, p.item.name@, p.name@]
}

impl GetFromJson<CourseFile, Folder, String> for CourseFile {
    open spec fn reads_as(x: Json, f: Folder, path: String, r: Option<CourseFile>) -> bool {
        course_file_read_as(x, folder_file_dirs(path@, f), r)
    }

    fn get_from_json(x: &Json, f: &Folder, path: &String) -> (r: Option<CourseFile>) {
        let mut dirs: Vec<String> = Vec::new();
        dirs.push(path.clone());
        dirs.push(f.course.name.clone());
        dirs.push(f.fullname.clone());
        assert(dirs@.map_values(|s: String| s@) =~= folder_file_dirs(path@, *f));
        read_course_file(x, dirs)
    }
}

impl GetFromJson<CourseFile, Assignment, String> for CourseFile {
    open spec fn reads_as(x: Json, a: Assignment, path: String, r: Option<CourseFile>) -> bool {
        course_file_read_as(x, assignment_file_dirs(path@, a), r)
    }

    fn get_from_json(x: &Json, a: &Assignment, path: &String) -> (r: Option<CourseFile>) {
        let mut dirs: Vec<String> = Vec::new();
        dirs.push(path.clone());
        dirs.push(a.course.name.clone());
        dirs.push(a.name.clone());
        assert(dirs@.map_values(|s: String| s@) =~= assignment_file_dirs(path@, *a));
        read_course_file(x, dirs)
    }
}

impl GetFromJson<CourseFile, Page, String> for CourseFile {
    open spec fn reads_as(x: Json, p: Page, path: String, r: Option<CourseFile>) -> bool {
        course_file_read_as(x, page_file_dirs(path@, p), r)
    }

    fn get_from_json(x: &Json, p: &Page, path: &String) -> (r: Option<CourseFile>) {
        let mut dirs: Vec<String> = Vec::new();
        dirs.push(path.clone());
        dirs.push(p.item.module.course.name.clone());
        dirs.push(p.item.module.name.clone());
        dirs.push(p.item.name.clone());
        dirs.push(p.name.clone());
        assert(dirs@.map_values(|s: String| s@) =~= page_file_dirs(path@, *p));
        read_course_file(x, dirs)
    }
}

impl CourseFile {
    /// The name to report when the file record `x` is skipped as locked: its `display_name`,
    /// where the record has one and is locked.
    pub fn skipped_as_locked(x: &Json) -> (r: Option<String>)
        ensures
            match r {
                Some(n) => lock_flags(*x) == Some(true) && json_as_str(json_at(*x, "display_name"@))
                    == Some(n@),
                None => !(lock_flags(*x) == Some(true) && json_as_str(
                    json_at(*x, "display_name"@),
                ) is Some),
            },
    {
        let display_name = x.member_str("display_name")?;
        if read_lock_flags(x)? {
            Some(String::from_str(display_name))
        } else {
            None
        }
    }
}

/// A local copy counts as current only when it has the remote size and is no older than the
/// newest remote time; without a local copy the file is missing, never outdated.
pub proof fn law_current_copy_matches_remote(f: CourseFile, local: Option<LocalFile>)
    ensures
        status_of(f, local) == FileStatus::NotExist <==> local is None,
        status_of(f, local) == FileStatus::Latest ==> {
            &&& local.unwrap().len == f.size
            &&& !earlier(
                later_of(local.unwrap().created, local.unwrap().modified),
                f.created_time,
            )
            &&& !earlier(
                later_of(local.unwrap().created, local.unwrap().modified),
                f.modified_time,
            )
            &&& !earlier(
                later_of(local.unwrap().created, local.unwrap().modified),
                f.updated_time,
            )
        },
{
}

/// A record whose lock flags say it is locked is never read as a file.
pub proof fn law_locked_file_is_not_read(x: Json, parent: Seq<Seq<char>>, r: Option<CourseFile>)
    requires
        lock_flags(x) == Some(true),
        course_file_read_as(x, parent, r),
    ensures
        r is None,
{
}

} // verus!
