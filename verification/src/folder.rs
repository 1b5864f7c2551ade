//! A folder of course files.
use crate::course::Course;
use crate::json::{json_as_i64, json_as_str, json_at, lock_flags, read_lock_flags, Json};
use crate::util::GetFromJson;
use vstd::prelude::*;

verus! {

/// A folder of a course, with the link that lists its files.
#[derive(Debug, Clone)]
pub struct Folder {
    pub id: i64,
    pub name: String,
    pub fullname: String,
    pub course: Course,
    pub filelink: String,
}

/// `r` is the folder that the folder record `x` of course `c` describes: an unlocked record
/// with `id`, `name`, `full_name` and `files_url` (to which `?` is appended).
pub open spec fn folder_read_as(x: Json, c: Course, r: Option<Folder>) -> bool {
    let id = json_as_i64(json_at(x, "id"@));
    let name = json_as_str(json_at(x, "name"@));
    let full = json_as_str(json_at(x, "full_name"@));
    let files = json_as_str(json_at(x, "files_url"@));
    if lock_flags(x) == Some(false) && id is Some && name is Some && full is Some && files is Some {
        &&& r is Some
        &&& r.unwrap().id == id.unwrap()
        &&& r.unwrap().name@ == name.unwrap()
        &&& r.unwrap().fullname@ == full.unwrap()
        &&& r.unwrap().course == c
        &&& r.unwrap().filelink@ == files.unwrap() + "?"@
    } else {
        r is None
    }
}

impl GetFromJson<Folder, Course, i32> for Folder {
    open spec fn reads_as(x: Json, c: Course, b: i32, r: Option<Folder>) -> bool {
        folder_read_as(x, c, r)
    }

    fn get_from_json(x: &Json, c: &Course, b: &i32) -> (r: Option<Folder>) {
        if read_lock_flags(x)? {
            return None;
        }
        let id: i64 = x.member_i64("id")?;
        let name = x.member_str("name")?;
        let fullname = x.member_str("full_name")?;
        let files_url = x.member_str("files_url")?;
        Some(
            Folder {
                id,
                name: String::from_str(name),
                fullname: String::from_str(fullname),
                course: c.duplicate(),
                filelink: String::from_str(files_url).concat("?"),
            },
        )
    }
}

impl Folder {
    /// A copy of the folder.
    pub fn duplicate(&self) -> (r: Folder)
        ensures
            r == *self,
    {
        Folder {
            id: self.id,
            name: self.name.clone(),
            fullname: self.fullname.clone(),
            course: self.course.duplicate(),
            filelink: self.filelink.clone(),
        }
    }

    /// The name to report when the folder record `x` is skipped as locked: its `display_name`,
    /// where the record is locked and has one.
    pub fn skipped_as_locked(x: &Json) -> (r: Option<String>)
        ensures
            match r {
                Some(n) => lock_flags(*x) == Some(true) && json_as_str(json_at(*x, "display_name"@))
                    == Some(n@),
                None => !(lock_flags(*x) == Some(true) && json_as_str(
                    json_at(*x, "display_name"@),
                ) is Some),
            },
    {
        if read_lock_flags(x)? {
            Some(String::from_str(x.member_str("display_name")?))
        } else {
            None
        }
    }
}

/// A folder record that is reported as skipped for its lock is not read as a folder.
pub proof fn law_reported_folder_is_not_read(x: Json, c: Course, r: Option<Folder>)
    requires
        lock_flags(x) == Some(true),
        folder_read_as(x, c, r),
    ensures
        r is None,
{
}

} // verus!
