//! An assignment of a course, with the files its description links to.
use crate::course::Course;
use crate::json::{json_as_bool, json_as_i64, json_as_str, json_at, Json};
use crate::util::{get_file_link_from_html, html_api_endpoints, GetFromJson};
use vstd::prelude::*;

verus! {

/// An assignment of a course and the file links of its description.
#[derive(Debug, Clone)]
pub struct Assignment {
    pub id: i64,
    pub name: String,
    pub course: Course,
    pub filelink: Vec<String>,
}

/// `r` is the assignment that the assignment record `x` of course `c` describes: a record not
/// locked for the user, with `description` (whose links become `filelink`), `id` and `name`.
pub open spec fn assignment_read_as(x: Json, c: Course, r: Option<Assignment>) -> bool {
    let locked = json_as_bool(json_at(x, "locked_for_user"@));
    let description = json_as_str(json_at(x, "description"@));
    let id = json_as_i64(json_at(x, "id"@));
    let name = json_as_str(json_at(x, "name"@));
    if locked == Some(false) && description is Some && id is Some && name is Some {
        &&& r is Some
        &&& r.unwrap().id == id.unwrap()
        &&& r.unwrap().name@ == name.unwrap()
        &&& r.unwrap().course == c
        &&& r.unwrap().filelink@.map_values(|s: String| s@) == html_api_endpoints(
            description.unwrap(),
        )
    } else {
        r is None
    }
}

impl GetFromJson<Assignment, Course, i32> for Assignment {
    open spec fn reads_as(x: Json, c: Course, b: i32, r: Option<Assignment>) -> bool {
        assignment_read_as(x, c, r)
    }

    fn get_from_json(x: &Json, c: &Course, b: &i32) -> (r: Option<Assignment>) {
        if x.member_bool("locked_for_user")? {
            return None;
        }
        let filelink = get_file_link_from_html(x.member_str("description")?);
        let id: i64 = x.member_i64("id")?;
        let name = x.member_str("name")?;
        Some(Assignment { id, name: String::from_str(name), course: c.duplicate(), filelink })
    }
}

impl Assignment {
    /// The name to report when the assignment record `x` is skipped as locked: its
    /// `display_name`, where the record is locked for the user and has one.
    pub fn skipped_as_locked(x: &Json) -> (r: Option<String>)
        ensures
            match r {
                Some(n) => json_as_bool(json_at(*x, "locked_for_user"@)) == Some(true) && json_as_str(
                    json_at(*x, "display_name"@),
                ) == Some(n@),
                None => !(json_as_bool(json_at(*x, "locked_for_user"@)) == Some(true)
                    && json_as_str(json_at(*x, "display_name"@)) is Some),
            },
    {
        if x.member_bool("locked_for_user")? {
            Some(String::from_str(x.member_str("display_name")?))
        } else {
            None
        }
    }
}

} // verus!
