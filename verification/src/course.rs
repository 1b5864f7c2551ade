//! A course as the course list describes it.
use crate::json::{json_as_i64, json_as_str, json_at, Json};
use crate::util::GetFromJson;
use vstd::prelude::*;

verus! {

/// A course, with the term it belongs to.
#[derive(Debug, Clone)]
pub struct Course {
    pub id: i64,
    pub name: String,
    pub course_code: String,
    pub term_id: i64,
    pub term_name: String,
}

/// `r` is the course that the course record `x` describes: `id`, `name`, `course_code`,
/// `enrollment_term_id` and `term.name`; `None` where one of them is missing or of another kind.
pub open spec fn course_read_as(x: Json, r: Option<Course>) -> bool {
    let id = json_as_i64(json_at(x, "id"@));
    let name = json_as_str(json_at(x, "name"@));
    let code = json_as_str(json_at(x, "course_code"@));
    let term_id = json_as_i64(json_at(x, "enrollment_term_id"@));
    let term_name = json_as_str(json_at(json_at(x, "term"@), "name"@));
    if id is Some && name is Some && code is Some && term_id is Some && term_name is Some {
        &&& r is Some
        &&& r.unwrap().id == id.unwrap()
        &&& r.unwrap().name@ == name.unwrap()
        &&& r.unwrap().course_code@ == code.unwrap()
        &&& r.unwrap().term_id == term_id.unwrap()
        &&& r.unwrap().term_name@ == term_name.unwrap()
    } else {
        r is None
    }
}

impl Course {
    /// A copy of the course.
    pub fn duplicate(&self) -> (r: Course)
        ensures
            r == *self,
    {
        Course {
            id: self.id,
            name: self.name.clone(),
            course_code: self.course_code.clone(),
            term_id: self.term_id,
            term_name: self.term_name.clone(),
        }
    }
}

impl GetFromJson<Course, i32, i32> for Course {
    open spec fn reads_as(x: Json, a: i32, b: i32, r: Option<Course>) -> bool {
        course_read_as(x, r)
    }

    fn get_from_json(x: &Json, a: &i32, b: &i32) -> (r: Option<Course>) {
        let id: i64 = x.member_i64("id")?;
        let name = x.member_str("name")?;
        let course_code = x.member_str("course_code")?;
        let term_id: i64 = x.member_i64("enrollment_term_id")?;
        let term_name = match x.member_or_null("term") {
            Some(term) => term.member_str("name"),
            None => None,
        }?;
        Some(
            Course {
                id,
                name: String::from_str(name),
                course_code: String::from_str(course_code),
                term_id,
                term_name: String::from_str(term_name),
            },
        )
    }
}

} // verus!
