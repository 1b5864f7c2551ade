//! A module of a course.
use crate::course::Course;
use crate::json::{json_as_i64, json_as_str, json_at, Json};
use crate::util::GetFromJson;
use vstd::prelude::*;

verus! {

/// A module of a course, with the link that lists its items.
#[derive(Debug, Clone)]
pub struct Module {
    pub id: i64,
    pub name: String,
    pub course: Course,
    pub itemline: String,
}

/// `r` is the module that the module record `x` of course `c` describes: `id`, `name` and
/// `items_url` (to which `?` is appended).
pub open spec fn module_read_as(x: Json, c: Course, r: Option<Module>) -> bool {
    let id = json_as_i64(json_at(x, "id"@));
    let name = json_as_str(json_at(x, "name"@));
    let items = json_as_str(json_at(x, "items_url"@));
    if id is Some && name is Some && items is Some {
        &&& r is Some
        &&& r.unwrap().id == id.unwrap()
        &&& r.unwrap().name@ == name.unwrap()
        &&& r.unwrap().course == c
        &&& r.unwrap().itemline@ == items.unwrap() + "?"@
    } else {
        r is None
    }
}

impl Module {
    /// A copy of the module.
    pub fn duplicate(&self) -> (r: Module)
        ensures
            r == *self,
    {
        Module {
            id: self.id,
            name: self.name.clone(),
            course: self.course.duplicate(),
            itemline: self.itemline.clone(),
        }
    }
}

impl GetFromJson<Module, Course, i32> for Module {
    open spec fn reads_as(x: Json, c: Course, b: i32, r: Option<Module>) -> bool {
        module_read_as(x, c, r)
    }

    fn get_from_json(x: &Json, c: &Course, b: &i32) -> (r: Option<Module>) {
        let id: i64 = x.member_i64("id")?;
        let name = x.member_str("name")?;
        let items_url = x.member_str("items_url")?;
        Some(
            Module {
                id,
                name: String::from_str(name),
                course: c.duplicate(),
                itemline: String::from_str(items_url).concat("?"),
            },
        )
    }
}

} // verus!
