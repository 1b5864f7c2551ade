//! An item of a course module.
use crate::json::{json_as_i64, json_as_str, json_at, Json};
use crate::module::Module;
use crate::util::GetFromJson;
use vstd::prelude::*;

verus! {

/// An item of a module, with the link that reads it.
#[derive(Debug, Clone)]
pub struct Item {
    pub id: i64,
    pub name: String,
    pub module: Module,
    pub url: String,
}

/// `r` is the item that the item record `x` of module `m` describes: `id`, `title` and `url`
/// (to which `?` is appended).
pub open spec fn item_read_as(x: Json, m: Module, r: Option<Item>) -> bool {
    let id = json_as_i64(json_at(x, "id"@));
    let title = json_as_str(json_at(x, "title"@));
    let url = json_as_str(json_at(x, "url"@));
    if id is Some && title is Some && url is Some {
        &&& r is Some
        &&& r.unwrap().id == id.unwrap()
        &&& r.unwrap().name@ == title.unwrap()
        &&& r.unwrap().module == m
        &&& r.unwrap().url@ == url.unwrap() + "?"@
    } else {
        r is None
    }
}

impl Item {
    /// A copy of the item.
    pub fn duplicate(&self) -> (r: Item)
        ensures
            r == *self,
    {
        Item {
            id: self.id,
            name: self.name.clone(),
            module: self.module.duplicate(),
            url: self.url.clone(),
        }
    }
}

impl GetFromJson<Item, Module, i32> for Item {
    open spec fn reads_as(x: Json, m: Module, b: i32, r: Option<Item>) -> bool {
        item_read_as(x, m, r)
    }

    fn get_from_json(x: &Json, c: &Module, b: &i32) -> (r: Option<Item>) {
        let id: i64 = x.member_i64("id")?;
        let title = x.member_str("title")?;
        let url = x.member_str("url")?;
        Some(Item { id, name: String::from_str(title), module: c.duplicate(), url: String::from_str(url).concat("?") })
    }
}

} // verus!
