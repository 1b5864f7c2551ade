//! A page of a module item, with the files its body links to.
use crate::item::Item;
use crate::json::{json_as_bool, json_as_str, json_at, Json};
use crate::util::{get_file_link_from_html, html_api_endpoints, GetFromJson};
use vstd::prelude::*;

verus! {

/// A page, the item it belongs to, and the file links of its body.
#[derive(Debug, Clone)]
pub struct Page {
    pub name: String,
    pub item: Item,
    pub filelink: Vec<String>,
}

/// `r` is the page that the page record `x` of item `i` describes: a record not locked for the
/// user, with `body` (whose links become `filelink`) and `title`.
pub open spec fn page_read_as(x: Json, i: Item, r: Option<Page>) -> bool {
    let locked = json_as_bool(json_at(x, "locked_for_user"@));
    let body = json_as_str(json_at(x, "body"@));
    let title = json_as_str(json_at(x, "title"@));
    if locked == Some(false) && body is Some && title is Some {
        &&& r is Some
        &&& r.unwrap().name@ == title.unwrap()
        &&& r.unwrap().item == i
        &&& r.unwrap().filelink@.map_values(|s: String| s@) == html_api_endpoints(body.unwrap())
    } else {
        r is None
    }
}

impl GetFromJson<Page, Item, i32> for Page {
    open spec fn reads_as(x: Json, i: Item, b: i32, r: Option<Page>) -> bool {
        page_read_as(x, i, r)
    }

    fn get_from_json(x: &Json, c: &Item, b: &i32) -> (r: Option<Page>) {
        if x.member_bool("locked_for_user")? {
            return None;
        }
        let filelink = get_file_link_from_html(x.member_str("body")?);
        let title = x.member_str("title")?;
        Some(Page { name: String::from_str(title), item: c.duplicate(), filelink })
    }
}

impl Page {
    /// The name to report when the page record `x` is skipped as locked: its `display_name`,
    /// where the record is locked for the user and has one.
    pub fn skipped_as_locked(x: &Json) -> (r: Option<String>)
        ensures
            match r {
                Some(n) => json_as_bool(json_at(*x, "locked_for_user"@)) == Some(true) && json_as_str(
                    json_at(*x, "display_name"@),
                ) == Some(n@),
                None => !(json_as_bool(json_at(*x, "locked_for_user"@)) == Some(true)
                    && json_as_str(json_at(*x, "display_name"@)) is Some),
            },
    {
        if x.member_bool("locked_for_user")? {
            Some(String::from_str(x.member_str("display_name")?))
        } else {
            None
        }
    }
}

} // verus!
