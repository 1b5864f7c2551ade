//! The settings of one Canvas account.
use crate::filter::Filters;
use crate::text::has_prefix;
use vstd::prelude::*;

verus! {

/// The settings of one account: its key, where files go, the Canvas address, whether terms get
/// directories of their own, and the filters.
#[derive(Debug, Clone)]
pub struct Config {
    pub key: String,
    pub local_place: String,
    pub canvas_url: String,
    pub allow_term: bool,
    pub filters: Option<Filters>,
}

impl Config {
    /// The settings that the first-run questions give: terms get directories, no filters.
    pub fn from_answers(canvas_url: String, key: String, local_place: String) -> (r: Config)
        ensures
            r.canvas_url == canvas_url,
            r.key == key,
            r.local_place == local_place,
            r.allow_term,
            r.filters is None,
    {
        Config { key, local_place, canvas_url, allow_term: true, filters: None }
    }
}

/// How an entered key is shown back: with `Bearer ` in front unless it starts with `B`.
pub fn bearer_display(s: &str) -> (r: String)
    ensures
        r@ == if has_prefix(s@, "B"@) {
            s@
        } else {
            "Bearer "@ + s@
        },
{
    if !crate::text::starts_with_text(s, "B") {
        String::from_str("Bearer ").concat(s)
    } else {
        String::from_str(s)
    }
}

} // verus!
