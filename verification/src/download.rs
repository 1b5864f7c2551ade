//! Talking to the Canvas API: the addresses it is asked at, and what each page of an answer
//! tells the paging loop to do next.
use crate::text::{append_decimal, append_signed_decimal, contains_text, decimal, has_infix, same_text, signed_decimal};
use vstd::prelude::*;

verus! {

/// What the paging loop does with an answer page.
#[derive(Debug, Clone, Copy, PartialEq, Eq, Structural)]
pub enum PageStep {
    /// The rate limit is exhausted: wait ten seconds and ask for the same page again.
    WaitForRateLimit,
    /// The request is refused or unknown: stop, keeping the pages read so far.
    Stop,
    /// Any other status than `200 OK`: wait a second and ask again.
    Retry,
    /// Keep the page and ask for the next one.
    Next,
    /// Keep the page; it is the last one.
    Last,
}

/// The step for an answer page, given whether its remaining rate limit is negative, its
/// `status` header and its `link` header.
pub open spec fn step_for(rate_limited: bool, status: Seq<char>, link: Option<Seq<char>>) -> PageStep {
    if rate_limited {
        PageStep::WaitForRateLimit
    } else if status == "401 Unauthorized"@ || status == "403 Forbidden"@ || status
        == "404 Not Found"@ {
        PageStep::Stop
    } else if status != "200 OK"@ {
        PageStep::Retry
    } else if link is Some && has_infix(link.unwrap(), "rel=\"next\""@) {
        PageStep::Next
    } else {
        PageStep::Last
    }
}

/// Decides what the paging loop does with an answer page.
pub fn page_step(rate_limited: bool, status: &str, link: Option<&str>) -> (r: PageStep)
    ensures
        r == step_for(
            rate_limited,
            status@,
            match link {
                Some(l) => Some(l@),
                None => None,
            },
        ),
{
    if rate_limited {
        return PageStep::WaitForRateLimit;
    }
    if same_text(status, "401 Unauthorized") {
        return PageStep::Stop;
    }
    if same_text(status, "403 Forbidden") {
        return PageStep::Stop;
    }
    if same_text(status, "404 Not Found") {
        return PageStep::Stop;
    }
    if !same_text(status, "200 OK") {
        return PageStep::Retry;
    }
    match link {
        Some(l) => if contains_text(l, "rel=\"next\"") {
            PageStep::Next
        } else {
            PageStep::Last
        },
        None => PageStep::Last,
    }
}

/// Only a `200 OK` page that is not rate limited is kept.
pub proof fn law_only_ok_pages_are_kept(rate_limited: bool, status: Seq<char>, link: Option<Seq<char>>)
    requires
        step_for(rate_limited, status, link) == PageStep::Next || step_for(rate_limited, status, link)
            == PageStep::Last,
    ensures
        !rate_limited,
        status == "200 OK"@,
{
}

/// A page whose remaining rate limit is negative always leads to waiting and asking again,
/// whatever its status and `link` header.
pub proof fn law_rate_limited_pages_wait(status: Seq<char>, link: Option<Seq<char>>)
    ensures
        step_for(true, status, link) == PageStep::WaitForRateLimit,
{
}

/// A page within the rate limit that is answered `401 Unauthorized`, `403 Forbidden` or
/// `404 Not Found` ends the listing; one answered with any other status but `200 OK` is asked
/// for again.
pub proof fn law_refused_pages_stop_and_failed_pages_retry(
    status: Seq<char>,
    link: Option<Seq<char>>,
)
    ensures
        (status == "401 Unauthorized"@ || status == "403 Forbidden"@ || status
            == "404 Not Found"@) ==> step_for(false, status, link) == PageStep::Stop,
        (status != "401 Unauthorized"@ && status != "403 Forbidden"@ && status != "404 Not Found"@
            && status != "200 OK"@) ==> step_for(false, status, link) == PageStep::Retry,
        step_for(false, status, link) == PageStep::Stop ==> (status == "401 Unauthorized"@ || status
            == "403 Forbidden"@ || status == "404 Not Found"@),
{
}

/// A kept page is followed by another request exactly when its `link` header names a next page.
pub proof fn law_paging_follows_next_link(status: Seq<char>, link: Option<Seq<char>>)
    requires
        status == "200 OK"@,
    ensures
        step_for(false, status, link) == if link is Some && has_infix(link.unwrap(), "rel=\"next\""@) {
            PageStep::Next
        } else {
            PageStep::Last
        },
{
    reveal_strlit("200 OK");
    reveal_strlit("401 Unauthorized");
    reveal_strlit("403 Forbidden");
    reveal_strlit("404 Not Found");
    assert("200 OK"@.len() != "401 Unauthorized"@.len());
    assert("200 OK"@.len() != "403 Forbidden"@.len());
    assert("200 OK"@.len() != "404 Not Found"@.len());
}

/// The address of answer page `page_num` of a listing address.
pub fn page_url(url: &str, page_num: u64) -> (r: String)
    ensures
        r@ == url@ + "&page="@ + decimal(page_num as nat),
{
    append_decimal(String::from_str(url).concat("&page="), page_num)
}

/// The address of the course list, with each course's term.
pub fn course_list_url(base: &str) -> (r: String)
    ensures
        r@ == base@ + "/api/v1/courses?include[]=term"@,
{
    String::from_str(base).concat("/api/v1/courses?include[]=term")
}

/// The address of a listing of a course: `assignments`, `modules` or `folders`.
pub fn course_listing_url(base: &str, course_id: i64, listing: &str) -> (r: String)
    ensures
        r@ == base@ + "/api/v1/courses/"@ + signed_decimal(course_id as int) + "/"@ + listing@ + "?"@,
{
    let s = String::from_str(base).concat("/api/v1/courses/");
    append_signed_decimal(s, course_id).concat("/").concat(listing).concat("?")
}

/// The address that lists the files behind a file link of a description or a page body.
pub fn file_link_url(link: &str) -> (r: String)
    ensures
        r@ == link@ + "?"@,
{
    String::from_str(link).concat("?")
}

} // verus!
