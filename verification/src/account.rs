//! What a sync run decides: which courses it keeps, how names become directory names, where
//! things go on disk, and which files it downloads or updates.
use crate::assignment::Assignment;
use crate::course::Course;
use crate::course_file::{CourseFile, FileStatus};
use crate::filter::{object_accepted, object_filter_check, Filters, ObjectFilter};
use crate::folder::Folder;
use crate::item::Item;
use crate::module::Module;
use crate::page::Page;
use crate::text::{append_decimal, decimal};
use vstd::prelude::*;

verus! {

/// A character that cannot stand in a file name on some system.
pub open spec fn is_reserved(c: char) -> bool {
    c == '/' || c == '\\' || c == ':' || c == '?' || c == '*' || c == '<' || c == '>' || c == '|'
}

/// A character that a file name cannot end with on some system.
pub open spec fn is_space_or_dot(c: char) -> bool {
    c == ' ' || c == '.'
}

/// `s` with every reserved character turned into `_`.
pub open spec fn underscore_reserved(s: Seq<char>) -> Seq<char> {
    s.map_values(|c: char| if is_reserved(c) { '_' } else { c })
}

/// `s` without its trailing spaces and dots.
pub open spec fn trim_end_space_dot(s: Seq<char>) -> Seq<char>
    decreases s.len(),
{
    if s.len() > 0 && is_space_or_dot(s.last()) {
        trim_end_space_dot(s.drop_last())
    } else {
        s
    }
}

/// The directory name for a name: reserved characters become `_`, then trailing spaces and
/// dots are cut.
pub open spec fn safe_name(s: Seq<char>) -> Seq<char> {
    trim_end_space_dot(underscore_reserved(s))
}

fn is_reserved_char(c: char) -> (r: bool)
    ensures
        r == is_reserved(c),
{
    c == '/' || c == '\\' || c == ':' || c == '?' || c == '*' || c == '<' || c == '>' || c == '|'
}

proof fn lemma_trim_end_space_dot_take(s: Seq<char>, k: int)
    requires
        0 <= k <= s.len(),
        forall|j: int| k <= j < s.len() ==> is_space_or_dot(#[trigger] s[j]),
        k == 0 || !is_space_or_dot(s[k - 1]),
    ensures
        trim_end_space_dot(s) == s.take(k),
    decreases s.len() - k,
{
    if k < s.len() {
        let t = s.drop_last();
        assert(is_space_or_dot(s[s.len() - 1]));
        assert forall|j: int| k <= j < t.len() implies is_space_or_dot(#[trigger] t[j]) by {
            assert(t[j] == s[j]);
        }
        if k > 0 {
            assert(t[k - 1] == s[k - 1]);
        }
        lemma_trim_end_space_dot_take(t, k);
        assert(t.take(k) =~= s.take(k));
    } else {
        assert(s.take(k) =~= s);
    }
}

/// Turns a name into a directory name (`safe_name`).
pub fn specia_char_replace(st: String) -> (r: String)
    ensures
        r@ == safe_name(st@),
{
    let s = st.as_str();
    let n: usize = s.unicode_len();
    let mut out = String::new();
    let mut start: usize = 0;
    let mut i: usize = 0;
    while i < n
        invariant
            n == s@.len(),
            s@ == st@,
            start <= i <= n,
            out@ == underscore_reserved(s@.take(start as int)),
            forall|j: int| start <= j < i ==> !is_reserved(#[trigger] s@[j]),
        decreases n - i,
    {
        let c = s.get_char(i);
        if is_reserved_char(c) {
            let ghost before = out@;
            out = out.concat(s.substring_char(start, i)).concat("_");
            proof {
                assert(underscore_reserved(s@.take(i + 1)) =~= before + s@.subrange(
                    start as int,
                    i as int,
                ) + seq!['_']) by {
                    assert forall|j: int| 0 <= j < i + 1 implies #[trigger] underscore_reserved(
                        s@.take(i + 1),
                    )[j] == (before + s@.subrange(start as int, i as int) + seq!['_'])[j] by {
                        if j < start {
                            assert(before[j] == underscore_reserved(s@.take(start as int))[j]);
                        }
                    }
                }
                reveal_strlit("_");
                assert("_"@ =~= seq!['_']);
            }
            start = i + 1;
        }
        i = i + 1;
    }
    let ghost before = out@;
    out = out.concat(s.substring_char(start, n));
    proof {
        assert(underscore_reserved(s@) =~= before + s@.subrange(start as int, n as int)) by {
            assert forall|j: int| 0 <= j < n implies #[trigger] underscore_reserved(s@)[j] == (before
                + s@.subrange(start as int, n as int))[j] by {
                if j < start {
                    assert(before[j] == underscore_reserved(s@.take(start as int))[j]);
                }
            }
        }
    }
    let replaced = out.as_str();
    let m: usize = replaced.unicode_len();
    let mut e: usize = m;
    while e > 0 && (replaced.get_char(e - 1) == ' ' || replaced.get_char(e - 1) == '.')
        invariant
            m == replaced@.len(),
            e <= m,
            forall|j: int| e <= j < m ==> is_space_or_dot(#[trigger] replaced@[j]),
        decreases e,
    {
        e = e - 1;
    }
    proof {
        lemma_trim_end_space_dot_take(replaced@, e as int);
        assert(replaced@.subrange(0, e as int) =~= replaced@.take(e as int));
    }
    String::from_str(replaced.substring_char(0, e))
}

proof fn lemma_trim_end_space_dot_prefix(s: Seq<char>)
    ensures
        trim_end_space_dot(s).len() <= s.len(),
        trim_end_space_dot(s) == s.take(trim_end_space_dot(s).len() as int),
        trim_end_space_dot(s).len() == 0 || !is_space_or_dot(trim_end_space_dot(s).last()),
    decreases s.len(),
{
    if s.len() > 0 && is_space_or_dot(s.last()) {
        lemma_trim_end_space_dot_prefix(s.drop_last());
        let t = trim_end_space_dot(s.drop_last());
        assert(s.drop_last().take(t.len() as int) =~= s.take(t.len() as int));
    } else {
        assert(s.take(s.len() as int) =~= s);
    }
}

/// A directory name holds no reserved character, does not end with a space or a dot, and is
/// no longer than the name it comes from.
pub proof fn law_safe_name_is_safe(s: Seq<char>)
    ensures
        forall|i: int| 0 <= i < safe_name(s).len() ==> !is_reserved(#[trigger] safe_name(s)[i]),
        safe_name(s).len() == 0 || !is_space_or_dot(safe_name(s).last()),
        safe_name(s).len() <= s.len(),
{
    let u = underscore_reserved(s);
    lemma_trim_end_space_dot_prefix(u);
    assert forall|i: int| 0 <= i < safe_name(s).len() implies !is_reserved(
        #[trigger] safe_name(s)[i],
    ) by {
        assert(safe_name(s)[i] == u[i]);
    }
}

/// A name that is already safe is its own directory name.
pub proof fn law_safe_name_keeps_safe_names(s: Seq<char>)
    requires
        forall|i: int| 0 <= i < s.len() ==> !is_reserved(#[trigger] s[i]),
        s.len() == 0 || !is_space_or_dot(s.last()),
    ensures
        safe_name(s) == s,
{
    assert(underscore_reserved(s) =~= s);
}

/// Turning a name into a directory name twice gives what once gives.
pub proof fn law_safe_name_idempotent(s: Seq<char>)
    ensures
        safe_name(safe_name(s)) == safe_name(s),
{
    law_safe_name_is_safe(s);
    law_safe_name_keeps_safe_names(safe_name(s));
}

/// The object filter of the term filter, if any.
pub open spec fn term_object_filter(filters: Option<Filters>) -> Option<ObjectFilter> {
    match filters {
        Some(fs) => match fs.term_filter {
            Some(t) => t.object_filter,
            None => None,
        },
        None => None,
    }
}

/// The object filter of the course filter, if any.
pub open spec fn course_object_filter(filters: Option<Filters>) -> Option<ObjectFilter> {
    match filters {
        Some(fs) => match fs.course_filter {
            Some(c) => c.object_filter,
            None => None,
        },
        None => None,
    }
}

/// A course passes the term filter (on its term's id and name) and the course filter (on its
/// own id and name), each where there is one.
pub open spec fn course_kept(filters: Option<Filters>, c: Course) -> bool {
    &&& (term_object_filter(filters) is None || object_accepted(
        term_object_filter(filters).unwrap(),
        c.term_id,
        c.term_name@,
    ))
    &&& (course_object_filter(filters) is None || object_accepted(
        course_object_filter(filters).unwrap(),
        c.id,
        c.name@,
    ))
}

/// The courses of `s` that are kept, in order.
pub open spec fn kept_courses(filters: Option<Filters>, s: Seq<Course>) -> Seq<Course>
    decreases s.len(),
{
    if s.len() == 0 {
        Seq::empty()
    } else if course_kept(filters, s.last()) {
        kept_courses(filters, s.drop_last()).push(s.last())
    } else {
        kept_courses(filters, s.drop_last())
    }
}

/// `d` is course `c` with its name and its term's name made directory names.
pub open spec fn course_made_safe(c: Course, d: Course) -> bool {
    &&& d.id == c.id
    &&& d.name@ == safe_name(c.name@)
    &&& d.course_code == c.course_code
    &&& d.term_id == c.term_id
    &&& d.term_name@ == safe_name(c.term_name@)
}

fn passes(f: Option<&ObjectFilter>, id: i64, name: &String) -> (r: bool)
    ensures
        r == (f is None || object_accepted(*f.unwrap(), id, name@)),
{
    match f {
        Some(z) => object_filter_check(z, id, name),
        None => true,
    }
}

fn term_filter_of(filters: &Option<Filters>) -> (r: Option<&ObjectFilter>)
    ensures
        match r {
            Some(z) => term_object_filter(*filters) == Some(*z),
            None => term_object_filter(*filters) is None,
        },
{
    match filters {
        Some(fs) => match &fs.term_filter {
            Some(t) => match &t.object_filter {
                Some(z) => Some(z),
                None => None,
            },
            None => None,
        },
        None => None,
    }
}

fn course_filter_of(filters: &Option<Filters>) -> (r: Option<&ObjectFilter>)
    ensures
        match r {
            Some(z) => course_object_filter(*filters) == Some(*z),
            None => course_object_filter(*filters) is None,
        },
{
    match filters {
        Some(fs) => match &fs.course_filter {
            Some(c) => match &c.object_filter {
                Some(z) => Some(z),
                None => None,
            },
            None => None,
        },
        None => None,
    }
}

/// The courses of a sync run: those that pass the term and course filters, in order, with their
/// names and term names made directory names.
pub fn select_courses(filters: &Option<Filters>, courses: Vec<Course>) -> (r: Vec<Course>)
    ensures
        r@.len() == kept_courses(*filters, courses@).len(),
        forall|i: int|
            0 <= i < r@.len() ==> course_made_safe(
                kept_courses(*filters, courses@)[i],
                #[trigger] r@[i],
            ),
{
    let term_filter = term_filter_of(filters);
    let course_filter = course_filter_of(filters);
    let mut out: Vec<Course> = Vec::new();
    let mut i: usize = 0;
    while i < courses.len()
        invariant
            i <= courses@.len(),
            out@.len() == kept_courses(*filters, courses@.take(i as int)).len(),
            forall|j: int|
                0 <= j < out@.len() ==> course_made_safe(
                    kept_courses(*filters, courses@.take(i as int))[j],
                    #[trigger] out@[j],
                ),
            match term_filter {
                Some(z) => term_object_filter(*filters) == Some(*z),
                None => term_object_filter(*filters) is None,
            },
            match course_filter {
                Some(z) => course_object_filter(*filters) == Some(*z),
                None => course_object_filter(*filters) is None,
            },
        decreases courses@.len() - i,
    {
        let c = &courses[i];
        proof {
            assert(courses@.take(i + 1).drop_last() =~= courses@.take(i as int));
        }
        if passes(term_filter, c.term_id, &c.term_name) && passes(course_filter, c.id, &c.name) {
            out.push(
                Course {
                    id: c.id,
                    name: specia_char_replace(c.name.clone()),
                    course_code: c.course_code.clone(),
                    term_id: c.term_id,
                    term_name: specia_char_replace(c.term_name.clone()),
                },
            );
        }
        i = i + 1;
    }
    assert(courses@.take(courses@.len() as int) =~= courses@);
    out
}

/// A folder with its name and full name made directory names.
pub fn safe_folder(f: Folder) -> (r: Folder)
    ensures
        r.id == f.id,
        r.name@ == safe_name(f.name@),
        r.fullname@ == safe_name(f.fullname@),
        r.course == f.course,
        r.filelink == f.filelink,
{
    Folder {
        id: f.id,
        name: specia_char_replace(f.name),
        fullname: specia_char_replace(f.fullname),
        course: f.course,
        filelink: f.filelink,
    }
}

/// An assignment with its name made a directory name.
pub fn safe_assignment(a: Assignment) -> (r: Assignment)
    ensures
        r.id == a.id,
        r.name@ == safe_name(a.name@),
        r.course == a.course,
        r.filelink == a.filelink,
{
    Assignment { id: a.id, name: specia_char_replace(a.name), course: a.course, filelink: a.filelink }
}

/// A module with its name made a directory name.
pub fn safe_module(m: Module) -> (r: Module)
    ensures
        r.id == m.id,
        r.name@ == safe_name(m.name@),
        r.course == m.course,
        r.itemline == m.itemline,
{
    Module { id: m.id, name: specia_char_replace(m.name), course: m.course, itemline: m.itemline }
}

/// An item with its name made a directory name.
pub fn safe_item(i: Item) -> (r: Item)
    ensures
        r.id == i.id,
        r.name@ == safe_name(i.name@),
        r.module == i.module,
        r.url == i.url,
{
    Item { id: i.id, name: specia_char_replace(i.name), module: i.module, url: i.url }
}

/// A page with its name made a directory name.
pub fn safe_page(p: Page) -> (r: Page)
    ensures
        r.name@ == safe_name(p.name@),
        r.item == p.item,
        r.filelink == p.filelink,
{
    Page { name: specia_char_replace(p.name), item: p.item, filelink: p.filelink }
}

/// The views of a list of strings.
pub open spec fn texts(v: Seq<String>) -> Seq<Seq<char>> {
    v.map_values(|s: String| s@)
}

/// The directories under `local_place` that hold the objects of a course: the term's directory
/// comes first where terms are kept apart.
pub open spec fn course_dirs(local_place: Seq<char>, allow_term: bool, c: Course) -> Seq<Seq<char>> {
    if allow_term {
        seq![local_place, c.term_name@, c.name@]
    } else {
        seq![local_place, c.name@]
    }
}

fn push_course_dirs(local_place: &str, allow_term: bool, c: &Course) -> (r: Vec<String>)
    ensures
        texts(r@) == course_dirs(local_place@, allow_term, *c),
{
    let mut r: Vec<String> = Vec::new();
    r.push(String::from_str(local_place));
    if allow_term {
        r.push(c.term_name.clone());
    }
    r.push(c.name.clone());
    assert(texts(r@) =~= course_dirs(local_place@, allow_term, *c));
    r
}

/// The directory of a folder, as its components.
pub fn folder_dirs(local_place: &str, allow_term: bool, f: &Folder) -> (r: Vec<String>)
    ensures
        texts(r@) == course_dirs(local_place@, allow_term, f.course).push(f.fullname@),
{
    let mut r = push_course_dirs(local_place, allow_term, &f.course);
    let ghost before = r@;
    r.push(f.fullname.clone());
    assert(texts(r@) =~= texts(before).push(f.fullname@));
    r
}

/// The directory of an assignment, as its components.
pub fn assignment_dirs(local_place: &str, allow_term: bool, a: &Assignment) -> (r: Vec<String>)
    ensures
        texts(r@) == course_dirs(local_place@, allow_term, a.course).push(a.name@),
{
    let mut r = push_course_dirs(local_place, allow_term, &a.course);
    let ghost before = r@;
    r.push(a.name.clone());
    assert(texts(r@) =~= texts(before).push(a.name@));
    r
}

/// The directory of a page, as its components: course, module, item, page.
pub fn page_dirs(local_place: &str, allow_term: bool, p: &Page) -> (r: Vec<String>)
    ensures
        texts(r@) == course_dirs(local_place@, allow_term, p.item.module.course).push(
            p.item.module.name@,
        ).push(p.item.name@).push(p.name@),
{
    let mut r = push_course_dirs(local_place, allow_term, &p.item.module.course);
    let ghost before = r@;
    r.push(p.item.module.name.clone());
    r.push(p.item.name.clone());
    r.push(p.name.clone());
    assert(texts(r@) =~= texts(before).push(p.item.module.name@).push(p.item.name@).push(p.name@));
    r
}

/// The root under which the files of a course of term `term_name` are listed: the download
/// place, followed by `/` and the term's name where terms are kept apart.
pub fn file_root(local_place: &str, allow_term: bool, term_name: &str) -> (r: String)
    ensures
        r@ == if allow_term {
            local_place@ + "/"@ + term_name@
        } else {
            local_place@
        },
{
    if !allow_term {
        String::from_str(local_place)
    } else {
        String::from_str(local_place).concat("/").concat(term_name)
    }
}

/// The positions below `k` whose status is `s`, in order.
pub open spec fn positions_with(statuses: Seq<FileStatus>, s: FileStatus, k: int) -> Seq<usize>
    decreases k,
{
    if k <= 0 {
        Seq::empty()
    } else if statuses[k - 1] == s {
        positions_with(statuses, s, k - 1).push((k - 1) as usize)
    } else {
        positions_with(statuses, s, k - 1)
    }
}

/// The total size of the files below position `k` whose status is `s`.
pub open spec fn size_with(files: Seq<CourseFile>, statuses: Seq<FileStatus>, s: FileStatus, k: int) -> int
    decreases k,
{
    if k <= 0 {
        0
    } else if statuses[k - 1] == s {
        size_with(files, statuses, s, k - 1) + files[k - 1].size
    } else {
        size_with(files, statuses, s, k - 1)
    }
}

/// Which files a run downloads (no local copy) and updates (an outdated copy), by position,
/// and how many bytes each takes.
#[derive(Debug)]
pub struct TransferPlan {
    pub need_download_files: Vec<usize>,
    pub need_update_files: Vec<usize>,
    pub download_size: u64,
    pub update_size: u64,
}

proof fn lemma_size_with_grows(files: Seq<CourseFile>, statuses: Seq<FileStatus>, s: FileStatus, j: int, k: int)
    requires
        0 <= j <= k,
    ensures
        size_with(files, statuses, s, j) <= size_with(files, statuses, s, k),
    decreases k - j,
{
    if j < k {
        lemma_size_with_grows(files, statuses, s, j, k - 1);
    }
}

/// Splits the files by the status of their local copies: missing ones are downloaded, outdated
/// ones updated, current ones left alone.
pub fn calculate_files(files: &Vec<CourseFile>, statuses: &Vec<FileStatus>) -> (r: TransferPlan)
    requires
        statuses@.len() == files@.len(),
        size_with(files@, statuses@, FileStatus::NotExist, files@.len() as int) <= u64::MAX,
        size_with(files@, statuses@, FileStatus::NeedUpdate, files@.len() as int) <= u64::MAX,
    ensures
        r.need_download_files@ == positions_with(statuses@, FileStatus::NotExist, files@.len() as int),
        r.need_update_files@ == positions_with(statuses@, FileStatus::NeedUpdate, files@.len() as int),
        r.download_size == size_with(files@, statuses@, FileStatus::NotExist, files@.len() as int),
        r.update_size == size_with(files@, statuses@, FileStatus::NeedUpdate, files@.len() as int),
{
    let n: usize = files.len();
    let mut need_download_files: Vec<usize> = Vec::new();
    let mut need_update_files: Vec<usize> = Vec::new();
    let mut download_size: u64 = 0;
    let mut update_size: u64 = 0;
    let mut i: usize = 0;
    while i < n
        invariant
            n == files@.len(),
            statuses@.len() == n,
            i <= n,
            size_with(files@, statuses@, FileStatus::NotExist, n as int) <= u64::MAX,
            size_with(files@, statuses@, FileStatus::NeedUpdate, n as int) <= u64::MAX,
            need_download_files@ == positions_with(statuses@, FileStatus::NotExist, i as int),
            need_update_files@ == positions_with(statuses@, FileStatus::NeedUpdate, i as int),
            download_size == size_with(files@, statuses@, FileStatus::NotExist, i as int),
            update_size == size_with(files@, statuses@, FileStatus::NeedUpdate, i as int),
        decreases n - i,
    {
        proof {
            lemma_size_with_grows(files@, statuses@, FileStatus::NotExist, i + 1, n as int);
            lemma_size_with_grows(files@, statuses@, FileStatus::NeedUpdate, i + 1, n as int);
        }
        match statuses[i] {
            FileStatus::NeedUpdate => {
                need_update_files.push(i);
                update_size = update_size + files[i].size;
            },
            FileStatus::NotExist => {
                need_download_files.push(i);
                download_size = download_size + files[i].size;
            },
            FileStatus::Latest => {},
        }
        i = i + 1;
    }
    TransferPlan { need_download_files, need_update_files, download_size, update_size }
}

/// `positions_with` holds exactly the positions below `k` with status `s`, each once, in
/// increasing order.
pub proof fn law_positions_are_exact(statuses: Seq<FileStatus>, s: FileStatus, k: int)
    requires
        0 <= k <= statuses.len(),
        statuses.len() <= usize::MAX,
    ensures
        forall|i: int| 0 <= i < k ==> (positions_with(statuses, s, k).contains(i as usize) <==> statuses[i] == s),
        forall|j: int| 0 <= j < positions_with(statuses, s, k).len() ==> {
            &&& (#[trigger] positions_with(statuses, s, k)[j]) < k
            &&& statuses[positions_with(statuses, s, k)[j] as int] == s
        },
        forall|a: int, b: int| 0 <= a < b < positions_with(statuses, s, k).len() ==> #[trigger] positions_with(statuses, s, k)[a] < #[trigger] positions_with(statuses, s, k)[b],
    decreases k,
{
    if k > 0 {
        law_positions_are_exact(statuses, s, k - 1);
        let p = positions_with(statuses, s, k - 1);
        if statuses[k - 1] == s {
            let q = p.push((k - 1) as usize);
            assert forall|i: int| 0 <= i < k implies (q.contains(i as usize) <==> statuses[i] == s) by {
                if i < k - 1 {
                    if q.contains(i as usize) {
                        let j: int = choose|j: int| 0 <= j < q.len() && q[j] == i as usize;
                        if j < p.len() {
                            assert(p[j] == i as usize);
                        }
                    }
                    if statuses[i] == s {
                        let j: int = choose|j: int| 0 <= j < p.len() && p[j] == i as usize;
                        assert(q[j] == i as usize);
                    }
                } else {
                    assert(q[q.len() - 1] == i as usize);
                }
            }
            assert forall|j: int| 0 <= j < q.len() implies {
                &&& (#[trigger] q[j]) < k
                &&& statuses[q[j] as int] == s
            } by {
                if j < p.len() {
                    assert(q[j] == p[j]);
                }
            }
            assert forall|a: int, b: int| 0 <= a < b < q.len() implies #[trigger] q[a] < #[trigger] q[b] by {
                assert(q[a] == p[a]);
                assert(p[a] < k - 1);
                if b < p.len() {
                    assert(q[b] == p[b]);
                }
            }
        } else {
            assert forall|i: int| 0 <= i < k implies (p.contains(i as usize) <==> statuses[i] == s) by {
                if i == k - 1 && p.contains(i as usize) {
                    let j: int = choose|j: int| 0 <= j < p.len() && p[j] == i as usize;
                }
            }
        }
    }
}

/// The name a current local copy is saved under before it is replaced: the time in seconds,
/// `_`, and the file's name.
pub fn backup_file_name(seconds: u64, display_name: &str) -> (r: String)
    ensures
        r@ == decimal(seconds as nat) + "_"@ + display_name@,
{
    append_decimal(String::new(), seconds).concat("_").concat(display_name)
}

/// Every course a run keeps passes the term filter and the course filter, and the kept
/// courses come in their listed order.
pub proof fn law_kept_courses_pass_filters(filters: Option<Filters>, s: Seq<Course>)
    ensures
        kept_courses(filters, s).len() <= s.len(),
        forall|i: int|
            0 <= i < kept_courses(filters, s).len() ==> course_kept(
                filters,
                #[trigger] kept_courses(filters, s)[i],
            ),
        forall|c: Course| #[trigger] s.contains(c) && course_kept(filters, c) ==> kept_courses(filters, s).contains(c),
        forall|c: Course| #[trigger] kept_courses(filters, s).contains(c) ==> s.contains(c),
    decreases s.len(),
{
    if s.len() > 0 {
        let pre = s.drop_last();
        law_kept_courses_pass_filters(filters, pre);
        let k = kept_courses(filters, s);
        let kp = kept_courses(filters, pre);
        assert forall|c: Course| #[trigger] s.contains(c) && course_kept(filters, c) implies k.contains(c) by {
            let j: int = choose|j: int| 0 <= j < s.len() && s[j] == c;
            if j < s.len() - 1 {
                assert(pre[j] == c);
                assert(pre.contains(c));
                let m: int = choose|m: int| 0 <= m < kp.len() && kp[m] == c;
                assert(k[m] == c);
            } else {
                assert(k[k.len() - 1] == c);
            }
        }
        assert forall|c: Course| #[trigger] k.contains(c) implies s.contains(c) by {
            let m: int = choose|m: int| 0 <= m < k.len() && k[m] == c;
            if m < kp.len() {
                assert(kp[m] == c);
                assert(kp.contains(c));
                let j: int = choose|j: int| 0 <= j < pre.len() && pre[j] == c;
                assert(s[j] == c);
            } else {
                assert(s[s.len() - 1] == c);
            }
        }
        assert forall|i: int| 0 <= i < k.len() implies course_kept(filters, #[trigger] k[i]) by {
            if i < kp.len() {
                assert(k[i] == kp[i]);
            }
        }
    }
}


/// The courses kept for a sync run are exactly the listed courses whose term's id and term name
/// pass the term filter and whose own id and name pass the course filter (each where there is
/// one).
pub proof fn law_kept_courses_are_those_passing_term_and_course(
    filters: Option<Filters>,
    s: Seq<Course>,
    c: Course,
)
    ensures
        kept_courses(filters, s).contains(c) <==> {
            &&& s.contains(c)
            &&& (term_object_filter(filters) is None || object_accepted(
                term_object_filter(filters).unwrap(),
                c.term_id,
                c.term_name@,
            ))
            &&& (course_object_filter(filters) is None || object_accepted(
                course_object_filter(filters).unwrap(),
                c.id,
                c.name@,
            ))
        },
{
    law_kept_courses_pass_filters(filters, s);
    let k = kept_courses(filters, s);
    if k.contains(c) {
        let m: int = choose|m: int| 0 <= m < k.len() && k[m] == c;
        assert(course_kept(filters, k[m]));
    }
}

} // verus!
