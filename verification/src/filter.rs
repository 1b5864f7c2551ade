//! Which courses, terms and files are synced: allow/deny lists, size rules and defaults.
use crate::text::{
    ascii_lower, ascii_lowered, ascii_upper, ascii_uppered, holds_text, is_ascii_char, is_ascii_text, list_holds_text, same_text,
    to_lowercase, unicode_lowercase,
};
use crate::util::{
    converts_deterministically, converts_every_amount, lemma_rule_parse_is_determined, parse_size_rule, size_rule_parses_to, ParsedSizeRule, SizeAction,
    SizeAmount, SizeOperator,
};
use vstd::prelude::*;

verus! {

/// A pair of lists: values that are refused, and the only values that are let through.
#[derive(Debug, Clone)]
pub struct Filter<T> {
    pub denies: Option<Vec<T>>,
    pub allows: Option<Vec<T>>,
}

/// Filter on objects with a name and an id (courses, terms).
#[derive(Debug, Clone)]
pub struct ObjectFilter {
    pub name: Option<Filter<String>>,
    pub id: Option<Filter<i64>>,
    pub default: Option<String>,
}

/// Filter on files: by type category, extension, MIME type and size.
#[derive(Debug, Clone)]
pub struct FileFilter {
    pub type_filter: Option<Filter<String>>,
    pub extension_filter: Option<Filter<String>>,
    pub mime_type_filter: Option<Filter<String>>,
    pub size_rules: Option<Vec<String>>,
    pub default: Option<String>,
}

/// A file that a file filter refused, and why.
#[derive(Debug, Clone)]
pub struct DeniedFileInfo {
    pub name: String,
    pub size: u64,
    pub reason: String,
    pub file_type: String,
    pub extension: String,
    pub mime_type: String,
}

#[derive(Debug, Clone)]
pub struct CourseFilter {
    pub object_filter: Option<ObjectFilter>,
}

#[derive(Debug, Clone)]
pub struct TermFilter {
    pub object_filter: Option<ObjectFilter>,
}

#[derive(Debug, Clone)]
pub struct Filters {
    pub course_filter: Option<CourseFilter>,
    pub term_filter: Option<TermFilter>,
    pub file_filter: Option<FileFilter>,
}

/// The category of a lower-cased file extension.
pub open spec fn file_category(lower: Seq<char>) -> Seq<char> {
    if lower == "jpg"@ || lower == "jpeg"@ || lower == "png"@ || lower == "gif"@ || lower == "bmp"@
        || lower == "webp"@ || lower == "svg"@ || lower == "ico"@ {
        "image"@
    } else if lower == "mp4"@ || lower == "mov"@ || lower == "avi"@ || lower == "mkv"@ || lower
        == "webm"@ || lower == "flv"@ || lower == "wmv"@ {
        "video"@
    } else if lower == "mp3"@ || lower == "wav"@ || lower == "ogg"@ || lower == "flac"@ || lower
        == "aac"@ {
        "audio"@
    } else if lower == "pdf"@ || lower == "doc"@ || lower == "docx"@ || lower == "ppt"@ || lower
        == "pptx"@ || lower == "xls"@ || lower == "xlsx"@ || lower == "txt"@ || lower == "md"@ {
        "document"@
    } else if lower == "zip"@ || lower == "rar"@ || lower == "7z"@ || lower == "tar"@ || lower
        == "gz"@ || lower == "bz2"@ {
        "archive"@
    } else {
        "other"@
    }
}

/// The category of a file extension, compared without regard to case.
pub open spec fn file_type_of(extension: Seq<char>) -> Seq<char> {
    file_category(unicode_lowercase(extension))
}

/// The category that a lower-cased extension belongs to.
pub fn file_type_of_lowercase(lower: &str) -> (r: String)
    ensures
        r@ == file_category(lower@),
{
    if same_text(lower, "jpg") || same_text(lower, "jpeg") || same_text(lower, "png") || same_text(
        lower,
        "gif",
    ) || same_text(lower, "bmp") || same_text(lower, "webp") || same_text(lower, "svg")
        || same_text(lower, "ico") {
        String::from_str("image")
    } else if same_text(lower, "mp4") || same_text(lower, "mov") || same_text(lower, "avi")
        || same_text(lower, "mkv") || same_text(lower, "webm") || same_text(lower, "flv")
        || same_text(lower, "wmv") {
        String::from_str("video")
    } else if same_text(lower, "mp3") || same_text(lower, "wav") || same_text(lower, "ogg")
        || same_text(lower, "flac") || same_text(lower, "aac") {
        String::from_str("audio")
    } else if same_text(lower, "pdf") || same_text(lower, "doc") || same_text(lower, "docx")
        || same_text(lower, "ppt") || same_text(lower, "pptx") || same_text(lower, "xls")
        || same_text(lower, "xlsx") || same_text(lower, "txt") || same_text(lower, "md") {
        String::from_str("document")
    } else if same_text(lower, "zip") || same_text(lower, "rar") || same_text(lower, "7z")
        || same_text(lower, "tar") || same_text(lower, "gz") || same_text(lower, "bz2") {
        String::from_str("archive")
    } else {
        String::from_str("other")
    }
}

/// The category of a file extension: image, video, audio, document, archive or other.
pub fn get_file_type(extension: &str) -> (r: String)
    ensures
        r@ == file_type_of(extension@),
        is_ascii_text(extension@) ==> r@ == file_category(ascii_lowered(extension@)),
{
    let lower = to_lowercase(extension);
    file_type_of_lowercase(lower.as_str())
}

/// `v` is on the deny list of `f`.
pub open spec fn text_denied(f: Option<Filter<String>>, v: Seq<char>) -> bool {
    &&& f is Some
    &&& f.unwrap().denies is Some
    &&& holds_text(f.unwrap().denies.unwrap()@, v)
}

/// `f` has an allow list and `v` is on it.
pub open spec fn text_allowed(f: Option<Filter<String>>, v: Seq<char>) -> bool {
    &&& f is Some
    &&& f.unwrap().allows is Some
    &&& holds_text(f.unwrap().allows.unwrap()@, v)
}

/// `f` has an allow list and `v` is not on it.
pub open spec fn text_not_allowed(f: Option<Filter<String>>, v: Seq<char>) -> bool {
    &&& f is Some
    &&& f.unwrap().allows is Some
    &&& !holds_text(f.unwrap().allows.unwrap()@, v)
}

/// The default of a filter is the word `deny`.
pub open spec fn deny_by_default(default: Option<String>) -> bool {
    default is Some && default.unwrap()@ == "deny"@
}

/// The bound of a size rule holds for `size`.
pub open spec fn size_condition_holds(op: SizeOperator, size: u64, bound: u64) -> bool {
    match op {
        SizeOperator::GreaterThanOrEqual => size >= bound,
        SizeOperator::LessThanOrEqual => size <= bound,
        SizeOperator::GreaterThan => size > bound,
        SizeOperator::LessThan => size < bound,
    }
}

/// A parsed deny rule whose bound holds for `size`.
pub open spec fn rule_denies_size(rule: Option<ParsedSizeRule>, size: u64) -> bool {
    &&& rule is Some
    &&& rule.unwrap().action == SizeAction::Deny
    &&& size_condition_holds(rule.unwrap().operator, size, rule.unwrap().size_bytes)
}

/// Position of the first rule that denies `size`, or -1.
pub open spec fn first_denying(rules: Seq<Option<ParsedSizeRule>>, size: u64) -> int
    decreases rules.len(),
{
    if rules.len() == 0 {
        -1
    } else if first_denying(rules.drop_last(), size) >= 0 {
        first_denying(rules.drop_last(), size)
    } else if rule_denies_size(rules.last(), size) {
        rules.len() - 1
    } else {
        -1
    }
}

/// The texts of the size rules of a filter.
pub open spec fn rule_texts(rules: Option<Vec<String>>) -> Seq<String> {
    match rules {
        Some(v) => v@,
        None => Seq::empty(),
    }
}

/// `parsed` are the outcomes of parsing the size rules in order, up to the first that denies
/// `size` (all of them when none does).
pub open spec fn rules_parsed_as<F: Fn(&SizeAmount) -> Option<u64>>(
    to_bytes: F,
    rules: Option<Vec<String>>,
    size: u64,
    parsed: Seq<Option<ParsedSizeRule>>,
) -> bool {
    &&& parsed.len() <= rule_texts(rules).len()
    &&& forall|i: int|
        0 <= i < parsed.len() ==> size_rule_parses_to(
            to_bytes,
            rule_texts(rules)[i]@,
            #[trigger] parsed[i],
        )
    &&& parsed.len() < rule_texts(rules).len() ==> first_denying(parsed, size) >= 0
}

pub open spec fn size_reason(rule: Seq<char>) -> Seq<char> {
    "Size rule: "@ + rule + " "@
}

pub open spec fn type_denied_reason(t: Seq<char>) -> Seq<char> {
    "Type filter (denies): Type "@ + t + " is denied"@
}

pub open spec fn type_not_allowed_reason(t: Seq<char>) -> Seq<char> {
    "Type filter (allows): Type "@ + t + " is not allowed"@
}

pub open spec fn extension_denied_reason(e: Seq<char>) -> Seq<char> {
    "Extension filter (denies): Extension "@ + e + " is denied"@
}

pub open spec fn extension_not_allowed_reason(e: Seq<char>) -> Seq<char> {
    "Extension filter (allows): Extension "@ + e + " is not allowed"@
}

pub open spec fn mime_denied_reason(m: Seq<char>) -> Seq<char> {
    "MIME type filter (denies): MIME type "@ + m + " is denied"@
}

pub open spec fn mime_not_allowed_reason(m: Seq<char>) -> Seq<char> {
    "MIME type filter (allows): MIME type "@ + m + " is not allowed"@
}

pub open spec fn default_deny_reason() -> Seq<char> {
    "Default setting (deny): Did not match any allow rules"@
}

/// The verdict of the type, extension and MIME filters and of the default: `None` lets the
/// file through, `Some(reason)` refuses it. The first refusing check, in this order, gives the
/// reason: a deny list, then an allow list, of type, extension and MIME type; with the default
/// `deny`, a file that no allow list names is refused as well.
pub open spec fn list_verdict(f: FileFilter, t: Seq<char>, e: Seq<char>, m: Seq<char>) -> Option<
    Seq<char>,
> {
    if text_denied(f.type_filter, t) {
        Some(type_denied_reason(t))
    } else if text_not_allowed(f.type_filter, t) {
        Some(type_not_allowed_reason(t))
    } else if text_denied(f.extension_filter, e) {
        Some(extension_denied_reason(e))
    } else if text_not_allowed(f.extension_filter, e) {
        Some(extension_not_allowed_reason(e))
    } else if text_denied(f.mime_type_filter, m) {
        Some(mime_denied_reason(m))
    } else if text_not_allowed(f.mime_type_filter, m) {
        Some(mime_not_allowed_reason(m))
    } else if deny_by_default(f.default) {
        if text_allowed(f.type_filter, t) || text_allowed(f.extension_filter, e) || text_allowed(
            f.mime_type_filter,
            m,
        ) {
            None
        } else {
            Some(default_deny_reason())
        }
    } else {
        None
    }
}

/// The verdict on a file: a size rule that denies it comes first, then the lists and default.
pub open spec fn file_verdict(
    f: FileFilter,
    parsed: Seq<Option<ParsedSizeRule>>,
    size: u64,
    extension: Seq<char>,
    mime: Seq<char>,
) -> Option<Seq<char>> {
    let k: int = first_denying(parsed, size);
    if k >= 0 {
        Some(size_reason(rule_texts(f.size_rules)[k]@))
    } else {
        list_verdict(f, file_type_of(extension), extension, mime)
    }
}

/// `d` describes the file with these properties, refused for `reason`.
pub open spec fn describes(
    d: DeniedFileInfo,
    name: Seq<char>,
    size: u64,
    reason: Seq<char>,
    file_type: Seq<char>,
    extension: Seq<char>,
    mime: Seq<char>,
) -> bool {
    &&& d.name@ == name
    &&& d.size == size
    &&& d.reason@ == reason
    &&& d.file_type@ == file_type
    &&& d.extension@ == extension
    &&& d.mime_type@ == mime
}

/// The list `after` is `before` with the one denial of the file appended for `reason`
/// (`None`: with nothing appended).
pub open spec fn records_denial(
    before: Seq<DeniedFileInfo>,
    after: Seq<DeniedFileInfo>,
    reason: Option<Seq<char>>,
    name: Seq<char>,
    size: u64,
    extension: Seq<char>,
    mime: Seq<char>,
) -> bool {
    match reason {
        None => after == before,
        Some(why) => {
            &&& after.len() == before.len() + 1
            &&& after.drop_last() == before
            &&& describes(after.last(), name, size, why, file_type_of(extension), extension, mime)
        },
    }
}

fn denial(name: &str, size: u64, reason: String, file_type: &str, extension: &str, mime: &str) -> (d:
    DeniedFileInfo)
    ensures
        describes(d, name@, size, reason@, file_type@, extension@, mime@),
{
    DeniedFileInfo {
        name: String::from_str(name),
        size,
        reason,
        file_type: String::from_str(file_type),
        extension: String::from_str(extension),
        mime_type: String::from_str(mime),
    }
}

/// Whether the id `x` is on the list `v`.
pub fn list_holds_id(v: &Vec<i64>, x: i64) -> (r: bool)
    ensures
        r == v@.contains(x),
{
    let mut i: usize = 0;
    while i < v.len()
        invariant
            i <= v@.len(),
            forall|j: int| 0 <= j < i ==> v@[j] != x,
        decreases v@.len() - i,
    {
        if v[i] == x {
            assert(v@[i as int] == x);
            return true;
        }
        i = i + 1;
    }
    false
}

fn on_list(list: &Option<Vec<String>>, v: &str) -> (r: bool)
    ensures
        r == (list is Some && holds_text(list.unwrap()@, v@)),
{
    match list {
        Some(l) => list_holds_text(l, v),
        None => false,
    }
}

proof fn lemma_first_denying_push(rules: Seq<Option<ParsedSizeRule>>, x: Option<ParsedSizeRule>, size: u64)
    ensures
        first_denying(rules.push(x), size) == if first_denying(rules, size) >= 0 {
            first_denying(rules, size)
        } else if rule_denies_size(x, size) {
            rules.len() as int
        } else {
            -1
        },
{
    assert(rules.push(x).drop_last() =~= rules);
}

/// Decides whether a file is synced. A refused file is appended to `denied_files` with the
/// reason; a file let through leaves `denied_files` as it was. Size rules that do not parse
/// are skipped; `to_bytes` turns the size text of a rule into bytes.
pub fn file_filter_check<F: Fn(&SizeAmount) -> Option<u64>>(
    f: &FileFilter,
    file_size: u64,
    file_extension: &str,
    file_mime_type: &str,
    file_name: &str,
    denied_files: &mut Vec<DeniedFileInfo>,
    to_bytes: &F,
) -> (r: bool)
    requires
        converts_every_amount(*to_bytes),
    ensures
        exists|parsed: Seq<Option<ParsedSizeRule>>|
            {
                &&& #[trigger] rules_parsed_as(*to_bytes, f.size_rules, file_size, parsed)
                &&& r == (file_verdict(
                    *f,
                    parsed,
                    file_size,
                    file_extension@,
                    file_mime_type@,
                ) is None)
                &&& records_denial(
                    old(denied_files)@,
                    final(denied_files)@,
                    file_verdict(*f, parsed, file_size, file_extension@, file_mime_type@),
                    file_name@,
                    file_size,
                    file_extension@,
                    file_mime_type@,
                )
            },
{
    let default_deny = match &f.default {
        Some(x) => same_text(x.as_str(), "deny"),
        None => false,
    };
    let file_type = get_file_type(file_extension);
    let ghost mut parsed: Seq<Option<ParsedSizeRule>> = Seq::empty();
    let ghost before = denied_files@;

    if let Some(size_rules) = &f.size_rules {
        let mut i: usize = 0;
        while i < size_rules.len()
            invariant
                converts_every_amount(*to_bytes),
                f.size_rules == Some(*size_rules),
                i <= size_rules@.len(),
                parsed.len() == i,
                forall|j: int|
                    0 <= j < parsed.len() ==> size_rule_parses_to(
                        *to_bytes,
                        size_rules@[j]@,
                        #[trigger] parsed[j],
                    ),
                first_denying(parsed, file_size) < 0,
                denied_files@ == before,
                before == old(denied_files)@,
                file_type@ == file_type_of(file_extension@),
            decreases size_rules@.len() - i,
        {
            let rule_str = &size_rules[i];
            let parsed_rule = parse_size_rule(rule_str.as_str(), to_bytes);
            proof {
                lemma_first_denying_push(parsed, parsed_rule, file_size);
                parsed = parsed.push(parsed_rule);
            }
            if let Some(parsed_rule) = parsed_rule {
                let matches = match parsed_rule.operator {
                    SizeOperator::GreaterThanOrEqual => file_size >= parsed_rule.size_bytes,
                    SizeOperator::LessThanOrEqual => file_size <= parsed_rule.size_bytes,
                    SizeOperator::GreaterThan => file_size > parsed_rule.size_bytes,
                    SizeOperator::LessThan => file_size < parsed_rule.size_bytes,
                };
                if matches {
                    match parsed_rule.action {
                        SizeAction::Deny => {
                            let reason = String::from_str("Size rule: ").concat(
                                rule_str.as_str(),
                            ).concat(" ");
                            denied_files.push(
                                denial(
                                    file_name,
                                    file_size,
                                    reason,
                                    file_type.as_str(),
                                    file_extension,
                                    file_mime_type,
                                ),
                            );
                            proof {
                                assert(first_denying(parsed, file_size) == i);
                                assert(rule_texts(f.size_rules)[i as int] == *rule_str);
                                assert(denied_files@.drop_last() =~= before);
                                assert(rules_parsed_as(*to_bytes, f.size_rules, file_size, parsed));
                            }
                            return false;
                        },
                        SizeAction::Allow => {},
                    }
                }
            }
            i = i + 1;
        }
    }
    assert(rules_parsed_as(*to_bytes, f.size_rules, file_size, parsed));
    assert(first_denying(parsed, file_size) < 0);

    let reason: Option<String> = if let Some(type_filter) = &f.type_filter {
        if on_list(&type_filter.denies, file_type.as_str()) {
            Some(
                String::from_str("Type filter (denies): Type ").concat(file_type.as_str()).concat(
                    " is denied",
                ),
            )
        } else if type_filter.allows.is_some() && !on_list(&type_filter.allows, file_type.as_str()) {
            Some(
                String::from_str("Type filter (allows): Type ").concat(file_type.as_str()).concat(
                    " is not allowed",
                ),
            )
        } else {
            None
        }
    } else {
        None
    };
    let reason: Option<String> = if reason.is_some() {
        reason
    } else if let Some(extension_filter) = &f.extension_filter {
        if on_list(&extension_filter.denies, file_extension) {
            Some(
                String::from_str("Extension filter (denies): Extension ").concat(
                    file_extension,
                ).concat(" is denied"),
            )
        } else if extension_filter.allows.is_some() && !on_list(
            &extension_filter.allows,
            file_extension,
        ) {
            Some(
                String::from_str("Extension filter (allows): Extension ").concat(
                    file_extension,
                ).concat(" is not allowed"),
            )
        } else {
            None
        }
    } else {
        None
    };
    let reason: Option<String> = if reason.is_some() {
        reason
    } else if let Some(mime_type_filter) = &f.mime_type_filter {
        if on_list(&mime_type_filter.denies, file_mime_type) {
            Some(
                String::from_str("MIME type filter (denies): MIME type ").concat(
                    file_mime_type,
                ).concat(" is denied"),
            )
        } else if mime_type_filter.allows.is_some() && !on_list(
            &mime_type_filter.allows,
            file_mime_type,
        ) {
            Some(
                String::from_str("MIME type filter (allows): MIME type ").concat(
                    file_mime_type,
                ).concat(" is not allowed"),
            )
        } else {
            None
        }
    } else {
        None
    };
    if let Some(reason) = reason {
        denied_files.push(
            denial(
                file_name,
                file_size,
                reason,
                file_type.as_str(),
                file_extension,
                file_mime_type,
            ),
        );
        assert(denied_files@.drop_last() =~= before);
        return false;
    }
    if default_deny {
        let allowed_by_type = match &f.type_filter {
            Some(type_filter) => on_list(&type_filter.allows, file_type.as_str()),
            None => false,
        };
        let allowed_by_extension = match &f.extension_filter {
            Some(extension_filter) => on_list(&extension_filter.allows, file_extension),
            None => false,
        };
        let allowed_by_mime_type = match &f.mime_type_filter {
            Some(mime_type_filter) => on_list(&mime_type_filter.allows, file_mime_type),
            None => false,
        };
        let result = allowed_by_type || allowed_by_extension || allowed_by_mime_type;
        if !result {
            denied_files.push(
                denial(
                    file_name,
                    file_size,
                    String::from_str("Default setting (deny): Did not match any allow rules"),
                    file_type.as_str(),
                    file_extension,
                    file_mime_type,
                ),
            );
            assert(denied_files@.drop_last() =~= before);
        }
        result
    } else {
        let type_filter_rejects = match &f.type_filter {
            Some(type_filter) => type_filter.allows.is_some() && !on_list(
                &type_filter.allows,
                file_type.as_str(),
            ),
            None => false,
        };
        if type_filter_rejects {
            return false;
        }
        let extension_filter_rejects = match &f.extension_filter {
            Some(extension_filter) => extension_filter.allows.is_some() && !on_list(
                &extension_filter.allows,
                file_extension,
            ),
            None => false,
        };
        if extension_filter_rejects {
            return false;
        }
        let mime_type_filter_rejects = match &f.mime_type_filter {
            Some(mime_type_filter) => mime_type_filter.allows.is_some() && !on_list(
                &mime_type_filter.allows,
                file_mime_type,
            ),
            None => false,
        };
        let result = !mime_type_filter_rejects;
        if !result {
            let reason = String::from_str("Default setting (allow): MIME type ").concat(
                file_mime_type,
            ).concat(" did not match allowed MIME types.");
            denied_files.push(
                denial(
                    file_name,
                    file_size,
                    reason,
                    file_type.as_str(),
                    file_extension,
                    file_mime_type,
                ),
            );
        }
        result
    }
}

/// `f` has an allow list and the id `x` is on it.
pub open spec fn id_allowed(f: Option<Filter<i64>>, x: i64) -> bool {
    &&& f is Some
    &&& f.unwrap().allows is Some
    &&& f.unwrap().allows.unwrap()@.contains(x)
}

/// `f` has a deny list and the id `x` is on it.
pub open spec fn id_denied(f: Option<Filter<i64>>, x: i64) -> bool {
    &&& f is Some
    &&& f.unwrap().denies is Some
    &&& f.unwrap().denies.unwrap()@.contains(x)
}

/// The default of a filter is `allow`, or missing (which means `allow`).
pub open spec fn allow_by_default(default: Option<String>) -> bool {
    default is None || default.unwrap()@ == "allow"@
}

/// Whether an object with this id and name passes the filter: with the default `deny` only an
/// id or name on an allow list passes; with the default `allow` (or none) all pass but an id or
/// name on a deny list; with any other default all pass.
pub open spec fn object_accepted(f: ObjectFilter, id: i64, name: Seq<char>) -> bool {
    if deny_by_default(f.default) {
        id_allowed(f.id, id) || text_allowed(f.name, name)
    } else if allow_by_default(f.default) {
        !(id_denied(f.id, id) || text_denied(f.name, name))
    } else {
        true
    }
}

fn on_id_list(list: &Option<Vec<i64>>, x: i64) -> (r: bool)
    ensures
        r == (list is Some && list.unwrap()@.contains(x)),
{
    match list {
        Some(l) => list_holds_id(l, x),
        None => false,
    }
}

/// Whether an object (a course or a term) with this id and name passes the filter.
pub fn object_filter_check(f: &ObjectFilter, id: i64, name: &String) -> (r: bool)
    ensures
        r == object_accepted(*f, id, name@),
{
    let (default_deny, default_allow) = match &f.default {
        Some(x) => (same_text(x.as_str(), "deny"), same_text(x.as_str(), "allow")),
        None => (false, true),
    };
    if default_deny {
        if let Some(x) = &f.id {
            if x.allows.is_some() && on_id_list(&x.allows, id) {
                return true;
            }
        }
        if let Some(x) = &f.name {
            if x.allows.is_some() && on_list(&x.allows, name.as_str()) {
                return true;
            }
        }
        return false;
    }
    if default_allow {
        if let Some(x) = &f.id {
            if x.denies.is_some() && on_id_list(&x.denies, id) {
                return false;
            }
        }
        if let Some(x) = &f.name {
            if x.denies.is_some() && on_list(&x.denies, name.as_str()) {
                return false;
            }
        }
        return true;
    }
    true
}

proof fn lemma_first_denying_finds(rules: Seq<Option<ParsedSizeRule>>, size: u64, i: int)
    requires
        0 <= i < rules.len(),
        rule_denies_size(rules[i], size),
    ensures
        0 <= first_denying(rules, size) <= i,
        rule_denies_size(rules[first_denying(rules, size)], size),
        forall|j: int| 0 <= j < first_denying(rules, size) ==> !rule_denies_size(#[trigger] rules[j], size),
    decreases rules.len(),
{
    let k: int = first_denying(rules, size);
    let pre = rules.drop_last();
    if i < rules.len() - 1 {
        assert(pre[i] == rules[i]);
        lemma_first_denying_finds(pre, size, i);
        assert forall|j: int| 0 <= j < k implies !rule_denies_size(#[trigger] rules[j], size) by {
            assert(pre[j] == rules[j]);
        }
    } else if first_denying(pre, size) >= 0 {
        lemma_first_denying_bounds(pre, size);
        assert(pre[k] == rules[k]);
        assert forall|j: int| 0 <= j < k implies !rule_denies_size(#[trigger] rules[j], size) by {
            assert(pre[j] == rules[j]);
        }
    } else {
        lemma_first_denying_none(pre, size);
        assert forall|j: int| 0 <= j < k implies !rule_denies_size(#[trigger] rules[j], size) by {
            assert(pre[j] == rules[j]);
        }
    }
}

proof fn lemma_first_denying_bounds(rules: Seq<Option<ParsedSizeRule>>, size: u64)
    requires
        first_denying(rules, size) >= 0,
    ensures
        first_denying(rules, size) < rules.len(),
        rule_denies_size(rules[first_denying(rules, size)], size),
        forall|j: int| 0 <= j < first_denying(rules, size) ==> !rule_denies_size(#[trigger] rules[j], size),
    decreases rules.len(),
{
    let pre = rules.drop_last();
    let k: int = first_denying(rules, size);
    if first_denying(pre, size) >= 0 {
        lemma_first_denying_bounds(pre, size);
        assert(pre[k] == rules[k]);
        assert forall|j: int| 0 <= j < k implies !rule_denies_size(#[trigger] rules[j], size) by {
            assert(pre[j] == rules[j]);
        }
    } else {
        lemma_first_denying_none(pre, size);
        assert forall|j: int| 0 <= j < k implies !rule_denies_size(#[trigger] rules[j], size) by {
            assert(pre[j] == rules[j]);
        }
    }
}

proof fn lemma_first_denying_none(rules: Seq<Option<ParsedSizeRule>>, size: u64)
    requires
        first_denying(rules, size) < 0,
    ensures
        forall|j: int| 0 <= j < rules.len() ==> !rule_denies_size(#[trigger] rules[j], size),
    decreases rules.len(),
{
    if rules.len() > 0 {
        let pre = rules.drop_last();
        lemma_first_denying_none(pre, size);
        assert forall|j: int| 0 <= j < rules.len() implies !rule_denies_size(#[trigger] rules[j], size) by {
            if j < rules.len() - 1 {
                assert(pre[j] == rules[j]);
            }
        }
    }
}

/// A file that a parsed deny rule covers is refused, whatever the lists and the default say;
/// the first such rule gives the reason.
pub proof fn law_deny_size_rule_refuses(
    f: FileFilter,
    parsed: Seq<Option<ParsedSizeRule>>,
    size: u64,
    extension: Seq<char>,
    mime: Seq<char>,
    i: int,
)
    requires
        0 <= i < parsed.len(),
        rule_denies_size(parsed[i], size),
    ensures
        file_verdict(f, parsed, size, extension, mime) is Some,
        0 <= first_denying(parsed, size) <= i,
{
    lemma_first_denying_finds(parsed, size, i);
}

/// When no parsed size rule covers a file, the size rules have no say in its verdict.
pub proof fn law_size_rules_only_refuse(
    f: FileFilter,
    parsed: Seq<Option<ParsedSizeRule>>,
    size: u64,
    extension: Seq<char>,
    mime: Seq<char>,
)
    requires
        forall|j: int| 0 <= j < parsed.len() ==> !rule_denies_size(#[trigger] parsed[j], size),
    ensures
        file_verdict(f, parsed, size, extension, mime) == list_verdict(
            f,
            file_type_of(extension),
            extension,
            mime,
        ),
{
    if first_denying(parsed, size) >= 0 {
        lemma_first_denying_bounds(parsed, size);
    }
}

/// A file whose type, extension or MIME type is on a deny list is never synced.
pub proof fn law_deny_list_refuses(
    f: FileFilter,
    parsed: Seq<Option<ParsedSizeRule>>,
    size: u64,
    extension: Seq<char>,
    mime: Seq<char>,
)
    requires
        text_denied(f.type_filter, file_type_of(extension)) || text_denied(
            f.extension_filter,
            extension,
        ) || text_denied(f.mime_type_filter, mime),
    ensures
        file_verdict(f, parsed, size, extension, mime) is Some,
{
}

/// Where a type, extension or MIME filter has an allow list, a file that it does not name is
/// never synced.
pub proof fn law_allow_list_restricts(
    f: FileFilter,
    parsed: Seq<Option<ParsedSizeRule>>,
    size: u64,
    extension: Seq<char>,
    mime: Seq<char>,
)
    requires
        text_not_allowed(f.type_filter, file_type_of(extension)) || text_not_allowed(
            f.extension_filter,
            extension,
        ) || text_not_allowed(f.mime_type_filter, mime),
    ensures
        file_verdict(f, parsed, size, extension, mime) is Some,
{
}

/// With the default `deny`, a synced file is named by some allow list.
pub proof fn law_deny_default_needs_allow_list(
    f: FileFilter,
    parsed: Seq<Option<ParsedSizeRule>>,
    size: u64,
    extension: Seq<char>,
    mime: Seq<char>,
)
    requires
        deny_by_default(f.default),
        file_verdict(f, parsed, size, extension, mime) is None,
    ensures
        text_allowed(f.type_filter, file_type_of(extension)) || text_allowed(
            f.extension_filter,
            extension,
        ) || text_allowed(f.mime_type_filter, mime),
{
}

/// With any default other than `deny`, a file is synced exactly when no size rule, deny list or
/// allow list refuses it.
pub proof fn law_open_default_syncs_unrefused(
    f: FileFilter,
    parsed: Seq<Option<ParsedSizeRule>>,
    size: u64,
    extension: Seq<char>,
    mime: Seq<char>,
)
    requires
        !deny_by_default(f.default),
    ensures
        (file_verdict(f, parsed, size, extension, mime) is None) == ({
            let t = file_type_of(extension);
            &&& forall|j: int| 0 <= j < parsed.len() ==> !rule_denies_size(#[trigger] parsed[j], size)
            &&& !text_denied(f.type_filter, t) && !text_not_allowed(f.type_filter, t)
            &&& !text_denied(f.extension_filter, extension) && !text_not_allowed(
                f.extension_filter,
                extension,
            )
            &&& !text_denied(f.mime_type_filter, mime) && !text_not_allowed(f.mime_type_filter, mime)
        }),
{
    if first_denying(parsed, size) >= 0 {
        lemma_first_denying_bounds(parsed, size);
    } else {
        lemma_first_denying_none(parsed, size);
    }
}

/// With the default `deny`, only an object whose id or name is on an allow list passes.
pub proof fn law_deny_default_object_needs_listing(f: ObjectFilter, id: i64, name: Seq<char>)
    requires
        deny_by_default(f.default),
    ensures
        object_accepted(f, id, name) == (id_allowed(f.id, id) || text_allowed(f.name, name)),
{
}

/// With the default `allow` (or none), an object passes unless its id or name is on a deny list.
pub proof fn law_allow_default_object_needs_no_denial(f: ObjectFilter, id: i64, name: Seq<char>)
    requires
        allow_by_default(f.default),
    ensures
        object_accepted(f, id, name) == !(id_denied(f.id, id) || text_denied(f.name, name)),
{
    reveal_strlit("allow");
    reveal_strlit("deny");
    assert("allow"@.len() != "deny"@.len());
}

/// With a default that is neither `allow` nor `deny`, every object passes.
pub proof fn law_other_default_accepts_all(f: ObjectFilter, id: i64, name: Seq<char>)
    requires
        f.default is Some,
        f.default.unwrap()@ != "allow"@,
        f.default.unwrap()@ != "deny"@,
    ensures
        object_accepted(f, id, name),
{
}

/// Every extension falls in exactly one of six categories.
pub proof fn law_file_type_is_a_known_category(extension: Seq<char>)
    ensures
        file_type_of(extension) == "image"@ || file_type_of(extension) == "video"@ || file_type_of(
            extension,
        ) == "audio"@ || file_type_of(extension) == "document"@ || file_type_of(extension)
            == "archive"@ || file_type_of(extension) == "other"@,
{
}

/// Extensions that differ only in case have the same category.
pub proof fn law_file_type_ignores_case(a: Seq<char>, b: Seq<char>)
    requires
        unicode_lowercase(a) == unicode_lowercase(b),
    ensures
        file_type_of(a) == file_type_of(b),
{
}

/// For an ASCII extension, writing it in capitals or in small letters gives the same category
/// (by `get_file_type`'s contract, which reads an ASCII extension through `ascii_lowered`).
pub proof fn law_file_type_ignores_ascii_case(e: Seq<char>)
    requires
        is_ascii_text(e),
    ensures
        is_ascii_text(ascii_uppered(e)),
        is_ascii_text(ascii_lowered(e)),
        file_category(ascii_lowered(ascii_uppered(e))) == file_category(ascii_lowered(e)),
        file_category(ascii_lowered(ascii_lowered(e))) == file_category(ascii_lowered(e)),
{
    assert forall|i: int| 0 <= i < e.len() implies #[trigger] ascii_lower(
        ascii_upper(e[i]),
    ) == ascii_lower(e[i]) && ascii_lower(ascii_lower(e[i]))
        == ascii_lower(e[i]) && is_ascii_char(ascii_upper(e[i]))
        && is_ascii_char(ascii_lower(e[i])) by {
        let c = e[i];
        if 'a' <= c && c <= 'z' {
            assert(((c as u32) - 32) as char as u32 == (c as u32) - 32);
        }
        if 'A' <= c && c <= 'Z' {
            assert(((c as u32) + 32) as char as u32 == (c as u32) + 32);
        }
    }
    assert(ascii_lowered(ascii_uppered(e)) =~= ascii_lowered(e));
    assert(ascii_lowered(ascii_lowered(e)) =~= ascii_lowered(e));
    assert forall|i: int| 0 <= i < ascii_uppered(e).len() implies is_ascii_char(
        #[trigger] ascii_uppered(e)[i],
    ) by {}
    assert forall|i: int| 0 <= i < ascii_lowered(e).len() implies is_ascii_char(
        #[trigger] ascii_lowered(e)[i],
    ) by {}
}

proof fn lemma_parsed_rules_agree<F: Fn(&SizeAmount) -> Option<u64>>(
    to_bytes: F,
    t1: Seq<String>,
    t2: Seq<String>,
    p1: Seq<Option<ParsedSizeRule>>,
    p2: Seq<Option<ParsedSizeRule>>,
)
    requires
        converts_deterministically(to_bytes),
        p1.len() <= t1.len(),
        p2.len() <= t2.len(),
        forall|i: int| 0 <= i < p1.len() ==> size_rule_parses_to(to_bytes, t1[i]@, #[trigger] p1[i]),
        forall|i: int| 0 <= i < p2.len() ==> size_rule_parses_to(to_bytes, t2[i]@, #[trigger] p2[i]),
        forall|i: int| 0 <= i < p1.len() && i < p2.len() ==> #[trigger] t1[i]@ == t2[i]@,
    ensures
        forall|i: int| 0 <= i < p1.len() && i < p2.len() ==> #[trigger] p1[i] == p2[i],
{
    assert forall|i: int| 0 <= i < p1.len() && i < p2.len() implies #[trigger] p1[i] == p2[i] by {
        assert(t1[i]@ == t2[i]@);
        lemma_rule_parse_is_determined(to_bytes, t1[i]@, p1[i], p2[i]);
    }
}

proof fn lemma_first_denying_agrees(p: Seq<Option<ParsedSizeRule>>, q: Seq<Option<ParsedSizeRule>>, size: u64)
    requires
        first_denying(p, size) >= 0,
        first_denying(p, size) < q.len(),
        forall|i: int| 0 <= i <= first_denying(p, size) ==> #[trigger] q[i] == p[i],
    ensures
        first_denying(q, size) == first_denying(p, size),
{
    let k = first_denying(p, size);
    lemma_first_denying_bounds(p, size);
    assert(q[k] == p[k]);
    lemma_first_denying_finds(q, size, k);
    let j = first_denying(q, size);
    if j < k {
        assert(q[j] == p[j]);
    }
}

/// With a size conversion that gives one outcome per amount, all parses of the size rules that
/// satisfy `rules_parsed_as` lead to one verdict, which depends on nothing but the filter, the
/// size, the extension and the MIME type. The file's name only names the denial that is appended: two calls that differ in the name (and in the list they append to)
/// append the same number of denials, with the same size, reason, type, extension and MIME type.
pub proof fn law_file_name_does_not_change_verdict<F: Fn(&SizeAmount) -> Option<u64>>(
    to_bytes: F,
    f: FileFilter,
    size: u64,
    extension: Seq<char>,
    mime: Seq<char>,
    p1: Seq<Option<ParsedSizeRule>>,
    p2: Seq<Option<ParsedSizeRule>>,
    n1: Seq<char>,
    n2: Seq<char>,
    before1: Seq<DeniedFileInfo>,
    after1: Seq<DeniedFileInfo>,
    before2: Seq<DeniedFileInfo>,
    after2: Seq<DeniedFileInfo>,
)
    requires
        converts_deterministically(to_bytes),
        rules_parsed_as(to_bytes, f.size_rules, size, p1),
        rules_parsed_as(to_bytes, f.size_rules, size, p2),
        records_denial(before1, after1, file_verdict(f, p1, size, extension, mime), n1, size, extension, mime),
        records_denial(before2, after2, file_verdict(f, p2, size, extension, mime), n2, size, extension, mime),
    ensures
        file_verdict(f, p1, size, extension, mime) == file_verdict(f, p2, size, extension, mime),
        after1.len() - before1.len() == after2.len() - before2.len(),
        after1.len() > before1.len() ==> {
            &&& after1.last().size == after2.last().size
            &&& after1.last().reason@ == after2.last().reason@
            &&& after1.last().file_type@ == after2.last().file_type@
            &&& after1.last().extension@ == after2.last().extension@
            &&& after1.last().mime_type@ == after2.last().mime_type@
            &&& after1.last().name@ == n1
            &&& after2.last().name@ == n2
        },
{
    let t = rule_texts(f.size_rules);
    lemma_parsed_rules_agree(to_bytes, t, t, p1, p2);
    if p1.len() == p2.len() {
        assert(p1 =~= p2);
    } else if p1.len() < p2.len() {
        lemma_first_denying_bounds(p1, size);
        lemma_first_denying_agrees(p1, p2, size);
    } else {
        lemma_first_denying_bounds(p2, size);
        lemma_first_denying_agrees(p2, p1, size);
    }
}

/// The allow list of a filter, if any.
pub open spec fn allow_list(f: Option<Filter<String>>) -> Option<Seq<String>> {
    match f {
        Some(x) => match x.allows {
            Some(a) => Some(a@),
            None => None,
        },
        None => None,
    }
}

/// `b` has the allow list of `a` and denies all that `a` denies (a missing filter or list
/// denying nothing).
pub open spec fn denies_at_least(a: Option<Filter<String>>, b: Option<Filter<String>>) -> bool {
    &&& allow_list(a) == allow_list(b)
    &&& forall|v: Seq<char>| #[trigger] text_denied(a, v) ==> text_denied(b, v)
}

/// `g` is `f` with entries added to its deny lists and size rules appended after those of `f`;
/// its allow lists and its default are those of `f`.
pub open spec fn refuses_at_least(f: FileFilter, g: FileFilter) -> bool {
    &&& denies_at_least(f.type_filter, g.type_filter)
    &&& denies_at_least(f.extension_filter, g.extension_filter)
    &&& denies_at_least(f.mime_type_filter, g.mime_type_filter)
    &&& rule_texts(f.size_rules).len() <= rule_texts(g.size_rules).len()
    &&& forall|i: int|
        0 <= i < rule_texts(f.size_rules).len() ==> #[trigger] rule_texts(g.size_rules)[i]@
            == rule_texts(f.size_rules)[i]@
    &&& deny_by_default(f.default) == deny_by_default(g.default)
}

proof fn lemma_list_verdict_refuses_no_less(f: FileFilter, g: FileFilter, t: Seq<char>, e: Seq<char>, m: Seq<char>)
    requires
        refuses_at_least(f, g),
        list_verdict(f, t, e, m) is Some,
    ensures
        list_verdict(g, t, e, m) is Some,
{
    assert(text_denied(f.type_filter, t) ==> text_denied(g.type_filter, t));
    assert(text_denied(f.extension_filter, e) ==> text_denied(g.extension_filter, e));
    assert(text_denied(f.mime_type_filter, m) ==> text_denied(g.mime_type_filter, m));
    assert(allow_list(f.type_filter) == allow_list(g.type_filter));
    assert(allow_list(f.extension_filter) == allow_list(g.extension_filter));
    assert(allow_list(f.mime_type_filter) == allow_list(g.mime_type_filter));
}

/// Adding deny entries or appending size rules never lets a refused file through: where the
/// size conversion gives one outcome per amount, a file that `f` refuses is refused by `g`.
pub proof fn law_more_denials_let_nothing_through<F: Fn(&SizeAmount) -> Option<u64>>(
    to_bytes: F,
    f: FileFilter,
    g: FileFilter,
    size: u64,
    extension: Seq<char>,
    mime: Seq<char>,
    pf: Seq<Option<ParsedSizeRule>>,
    pg: Seq<Option<ParsedSizeRule>>,
)
    requires
        converts_deterministically(to_bytes),
        refuses_at_least(f, g),
        rules_parsed_as(to_bytes, f.size_rules, size, pf),
        rules_parsed_as(to_bytes, g.size_rules, size, pg),
        file_verdict(f, pf, size, extension, mime) is Some,
    ensures
        file_verdict(g, pg, size, extension, mime) is Some,
{
    let tf = rule_texts(f.size_rules);
    let tg = rule_texts(g.size_rules);
    assert forall|i: int| 0 <= i < pf.len() && i < pg.len() implies #[trigger] tf[i]@ == tg[i]@ by {}
    lemma_parsed_rules_agree(to_bytes, tf, tg, pf, pg);
    if first_denying(pf, size) >= 0 {
        let k = first_denying(pf, size);
        lemma_first_denying_bounds(pf, size);
        if k < pg.len() {
            assert(pg[k] == pf[k]);
            lemma_first_denying_finds(pg, size, k);
        } else {
            assert(pg.len() < tg.len());
        }
    } else if first_denying(pg, size) < 0 {
        lemma_list_verdict_refuses_no_less(f, g, file_type_of(extension), extension, mime);
    }
}

/// The category table: each listed extension (lower-cased) has its category, and every other
/// lower-cased extension is "other". With `get_file_type`'s contract this fixes the category of
/// every ASCII extension in any mix of cases.
pub proof fn law_file_category_table(lower: Seq<char>)
    ensures
        file_category("jpg"@) == "image"@,
        file_category("jpeg"@) == "image"@,
        file_category("png"@) == "image"@,
        file_category("gif"@) == "image"@,
        file_category("bmp"@) == "image"@,
        file_category("webp"@) == "image"@,
        file_category("svg"@) == "image"@,
        file_category("ico"@) == "image"@,
        file_category("mp4"@) == "video"@,
        file_category("mov"@) == "video"@,
        file_category("avi"@) == "video"@,
        file_category("mkv"@) == "video"@,
        file_category("webm"@) == "video"@,
        file_category("flv"@) == "video"@,
        file_category("wmv"@) == "video"@,
        file_category("mp3"@) == "audio"@,
        file_category("wav"@) == "audio"@,
        file_category("ogg"@) == "audio"@,
        file_category("flac"@) == "audio"@,
        file_category("aac"@) == "audio"@,
        file_category("pdf"@) == "document"@,
        file_category("doc"@) == "document"@,
        file_category("docx"@) == "document"@,
        file_category("ppt"@) == "document"@,
        file_category("pptx"@) == "document"@,
        file_category("xls"@) == "document"@,
        file_category("xlsx"@) == "document"@,
        file_category("txt"@) == "document"@,
        file_category("md"@) == "document"@,
        file_category("zip"@) == "archive"@,
        file_category("rar"@) == "archive"@,
        file_category("7z"@) == "archive"@,
        file_category("tar"@) == "archive"@,
        file_category("gz"@) == "archive"@,
        file_category("bz2"@) == "archive"@,
        (lower != "jpg"@ && lower != "jpeg"@ && lower != "png"@ && lower != "gif"@ && lower != "bmp"@ && lower != "webp"@ && lower != "svg"@ && lower != "ico"@ && lower != "mp4"@ && lower != "mov"@ && lower != "avi"@ && lower != "mkv"@ && lower != "webm"@ && lower != "flv"@ && lower != "wmv"@ && lower != "mp3"@ && lower != "wav"@ && lower != "ogg"@ && lower != "flac"@ && lower != "aac"@ && lower != "pdf"@ && lower != "doc"@ && lower != "docx"@ && lower != "ppt"@ && lower != "pptx"@ && lower != "xls"@ && lower != "xlsx"@ && lower != "txt"@ && lower != "md"@ && lower != "zip"@ && lower != "rar"@ && lower != "7z"@ && lower != "tar"@ && lower != "gz"@ && lower != "bz2"@) ==> file_category(lower) == "other"@,
{
    assert(file_category("jpg"@) == "image"@) by {
        reveal_strlit("image");
        reveal_strlit("jpg");
    }
    assert(file_category("jpeg"@) == "image"@) by {
        reveal_strlit("image");
        reveal_strlit("jpeg");
    }
    assert(file_category("png"@) == "image"@) by {
        reveal_strlit("image");
        reveal_strlit("png");
    }
    assert(file_category("gif"@) == "image"@) by {
        reveal_strlit("gif");
        reveal_strlit("image");
    }
    assert(file_category("bmp"@) == "image"@) by {
        reveal_strlit("bmp");
        reveal_strlit("image");
    }
    assert(file_category("webp"@) == "image"@) by {
        reveal_strlit("image");
        reveal_strlit("webp");
    }
    assert(file_category("svg"@) == "image"@) by {
        reveal_strlit("image");
        reveal_strlit("svg");
    }
    assert(file_category("ico"@) == "image"@) by {
        reveal_strlit("ico");
        reveal_strlit("image");
    }
    assert(file_category("mp4"@) == "video"@) by {
        reveal_strlit("bmp");
        reveal_strlit("gif");
        reveal_strlit("ico");
        reveal_strlit("jpeg");
        reveal_strlit("jpg");
        reveal_strlit("mp4");
        reveal_strlit("png");
        reveal_strlit("svg");
        reveal_strlit("video");
        reveal_strlit("webp");
        assert("mp4"@[0] != "jpg"@[0]);
        assert("mp4"@.len() != "jpeg"@.len());
        assert("mp4"@[0] != "png"@[0]);
        assert("mp4"@[0] != "gif"@[0]);
        assert("mp4"@[0] != "bmp"@[0]);
        assert("mp4"@.len() != "webp"@.len());
        assert("mp4"@[0] != "svg"@[0]);
        assert("mp4"@[0] != "ico"@[0]);
    }
    assert(file_category("mov"@) == "video"@) by {
        reveal_strlit("bmp");
        reveal_strlit("gif");
        reveal_strlit("ico");
        reveal_strlit("jpeg");
        reveal_strlit("jpg");
        reveal_strlit("mov");
        reveal_strlit("png");
        reveal_strlit("svg");
        reveal_strlit("video");
        reveal_strlit("webp");
        assert("mov"@[0] != "jpg"@[0]);
        assert("mov"@.len() != "jpeg"@.len());
        assert("mov"@[0] != "png"@[0]);
        assert("mov"@[0] != "gif"@[0]);
        assert("mov"@[0] != "bmp"@[0]);
        assert("mov"@.len() != "webp"@.len());
        assert("mov"@[0] != "svg"@[0]);
        assert("mov"@[0] != "ico"@[0]);
    }
    assert(file_category("avi"@) == "video"@) by {
        reveal_strlit("avi");
        reveal_strlit("bmp");
        reveal_strlit("gif");
        reveal_strlit("ico");
        reveal_strlit("jpeg");
        reveal_strlit("jpg");
        reveal_strlit("png");
        reveal_strlit("svg");
        reveal_strlit("video");
        reveal_strlit("webp");
        assert("avi"@[0] != "jpg"@[0]);
        assert("avi"@.len() != "jpeg"@.len());
        assert("avi"@[0] != "png"@[0]);
        assert("avi"@[0] != "gif"@[0]);
        assert("avi"@[0] != "bmp"@[0]);
        assert("avi"@.len() != "webp"@.len());
        assert("avi"@[0] != "svg"@[0]);
        assert("avi"@[0] != "ico"@[0]);
    }
    assert(file_category("mkv"@) == "video"@) by {
        reveal_strlit("bmp");
        reveal_strlit("gif");
        reveal_strlit("ico");
        reveal_strlit("jpeg");
        reveal_strlit("jpg");
        reveal_strlit("mkv");
        reveal_strlit("png");
        reveal_strlit("svg");
        reveal_strlit("video");
        reveal_strlit("webp");
        assert("mkv"@[0] != "jpg"@[0]);
        assert("mkv"@.len() != "jpeg"@.len());
        assert("mkv"@[0] != "png"@[0]);
        assert("mkv"@[0] != "gif"@[0]);
        assert("mkv"@[0] != "bmp"@[0]);
        assert("mkv"@.len() != "webp"@.len());
        assert("mkv"@[0] != "svg"@[0]);
        assert("mkv"@[0] != "ico"@[0]);
    }
    assert(file_category("webm"@) == "video"@) by {
        reveal_strlit("bmp");
        reveal_strlit("gif");
        reveal_strlit("ico");
        reveal_strlit("jpeg");
        reveal_strlit("jpg");
        reveal_strlit("png");
        reveal_strlit("svg");
        reveal_strlit("video");
        reveal_strlit("webm");
        reveal_strlit("webp");
        assert("webm"@.len() != "jpg"@.len());
        assert("webm"@[0] != "jpeg"@[0]);
        assert("webm"@.len() != "png"@.len());
        assert("webm"@.len() != "gif"@.len());
        assert("webm"@.len() != "bmp"@.len());
        assert("webm"@[3] != "webp"@[3]);
        assert("webm"@.len() != "svg"@.len());
        assert("webm"@.len() != "ico"@.len());
    }
    assert(file_category("flv"@) == "video"@) by {
        reveal_strlit("bmp");
        reveal_strlit("flv");
        reveal_strlit("gif");
        reveal_strlit("ico");
        reveal_strlit("jpeg");
        reveal_strlit("jpg");
        reveal_strlit("png");
        reveal_strlit("svg");
        reveal_strlit("video");
        reveal_strlit("webp");
        assert("flv"@[0] != "jpg"@[0]);
        assert("flv"@.len() != "jpeg"@.len());
        assert("flv"@[0] != "png"@[0]);
        assert("flv"@[0] != "gif"@[0]);
        assert("flv"@[0] != "bmp"@[0]);
        assert("flv"@.len() != "webp"@.len());
        assert("flv"@[0] != "svg"@[0]);
        assert("flv"@[0] != "ico"@[0]);
    }
    assert(file_category("wmv"@) == "video"@) by {
        reveal_strlit("bmp");
        reveal_strlit("gif");
        reveal_strlit("ico");
        reveal_strlit("jpeg");
        reveal_strlit("jpg");
        reveal_strlit("png");
        reveal_strlit("svg");
        reveal_strlit("video");
        reveal_strlit("webp");
        reveal_strlit("wmv");
        assert("wmv"@[0] != "jpg"@[0]);
        assert("wmv"@.len() != "jpeg"@.len());
        assert("wmv"@[0] != "png"@[0]);
        assert("wmv"@[0] != "gif"@[0]);
        assert("wmv"@[0] != "bmp"@[0]);
        assert("wmv"@.len() != "webp"@.len());
        assert("wmv"@[0] != "svg"@[0]);
        assert("wmv"@[0] != "ico"@[0]);
    }
    assert(file_category("mp3"@) == "audio"@) by {
        reveal_strlit("audio");
        reveal_strlit("avi");
        reveal_strlit("bmp");
        reveal_strlit("flv");
        reveal_strlit("gif");
        reveal_strlit("ico");
        reveal_strlit("jpeg");
        reveal_strlit("jpg");
        reveal_strlit("mkv");
        reveal_strlit("mov");
        reveal_strlit("mp3");
        reveal_strlit("mp4");
        reveal_strlit("png");
        reveal_strlit("svg");
        reveal_strlit("webm");
        reveal_strlit("webp");
        reveal_strlit("wmv");
        assert("mp3"@[0] != "jpg"@[0]);
        assert("mp3"@.len() != "jpeg"@.len());
        assert("mp3"@[0] != "png"@[0]);
        assert("mp3"@[0] != "gif"@[0]);
        assert("mp3"@[0] != "bmp"@[0]);
        assert("mp3"@.len() != "webp"@.len());
        assert("mp3"@[0] != "svg"@[0]);
        assert("mp3"@[0] != "ico"@[0]);
        assert("mp3"@[2] != "mp4"@[2]);
        assert("mp3"@[1] != "mov"@[1]);
        assert("mp3"@[0] != "avi"@[0]);
        assert("mp3"@[1] != "mkv"@[1]);
        assert("mp3"@.len() != "webm"@.len());
        assert("mp3"@[0] != "flv"@[0]);
        assert("mp3"@[0] != "wmv"@[0]);
    }
    assert(file_category("wav"@) == "audio"@) by {
        reveal_strlit("audio");
        reveal_strlit("avi");
        reveal_strlit("bmp");
        reveal_strlit("flv");
        reveal_strlit("gif");
        reveal_strlit("ico");
        reveal_strlit("jpeg");
        reveal_strlit("jpg");
        reveal_strlit("mkv");
        reveal_strlit("mov");
        reveal_strlit("mp4");
        reveal_strlit("png");
        reveal_strlit("svg");
        reveal_strlit("wav");
        reveal_strlit("webm");
        reveal_strlit("webp");
        reveal_strlit("wmv");
        assert("wav"@[0] != "jpg"@[0]);
        assert("wav"@.len() != "jpeg"@.len());
        assert("wav"@[0] != "png"@[0]);
        assert("wav"@[0] != "gif"@[0]);
        assert("wav"@[0] != "bmp"@[0]);
        assert("wav"@.len() != "webp"@.len());
        assert("wav"@[0] != "svg"@[0]);
        assert("wav"@[0] != "ico"@[0]);
        assert("wav"@[0] != "mp4"@[0]);
        assert("wav"@[0] != "mov"@[0]);
        assert("wav"@[0] != "avi"@[0]);
        assert("wav"@[0] != "mkv"@[0]);
        assert("wav"@.len() != "webm"@.len());
        assert("wav"@[0] != "flv"@[0]);
        assert("wav"@[1] != "wmv"@[1]);
    }
    assert(file_category("ogg"@) == "audio"@) by {
        reveal_strlit("audio");
        reveal_strlit("avi");
        reveal_strlit("bmp");
        reveal_strlit("flv");
        reveal_strlit("gif");
        reveal_strlit("ico");
        reveal_strlit("jpeg");
        reveal_strlit("jpg");
        reveal_strlit("mkv");
        reveal_strlit("mov");
        reveal_strlit("mp4");
        reveal_strlit("ogg");
        reveal_strlit("png");
        reveal_strlit("svg");
        reveal_strlit("webm");
        reveal_strlit("webp");
        reveal_strlit("wmv");
        assert("ogg"@[0] != "jpg"@[0]);
        assert("ogg"@.len() != "jpeg"@.len());
        assert("ogg"@[0] != "png"@[0]);
        assert("ogg"@[0] != "gif"@[0]);
        assert("ogg"@[0] != "bmp"@[0]);
        assert("ogg"@.len() != "webp"@.len());
        assert("ogg"@[0] != "svg"@[0]);
        assert("ogg"@[0] != "ico"@[0]);
        assert("ogg"@[0] != "mp4"@[0]);
        assert("ogg"@[0] != "mov"@[0]);
        assert("ogg"@[0] != "avi"@[0]);
        assert("ogg"@[0] != "mkv"@[0]);
        assert("ogg"@.len() != "webm"@.len());
        assert("ogg"@[0] != "flv"@[0]);
        assert("ogg"@[0] != "wmv"@[0]);
    }
    assert(file_category("flac"@) == "audio"@) by {
        reveal_strlit("audio");
        reveal_strlit("avi");
        reveal_strlit("bmp");
        reveal_strlit("flac");
        reveal_strlit("flv");
        reveal_strlit("gif");
        reveal_strlit("ico");
        reveal_strlit("jpeg");
        reveal_strlit("jpg");
        reveal_strlit("mkv");
        reveal_strlit("mov");
        reveal_strlit("mp4");
        reveal_strlit("png");
        reveal_strlit("svg");
        reveal_strlit("webm");
        reveal_strlit("webp");
        reveal_strlit("wmv");
        assert("flac"@.len() != "jpg"@.len());
        assert("flac"@[0] != "jpeg"@[0]);
        assert("flac"@.len() != "png"@.len());
        assert("flac"@.len() != "gif"@.len());
        assert("flac"@.len() != "bmp"@.len());
        assert("flac"@[0] != "webp"@[0]);
        assert("flac"@.len() != "svg"@.len());
        assert("flac"@.len() != "ico"@.len());
        assert("flac"@.len() != "mp4"@.len());
        assert("flac"@.len() != "mov"@.len());
        assert("flac"@.len() != "avi"@.len());
        assert("flac"@.len() != "mkv"@.len());
        assert("flac"@[0] != "webm"@[0]);
        assert("flac"@.len() != "flv"@.len());
        assert("flac"@.len() != "wmv"@.len());
    }
    assert(file_category("aac"@) == "audio"@) by {
        reveal_strlit("aac");
        reveal_strlit("audio");
        reveal_strlit("avi");
        reveal_strlit("bmp");
        reveal_strlit("flv");
        reveal_strlit("gif");
        reveal_strlit("ico");
        reveal_strlit("jpeg");
        reveal_strlit("jpg");
        reveal_strlit("mkv");
        reveal_strlit("mov");
        reveal_strlit("mp4");
        reveal_strlit("png");
        reveal_strlit("svg");
        reveal_strlit("webm");
        reveal_strlit("webp");
        reveal_strlit("wmv");
        assert("aac"@[0] != "jpg"@[0]);
        assert("aac"@.len() != "jpeg"@.len());
        assert("aac"@[0] != "png"@[0]);
        assert("aac"@[0] != "gif"@[0]);
        assert("aac"@[0] != "bmp"@[0]);
        assert("aac"@.len() != "webp"@.len());
        assert("aac"@[0] != "svg"@[0]);
        assert("aac"@[0] != "ico"@[0]);
        assert("aac"@[0] != "mp4"@[0]);
        assert("aac"@[0] != "mov"@[0]);
        assert("aac"@[1] != "avi"@[1]);
        assert("aac"@[0] != "mkv"@[0]);
        assert("aac"@.len() != "webm"@.len());
        assert("aac"@[0] != "flv"@[0]);
        assert("aac"@[0] != "wmv"@[0]);
    }
    assert(file_category("pdf"@) == "document"@) by {
        reveal_strlit("aac");
        reveal_strlit("avi");
        reveal_strlit("bmp");
        reveal_strlit("document");
        reveal_strlit("flac");
        reveal_strlit("flv");
        reveal_strlit("gif");
        reveal_strlit("ico");
        reveal_strlit("jpeg");
        reveal_strlit("jpg");
        reveal_strlit("mkv");
        reveal_strlit("mov");
        reveal_strlit("mp3");
        reveal_strlit("mp4");
        reveal_strlit("ogg");
        reveal_strlit("pdf");
        reveal_strlit("png");
        reveal_strlit("svg");
        reveal_strlit("wav");
        reveal_strlit("webm");
        reveal_strlit("webp");
        reveal_strlit("wmv");
        assert("pdf"@[0] != "jpg"@[0]);
        assert("pdf"@.len() != "jpeg"@.len());
        assert("pdf"@[1] != "png"@[1]);
        assert("pdf"@[0] != "gif"@[0]);
        assert("pdf"@[0] != "bmp"@[0]);
        assert("pdf"@.len() != "webp"@.len());
        assert("pdf"@[0] != "svg"@[0]);
        assert("pdf"@[0] != "ico"@[0]);
        assert("pdf"@[0] != "mp4"@[0]);
        assert("pdf"@[0] != "mov"@[0]);
        assert("pdf"@[0] != "avi"@[0]);
        assert("pdf"@[0] != "mkv"@[0]);
        assert("pdf"@.len() != "webm"@.len());
        assert("pdf"@[0] != "flv"@[0]);
        assert("pdf"@[0] != "wmv"@[0]);
        assert("pdf"@[0] != "mp3"@[0]);
        assert("pdf"@[0] != "wav"@[0]);
        assert("pdf"@[0] != "ogg"@[0]);
        assert("pdf"@.len() != "flac"@.len());
        assert("pdf"@[0] != "aac"@[0]);
    }
    assert(file_category("doc"@) == "document"@) by {
        reveal_strlit("aac");
        reveal_strlit("avi");
        reveal_strlit("bmp");
        reveal_strlit("doc");
        reveal_strlit("document");
        reveal_strlit("flac");
        reveal_strlit("flv");
        reveal_strlit("gif");
        reveal_strlit("ico");
        reveal_strlit("jpeg");
        reveal_strlit("jpg");
        reveal_strlit("mkv");
        reveal_strlit("mov");
        reveal_strlit("mp3");
        reveal_strlit("mp4");
        reveal_strlit("ogg");
        reveal_strlit("png");
        reveal_strlit("svg");
        reveal_strlit("wav");
        reveal_strlit("webm");
        reveal_strlit("webp");
        reveal_strlit("wmv");
        assert("doc"@[0] != "jpg"@[0]);
        assert("doc"@.len() != "jpeg"@.len());
        assert("doc"@[0] != "png"@[0]);
        assert("doc"@[0] != "gif"@[0]);
        assert("doc"@[0] != "bmp"@[0]);
        assert("doc"@.len() != "webp"@.len());
        assert("doc"@[0] != "svg"@[0]);
        assert("doc"@[0] != "ico"@[0]);
        assert("doc"@[0] != "mp4"@[0]);
        assert("doc"@[0] != "mov"@[0]);
        assert("doc"@[0] != "avi"@[0]);
        assert("doc"@[0] != "mkv"@[0]);
        assert("doc"@.len() != "webm"@.len());
        assert("doc"@[0] != "flv"@[0]);
        assert("doc"@[0] != "wmv"@[0]);
        assert("doc"@[0] != "mp3"@[0]);
        assert("doc"@[0] != "wav"@[0]);
        assert("doc"@[0] != "ogg"@[0]);
        assert("doc"@.len() != "flac"@.len());
        assert("doc"@[0] != "aac"@[0]);
    }
    assert(file_category("docx"@) == "document"@) by {
        reveal_strlit("aac");
        reveal_strlit("avi");
        reveal_strlit("bmp");
        reveal_strlit("document");
        reveal_strlit("docx");
        reveal_strlit("flac");
        reveal_strlit("flv");
        reveal_strlit("gif");
        reveal_strlit("ico");
        reveal_strlit("jpeg");
        reveal_strlit("jpg");
        reveal_strlit("mkv");
        reveal_strlit("mov");
        reveal_strlit("mp3");
        reveal_strlit("mp4");
        reveal_strlit("ogg");
        reveal_strlit("png");
        reveal_strlit("svg");
        reveal_strlit("wav");
        reveal_strlit("webm");
        reveal_strlit("webp");
        reveal_strlit("wmv");
        assert("docx"@.len() != "jpg"@.len());
        assert("docx"@[0] != "jpeg"@[0]);
        assert("docx"@.len() != "png"@.len());
        assert("docx"@.len() != "gif"@.len());
        assert("docx"@.len() != "bmp"@.len());
        assert("docx"@[0] != "webp"@[0]);
        assert("docx"@.len() != "svg"@.len());
        assert("docx"@.len() != "ico"@.len());
        assert("docx"@.len() != "mp4"@.len());
        assert("docx"@.len() != "mov"@.len());
        assert("docx"@.len() != "avi"@.len());
        assert("docx"@.len() != "mkv"@.len());
        assert("docx"@[0] != "webm"@[0]);
        assert("docx"@.len() != "flv"@.len());
        assert("docx"@.len() != "wmv"@.len());
        assert("docx"@.len() != "mp3"@.len());
        assert("docx"@.len() != "wav"@.len());
        assert("docx"@.len() != "ogg"@.len());
        assert("docx"@[0] != "flac"@[0]);
        assert("docx"@.len() != "aac"@.len());
    }
    assert(file_category("ppt"@) == "document"@) by {
        reveal_strlit("aac");
        reveal_strlit("avi");
        reveal_strlit("bmp");
        reveal_strlit("document");
        reveal_strlit("flac");
        reveal_strlit("flv");
        reveal_strlit("gif");
        reveal_strlit("ico");
        reveal_strlit("jpeg");
        reveal_strlit("jpg");
        reveal_strlit("mkv");
        reveal_strlit("mov");
        reveal_strlit("mp3");
        reveal_strlit("mp4");
        reveal_strlit("ogg");
        reveal_strlit("png");
        reveal_strlit("ppt");
        reveal_strlit("svg");
        reveal_strlit("wav");
        reveal_strlit("webm");
        reveal_strlit("webp");
        reveal_strlit("wmv");
        assert("ppt"@[0] != "jpg"@[0]);
        assert("ppt"@.len() != "jpeg"@.len());
        assert("ppt"@[1] != "png"@[1]);
        assert("ppt"@[0] != "gif"@[0]);
        assert("ppt"@[0] != "bmp"@[0]);
        assert("ppt"@.len() != "webp"@.len());
        assert("ppt"@[0] != "svg"@[0]);
        assert("ppt"@[0] != "ico"@[0]);
        assert("ppt"@[0] != "mp4"@[0]);
        assert("ppt"@[0] != "mov"@[0]);
        assert("ppt"@[0] != "avi"@[0]);
        assert("ppt"@[0] != "mkv"@[0]);
        assert("ppt"@.len() != "webm"@.len());
        assert("ppt"@[0] != "flv"@[0]);
        assert("ppt"@[0] != "wmv"@[0]);
        assert("ppt"@[0] != "mp3"@[0]);
        assert("ppt"@[0] != "wav"@[0]);
        assert("ppt"@[0] != "ogg"@[0]);
        assert("ppt"@.len() != "flac"@.len());
        assert("ppt"@[0] != "aac"@[0]);
    }
    assert(file_category("pptx"@) == "document"@) by {
        reveal_strlit("aac");
        reveal_strlit("avi");
        reveal_strlit("bmp");
        reveal_strlit("document");
        reveal_strlit("flac");
        reveal_strlit("flv");
        reveal_strlit("gif");
        reveal_strlit("ico");
        reveal_strlit("jpeg");
        reveal_strlit("jpg");
        reveal_strlit("mkv");
        reveal_strlit("mov");
        reveal_strlit("mp3");
        reveal_strlit("mp4");
        reveal_strlit("ogg");
        reveal_strlit("png");
        reveal_strlit("pptx");
        reveal_strlit("svg");
        reveal_strlit("wav");
        reveal_strlit("webm");
        reveal_strlit("webp");
        reveal_strlit("wmv");
        assert("pptx"@.len() != "jpg"@.len());
        assert("pptx"@[0] != "jpeg"@[0]);
        assert("pptx"@.len() != "png"@.len());
        assert("pptx"@.len() != "gif"@.len());
        assert("pptx"@.len() != "bmp"@.len());
        assert("pptx"@[0] != "webp"@[0]);
        assert("pptx"@.len() != "svg"@.len());
        assert("pptx"@.len() != "ico"@.len());
        assert("pptx"@.len() != "mp4"@.len());
        assert("pptx"@.len() != "mov"@.len());
        assert("pptx"@.len() != "avi"@.len());
        assert("pptx"@.len() != "mkv"@.len());
        assert("pptx"@[0] != "webm"@[0]);
        assert("pptx"@.len() != "flv"@.len());
        assert("pptx"@.len() != "wmv"@.len());
        assert("pptx"@.len() != "mp3"@.len());
        assert("pptx"@.len() != "wav"@.len());
        assert("pptx"@.len() != "ogg"@.len());
        assert("pptx"@[0] != "flac"@[0]);
        assert("pptx"@.len() != "aac"@.len());
    }
    assert(file_category("xls"@) == "document"@) by {
        reveal_strlit("aac");
        reveal_strlit("avi");
        reveal_strlit("bmp");
        reveal_strlit("document");
        reveal_strlit("flac");
        reveal_strlit("flv");
        reveal_strlit("gif");
        reveal_strlit("ico");
        reveal_strlit("jpeg");
        reveal_strlit("jpg");
        reveal_strlit("mkv");
        reveal_strlit("mov");
        reveal_strlit("mp3");
        reveal_strlit("mp4");
        reveal_strlit("ogg");
        reveal_strlit("png");
        reveal_strlit("svg");
        reveal_strlit("wav");
        reveal_strlit("webm");
        reveal_strlit("webp");
        reveal_strlit("wmv");
        reveal_strlit("xls");
        assert("xls"@[0] != "jpg"@[0]);
        assert("xls"@.len() != "jpeg"@.len());
        assert("xls"@[0] != "png"@[0]);
        assert("xls"@[0] != "gif"@[0]);
        assert("xls"@[0] != "bmp"@[0]);
        assert("xls"@.len() != "webp"@.len());
        assert("xls"@[0] != "svg"@[0]);
        assert("xls"@[0] != "ico"@[0]);
        assert("xls"@[0] != "mp4"@[0]);
        assert("xls"@[0] != "mov"@[0]);
        assert("xls"@[0] != "avi"@[0]);
        assert("xls"@[0] != "mkv"@[0]);
        assert("xls"@.len() != "webm"@.len());
        assert("xls"@[0] != "flv"@[0]);
        assert("xls"@[0] != "wmv"@[0]);
        assert("xls"@[0] != "mp3"@[0]);
        assert("xls"@[0] != "wav"@[0]);
        assert("xls"@[0] != "ogg"@[0]);
        assert("xls"@.len() != "flac"@.len());
        assert("xls"@[0] != "aac"@[0]);
    }
    assert(file_category("xlsx"@) == "document"@) by {
        reveal_strlit("aac");
        reveal_strlit("avi");
        reveal_strlit("bmp");
        reveal_strlit("document");
        reveal_strlit("flac");
        reveal_strlit("flv");
        reveal_strlit("gif");
        reveal_strlit("ico");
        reveal_strlit("jpeg");
        reveal_strlit("jpg");
        reveal_strlit("mkv");
        reveal_strlit("mov");
        reveal_strlit("mp3");
        reveal_strlit("mp4");
        reveal_strlit("ogg");
        reveal_strlit("png");
        reveal_strlit("svg");
        reveal_strlit("wav");
        reveal_strlit("webm");
        reveal_strlit("webp");
        reveal_strlit("wmv");
        reveal_strlit("xlsx");
        assert("xlsx"@.len() != "jpg"@.len());
        assert("xlsx"@[0] != "jpeg"@[0]);
        assert("xlsx"@.len() != "png"@.len());
        assert("xlsx"@.len() != "gif"@.len());
        assert("xlsx"@.len() != "bmp"@.len());
        assert("xlsx"@[0] != "webp"@[0]);
        assert("xlsx"@.len() != "svg"@.len());
        assert("xlsx"@.len() != "ico"@.len());
        assert("xlsx"@.len() != "mp4"@.len());
        assert("xlsx"@.len() != "mov"@.len());
        assert("xlsx"@.len() != "avi"@.len());
        assert("xlsx"@.len() != "mkv"@.len());
        assert("xlsx"@[0] != "webm"@[0]);
        assert("xlsx"@.len() != "flv"@.len());
        assert("xlsx"@.len() != "wmv"@.len());
        assert("xlsx"@.len() != "mp3"@.len());
        assert("xlsx"@.len() != "wav"@.len());
        assert("xlsx"@.len() != "ogg"@.len());
        assert("xlsx"@[0] != "flac"@[0]);
        assert("xlsx"@.len() != "aac"@.len());
    }
    assert(file_category("txt"@) == "document"@) by {
        reveal_strlit("aac");
        reveal_strlit("avi");
        reveal_strlit("bmp");
        reveal_strlit("document");
        reveal_strlit("flac");
        reveal_strlit("flv");
        reveal_strlit("gif");
        reveal_strlit("ico");
        reveal_strlit("jpeg");
        reveal_strlit("jpg");
        reveal_strlit("mkv");
        reveal_strlit("mov");
        reveal_strlit("mp3");
        reveal_strlit("mp4");
        reveal_strlit("ogg");
        reveal_strlit("png");
        reveal_strlit("svg");
        reveal_strlit("txt");
        reveal_strlit("wav");
        reveal_strlit("webm");
        reveal_strlit("webp");
        reveal_strlit("wmv");
        assert("txt"@[0] != "jpg"@[0]);
        assert("txt"@.len() != "jpeg"@.len());
        assert("txt"@[0] != "png"@[0]);
        assert("txt"@[0] != "gif"@[0]);
        assert("txt"@[0] != "bmp"@[0]);
        assert("txt"@.len() != "webp"@.len());
        assert("txt"@[0] != "svg"@[0]);
        assert("txt"@[0] != "ico"@[0]);
        assert("txt"@[0] != "mp4"@[0]);
        assert("txt"@[0] != "mov"@[0]);
        assert("txt"@[0] != "avi"@[0]);
        assert("txt"@[0] != "mkv"@[0]);
        assert("txt"@.len() != "webm"@.len());
        assert("txt"@[0] != "flv"@[0]);
        assert("txt"@[0] != "wmv"@[0]);
        assert("txt"@[0] != "mp3"@[0]);
        assert("txt"@[0] != "wav"@[0]);
        assert("txt"@[0] != "ogg"@[0]);
        assert("txt"@.len() != "flac"@.len());
        assert("txt"@[0] != "aac"@[0]);
    }
    assert(file_category("md"@) == "document"@) by {
        reveal_strlit("aac");
        reveal_strlit("avi");
        reveal_strlit("bmp");
        reveal_strlit("document");
        reveal_strlit("flac");
        reveal_strlit("flv");
        reveal_strlit("gif");
        reveal_strlit("ico");
        reveal_strlit("jpeg");
        reveal_strlit("jpg");
        reveal_strlit("md");
        reveal_strlit("mkv");
        reveal_strlit("mov");
        reveal_strlit("mp3");
        reveal_strlit("mp4");
        reveal_strlit("ogg");
        reveal_strlit("png");
        reveal_strlit("svg");
        reveal_strlit("wav");
        reveal_strlit("webm");
        reveal_strlit("webp");
        reveal_strlit("wmv");
        assert("md"@.len() != "jpg"@.len());
        assert("md"@.len() != "jpeg"@.len());
        assert("md"@.len() != "png"@.len());
        assert("md"@.len() != "gif"@.len());
        assert("md"@.len() != "bmp"@.len());
        assert("md"@.len() != "webp"@.len());
        assert("md"@.len() != "svg"@.len());
        assert("md"@.len() != "ico"@.len());
        assert("md"@.len() != "mp4"@.len());
        assert("md"@.len() != "mov"@.len());
        assert("md"@.len() != "avi"@.len());
        assert("md"@.len() != "mkv"@.len());
        assert("md"@.len() != "webm"@.len());
        assert("md"@.len() != "flv"@.len());
        assert("md"@.len() != "wmv"@.len());
        assert("md"@.len() != "mp3"@.len());
        assert("md"@.len() != "wav"@.len());
        assert("md"@.len() != "ogg"@.len());
        assert("md"@.len() != "flac"@.len());
        assert("md"@.len() != "aac"@.len());
    }
    assert(file_category("zip"@) == "archive"@) by {
        reveal_strlit("aac");
        reveal_strlit("archive");
        reveal_strlit("avi");
        reveal_strlit("bmp");
        reveal_strlit("doc");
        reveal_strlit("docx");
        reveal_strlit("flac");
        reveal_strlit("flv");
        reveal_strlit("gif");
        reveal_strlit("ico");
        reveal_strlit("jpeg");
        reveal_strlit("jpg");
        reveal_strlit("md");
        reveal_strlit("mkv");
        reveal_strlit("mov");
        reveal_strlit("mp3");
        reveal_strlit("mp4");
        reveal_strlit("ogg");
        reveal_strlit("pdf");
        reveal_strlit("png");
        reveal_strlit("ppt");
        reveal_strlit("pptx");
        reveal_strlit("svg");
        reveal_strlit("txt");
        reveal_strlit("wav");
        reveal_strlit("webm");
        reveal_strlit("webp");
        reveal_strlit("wmv");
        reveal_strlit("xls");
        reveal_strlit("xlsx");
        reveal_strlit("zip");
        assert("zip"@[0] != "jpg"@[0]);
        assert("zip"@.len() != "jpeg"@.len());
        assert("zip"@[0] != "png"@[0]);
        assert("zip"@[0] != "gif"@[0]);
        assert("zip"@[0] != "bmp"@[0]);
        assert("zip"@.len() != "webp"@.len());
        assert("zip"@[0] != "svg"@[0]);
        assert("zip"@[0] != "ico"@[0]);
        assert("zip"@[0] != "mp4"@[0]);
        assert("zip"@[0] != "mov"@[0]);
        assert("zip"@[0] != "avi"@[0]);
        assert("zip"@[0] != "mkv"@[0]);
        assert("zip"@.len() != "webm"@.len());
        assert("zip"@[0] != "flv"@[0]);
        assert("zip"@[0] != "wmv"@[0]);
        assert("zip"@[0] != "mp3"@[0]);
        assert("zip"@[0] != "wav"@[0]);
        assert("zip"@[0] != "ogg"@[0]);
        assert("zip"@.len() != "flac"@.len());
        assert("zip"@[0] != "aac"@[0]);
        assert("zip"@[0] != "pdf"@[0]);
        assert("zip"@[0] != "doc"@[0]);
        assert("zip"@.len() != "docx"@.len());
        assert("zip"@[0] != "ppt"@[0]);
        assert("zip"@.len() != "pptx"@.len());
        assert("zip"@[0] != "xls"@[0]);
        assert("zip"@.len() != "xlsx"@.len());
        assert("zip"@[0] != "txt"@[0]);
        assert("zip"@.len() != "md"@.len());
    }
    assert(file_category("rar"@) == "archive"@) by {
        reveal_strlit("aac");
        reveal_strlit("archive");
        reveal_strlit("avi");
        reveal_strlit("bmp");
        reveal_strlit("doc");
        reveal_strlit("docx");
        reveal_strlit("flac");
        reveal_strlit("flv");
        reveal_strlit("gif");
        reveal_strlit("ico");
        reveal_strlit("jpeg");
        reveal_strlit("jpg");
        reveal_strlit("md");
        reveal_strlit("mkv");
        reveal_strlit("mov");
        reveal_strlit("mp3");
        reveal_strlit("mp4");
        reveal_strlit("ogg");
        reveal_strlit("pdf");
        reveal_strlit("png");
        reveal_strlit("ppt");
        reveal_strlit("pptx");
        reveal_strlit("rar");
        reveal_strlit("svg");
        reveal_strlit("txt");
        reveal_strlit("wav");
        reveal_strlit("webm");
        reveal_strlit("webp");
        reveal_strlit("wmv");
        reveal_strlit("xls");
        reveal_strlit("xlsx");
        assert("rar"@[0] != "jpg"@[0]);
        assert("rar"@.len() != "jpeg"@.len());
        assert("rar"@[0] != "png"@[0]);
        assert("rar"@[0] != "gif"@[0]);
        assert("rar"@[0] != "bmp"@[0]);
        assert("rar"@.len() != "webp"@.len());
        assert("rar"@[0] != "svg"@[0]);
        assert("rar"@[0] != "ico"@[0]);
        assert("rar"@[0] != "mp4"@[0]);
        assert("rar"@[0] != "mov"@[0]);
        assert("rar"@[0] != "avi"@[0]);
        assert("rar"@[0] != "mkv"@[0]);
        assert("rar"@.len() != "webm"@.len());
        assert("rar"@[0] != "flv"@[0]);
        assert("rar"@[0] != "wmv"@[0]);
        assert("rar"@[0] != "mp3"@[0]);
        assert("rar"@[0] != "wav"@[0]);
        assert("rar"@[0] != "ogg"@[0]);
        assert("rar"@.len() != "flac"@.len());
        assert("rar"@[0] != "aac"@[0]);
        assert("rar"@[0] != "pdf"@[0]);
        assert("rar"@[0] != "doc"@[0]);
        assert("rar"@.len() != "docx"@.len());
        assert("rar"@[0] != "ppt"@[0]);
        assert("rar"@.len() != "pptx"@.len());
        assert("rar"@[0] != "xls"@[0]);
        assert("rar"@.len() != "xlsx"@.len());
        assert("rar"@[0] != "txt"@[0]);
        assert("rar"@.len() != "md"@.len());
    }
    assert(file_category("7z"@) == "archive"@) by {
        reveal_strlit("7z");
        reveal_strlit("aac");
        reveal_strlit("archive");
        reveal_strlit("avi");
        reveal_strlit("bmp");
        reveal_strlit("doc");
        reveal_strlit("docx");
        reveal_strlit("flac");
        reveal_strlit("flv");
        reveal_strlit("gif");
        reveal_strlit("ico");
        reveal_strlit("jpeg");
        reveal_strlit("jpg");
        reveal_strlit("md");
        reveal_strlit("mkv");
        reveal_strlit("mov");
        reveal_strlit("mp3");
        reveal_strlit("mp4");
        reveal_strlit("ogg");
        reveal_strlit("pdf");
        reveal_strlit("png");
        reveal_strlit("ppt");
        reveal_strlit("pptx");
        reveal_strlit("svg");
        reveal_strlit("txt");
        reveal_strlit("wav");
        reveal_strlit("webm");
        reveal_strlit("webp");
        reveal_strlit("wmv");
        reveal_strlit("xls");
        reveal_strlit("xlsx");
        assert("7z"@.len() != "jpg"@.len());
        assert("7z"@.len() != "jpeg"@.len());
        assert("7z"@.len() != "png"@.len());
        assert("7z"@.len() != "gif"@.len());
        assert("7z"@.len() != "bmp"@.len());
        assert("7z"@.len() != "webp"@.len());
        assert("7z"@.len() != "svg"@.len());
        assert("7z"@.len() != "ico"@.len());
        assert("7z"@.len() != "mp4"@.len());
        assert("7z"@.len() != "mov"@.len());
        assert("7z"@.len() != "avi"@.len());
        assert("7z"@.len() != "mkv"@.len());
        assert("7z"@.len() != "webm"@.len());
        assert("7z"@.len() != "flv"@.len());
        assert("7z"@.len() != "wmv"@.len());
        assert("7z"@.len() != "mp3"@.len());
        assert("7z"@.len() != "wav"@.len());
        assert("7z"@.len() != "ogg"@.len());
        assert("7z"@.len() != "flac"@.len());
        assert("7z"@.len() != "aac"@.len());
        assert("7z"@.len() != "pdf"@.len());
        assert("7z"@.len() != "doc"@.len());
        assert("7z"@.len() != "docx"@.len());
        assert("7z"@.len() != "ppt"@.len());
        assert("7z"@.len() != "pptx"@.len());
        assert("7z"@.len() != "xls"@.len());
        assert("7z"@.len() != "xlsx"@.len());
        assert("7z"@.len() != "txt"@.len());
        assert("7z"@[0] != "md"@[0]);
    }
    assert(file_category("tar"@) == "archive"@) by {
        reveal_strlit("aac");
        reveal_strlit("archive");
        reveal_strlit("avi");
        reveal_strlit("bmp");
        reveal_strlit("doc");
        reveal_strlit("docx");
        reveal_strlit("flac");
        reveal_strlit("flv");
        reveal_strlit("gif");
        reveal_strlit("ico");
        reveal_strlit("jpeg");
        reveal_strlit("jpg");
        reveal_strlit("md");
        reveal_strlit("mkv");
        reveal_strlit("mov");
        reveal_strlit("mp3");
        reveal_strlit("mp4");
        reveal_strlit("ogg");
        reveal_strlit("pdf");
        reveal_strlit("png");
        reveal_strlit("ppt");
        reveal_strlit("pptx");
        reveal_strlit("svg");
        reveal_strlit("tar");
        reveal_strlit("txt");
        reveal_strlit("wav");
        reveal_strlit("webm");
        reveal_strlit("webp");
        reveal_strlit("wmv");
        reveal_strlit("xls");
        reveal_strlit("xlsx");
        assert("tar"@[0] != "jpg"@[0]);
        assert("tar"@.len() != "jpeg"@.len());
        assert("tar"@[0] != "png"@[0]);
        assert("tar"@[0] != "gif"@[0]);
        assert("tar"@[0] != "bmp"@[0]);
        assert("tar"@.len() != "webp"@.len());
        assert("tar"@[0] != "svg"@[0]);
        assert("tar"@[0] != "ico"@[0]);
        assert("tar"@[0] != "mp4"@[0]);
        assert("tar"@[0] != "mov"@[0]);
        assert("tar"@[0] != "avi"@[0]);
        assert("tar"@[0] != "mkv"@[0]);
        assert("tar"@.len() != "webm"@.len());
        assert("tar"@[0] != "flv"@[0]);
        assert("tar"@[0] != "wmv"@[0]);
        assert("tar"@[0] != "mp3"@[0]);
        assert("tar"@[0] != "wav"@[0]);
        assert("tar"@[0] != "ogg"@[0]);
        assert("tar"@.len() != "flac"@.len());
        assert("tar"@[0] != "aac"@[0]);
        assert("tar"@[0] != "pdf"@[0]);
        assert("tar"@[0] != "doc"@[0]);
        assert("tar"@.len() != "docx"@.len());
        assert("tar"@[0] != "ppt"@[0]);
        assert("tar"@.len() != "pptx"@.len());
        assert("tar"@[0] != "xls"@[0]);
        assert("tar"@.len() != "xlsx"@.len());
        assert("tar"@[1] != "txt"@[1]);
        assert("tar"@.len() != "md"@.len());
    }
    assert(file_category("gz"@) == "archive"@) by {
        reveal_strlit("aac");
        reveal_strlit("archive");
        reveal_strlit("avi");
        reveal_strlit("bmp");
        reveal_strlit("doc");
        reveal_strlit("docx");
        reveal_strlit("flac");
        reveal_strlit("flv");
        reveal_strlit("gif");
        reveal_strlit("gz");
        reveal_strlit("ico");
        reveal_strlit("jpeg");
        reveal_strlit("jpg");
        reveal_strlit("md");
        reveal_strlit("mkv");
        reveal_strlit("mov");
        reveal_strlit("mp3");
        reveal_strlit("mp4");
        reveal_strlit("ogg");
        reveal_strlit("pdf");
        reveal_strlit("png");
        reveal_strlit("ppt");
        reveal_strlit("pptx");
        reveal_strlit("svg");
        reveal_strlit("txt");
        reveal_strlit("wav");
        reveal_strlit("webm");
        reveal_strlit("webp");
        reveal_strlit("wmv");
        reveal_strlit("xls");
        reveal_strlit("xlsx");
        assert("gz"@.len() != "jpg"@.len());
        assert("gz"@.len() != "jpeg"@.len());
        assert("gz"@.len() != "png"@.len());
        assert("gz"@.len() != "gif"@.len());
        assert("gz"@.len() != "bmp"@.len());
        assert("gz"@.len() != "webp"@.len());
        assert("gz"@.len() != "svg"@.len());
        assert("gz"@.len() != "ico"@.len());
        assert("gz"@.len() != "mp4"@.len());
        assert("gz"@.len() != "mov"@.len());
        assert("gz"@.len() != "avi"@.len());
        assert("gz"@.len() != "mkv"@.len());
        assert("gz"@.len() != "webm"@.len());
        assert("gz"@.len() != "flv"@.len());
        assert("gz"@.len() != "wmv"@.len());
        assert("gz"@.len() != "mp3"@.len());
        assert("gz"@.len() != "wav"@.len());
        assert("gz"@.len() != "ogg"@.len());
        assert("gz"@.len() != "flac"@.len());
        assert("gz"@.len() != "aac"@.len());
        assert("gz"@.len() != "pdf"@.len());
        assert("gz"@.len() != "doc"@.len());
        assert("gz"@.len() != "docx"@.len());
        assert("gz"@.len() != "ppt"@.len());
        assert("gz"@.len() != "pptx"@.len());
        assert("gz"@.len() != "xls"@.len());
        assert("gz"@.len() != "xlsx"@.len());
        assert("gz"@.len() != "txt"@.len());
        assert("gz"@[0] != "md"@[0]);
    }
    assert(file_category("bz2"@) == "archive"@) by {
        reveal_strlit("aac");
        reveal_strlit("archive");
        reveal_strlit("avi");
        reveal_strlit("bmp");
        reveal_strlit("bz2");
        reveal_strlit("doc");
        reveal_strlit("docx");
        reveal_strlit("flac");
        reveal_strlit("flv");
        reveal_strlit("gif");
        reveal_strlit("ico");
        reveal_strlit("jpeg");
        reveal_strlit("jpg");
        reveal_strlit("md");
        reveal_strlit("mkv");
        reveal_strlit("mov");
        reveal_strlit("mp3");
        reveal_strlit("mp4");
        reveal_strlit("ogg");
        reveal_strlit("pdf");
        reveal_strlit("png");
        reveal_strlit("ppt");
        reveal_strlit("pptx");
        reveal_strlit("svg");
        reveal_strlit("txt");
        reveal_strlit("wav");
        reveal_strlit("webm");
        reveal_strlit("webp");
        reveal_strlit("wmv");
        reveal_strlit("xls");
        reveal_strlit("xlsx");
        assert("bz2"@[0] != "jpg"@[0]);
        assert("bz2"@.len() != "jpeg"@.len());
        assert("bz2"@[0] != "png"@[0]);
        assert("bz2"@[0] != "gif"@[0]);
        assert("bz2"@[1] != "bmp"@[1]);
        assert("bz2"@.len() != "webp"@.len());
        assert("bz2"@[0] != "svg"@[0]);
        assert("bz2"@[0] != "ico"@[0]);
        assert("bz2"@[0] != "mp4"@[0]);
        assert("bz2"@[0] != "mov"@[0]);
        assert("bz2"@[0] != "avi"@[0]);
        assert("bz2"@[0] != "mkv"@[0]);
        assert("bz2"@.len() != "webm"@.len());
        assert("bz2"@[0] != "flv"@[0]);
        assert("bz2"@[0] != "wmv"@[0]);
        assert("bz2"@[0] != "mp3"@[0]);
        assert("bz2"@[0] != "wav"@[0]);
        assert("bz2"@[0] != "ogg"@[0]);
        assert("bz2"@.len() != "flac"@.len());
        assert("bz2"@[0] != "aac"@[0]);
        assert("bz2"@[0] != "pdf"@[0]);
        assert("bz2"@[0] != "doc"@[0]);
        assert("bz2"@.len() != "docx"@.len());
        assert("bz2"@[0] != "ppt"@[0]);
        assert("bz2"@.len() != "pptx"@.len());
        assert("bz2"@[0] != "xls"@[0]);
        assert("bz2"@.len() != "xlsx"@.len());
        assert("bz2"@[0] != "txt"@[0]);
        assert("bz2"@.len() != "md"@.len());
    }
}

/// With the default `deny`, a file that no size rule, deny list or allow list refuses is synced
/// exactly when its type, its extension or its MIME type is on an allow list.
pub proof fn law_deny_default_syncs_allow_listed(
    f: FileFilter,
    parsed: Seq<Option<ParsedSizeRule>>,
    size: u64,
    extension: Seq<char>,
    mime: Seq<char>,
)
    requires
        deny_by_default(f.default),
        forall|j: int| 0 <= j < parsed.len() ==> !rule_denies_size(#[trigger] parsed[j], size),
        !text_denied(f.type_filter, file_type_of(extension)),
        !text_not_allowed(f.type_filter, file_type_of(extension)),
        !text_denied(f.extension_filter, extension),
        !text_not_allowed(f.extension_filter, extension),
        !text_denied(f.mime_type_filter, mime),
        !text_not_allowed(f.mime_type_filter, mime),
    ensures
        (file_verdict(f, parsed, size, extension, mime) is None) == (text_allowed(
            f.type_filter,
            file_type_of(extension),
        ) || text_allowed(f.extension_filter, extension) || text_allowed(f.mime_type_filter, mime)),
        text_allowed(f.type_filter, file_type_of(extension)) ==> file_verdict(
            f,
            parsed,
            size,
            extension,
            mime,
        ) is None,
        !(text_allowed(f.type_filter, file_type_of(extension)) || text_allowed(
            f.extension_filter,
            extension,
        ) || text_allowed(f.mime_type_filter, mime)) ==> file_verdict(f, parsed, size, extension, mime)
            == Some(default_deny_reason()),
{
    if first_denying(parsed, size) >= 0 {
        lemma_first_denying_bounds(parsed, size);
    }
}

} // verus!
