//! Size rules (`"deny: >= 10MB"`), links embedded in HTML, and reading records from JSON.
use crate::json::{json_records, Json};
use crate::text::{
    has_prefix, has_suffix, strip_prefixes, strip_suffixes, to_lowercase,
    trim_end_repeats, trim_start_repeats, trim_text, trimmed, unicode_lowercase, ends_with_text,
    same_text, starts_with_text, is_white_space, trim_start_ws,
};
use vstd::prelude::*;

verus! {

/// Names the `data-api-endpoint` values of the `<a>` elements of an HTML text, in document order,
/// as `scraper` parses and selects them.
pub uninterp spec fn html_api_endpoints(html: Seq<char>) -> Seq<Seq<char>>;

/// The `data-api-endpoint` attributes of all `<a data-api-endpoint=...>` links of an HTML text.
///
/// Trusted: calls `scraper::Html::parse_document`, selects `a[data-api-endpoint]` and reads the
/// attribute of each match. The contract states only that the result is the list that
/// `html_api_endpoints` names for the text; HTML parsing itself is not stated.
#[verifier::external_body]
pub fn get_file_link_from_html(html: &str) -> (links: Vec<String>)
    ensures
        links@.map_values(|s: String| s@) == html_api_endpoints(html@),
{
    let document = scraper::Html::parse_document(html);
    let selector = scraper::Selector::parse("a[data-api-endpoint]").unwrap();
    document.select(&selector).filter_map(
        |element| element.value().attr("data-api-endpoint").map(String::from),
    ).collect()
}

/// Reading a record of type `T` from a JSON value, with the context `a` and `b` it belongs to.
pub trait GetFromJson<T, A, B>: Sized {
    /// `r` is what reading `x` in the context `a` and `b` gives.
    spec fn reads_as(x: Json, a: A, b: B, r: Option<T>) -> bool;

    /// The record read from `x` with the context `a` and `b`, if `x` holds one.
    fn get_from_json(x: &Json, a: &A, b: &B) -> (r: Option<T>)
        ensures
            Self::reads_as(*x, *a, *b, r),
    ;
}

/// The values of `outs` that are present, in order.
pub open spec fn present<T>(outs: Seq<Option<T>>) -> Seq<T>
    decreases outs.len(),
{
    if outs.len() == 0 {
        Seq::empty()
    } else {
        match outs.last() {
            Some(t) => present(outs.drop_last()).push(t),
            None => present(outs.drop_last()),
        }
    }
}

/// Reads every record of an answer (`json_records`) in the context `a` and `b`, and keeps those
/// that are read, in order.
pub fn read_records<T: GetFromJson<T, A, B>, A, B>(x: &Json, a: &A, b: &B) -> (r: Vec<T>)
    ensures
        exists|outs: Seq<Option<T>>|
            {
                &&& outs.len() == json_records(*x).len()
                &&& forall|i: int|
                    0 <= i < outs.len() ==> T::reads_as(json_records(*x)[i], *a, *b, #[trigger] outs[i])
                &&& r@ == present(outs)
            },
{
    let records = x.records();
    let ghost mut outs: Seq<Option<T>> = Seq::empty();
    let mut r: Vec<T> = Vec::new();
    let mut i: usize = 0;
    while i < records.len()
        invariant
            i <= records@.len(),
            records@.len() == json_records(*x).len(),
            forall|j: int| 0 <= j < records@.len() ==> *records@[j] == json_records(*x)[j],
            outs.len() == i,
            forall|j: int| 0 <= j < i ==> T::reads_as(json_records(*x)[j], *a, *b, #[trigger] outs[j]),
            r@ == present(outs),
        decreases records@.len() - i,
    {
        let o = T::get_from_json(records[i], a, b);
        let ghost before = outs;
        proof {
            outs = outs.push(o);
            assert(outs.drop_last() =~= before);
        }
        match o {
            Some(t) => {
                r.push(t);
            },
            None => {},
        }
        i = i + 1;
    }
    r
}

/// The action of a size rule.
#[derive(Debug, Clone, Copy, PartialEq, Eq, Structural)]
pub enum SizeAction {
    Allow,
    Deny,
}

/// The comparison of a size rule.
#[derive(Debug, Clone, Copy, PartialEq, Eq, Structural)]
pub enum SizeOperator {
    GreaterThanOrEqual,
    LessThanOrEqual,
    GreaterThan,
    LessThan,
}

/// A size rule, with its bound in bytes.
#[derive(Debug, Clone, Copy, PartialEq, Eq, Structural)]
pub struct ParsedSizeRule {
    pub action: SizeAction,
    pub operator: SizeOperator,
    pub size_bytes: u64,
}

/// The unit suffix of a size text.
#[derive(Debug, Clone, Copy, PartialEq, Eq, Structural)]
pub enum SizeUnit {
    Bytes,
    Kilobytes,
    Megabytes,
    Gigabytes,
}

/// A size text split into its number text (trimmed) and its unit.
#[derive(Debug)]
pub struct SizeAmount {
    pub number: String,
    pub unit: SizeUnit,
}

impl View for SizeAmount {
    type V = (Seq<char>, SizeUnit);

    open spec fn view(&self) -> (Seq<char>, SizeUnit) {
        (self.number@, self.unit)
    }
}

/// How a size text splits: the unit is read from a `GB`/`gb`, `MB`/`mb`, `KB`/`kb` or `B`/`b`
/// suffix (bytes when there is none); every repetition of that suffix is cut from the end.
pub open spec fn size_amount_of(s: Seq<char>) -> (Seq<char>, SizeUnit) {
    let t = trimmed(s);
    if has_suffix(t, "GB"@) || has_suffix(t, "gb"@) {
        (trimmed(strip_suffixes(strip_suffixes(t, "GB"@), "gb"@)), SizeUnit::Gigabytes)
    } else if has_suffix(t, "MB"@) || has_suffix(t, "mb"@) {
        (trimmed(strip_suffixes(strip_suffixes(t, "MB"@), "mb"@)), SizeUnit::Megabytes)
    } else if has_suffix(t, "KB"@) || has_suffix(t, "kb"@) {
        (trimmed(strip_suffixes(strip_suffixes(t, "KB"@), "kb"@)), SizeUnit::Kilobytes)
    } else if has_suffix(t, "B"@) || has_suffix(t, "b"@) {
        (trimmed(strip_suffixes(strip_suffixes(t, "B"@), "b"@)), SizeUnit::Bytes)
    } else {
        (trimmed(t), SizeUnit::Bytes)
    }
}

/// `to_bytes` may be called on every amount.
pub open spec fn converts_every_amount<F: Fn(&SizeAmount) -> Option<u64>>(to_bytes: F) -> bool {
    forall|a: &SizeAmount| #[trigger] call_requires(to_bytes, (a,))
}

/// `bytes` is an outcome of `to_bytes` on an amount that reads `amount`.
pub open spec fn converts_to<F: Fn(&SizeAmount) -> Option<u64>>(
    to_bytes: F,
    amount: (Seq<char>, SizeUnit),
    bytes: Option<u64>,
) -> bool {
    exists|a: &SizeAmount| a@ == amount && #[trigger] call_ensures(to_bytes, (a,), bytes)
}

/// `to_bytes` gives one outcome for all amounts that read alike.
pub open spec fn converts_deterministically<F: Fn(&SizeAmount) -> Option<u64>>(to_bytes: F) -> bool {
    forall|a1: &SizeAmount, a2: &SizeAmount, r1: Option<u64>, r2: Option<u64>|
        #![trigger call_ensures(to_bytes, (a1,), r1), call_ensures(to_bytes, (a2,), r2)]
        a1@ == a2@ && call_ensures(to_bytes, (a1,), r1) && call_ensures(to_bytes, (a2,), r2) ==> r1
            == r2
}

/// Splits a size text into its number text and its unit.
pub fn split_size_string(s: &str) -> (r: SizeAmount)
    ensures
        r@ == size_amount_of(s@),
{
    proof {
        reveal_strlit("GB");
        reveal_strlit("gb");
        reveal_strlit("MB");
        reveal_strlit("mb");
        reveal_strlit("KB");
        reveal_strlit("kb");
        reveal_strlit("B");
        reveal_strlit("b");
    }
    let s = trim_text(s);
    let (num, unit) = if ends_with_text(s, "GB") || ends_with_text(s, "gb") {
        (trim_end_repeats(trim_end_repeats(s, "GB"), "gb"), SizeUnit::Gigabytes)
    } else if ends_with_text(s, "MB") || ends_with_text(s, "mb") {
        (trim_end_repeats(trim_end_repeats(s, "MB"), "mb"), SizeUnit::Megabytes)
    } else if ends_with_text(s, "KB") || ends_with_text(s, "kb") {
        (trim_end_repeats(trim_end_repeats(s, "KB"), "kb"), SizeUnit::Kilobytes)
    } else if ends_with_text(s, "B") || ends_with_text(s, "b") {
        (trim_end_repeats(trim_end_repeats(s, "B"), "b"), SizeUnit::Bytes)
    } else {
        (s, SizeUnit::Bytes)
    };
    SizeAmount { number: String::from_str(trim_text(num)), unit }
}

/// The size in bytes that a size text stands for: the text is split into number and unit here,
/// and `to_bytes` turns the amount into bytes (`None` where the number does not parse).
pub fn parse_size_string<F: Fn(&SizeAmount) -> Option<u64>>(s: &str, to_bytes: &F) -> (r: Option<
    u64,
>)
    requires
        converts_every_amount(*to_bytes),
    ensures
        converts_to(*to_bytes, size_amount_of(s@), r),
{
    let amount = split_size_string(s);
    let r = to_bytes(&amount);
    assert(call_ensures(*to_bytes, (&amount,), r));
    r
}

/// Position of the first `c` in `s`, or -1.
pub open spec fn first_index_of(s: Seq<char>, c: char) -> int
    decreases s.len(),
{
    if s.len() == 0 {
        -1
    } else if s[0] == c {
        0
    } else if first_index_of(s.drop_first(), c) < 0 {
        -1
    } else {
        first_index_of(s.drop_first(), c) + 1
    }
}

proof fn lemma_first_index_of(s: Seq<char>, c: char, k: int)
    requires
        0 <= k <= s.len(),
        forall|j: int| 0 <= j < k ==> #[trigger] s[j] != c,
        k == s.len() || s[k] == c,
    ensures
        first_index_of(s, c) == (if k == s.len() {
            -1
        } else {
            k
        }),
    decreases k,
{
    if k > 0 {
        let t = s.drop_first();
        assert forall|j: int| 0 <= j < k - 1 implies #[trigger] t[j] != c by {
            assert(t[j] == s[j + 1]);
        }
        if k < s.len() {
            assert(t[k - 1] == s[k]);
        }
        assert(s[0] != c);
        lemma_first_index_of(t, c, k - 1);
    }
}

/// The action a lower-cased action word names.
pub open spec fn action_named(lower: Seq<char>) -> Option<SizeAction> {
    if lower == "allow"@ {
        Some(SizeAction::Allow)
    } else if lower == "deny"@ {
        Some(SizeAction::Deny)
    } else {
        None
    }
}

/// The operator a rule's condition starts with, and the size text after it.
pub open spec fn operator_named(cond: Seq<char>) -> Option<(SizeOperator, Seq<char>)> {
    if has_prefix(cond, ">="@) {
        Some((SizeOperator::GreaterThanOrEqual, strip_prefixes(cond, ">="@)))
    } else if has_prefix(cond, "<="@) {
        Some((SizeOperator::LessThanOrEqual, strip_prefixes(cond, "<="@)))
    } else if has_prefix(cond, ">"@) {
        Some((SizeOperator::GreaterThan, strip_prefixes(cond, ">"@)))
    } else if has_prefix(cond, "<"@) {
        Some((SizeOperator::LessThan, strip_prefixes(cond, "<"@)))
    } else {
        None
    }
}

/// The shape of a size rule `action: <op> size`: the text before the first `:` names the action
/// (case-insensitively), the text after it starts with the operator.
pub open spec fn size_rule_syntax(rule: Seq<char>) -> Option<
    (SizeAction, SizeOperator, (Seq<char>, SizeUnit)),
> {
    let k = first_index_of(rule, ':');
    if k < 0 {
        None
    } else {
        match action_named(unicode_lowercase(trimmed(rule.take(k)))) {
            None => None,
            Some(action) => match operator_named(trimmed(rule.skip(k + 1))) {
                None => None,
                Some((op, size_text)) => Some((action, op, size_amount_of(size_text))),
            },
        }
    }
}

/// `r` is what parsing `rule` gives when its size converts as `to_bytes` allows.
pub open spec fn size_rule_parses_to<F: Fn(&SizeAmount) -> Option<u64>>(
    to_bytes: F,
    rule: Seq<char>,
    r: Option<ParsedSizeRule>,
) -> bool {
    match size_rule_syntax(rule) {
        None => r is None,
        Some((action, op, amount)) => exists|bytes: Option<u64>|
            {
                &&& #[trigger] converts_to(to_bytes, amount, bytes)
                &&& r == match bytes {
                    None => None,
                    Some(b) => Some(ParsedSizeRule { action, operator: op, size_bytes: b }),
                }
            },
    }
}

/// The size action that a lower-cased action word names.
pub fn size_action_of_lowercase(lower: &str) -> (r: Option<SizeAction>)
    ensures
        r == action_named(lower@),
{
    if same_text(lower, "allow") {
        Some(SizeAction::Allow)
    } else if same_text(lower, "deny") {
        Some(SizeAction::Deny)
    } else {
        None
    }
}

/// Reads a size rule such as `"deny: >= 10MB"`: `None` where the rule has no `:`, names no
/// known action or starts its condition with no known operator, or where the size does not
/// convert.
pub fn parse_size_rule<F: Fn(&SizeAmount) -> Option<u64>>(rule_str: &str, to_bytes: &F) -> (r:
    Option<ParsedSizeRule>)
    requires
        converts_every_amount(*to_bytes),
    ensures
        size_rule_parses_to(*to_bytes, rule_str@, r),
{
    proof {
        reveal_strlit(">=");
        reveal_strlit("<=");
        reveal_strlit(">");
        reveal_strlit("<");
    }
    let n: usize = rule_str.unicode_len();
    let mut k: usize = 0;
    while k < n && rule_str.get_char(k) != ':'
        invariant
            n == rule_str@.len(),
            k <= n,
            forall|j: int| 0 <= j < k ==> #[trigger] rule_str@[j] != ':',
        decreases n - k,
    {
        k = k + 1;
    }
    proof {
        lemma_first_index_of(rule_str@, ':', k as int);
    }
    if k == n {
        return None;
    }
    let action_str = trim_text(rule_str.substring_char(0, k));
    let rule_part = trim_text(rule_str.substring_char(k + 1, n));
    assert(rule_str@.subrange(0, k as int) =~= rule_str@.take(k as int));
    assert(rule_str@.subrange(k + 1, n as int) =~= rule_str@.skip(k + 1));
    let lower = to_lowercase(action_str);
    let action = match size_action_of_lowercase(lower.as_str()) {
        Some(a) => a,
        None => {
            return None;
        },
    };
    let (operator, size_str) = if starts_with_text(rule_part, ">=") {
        (SizeOperator::GreaterThanOrEqual, trim_start_repeats(rule_part, ">="))
    } else if starts_with_text(rule_part, "<=") {
        (SizeOperator::LessThanOrEqual, trim_start_repeats(rule_part, "<="))
    } else if starts_with_text(rule_part, ">") {
        (SizeOperator::GreaterThan, trim_start_repeats(rule_part, ">"))
    } else if starts_with_text(rule_part, "<") {
        (SizeOperator::LessThan, trim_start_repeats(rule_part, "<"))
    } else {
        return None;
    };
    let size_bytes = parse_size_string(size_str, to_bytes);
    let r = match size_bytes {
        Some(b) => Some(ParsedSizeRule { action, operator, size_bytes: b }),
        None => None,
    };
    proof {
        let syntax = size_rule_syntax(rule_str@);
        assert(syntax == Some((action, operator, size_amount_of(size_str@))));
        assert(syntax.unwrap().0 == action && syntax.unwrap().1 == operator);
        assert(syntax.unwrap().2 == size_amount_of(size_str@));
    }
    r
}

/// With a conversion that gives one outcome per amount, a rule text parses to one outcome.
pub proof fn lemma_rule_parse_is_determined<F: Fn(&SizeAmount) -> Option<u64>>(
    to_bytes: F,
    rule: Seq<char>,
    r1: Option<ParsedSizeRule>,
    r2: Option<ParsedSizeRule>,
)
    requires
        converts_deterministically(to_bytes),
        size_rule_parses_to(to_bytes, rule, r1),
        size_rule_parses_to(to_bytes, rule, r2),
    ensures
        r1 == r2,
{
    if let Some((action, op, amount)) = size_rule_syntax(rule) {
        let b1 = choose|bytes: Option<u64>|
            {
                &&& #[trigger] converts_to(to_bytes, amount, bytes)
                &&& r1 == match bytes {
                    None => None,
                    Some(b) => Some(ParsedSizeRule { action, operator: op, size_bytes: b }),
                }
            };
        let b2 = choose|bytes: Option<u64>|
            {
                &&& #[trigger] converts_to(to_bytes, amount, bytes)
                &&& r2 == match bytes {
                    None => None,
                    Some(b) => Some(ParsedSizeRule { action, operator: op, size_bytes: b }),
                }
            };
        let a1 = choose|a: &SizeAmount| a@ == amount && #[trigger] call_ensures(to_bytes, (a,), b1);
        let a2 = choose|a: &SizeAmount| a@ == amount && #[trigger] call_ensures(to_bytes, (a,), b2);
        assert(call_ensures(to_bytes, (a1,), b1) && call_ensures(to_bytes, (a2,), b2));
        assert(b1 == b2);
    }
}

/// `n` is a number text: decimal digits and points only.
pub open spec fn is_number_text(n: Seq<char>) -> bool {
    forall|i: int| 0 <= i < n.len() ==> ('0' <= #[trigger] n[i] <= '9' || n[i] == '.')
}

/// `u` is made of letters of size units only.
spec fn is_unit_letters(u: Seq<char>) -> bool {
    forall|i: int|
        0 <= i < u.len() ==> (#[trigger] u[i] == 'G' || u[i] == 'g' || u[i] == 'M' || u[i] == 'm'
            || u[i] == 'K' || u[i] == 'k' || u[i] == 'B' || u[i] == 'b')
}

/// After a number text, a unit pattern ends the text exactly when it ends the unit letters.
proof fn lemma_suffix_after_number(n: Seq<char>, u: Seq<char>, p: Seq<char>)
    requires
        is_number_text(n),
        is_unit_letters(u),
        is_unit_letters(p),
        p.len() > 0,
    ensures
        has_suffix(n + u, p) <==> (p.len() <= u.len() && u.subrange(
            u.len() - p.len(),
            u.len() as int,
        ) == p),
{
    let s = n + u;
    if p.len() <= u.len() {
        assert(s.subrange(s.len() - p.len(), s.len() as int) =~= u.subrange(
            u.len() - p.len(),
            u.len() as int,
        ));
    } else if has_suffix(s, p) {
        let k: int = s.len() - p.len();
        assert(s.subrange(k, s.len() as int)[0] == p[0]);
        assert(s[k] == n[k]);
    }
}

/// Stripping a pattern that does not end the text leaves it as it is.
proof fn lemma_strip_absent(x: Seq<char>, p: Seq<char>)
    requires
        !has_suffix(x, p),
    ensures
        strip_suffixes(x, p) == x,
{
}

/// Stripping the unit letters that follow a number text leaves the number text.
proof fn lemma_strip_unit_after_number(n: Seq<char>, u: Seq<char>)
    requires
        is_number_text(n),
        is_unit_letters(u),
        u.len() > 0,
    ensures
        strip_suffixes(n + u, u) == n,
{
    let s = n + u;
    lemma_suffix_after_number(n, u, u);
    assert(u.subrange(0, u.len() as int) =~= u);
    assert(s.subrange(0, s.len() - u.len()) =~= n);
    lemma_suffix_after_number(n, Seq::empty(), u);
    assert(n + Seq::<char>::empty() =~= n);
    lemma_strip_absent(n, u);
}

/// A text that neither starts nor ends with white space is its own trimmed form.
proof fn lemma_trimmed_unchanged(s: Seq<char>)
    requires
        s.len() == 0 || (!is_white_space(s[0]) && !is_white_space(s.last())),
    ensures
        trimmed(s) == s,
{
    assert(trim_start_ws(s) == s);
}

/// How a size text made of a number text and a unit reads, for one unit spelling `u`.
proof fn lemma_number_with_unit(n: Seq<char>, u: Seq<char>)
    requires
        is_number_text(n),
        is_unit_letters(u),
        u.len() > 0,
    ensures
        trimmed(n + u) == n + u,
        trimmed(n) == n,
        forall|p: Seq<char>|
            is_unit_letters(p) && p.len() == 1 ==> (#[trigger] has_suffix(n + u, p) <==> u[u.len()
                - 1] == p[0]),
        forall|p: Seq<char>|
            is_unit_letters(p) && p.len() == 2 ==> (#[trigger] has_suffix(n + u, p) <==> (u.len()
                >= 2 && u[u.len() - 2] == p[0] && u[u.len() - 1] == p[1])),
        forall|p: Seq<char>|
            is_unit_letters(p) && p.len() > 0 && !has_suffix(n + u, p) ==> #[trigger] strip_suffixes(
                n + u,
                p,
            ) == n + u,
        forall|p: Seq<char>|
            is_unit_letters(p) && p.len() > 0 ==> #[trigger] strip_suffixes(n, p) == n,
        strip_suffixes(n + u, u) == n,
{
    let s = n + u;
    assert(s[s.len() - 1] == u[u.len() - 1]);
    if n.len() > 0 {
        assert(s[0] == n[0]);
        lemma_trimmed_unchanged(n);
    } else {
        lemma_trimmed_unchanged(n);
    }
    lemma_trimmed_unchanged(s);
    assert forall|p: Seq<char>|
        is_unit_letters(p) && p.len() == 1 implies (#[trigger] has_suffix(n + u, p) <==> u[u.len()
            - 1] == p[0]) by {
        lemma_suffix_after_number(n, u, p);
        let w = u.subrange(u.len() - 1, u.len() as int);
        if u[u.len() - 1] == p[0] {
            assert(w =~= p);
        }
        if w == p {
            assert(w[0] == p[0]);
        }
    }
    assert forall|p: Seq<char>|
        is_unit_letters(p) && p.len() == 2 implies (#[trigger] has_suffix(n + u, p) <==> (u.len()
            >= 2 && u[u.len() - 2] == p[0] && u[u.len() - 1] == p[1])) by {
        lemma_suffix_after_number(n, u, p);
        if u.len() >= 2 {
            let w = u.subrange(u.len() - 2, u.len() as int);
            if u[u.len() - 2] == p[0] && u[u.len() - 1] == p[1] {
                assert(w =~= p);
            }
            if w == p {
                assert(w[0] == p[0] && w[1] == p[1]);
            }
        }
    }
    assert forall|p: Seq<char>|
        is_unit_letters(p) && p.len() > 0 && !has_suffix(n + u, p) implies #[trigger] strip_suffixes(
            n + u,
            p,
        ) == n + u by {
        lemma_strip_absent(n + u, p);
    }
    assert forall|p: Seq<char>| is_unit_letters(p) && p.len() > 0 implies #[trigger] strip_suffixes(
        n,
        p,
    ) == n by {
        lemma_suffix_after_number(n, Seq::empty(), p);
        assert(n + Seq::<char>::empty() =~= n);
        lemma_strip_absent(n, p);
    }
    lemma_strip_unit_after_number(n, u);
}

/// A size text made of a number text and a unit, in upper or lower case, reads as that number
/// and that unit; a number text alone reads as a number of bytes.
pub proof fn law_size_text_reads_number_and_unit(n: Seq<char>)
    requires
        is_number_text(n),
    ensures
        size_amount_of(n) == (n, SizeUnit::Bytes),
        size_amount_of(n + "GB"@) == (n, SizeUnit::Gigabytes),
        size_amount_of(n + "gb"@) == (n, SizeUnit::Gigabytes),
        size_amount_of(n + "MB"@) == (n, SizeUnit::Megabytes),
        size_amount_of(n + "mb"@) == (n, SizeUnit::Megabytes),
        size_amount_of(n + "KB"@) == (n, SizeUnit::Kilobytes),
        size_amount_of(n + "kb"@) == (n, SizeUnit::Kilobytes),
        size_amount_of(n + "B"@) == (n, SizeUnit::Bytes),
        size_amount_of(n + "b"@) == (n, SizeUnit::Bytes),
{
    reveal_strlit("GB");
    reveal_strlit("gb");
    reveal_strlit("MB");
    reveal_strlit("mb");
    reveal_strlit("KB");
    reveal_strlit("kb");
    reveal_strlit("B");
    reveal_strlit("b");
    assert(is_unit_letters("GB"@));
    assert(is_unit_letters("gb"@));
    assert(is_unit_letters("MB"@));
    assert(is_unit_letters("mb"@));
    assert(is_unit_letters("KB"@));
    assert(is_unit_letters("kb"@));
    assert(is_unit_letters("B"@));
    assert(is_unit_letters("b"@));
    // a number text alone
    lemma_trimmed_unchanged(n);
    assert(n + Seq::<char>::empty() =~= n);
    lemma_suffix_after_number(n, Seq::empty(), "GB"@);
    lemma_suffix_after_number(n, Seq::empty(), "gb"@);
    lemma_suffix_after_number(n, Seq::empty(), "MB"@);
    lemma_suffix_after_number(n, Seq::empty(), "mb"@);
    lemma_suffix_after_number(n, Seq::empty(), "KB"@);
    lemma_suffix_after_number(n, Seq::empty(), "kb"@);
    lemma_suffix_after_number(n, Seq::empty(), "B"@);
    lemma_suffix_after_number(n, Seq::empty(), "b"@);
    lemma_number_with_unit(n, "GB"@);
    lemma_number_with_unit(n, "gb"@);
    lemma_number_with_unit(n, "MB"@);
    lemma_number_with_unit(n, "mb"@);
    lemma_number_with_unit(n, "KB"@);
    lemma_number_with_unit(n, "kb"@);
    lemma_number_with_unit(n, "B"@);
    lemma_number_with_unit(n, "b"@);
}

} // verus!
