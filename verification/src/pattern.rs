//! Regular-expression searches, done by the `regex` crate.
//!
//! What a search finds is not restated here: it takes the crate's whole
//! matching semantics. It is named instead (`regex_compiles`, `regex_matches`,
//! `regex_first_match`), as a function of the pattern and the haystack alone,
//! and the rest of the library is proved against those names.
use vstd::prelude::*;
use vstd::string::StringSliceAdditionalSpecFns;
use vstd::utf8::*;

verus! {

#[verifier::external_type_specification]
#[verifier::external_body]
pub struct ExRegex(regex::Regex);

#[verifier::external_type_specification]
#[verifier::external_body]
pub struct ExRegexError(regex::Error);

/// Whether `regex::Regex::new` accepts `pattern`.
pub uninterp spec fn regex_compiles(pattern: Seq<char>) -> bool;

/// The successive non-overlapping matches that `Regex::captures_iter` yields
/// for `pattern` in `haystack`: for each, the byte offset where the match
/// starts and the text of every capture group (`None` for a group that did not
/// take part; group 0 is the whole match).
pub uninterp spec fn regex_matches(pattern: Seq<char>, haystack: Seq<char>) -> Seq<
    (usize, Seq<Option<Seq<char>>>),
>;

/// The capture groups of the leftmost-first match that `Regex::captures`
/// returns for `pattern` in `haystack`, or `None` where nothing matches.
pub uninterp spec fn regex_first_match(pattern: Seq<char>, haystack: Seq<char>) -> Option<
    Seq<Option<Seq<char>>>,
>;

/// `regex::Regex::new`. It claims only that the pattern is accepted exactly
/// when `regex_compiles` holds of it, which is a function of the pattern.
#[verifier::external_body]
fn regex_new(pattern: &str) -> (r: Result<regex::Regex, regex::Error>)
    ensures
        r is Ok <==> regex_compiles(pattern@),
{
    regex::Regex::new(pattern)
}

/// A compiled regular expression together with the pattern it was compiled
/// from. The fields are private: `CompiledRegex::new` is the only way to
/// build one, so `regex` is always the compilation of `source`.
pub struct CompiledRegex {
    regex: regex::Regex,
    source: String,
}

/// A compiled expression is viewed as the pattern it was compiled from.
impl View for CompiledRegex {
    type V = Seq<char>;

    closed spec fn view(&self) -> Seq<char> {
        self.source@
    }
}

impl CompiledRegex {
    /// Compiles `pattern`; `None` where the regex crate refuses it.
    pub fn new(pattern: &str) -> (r: Option<CompiledRegex>)
        ensures
            r is Some <==> regex_compiles(pattern@),
            r matches Some(c) ==> c@ == pattern@,
    {
        match regex_new(pattern) {
            Ok(regex) => Some(CompiledRegex { regex, source: pattern.to_owned() }),
            Err(_) => None,
        }
    }
}

/// `Regex::captures_iter`, each match taken as its start offset and the texts
/// of its groups. It claims that the result is `regex_matches` of the pattern
/// and the haystack, and what the crate documents of match offsets: each is a
/// character boundary of the haystack, and successive matches do not go back.
#[verifier::external_body]
pub(crate) fn captures_iter(re: &CompiledRegex, haystack: &str) -> (r: Vec<
    (usize, Vec<Option<String>>),
>)
    ensures
        r.deep_view() == regex_matches(re@, haystack@),
        forall|i: int|
            0 <= i < r.len() ==> #[trigger] r@[i].0 <= haystack.spec_bytes().len()
                && is_char_boundary(haystack.spec_bytes(), r@[i].0 as int),
        forall|i: int, j: int| 0 <= i < j < r.len() ==> #[trigger] r@[i].0 <= #[trigger] r@[j].0,
{
    re.regex.captures_iter(haystack).map(
        |c| (c.get_match().start(), c.iter().map(|g| g.map(|m| m.as_str().to_string())).collect()),
    ).collect()
}

/// `Regex::captures`, the match taken as the texts of its groups. It claims
/// that the result is `regex_first_match` of the pattern and the haystack.
#[verifier::external_body]
pub(crate) fn captures(re: &CompiledRegex, haystack: &str) -> (r: Option<Vec<Option<String>>>)
    ensures
        r.deep_view() == regex_first_match(re@, haystack@),
{
    re.regex.captures(haystack).map(
        |c| c.iter().map(|g| g.map(|m| m.as_str().to_string())).collect(),
    )
}

/// The text of capture group `i`, empty where the group did not take part.
pub open spec fn group_text(groups: Seq<Option<Seq<char>>>, i: int) -> Seq<char> {
    if 0 <= i < groups.len() {
        match groups[i] {
            Some(t) => t,
            None => Seq::empty(),
        }
    } else {
        Seq::empty()
    }
}

/// Copies the text of capture group `i`.
pub fn group_string(groups: &Vec<Option<String>>, i: usize) -> (r: String)
    ensures
        r@ == group_text(groups.deep_view(), i as int),
{
    if i < groups.len() {
        match &groups[i] {
            Some(t) => t.clone(),
            None => String::new(),
        }
    } else {
        String::new()
    }
}

} // verus!
