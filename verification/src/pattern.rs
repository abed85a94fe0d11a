use vstd::prelude::*;

verus! {

#[verifier::external_type_specification]
#[verifier::external_body]
pub struct ExRegex(regex::Regex);

#[verifier::external_type_specification]
#[verifier::external_body]
pub struct ExRegexError(regex::Error);

/// Whether `regex::Regex::new` accepts `pattern`.
pub uninterp spec fn regex_compiles(pattern: Seq<char>) -> bool;

/// What `regex::Regex::captures` finds for `pattern` in `haystack`: `None`
/// when the pattern does not match, otherwise the text of every capture group
/// of the leftmost-first match, group 0 being the whole match and a group that
/// took no part in it being `None`.
pub uninterp spec fn regex_captures(pattern: Seq<char>, haystack: Seq<char>) -> Option<
    Seq<Option<Seq<char>>>,
>;

/// A compiled regular expression together with the text it was compiled from.
pub struct Pattern {
    source: String,
    compiled: regex::Regex,
}

impl View for Pattern {
    type V = Seq<char>;

    closed spec fn view(&self) -> Seq<char> {
        self.source@
    }
}

/// The pattern could not be compiled.
#[derive(Clone, Copy, Debug, PartialEq, Eq, Structural)]
pub struct InvalidPattern;

/// Compiles `source` with `regex::Regex::new`. The contract claims that the
/// compilation succeeds exactly when the regex crate accepts the pattern (a
/// property of the pattern text alone) and that the result remembers its text.
#[verifier::external_body]
fn compile_regex(source: &str) -> (r: Result<Pattern, regex::Error>)
    ensures
        r is Ok <==> regex_compiles(source@),
        r matches Ok(p) ==> p@ == source@,
{
    match regex::Regex::new(source) {
        Ok(compiled) => Ok(Pattern { source: source.to_string(), compiled }),
        Err(e) => Err(e),
    }
}

/// Runs `regex::Regex::captures` of `pattern` on `haystack` and hands out the
/// text of each capture group. The contract claims that the result is the
/// named value `regex_captures` of the pattern text and the haystack.
#[verifier::external_body]
fn regex_find(pattern: &Pattern, haystack: &str) -> (r: Option<Vec<Option<String>>>)
    ensures
        r.deep_view() == regex_captures(pattern@, haystack@),
{
    pattern.compiled.captures(haystack).map(
        |caps| caps.iter().map(|m| m.map(|m| m.as_str().to_string())).collect(),
    )
}

/// The text of capture group `i` in a search result, `None` when the pattern
/// did not match or the group took no part in the match.
pub open spec fn capture_group(found: Option<Seq<Option<Seq<char>>>>, i: int) -> Option<Seq<char>> {
    match found {
        Some(groups) => if 0 <= i < groups.len() {
            groups[i]
        } else {
            None
        },
        None => None,
    }
}

/// The text of group `i` in the search result `found`.
pub fn group_of(found: &Option<Vec<Option<String>>>, i: usize) -> (r: Option<String>)
    ensures
        r.deep_view() == capture_group(found.deep_view(), i as int),
{
    match found {
        Some(groups) => {
            if i < groups.len() {
                match &groups[i] {
                    Some(t) => Some(t.clone()),
                    None => None,
                }
            } else {
                None
            }
        },
        None => None,
    }
}

impl Pattern {
    /// Compiles `source`.
    pub fn new(source: &str) -> (r: Result<Pattern, InvalidPattern>)
        ensures
            r is Ok <==> regex_compiles(source@),
            r matches Ok(p) ==> p@ == source@,
    {
        match compile_regex(source) {
            Ok(p) => Ok(p),
            Err(_) => Err(InvalidPattern),
        }
    }

    /// The text of capture group `i` of the first match in `haystack`.
    pub fn capture(&self, haystack: &str, i: usize) -> (r: Option<String>)
        ensures
            r.deep_view() == capture_group(regex_captures(self@, haystack@), i as int),
    {
        let found = regex_find(self, haystack);
        group_of(&found, i)
    }

    /// Every capture group of the first match in `haystack`, `None` when there
    /// is no match.
    pub fn captures(&self, haystack: &str) -> (r: Option<Vec<Option<String>>>)
        ensures
            r.deep_view() == regex_captures(self@, haystack@),
    {
        regex_find(self, haystack)
    }
}

} // verus!
