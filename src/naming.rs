use vstd::prelude::*;

verus! {

/// Whether a character has the Unicode `White_Space` property.
pub open spec fn is_white_space(c: char) -> bool {
    let u = c as u32;
    (0x9 <= u <= 0xd) || u == 0x20 || u == 0x85 || u == 0xa0 || u == 0x1680 || (0x2000 <= u <= 0x200a)
        || u == 0x2028 || u == 0x2029 || u == 0x202f || u == 0x205f || u == 0x3000
}

/// A text without its leading white space.
pub open spec fn trim_start_of(s: Seq<char>) -> Seq<char>
    decreases s.len(),
{
    if s.len() > 0 && is_white_space(s[0]) {
        trim_start_of(s.drop_first())
    } else {
        s
    }
}

/// A text without its trailing white space.
pub open spec fn trim_end_of(s: Seq<char>) -> Seq<char>
    decreases s.len(),
{
    if s.len() > 0 && is_white_space(s.last()) {
        trim_end_of(s.drop_last())
    } else {
        s
    }
}

/// A text without its leading and trailing white space.
pub open spec fn trim_of(s: Seq<char>) -> Seq<char> {
    trim_end_of(trim_start_of(s))
}

/// The leftmost-first match of a regular expression in a text; `None` where
/// there is none or the pattern does not compile.
pub uninterp spec fn regex_find_of(pattern: Seq<char>, text: Seq<char>) -> Option<Seq<char>>;

/// The view of an optional string.
pub open spec fn opt_view(s: Option<String>) -> Option<Seq<char>> {
    match s {
        Some(x) => Some(x@),
        None => None,
    }
}

/// The view of an optional pair of strings.
pub open spec fn pair_view(p: Option<(String, String)>) -> Option<(Seq<char>, Seq<char>)> {
    match p {
        Some(x) => Some((x.0@, x.1@)),
        None => None,
    }
}

/// Relies on str::trim: leading and trailing characters with the Unicode
/// `White_Space` property removed.
#[verifier::external_body]
pub(crate) fn trimmed<'a>(s: &'a str) -> (r: &'a str)
    ensures
        r@ == trim_of(s@),
{
    s.trim()
}

/// Relies on regex::Regex::new and Regex::find: the text of the leftmost-first
/// match, or `None` where nothing matches or the pattern is invalid.
#[verifier::external_body]
pub(crate) fn regex_find(pattern: &str, text: &str) -> (r: Option<String>)
    ensures
        opt_view(r) == regex_find_of(pattern@, text@),
{
    match regex::Regex::new(pattern) {
        Ok(re) => re.find(text).map(|m| m.as_str().to_string()),
        Err(_) => None,
    }
}

/// Keys of three parts, letters then two numbers (`REQ-1-2`).
pub const REQUIREMENT_PATTERN: &'static str = r"^([A-Z]+-\d+-\d+)";

/// Keys of two parts, letters then a number (`FEAT-42`).
pub const FEATURE_PATTERN: &'static str = r"^([A-Z]{1,}-\d{1,})";

/// The classification of a key from its two possible matches: a requirement
/// match wins over a feature match.
pub open spec fn classify(requirement: Option<Seq<char>>, feature: Option<Seq<char>>) -> Option<
    (Seq<char>, Seq<char>),
> {
    match requirement {
        Some(r) => Some(("requirement"@, r)),
        None => match feature {
            Some(f) => Some(("feature"@, f)),
            None => None,
        },
    }
}

/// What a name is classified as: its trimmed text is matched against the
/// requirement pattern first, then the feature pattern.
pub open spec fn classify_name(name: Seq<char>) -> Option<(Seq<char>, Seq<char>)> {
    classify(
        regex_find_of(REQUIREMENT_PATTERN@, trim_of(name)),
        regex_find_of(FEATURE_PATTERN@, trim_of(name)),
    )
}

/// Classifies a key from the matched prefixes: `("requirement", key)` if the
/// requirement pattern matched, else `("feature", key)` if the feature pattern
/// matched, else nothing.
pub fn classify_key(requirement: Option<String>, feature: Option<String>) -> (r: Option<(String, String)>)
    ensures
        pair_view(r) == classify(opt_view(requirement), opt_view(feature)),
{
    match requirement {
        Some(key) => Some((String::from_str("requirement"), key)),
        None => match feature {
            Some(key) => Some((String::from_str("feature"), key)),
            None => None,
        },
    }
}

} // verus!
