use vstd::prelude::*;

verus! {

/// The characters a flow name may hold: ASCII letters and digits, `_` and
/// `-`.
pub open spec fn is_name_char(c: char) -> bool {
    ('a' <= c && c <= 'z') || ('A' <= c && c <= 'Z') || ('0' <= c && c <= '9') || c == '_' || c == '-'
}

/// A valid flow name: at least one character, each of them allowed.
pub open spec fn is_flow_name(s: Seq<char>) -> bool {
    s.len() > 0 && forall|i: int| 0 <= i < s.len() ==> is_name_char(#[trigger] s[i])
}

/// The regular expression that valid flow names match.
pub open spec fn name_pattern_spec() -> Seq<char> {
    "^[a-zA-Z0-9_\\-]+$"@
}

/// Compiles `pattern` with `regex::Regex::new` and tests `haystack` with
/// `regex::Regex::is_match`. Only the pattern of flow names is admitted:
/// by the syntax that the regex crate documents, `^` and `$` anchor it at
/// the start and end of the haystack, the class holds the ASCII letters,
/// digits, `_` and `-`, and `+` asks for one or more of them, so the claim
/// is that the result is true exactly for non-empty haystacks made of those
/// characters. The pattern is valid, so the compilation does not fail.
#[verifier::external_body]
fn regex_matches(pattern: &str, haystack: &str) -> (matched: bool)
    requires
        pattern@ == name_pattern_spec(),
    ensures
        matched == is_flow_name(haystack@),
{
    regex::Regex::new(pattern).unwrap().is_match(haystack)
}

/// Whether `name` can name a flow: it must be non-empty and made of ASCII
/// letters, digits, `_` and `-` only.
pub fn validate_name(name: String) -> (valid: bool)
    ensures
        valid == is_flow_name(name@),
{
    regex_matches("^[a-zA-Z0-9_\\-]+$", name.as_str())
}

/// A valid name holds no `/`, so the branch `<prefix>/<name>` of a flow
/// with a valid name has its name as the whole part after the prefix, and
/// a valid name holds no white space.
pub proof fn law_valid_names_are_single_segments(name: Seq<char>, i: int)
    requires
        is_flow_name(name),
        0 <= i < name.len(),
    ensures
        name[i] != '/',
        name[i] != ' ',
        name[i] != '\n',
        name[i] != '\t',
{
    assert(is_name_char(name[i]));
}

} // verus!
