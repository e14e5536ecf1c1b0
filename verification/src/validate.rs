//! Checks of the grid's data directory and the data tool's arguments.
use vstd::prelude::*;

use crate::text::{concat, str_eq};

verus! {

/// The languages that grid data can be written in.
#[derive(Debug, Clone, Copy, PartialEq, Eq, Structural)]
pub enum Language {
    Ru,
    En,
}

/// A language name that is neither `ru` nor `en`.
#[derive(Debug, Clone, PartialEq, Eq)]
pub struct LanguageParseError {
    pub input: String,
}

impl Language {
    /// Reads a language from its code: `ru` or `en`.
    pub fn from_str(s: &str) -> (r: Result<Language, LanguageParseError>)
        ensures
            s@ == "ru"@ ==> r == Ok::<Language, LanguageParseError>(Language::Ru),
            s@ == "en"@ ==> r == Ok::<Language, LanguageParseError>(Language::En),
            s@ != "ru"@ && s@ != "en"@ ==> (r matches Err(e) && e.input@ == s@),
    {
        proof {
            reveal_strlit("ru");
            reveal_strlit("en");
            assert("ru"@ =~= seq!['r', 'u']);
            assert("en"@ =~= seq!['e', 'n']);
            assert("ru"@[0] != "en"@[0]);
        }
        if str_eq(s, "ru") {
            Ok(Language::Ru)
        } else if str_eq(s, "en") {
            Ok(Language::En)
        } else {
            Err(LanguageParseError { input: s.to_owned() })
        }
    }
}

/// The arguments of the data tool: the data directory and the languages to check.
#[derive(Debug, Clone, PartialEq, Eq)]
pub struct Cli {
    pub path: String,
    pub languages: Vec<Language>,
}

/// The arguments of the bot: its configuration file.
#[derive(Debug, Clone, PartialEq, Eq)]
pub struct Args {
    pub config: String,
}

/// A character that may start or end a path segment name: `[0-9a-z]`.
pub open spec fn is_name_char(c: char) -> bool {
    ('0' <= c && c <= '9') || ('a' <= c && c <= 'z')
}

/// A character that may stand inside a path segment name: `[0-9a-z_]`.
pub open spec fn is_inner_char(c: char) -> bool {
    is_name_char(c) || c == '_'
}

/// The pattern of path segment names,
/// `^[0-9a-z][0-9a-z_]*[0-9a-z]$|^[a-z0-9]+$`: either at least two
/// characters with only `[0-9a-z]` at both ends and `[0-9a-z_]` between, or
/// one or more characters of `[a-z0-9]`.
pub open spec fn matches_segment_pattern(s: Seq<char>) -> bool {
    ||| (s.len() >= 2 && is_name_char(s[0]) && is_name_char(s[s.len() - 1])
        && forall|i: int| 0 < i < s.len() - 1 ==> is_inner_char(#[trigger] s[i]))
    ||| (s.len() >= 1 && forall|i: int| 0 <= i < s.len() ==> is_name_char(#[trigger] s[i]))
}

fn name_char(c: char) -> (r: bool)
    ensures
        r == is_name_char(c),
{
    ('0' <= c && c <= '9') || ('a' <= c && c <= 'z')
}

/// Whether a path segment name matches the pattern of segment names.
pub fn is_valid_segment_name(s: &str) -> (r: bool)
    ensures
        r == matches_segment_pattern(s@),
{
    let n = s.unicode_len();
    if n == 0 {
        return false;
    }
    if !name_char(s.get_char(0)) || !name_char(s.get_char(n - 1)) {
        return false;
    }
    let mut i: usize = 1;
    while i < n - 1
        invariant
            n == s@.len(),
            n >= 1,
            1 <= i <= n,
            is_name_char(s@[0]),
            is_name_char(s@[n - 1]),
            forall|j: int| 0 < j < i && j < n - 1 ==> is_inner_char(#[trigger] s@[j]),
        decreases n - i,
    {
        let c = s.get_char(i);
        if !(name_char(c) || c == '_') {
            assert(!matches_segment_pattern(s@)) by {
                assert(!is_name_char(s@[i as int]));
            }
            return false;
        }
        i = i + 1;
    }
    assert(matches_segment_pattern(s@)) by {
        if n == 1 {
            assert forall|j: int| 0 <= j < s@.len() implies is_name_char(#[trigger] s@[j]) by {
                assert(j == 0);
            }
        }
    }
    true
}

/// The two alternatives of the segment pattern together admit exactly the
/// non-empty names of digits, lowercase ASCII letters and underscores that
/// neither start nor end with an underscore.
proof fn lemma_segment_pattern_characters(t: Seq<char>)
    ensures
        matches_segment_pattern(t) <==> {
            &&& t.len() >= 1
            &&& t[0] != '_'
            &&& t[t.len() - 1] != '_'
            &&& forall|i: int| 0 <= i < t.len()
                ==> ('0' <= #[trigger] t[i] && t[i] <= '9') || ('a' <= t[i] && t[i] <= 'z') || t[i] == '_'
        },
{
    let in_class = forall|i: int| 0 <= i < t.len()
        ==> ('0' <= #[trigger] t[i] && t[i] <= '9') || ('a' <= t[i] && t[i] <= 'z') || t[i] == '_';
    if t.len() >= 1 && t[0] != '_' && t[t.len() - 1] != '_' && in_class {
        if t.len() == 1 {
            assert forall|i: int| 0 <= i < t.len() implies is_name_char(#[trigger] t[i]) by {
                assert(i == 0);
            }
        } else {
            assert(is_name_char(t[0]));
            assert(is_name_char(t[t.len() - 1]));
            assert forall|i: int| 0 < i < t.len() - 1 implies is_inner_char(#[trigger] t[i]) by {
                assert(0 <= i < t.len());
            }
        }
        assert(matches_segment_pattern(t));
    }
    if matches_segment_pattern(t) {
        assert forall|i: int| 0 <= i < t.len() implies ('0' <= #[trigger] t[i] && t[i] <= '9') || ('a' <= t[i] && t[i]
            <= 'z') || t[i] == '_' by {
            if t.len() >= 2 && is_name_char(t[0]) && is_name_char(t[t.len() - 1]) && (forall|j: int|
                0 < j < t.len() - 1 ==> is_inner_char(#[trigger] t[j])) {
                if 0 < i < t.len() - 1 {
                    assert(is_inner_char(t[i]));
                }
            }
        }
    }
}

/// A segment name is accepted exactly when it is not empty, holds only
/// digits, lowercase ASCII letters and underscores, and neither starts nor
/// ends with an underscore.
pub proof fn lemma_segment_name_characters(s: &str, r: bool)
    requires
        call_ensures(is_valid_segment_name, (s,), r),
    ensures
        r <==> {
            &&& s@.len() >= 1
            &&& s@[0] != '_'
            &&& s@[s@.len() - 1] != '_'
            &&& forall|i: int| 0 <= i < s@.len()
                ==> ('0' <= #[trigger] s@[i] && s@[i] <= '9') || ('a' <= s@[i] && s@[i] <= 'z') || s@[i] == '_'
        },
{
    lemma_segment_pattern_characters(s@);
}

/// Why a child of the data directory could not be checked.
#[derive(Debug, Clone, Copy, PartialEq, Eq, Structural)]
pub enum ValidateError {
    /// The child's path has no final segment.
    NoFinalSegment,
    /// The child's final segment is not valid Unicode.
    NotUnicode,
}

/// The final segment of a child's path, as the file system gives it.
#[derive(Debug, Clone, PartialEq, Eq)]
pub enum Segment {
    Missing,
    NotUnicode,
    Name(String),
}

/// Checks a path segment name: `Ok(true)` when it matches the pattern of
/// segment names, `Ok(false)` when it does not (which is reported, not
/// refused), an error when it is not valid Unicode.
pub fn validate_path_segment_name(segment: Option<&str>) -> (r: Result<bool, ValidateError>)
    ensures
        match segment {
            Some(s) => r == Ok::<bool, ValidateError>(matches_segment_pattern(s@)),
            None => r == Err::<bool, ValidateError>(ValidateError::NotUnicode),
        },
{
    match segment {
        Some(s) => Ok(is_valid_segment_name(s)),
        None => Err(ValidateError::NotUnicode),
    }
}

/// A final segment that is valid Unicode is answered with whether its name
/// is not empty, holds only digits, lowercase ASCII letters and underscores,
/// and neither starts nor ends with an underscore; one that is not is
/// reported as such.
pub proof fn lemma_path_segment_name_check(segment: Option<&str>, r: Result<bool, ValidateError>)
    requires
        call_ensures(validate_path_segment_name, (segment,), r),
    ensures
        segment is None ==> r == Err::<bool, ValidateError>(ValidateError::NotUnicode),
        segment matches Some(s) ==> (r matches Ok(b) && (b <==> {
            &&& s@.len() >= 1
            &&& s@[0] != '_'
            &&& s@[s@.len() - 1] != '_'
            &&& forall|i: int| 0 <= i < s@.len()
                ==> ('0' <= #[trigger] s@[i] && s@[i] <= '9') || ('a' <= s@[i] && s@[i] <= 'z') || s@[i] == '_'
        })),
{
    if let Some(s) = segment {
        lemma_segment_pattern_characters(s@);
    }
}

/// A checked child of the data directory.
#[derive(Debug, Clone, PartialEq, Eq)]
pub struct ChildReport {
    /// The child's name.
    pub name: String,
    /// Whether the name matches the pattern of segment names.
    pub valid: bool,
    /// The child's path in the grid: `/<name>`.
    pub path: String,
}

/// Whether `r` reports the child named `name` at the root of the grid.
pub open spec fn reports(name: Seq<char>, r: ChildReport) -> bool {
    &&& r.name@ == name
    &&& r.valid == matches_segment_pattern(name)
    &&& r.path@ == seq!['/'] + name
}

/// Checks the names of the root-level children of the data directory, in
/// order: the first child without a final segment, or whose final segment
/// is not valid Unicode, stops the check with that error; otherwise each
/// child gets a report of its name, whether the name is valid, and its path.
pub fn validate(children: &Vec<Segment>) -> (r: Result<Vec<ChildReport>, ValidateError>)
    ensures
        match r {
            Ok(reports_v) => reports_v@.len() == children@.len() && forall|i: int|
                0 <= i < children@.len() ==> (#[trigger] children@[i] matches Segment::Name(n)
                    && reports(n@, reports_v@[i])),
            Err(e) => exists|k: int|
                #![trigger children@[k]]
                0 <= k < children@.len() && (forall|i: int| 0 <= i < k ==> #[trigger] children@[i] is Name)
                    && match children@[k] {
                    Segment::Missing => e == ValidateError::NoFinalSegment,
                    Segment::NotUnicode => e == ValidateError::NotUnicode,
                    Segment::Name(_) => false,
                },
        },
{
    let mut out: Vec<ChildReport> = Vec::new();
    let n = children.len();
    let mut i: usize = 0;
    while i < n
        invariant
            n == children@.len(),
            i <= n,
            out@.len() == i,
            forall|j: int| 0 <= j < i ==> (#[trigger] children@[j] matches Segment::Name(m) && reports(m@, out@[j])),
        decreases n - i,
    {
        match &children[i] {
            Segment::Missing => {
                assert(forall|j: int| 0 <= j < i ==> #[trigger] children@[j] is Name);
                assert(children@[i as int] is Missing);
                return Err(ValidateError::NoFinalSegment);
            },
            Segment::NotUnicode => {
                assert(forall|j: int| 0 <= j < i ==> #[trigger] children@[j] is Name);
                assert(children@[i as int] is NotUnicode);
                return Err(ValidateError::NotUnicode);
            },
            Segment::Name(name) => {
                let valid = match validate_path_segment_name(Some(name.as_str())) {
                    Ok(v) => v,
                    Err(e) => return Err(e),
                };
                proof {
                    reveal_strlit("/");
                }
                let path = concat("/", name.as_str());
                assert(path@ =~= seq!['/'] + name@);
                out.push(ChildReport { name: name.clone(), valid, path });
            },
        }
        i = i + 1;
    }
    Ok(out)
}

/// The directory that holds a grid node's localized name.
pub const NAME_DIR: &'static str = "_name";

/// The directory that holds a data entry's localized text.
pub const DATA_DIR: &'static str = "_data";

/// Whether a grid node's directory, given the names of its children, has the
/// `_name` directory that every node needs.
pub fn validate_child(children: &Vec<String>) -> (r: bool)
    ensures
        r == exists|i: int| 0 <= i < children@.len() && #[trigger] children@[i]@ == "_name"@,
{
    let n = children.len();
    let mut i: usize = 0;
    while i < n
        invariant
            n == children@.len(),
            i <= n,
            forall|j: int| 0 <= j < i ==> #[trigger] children@[j]@ != "_name"@,
        decreases n - i,
    {
        if str_eq(children[i].as_str(), NAME_DIR) {
            return true;
        }
        i = i + 1;
    }
    false
}

} // verus!
