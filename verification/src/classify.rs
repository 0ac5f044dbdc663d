//! The classifier: from a file name to the directory, relative to the watched
//! root, in which the file belongs.

use vstd::prelude::*;
use vstd::string::*;

verus! {

/// The pattern of a dated screenshot name: at the very beginning a four-digit year, a
/// two-digit month and a two-digit day with dashes between them, then anything, and `.png` at
/// the very end.
pub const NAME_PATTERN: &'static str = r"^(?<YEAR>\d\d\d\d)-(?<MONTH>\d\d)-(?<DAY>\d\d).*\.png$";

/// Name of the capture group that holds the year.
pub const YEAR: &'static str = "YEAR";

/// Name of the capture group that holds the month.
pub const MONTH: &'static str = "MONTH";

/// Name of the capture group that holds the day.
pub const DAY: &'static str = "DAY";

/// Name of the directory that takes every file without a dated name.
pub const OTHER: &'static str = "other";

/// What the regular expression engine captures: the texts of the groups named `first`,
/// `second` and `third` in the leftmost match of `pattern` in `text`. `None` where the pattern
/// does not compile, where it matches nowhere in `text`, where it has no group of one of the
/// three names, or where such a group took no part in the match.
pub uninterp spec fn named_groups(
    pattern: Seq<char>,
    text: Seq<char>,
    first: Seq<char>,
    second: Seq<char>,
    third: Seq<char>,
) -> Option<(Seq<char>, Seq<char>, Seq<char>)>;

/// The path separator as a sequence of characters.
pub open spec fn separator() -> Seq<char> {
    seq!['/']
}

/// The name of the catch-all directory as a sequence of characters.
pub open spec fn other_bucket() -> Seq<char> {
    seq!['o', 't', 'h', 'e', 'r']
}

/// The partition `year/month/day`, its three parts taken as they are.
pub open spec fn partition(year: Seq<char>, month: Seq<char>, day: Seq<char>) -> Seq<char> {
    year + separator() + month + separator() + day
}

/// Where a file goes, given what the pattern captured in its name: into the partition made of
/// the captured texts, or into the catch-all directory where nothing was captured.
pub open spec fn destination(groups: Option<(Seq<char>, Seq<char>, Seq<char>)>) -> Seq<char> {
    match groups {
        Some((year, month, day)) => partition(year, month, day),
        None => other_bucket(),
    }
}

/// The captured texts of a name.
pub open spec fn date_groups(name: Seq<char>) -> Option<(Seq<char>, Seq<char>, Seq<char>)> {
    named_groups(NAME_PATTERN@, name, YEAR@, MONTH@, DAY@)
}

/// The destination of a file name.
pub open spec fn classified(name: Seq<char>) -> Seq<char> {
    destination(date_groups(name))
}

/// The views of three captured texts.
pub open spec fn groups_view(groups: Option<(String, String, String)>) -> Option<
    (Seq<char>, Seq<char>, Seq<char>),
> {
    match groups {
        Some((year, month, day)) => Some((year@, month@, day@)),
        None => None,
    }
}

/// Runs `regex::Regex::new` on `pattern`, `Regex::captures` on `text` and `Captures::name` on
/// each of the three group names, and copies the matched texts (`Match::as_str`). The pattern
/// is compiled anew on each call. Not proved: that the result is the one `named_groups` stands
/// for, that is, that the engine's answer depends on these five strings alone. None of the
/// calls panics; a pattern that does not compile gives `None`.
#[verifier::external_body]
fn capture_named(pattern: &str, text: &str, first: &str, second: &str, third: &str) -> (r: Option<
    (String, String, String),
>)
    ensures
        groups_view(r) == named_groups(pattern@, text@, first@, second@, third@),
{
    let expression = regex::Regex::new(pattern).ok()?;
    let captures = expression.captures(text)?;
    let a = captures.name(first)?.as_str().to_string();
    let b = captures.name(second)?.as_str().to_string();
    let c = captures.name(third)?.as_str().to_string();
    Some((a, b, c))
}

/// Builds the destination from what was captured in a name.
pub fn destination_for(groups: Option<(String, String, String)>) -> (r: String)
    ensures
        r@ == destination(groups_view(groups)),
{
    proof {
        reveal_strlit("/");
        reveal_strlit("other");
    }
    match groups {
        Some((year, month, day)) => {
            let mut path = year;
            path.append("/");
            path.append(month.as_str());
            path.append("/");
            path.append(day.as_str());
            assert("/"@ =~= separator());
            path
        },
        None => {
            assert(OTHER@ =~= other_bucket());
            String::from_str(OTHER)
        },
    }
}

/// Classifies a file name: a name that `NAME_PATTERN` matches goes to its `year/month/day`
/// partition, with the three parts exactly as they were captured, no number read out of them;
/// every other name goes to the catch-all directory. Total: every name has exactly one
/// destination.
pub fn classify(name: &str) -> (r: String)
    ensures
        r@ == classified(name@),
{
    destination_for(capture_named(NAME_PATTERN, name, YEAR, MONTH, DAY))
}

} // verus!
