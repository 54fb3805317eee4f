//! Types of the standard library and of `serde_json` that the library holds
//! and hands on, with the few facts about them that its contracts rest on.

use vstd::prelude::*;
use std::path::Path;
use std::path::PathBuf;
use std::time::Duration;

verus! {

#[verifier::external_type_specification]
#[verifier::external_body]
pub struct ExValue(serde_json::Value);

#[verifier::external_type_specification]
#[verifier::external_body]
pub struct ExPath(Path);

#[verifier::external_type_specification]
#[verifier::external_body]
pub struct ExPathBuf(PathBuf);

/// A clone of a JSON document is the same document.
pub assume_specification[ <serde_json::Value as Clone>::clone ](v: &serde_json::Value) -> (r:
    serde_json::Value)
    ensures
        r == *v,
;

/// A clone of an owned path is the same path.
pub assume_specification[ <PathBuf as Clone>::clone ](p: &PathBuf) -> (r: PathBuf)
    ensures
        r == *p,
;

/// A clone of a duration is the same duration.
pub assume_specification[ <Duration as Clone>::clone ](d: &Duration) -> (r: Duration)
    ensures
        r == *d,
;

/// The duration of that many whole seconds.
pub uninterp spec fn seconds(secs: u64) -> Duration;

/// The whole seconds of a duration.
pub uninterp spec fn duration_secs(d: Duration) -> u64;

/// `Duration::from_secs` makes the duration of that many whole seconds.
pub assume_specification[ Duration::from_secs ](secs: u64) -> (d: Duration)
    ensures
        d == seconds(secs),
;

/// `Duration::as_secs` gives the whole seconds of a duration.
pub assume_specification[ Duration::as_secs ](d: &Duration) -> (secs: u64)
    ensures
        secs == duration_secs(*d),
;

/// The duration of that many milliseconds.
pub uninterp spec fn milliseconds(millis: u64) -> Duration;

/// `Duration::from_millis` makes the duration of that many milliseconds.
pub assume_specification[ Duration::from_millis ](millis: u64) -> (d: Duration)
    ensures
        d == milliseconds(millis),
;

/// The path that a text names.
pub uninterp spec fn path_of_text(s: Seq<char>) -> PathBuf;

/// `PathBuf::from` of a text: the path that the text names.
#[verifier::external_body]
pub(crate) fn path_from_text(s: &str) -> (p: PathBuf)
    ensures
        p == path_of_text(s@),
{
    PathBuf::from(s)
}

/// The last component of a path, where the path has one that is valid
/// Unicode.
pub uninterp spec fn path_file_name(p: PathBuf) -> Option<Seq<char>>;

/// `Path::file_name`, as text: `None` where the path ends in `..` or is
/// the root, or the name is not valid Unicode.
#[verifier::external_body]
pub(crate) fn file_name_of(p: &PathBuf) -> (r: Option<String>)
    ensures
        r is Some <==> path_file_name(*p) is Some,
        r matches Some(s) ==> path_file_name(*p) == Some(s@),
{
    p.file_name().and_then(|s| s.to_str()).map(|s| s.to_owned())
}

/// A path as it is shown to a reader, with what is not valid Unicode
/// replaced.
pub uninterp spec fn path_shown(p: PathBuf) -> Seq<char>;

/// `Path::display`, as text.
#[verifier::external_body]
pub(crate) fn path_display(p: &PathBuf) -> (s: String)
    ensures
        s@ == path_shown(*p),
{
    p.display().to_string()
}

/// The text of a path, where the path is valid Unicode.
pub uninterp spec fn path_text(p: PathBuf) -> Option<Seq<char>>;

/// `Path::to_str`, as owned text: `None` where the path is not valid
/// Unicode.
#[verifier::external_body]
pub(crate) fn path_to_text(p: &PathBuf) -> (r: Option<String>)
    ensures
        r is Some <==> path_text(*p) is Some,
        r matches Some(s) ==> path_text(*p) == Some(s@),
{
    p.to_str().map(|s| s.to_owned())
}

/// The time in RFC 3339 notation at so many milliseconds since the Unix
/// epoch; `None` where the time is out of the range of the calendar.
pub uninterp spec fn rfc3339_text(millis: i64) -> Option<Seq<char>>;

/// `DateTime::to_rfc3339` of the time at `millis` milliseconds since the
/// Unix epoch, in UTC.
#[verifier::external_body]
pub(crate) fn timestamp_rfc3339(millis: i64) -> (r: Option<String>)
    ensures
        r is Some <==> rfc3339_text(millis) is Some,
        r matches Some(s) ==> rfc3339_text(millis) == Some(s@),
{
    chrono::DateTime::from_timestamp_millis(millis).map(|t| t.to_rfc3339())
}

/// `Uuid::new_v4`, as a number. The identifier is drawn at random: nothing
/// is known of it, not even that it is new.
#[verifier::external_body]
pub(crate) fn random_execution_id() -> (id: u128) {
    uuid::Uuid::new_v4().as_u128()
}

} // verus!
