//! Standard-library value types that the library carries through without
//! looking inside them (time stamps, durations, paths, I/O errors), and the
//! few standard calls made on them.
use vstd::prelude::*;

verus! {

#[verifier::external_type_specification]
#[verifier::external_body]
pub struct ExSystemTime(std::time::SystemTime);

#[verifier::external_type_specification]
#[verifier::external_body]
pub struct ExInstant(std::time::Instant);

#[verifier::external_type_specification]
#[verifier::external_body]
pub struct ExPathBuf(std::path::PathBuf);

#[verifier::external_type_specification]
#[verifier::external_body]
pub struct ExIoError(std::io::Error);

/// `Clone` of `std::time::SystemTime`, a `Copy` type: the clone is the same
/// time stamp.
pub assume_specification[ <std::time::SystemTime as Clone>::clone ](t: &std::time::SystemTime) -> (r: std::time::SystemTime)
    ensures
        r == *t,
;

/// `Clone` of `std::path::PathBuf`. Nothing is stated of the copy.
pub assume_specification[ <std::path::PathBuf as Clone>::clone ](p: &std::path::PathBuf) -> std::path::PathBuf;

/// `std::time::SystemTime::now`: the current wall-clock time. Nothing is
/// stated of the value, which depends on the clock.
#[verifier::external_body]
pub fn system_time_now() -> std::time::SystemTime {
    std::time::SystemTime::now()
}

/// `std::time::Instant::now`: the current monotonic instant. Nothing is
/// stated of the value, which depends on the clock.
#[verifier::external_body]
pub fn instant_now() -> std::time::Instant {
    std::time::Instant::now()
}

/// `std::time::Instant::elapsed`: the time passed since `start`. Nothing is
/// stated of the value, which depends on the clock.
#[verifier::external_body]
pub fn instant_elapsed(start: &std::time::Instant) -> std::time::Duration {
    start.elapsed()
}

/// What `PathBuf::from` gives for a string: the path made of that text.
pub uninterp spec fn path_of(s: Seq<char>) -> std::path::PathBuf;

/// What `Path::join` gives for a base path and a relative child: the child
/// appended to the base as a further component.
pub uninterp spec fn path_joined(base: std::path::PathBuf, child: Seq<char>) -> std::path::PathBuf;

/// `std::path::PathBuf::from(&str)`: the path of the given text, named
/// `path_of`.
#[verifier::external_body]
pub fn path_from_str(s: &str) -> (r: std::path::PathBuf)
    ensures
        r == path_of(s@),
{
    std::path::PathBuf::from(s)
}

/// `std::path::Path::join`: `child` appended to `base`, named `path_joined`.
#[verifier::external_body]
pub fn path_join(base: &std::path::PathBuf, child: &str) -> (r: std::path::PathBuf)
    ensures
        r == path_joined(*base, child@),
{
    base.join(child)
}

} // verus!
