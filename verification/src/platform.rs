//! Whose rules for paths hold: those of Unix, or those of Windows.
use std::path::{Component, Path, PathBuf};

use vstd::prelude::*;
use vstd::string::*;

verus! {

/// The machine that this runs on, as far as paths go. A value comes from [`Platform::here`]
/// alone, so one that says Windows is only ever met on Windows.
#[derive(Clone, Copy, Debug, PartialEq, Eq, Structural)]
pub struct Platform {
    windows: bool,
}

/// `std::path::is_separator` of a backslash. It depends on the machine, so nothing is said of
/// the result.
#[verifier::external_body]
fn backslash_separates() -> (r: bool) {
    std::path::is_separator('\\')
}

impl Platform {
    /// The rules are those of Windows, where a backslash separates too.
    pub closed spec fn windows(self) -> bool {
        self.windows
    }

    /// The machine that this runs on. Which it is, only the machine can say.
    pub fn here() -> (r: Self) {
        Platform { windows: backslash_separates() }
    }

    pub fn is_windows(self) -> (r: bool)
        ensures
            r == self.windows(),
    {
        self.windows
    }
}

/// Whether Windows takes a path as absolute.
pub uninterp spec fn windows_absolute(path: Seq<char>) -> bool;

/// `std::path::Path::is_absolute` on Windows: a function of the path alone. Of a path that
/// starts with a drive and its root, such as `C:\`, it says yes.
#[verifier::external_body]
fn absolute_on_windows(platform: Platform, path: &str) -> (r: bool)
    requires
        platform.windows(),
    ensures
        r == windows_absolute(path@),
        drive_rooted(path@) ==> r,
{
    Path::new(path).is_absolute()
}

/// The path starts with the letter of a drive, a colon and a backslash.
pub open spec fn drive_rooted(path: Seq<char>) -> bool {
    path.len() >= 3 && ('A' <= path[0] <= 'Z' || 'a' <= path[0] <= 'z') && path[1] == ':' && path[2]
        == '\\'
}

/// A path from the root of the file system.
pub open spec fn is_absolute(platform: Platform, path: Seq<char>) -> bool {
    if platform.windows() {
        windows_absolute(path)
    } else {
        path.len() > 0 && path[0] == '/'
    }
}

/// Whether a path starts at the root of the file system.
pub fn starts_at_root(platform: Platform, path: &str) -> (r: bool)
    ensures
        r == is_absolute(platform, path@),
        platform.windows() && drive_rooted(path@) ==> r,
{
    if platform.is_windows() {
        absolute_on_windows(platform, path)
    } else {
        !path.is_empty() && path.get_char(0) == '/'
    }
}

/// One component of a path, as it is walked.
#[derive(Clone, Debug, PartialEq, Eq)]
pub enum PathStep {
    Stay,
    Up,
    Into(String),
}

pub enum StepFacts {
    Stay,
    Up,
    Into(Seq<char>),
}

impl DeepView for PathStep {
    type V = StepFacts;

    open spec fn deep_view(&self) -> StepFacts {
        match self {
            PathStep::Stay => StepFacts::Stay,
            PathStep::Up => StepFacts::Up,
            PathStep::Into(text) => StepFacts::Into(text@),
        }
    }
}

/// The components of a path on Windows.
pub uninterp spec fn windows_steps(path: Seq<char>) -> Seq<StepFacts>;

/// `std::path::Path::components` on Windows: a function of the path alone. `.` stays, `..`
/// goes up, and a prefix, a root or a name is entered as it is written.
#[verifier::external_body]
pub(crate) fn steps_on_windows(platform: Platform, path: &str) -> (r: Vec<PathStep>)
    requires
        platform.windows(),
    ensures
        r.deep_view() == windows_steps(path@),
{
    Path::new(path).components().map(|component| match component {
        Component::CurDir => PathStep::Stay,
        Component::ParentDir => PathStep::Up,
        Component::Prefix(_) => PathStep::Into(component.as_os_str().to_string_lossy().into_owned()),
        Component::RootDir => PathStep::Into(component.as_os_str().to_string_lossy().into_owned()),
        Component::Normal(name) => PathStep::Into(name.to_string_lossy().into_owned()),
    }).collect()
}

/// A path on Windows with another adjoined.
pub uninterp spec fn windows_pushed(path: Seq<char>, next: Seq<char>) -> Seq<char>;

/// `std::path::PathBuf::push` on Windows, which is what `Path::join` does to a copy: a function
/// of the two paths alone.
#[verifier::external_body]
pub(crate) fn pushed_on_windows(platform: Platform, path: &str, next: &str) -> (r: String)
    requires
        platform.windows(),
    ensures
        r@ == windows_pushed(path@, next@),
{
    let mut whole = PathBuf::from(path);
    whole.push(next);
    whole.to_string_lossy().into_owned()
}

/// A path on Windows without its last component, if there is one to leave.
pub uninterp spec fn windows_parent(path: Seq<char>) -> Option<Seq<char>>;

/// `std::path::Path::parent` on Windows, to which `PathBuf::pop` cuts a path: a function of
/// the path alone.
#[verifier::external_body]
pub(crate) fn parent_on_windows(platform: Platform, path: &str) -> (r: Option<String>)
    requires
        platform.windows(),
    ensures
        r.deep_view() == windows_parent(path@),
{
    Path::new(path).parent().map(|parent| parent.to_string_lossy().into_owned())
}

/// The last component of a path on Windows, if it is a name.
pub uninterp spec fn windows_file_name(path: Seq<char>) -> Option<Seq<char>>;

/// `std::path::Path::file_name` on Windows: a function of the path alone.
#[verifier::external_body]
pub(crate) fn file_name_on_windows(platform: Platform, path: &str) -> (r: Option<String>)
    requires
        platform.windows(),
    ensures
        r.deep_view() == windows_file_name(path@),
{
    Path::new(path).file_name().map(|name| name.to_string_lossy().into_owned())
}

/// Whether a path on Windows is another one or lies below it.
pub uninterp spec fn windows_under(path: Seq<char>, base: Seq<char>) -> bool;

/// `std::path::Path::starts_with` on Windows: a function of the two paths alone.
#[verifier::external_body]
pub(crate) fn under_on_windows(platform: Platform, path: &str, base: &str) -> (r: bool)
    requires
        platform.windows(),
    ensures
        r == windows_under(path@, base@),
{
    Path::new(path).starts_with(base)
}

} // verus!
