//! Paths as the user names them, and where they lead.

use vstd::prelude::*;
use path_absolutize::Absolutize;
use vstd::string::StringExecFns;
use crate::text::{debug_quote, debug_text, opt_text, string_of, trim, trimmed};

verus! {

/// Whether `path` is absolute: it starts at the root.
pub open spec fn is_absolute(path: Seq<char>) -> bool {
    path.len() > 0 && path[0] == '/'
}

/// Tells whether `path` is absolute.
pub fn path_is_absolute(path: &str) -> (r: bool)
    ensures
        r == is_absolute(path@),
{
    path.unicode_len() > 0 && path.get_char(0) == '/'
}

/// What `Absolutize::absolutize_from` makes of `path` against the directory
/// `cwd`: the absolute path without `.` and `..`, or nothing where it fails.
pub uninterp spec fn absolutized(path: Seq<char>, cwd: Seq<char>) -> Option<Seq<char>>;

/// Calls `Absolutize::absolutize_from` of `path_absolutize` on `path` with
/// `cwd` as the directory that a relative path starts from. On a Unix system
/// the call works on the text of the two paths alone: it reads neither the
/// file system nor the environment, so its result is named, [`absolutized`].
/// With a `cwd` that is not absolute it can fail an internal check, so that
/// is left out. With an absolute one it finds a path for every `path`: on a
/// Unix system it has no way to fail.
#[verifier::external_body]
fn absolutize_from(path: &str, cwd: &str) -> (resolved: Option<String>)
    requires
        is_absolute(cwd@),
    ensures
        resolved is Some,
        absolutized(path@, cwd@) == Some(resolved->0@),
{
    match std::path::Path::new(path).absolutize_from(cwd) {
        Ok(resolved) => Some(resolved.to_string_lossy().to_string()),
        Err(_) => None,
    }
}

/// Asks `std::path::Path::exists` whether something stands at `path`. The
/// answer depends on the file system, so nothing is promised of it.
#[verifier::external_body]
fn path_exists(path: &str) -> (found: bool) {
    std::path::Path::new(path).exists()
}

/// Asks `std::path::Path::is_dir` whether a directory stands at `path`. The
/// answer depends on the file system, so nothing is promised of it.
#[verifier::external_body]
fn path_is_dir(path: &str) -> (found: bool) {
    std::path::Path::new(path).is_dir()
}

/// The user's home directory, as `home::home_dir` gives it, if it gives one.
/// It is read from the environment, so nothing is promised of it.
#[verifier::external_body]
pub(crate) fn home_dir() -> (home: Option<String>) {
    home::home_dir().map(|path| path.to_string_lossy().to_string())
}

/// `path` with every `~/` in it replaced by `home` and a slash.
pub open spec fn replace_home(path: Seq<char>, home: Seq<char>) -> Seq<char>
    decreases path.len(),
{
    if path.len() == 0 {
        Seq::empty()
    } else if path.len() >= 2 && path[0] == '~' && path[1] == '/' {
        home + seq!['/'] + replace_home(path.skip(2), home)
    } else {
        seq![path[0]] + replace_home(path.skip(1), home)
    }
}

/// Whether a path, trimmed, can only be read with the home directory known:
/// it is empty or starts with a tilde.
pub open spec fn needs_home(path: Seq<char>) -> bool {
    path.len() == 0 || path[0] == '~'
}

/// The path that `path`, trimmed, stands for, with `home` as the home
/// directory.
///
/// The empty path and `~` stand for `home`. In a path that starts with `~/`,
/// `home` and a slash take the place of that `~/`, and of every other `~/` in
/// the path. Any other path stands for itself, also one that starts with a
/// tilde.
pub open spec fn expanded(path: Seq<char>, home: Seq<char>) -> Seq<char> {
    if path.len() == 0 {
        home
    } else if path.len() >= 2 && path[0] == '~' && path[1] == '/' {
        replace_home(path, home)
    } else if path.len() == 1 && path[0] == '~' {
        home
    } else {
        path
    }
}

/// Why a path could not be resolved.
#[derive(Debug, PartialEq, Eq)]
pub enum PathError {
    /// The path needs the home directory, and there is none.
    NoHome,
    /// Nothing stands at the path.
    NotFound(String),
    /// What stands at the path is no directory.
    NotADirectory(String),
    /// The path cannot be made absolute.
    Invalid(String),
}

/// The mathematical value of a [`PathError`].
pub enum PathErrorView {
    NoHome,
    NotFound(Seq<char>),
    NotADirectory(Seq<char>),
    Invalid(Seq<char>),
}

impl View for PathError {
    type V = PathErrorView;

    open spec fn view(&self) -> PathErrorView {
        match *self {
            PathError::NoHome => PathErrorView::NoHome,
            PathError::NotFound(path) => PathErrorView::NotFound(path@),
            PathError::NotADirectory(path) => PathErrorView::NotADirectory(path@),
            PathError::Invalid(path) => PathErrorView::Invalid(path@),
        }
    }
}

impl PathErrorView {
    /// The exit code that reports the error: that of `ENOENT`, `ENOTDIR` or
    /// `EINVAL`.
    pub open spec fn code(self) -> int {
        match self {
            PathErrorView::NoHome => 2,
            PathErrorView::NotFound(_) => 2,
            PathErrorView::NotADirectory(_) => 20,
            PathErrorView::Invalid(_) => 22,
        }
    }

    /// The line that reports the error.
    pub open spec fn message(self) -> Seq<char> {
        match self {
            PathErrorView::NoHome => "The home directory doesn't exist."@,
            PathErrorView::NotFound(path) => "No such file or directory: "@ + debug_text(path),
            PathErrorView::NotADirectory(path) => "Not a directory: "@ + debug_text(path),
            PathErrorView::Invalid(path) => "Invalid path: "@ + debug_text(path),
        }
    }
}

impl PathError {
    /// The exit code that reports the error.
    pub fn code(&self) -> (code: i32)
        ensures
            code == self@.code(),
    {
        match self {
            PathError::NoHome => 2,
            PathError::NotFound(_) => 2,
            PathError::NotADirectory(_) => 20,
            PathError::Invalid(_) => 22,
        }
    }

    /// The line that reports the error.
    pub fn message(&self) -> (line: String)
        ensures
            line@ == self@.message(),
    {
        match self {
            PathError::NoHome => String::from_str("The home directory doesn't exist."),
            PathError::NotFound(path) => String::from_str("No such file or directory: ").concat(
                debug_quote(path.as_str()).as_str(),
            ),
            PathError::NotADirectory(path) => String::from_str("Not a directory: ").concat(
                debug_quote(path.as_str()).as_str(),
            ),
            PathError::Invalid(path) => String::from_str("Invalid path: ").concat(
                debug_quote(path.as_str()).as_str(),
            ),
        }
    }
}

/// The value of a resolved path or of the error in its place.
pub open spec fn located_view(located: Result<String, PathError>) -> Result<
    Seq<char>,
    PathErrorView,
> {
    match located {
        Ok(path) => Ok(path@),
        Err(error) => Err(error@),
    }
}

/// What becomes of the path `computed` once it was made absolute, or could
/// not be (`resolved`), and the file system was asked about it.
///
/// A path that could not be made absolute is invalid. Where no directory is
/// asked for, the absolute path is the answer. Else nothing may be missing at
/// it, and what is there must be a directory.
pub open spec fn settled(
    computed: Seq<char>,
    resolved: Option<Seq<char>>,
    check_dir: bool,
    exists: bool,
    is_dir: bool,
) -> Result<Seq<char>, PathErrorView> {
    match resolved {
        None => Err(PathErrorView::Invalid(computed)),
        Some(path) => {
            if !check_dir {
                Ok(path)
            } else if !exists {
                Err(PathErrorView::NotFound(computed))
            } else if !is_dir {
                Err(PathErrorView::NotADirectory(computed))
            } else {
                Ok(path)
            }
        },
    }
}

/// Decides on a path that was made absolute, given what the file system says
/// of it: see [`settled`].
pub fn settle_path(
    computed: String,
    resolved: Option<String>,
    check_dir: bool,
    exists: bool,
    is_dir: bool,
) -> (located: Result<String, PathError>)
    ensures
        located_view(located) == settled(
            computed@,
            opt_text(resolved),
            check_dir,
            exists,
            is_dir,
        ),
{
    match resolved {
        None => Err(PathError::Invalid(computed)),
        Some(path) => {
            if !check_dir {
                Ok(path)
            } else if !exists {
                Err(PathError::NotFound(computed))
            } else if !is_dir {
                Err(PathError::NotADirectory(computed))
            } else {
                Ok(path)
            }
        },
    }
}

/// What [`locate`] answers for `input_path`, where the file system says
/// `exists` and `is_dir` of the absolute path.
pub open spec fn located(
    input_path: Seq<char>,
    cwd: Seq<char>,
    home: Option<Seq<char>>,
    check_dir: bool,
    exists: bool,
    is_dir: bool,
) -> Result<Seq<char>, PathErrorView> {
    let path = trimmed(input_path);
    if needs_home(path) && home is None {
        Err(PathErrorView::NoHome)
    } else {
        let computed = if needs_home(path) {
            expanded(path, home->0)
        } else {
            path
        };
        settled(computed, absolutized(computed, cwd), check_dir, exists, is_dir)
    }
}

/// Swaps `home` in for every `~/` of `path`.
fn expand_home(path: &Vec<char>, home: &str) -> (out: String)
    ensures
        out@ == replace_home(path@, home@),
{
    let mut out = String::new();
    let mut i: usize = 0;
    assert(path@.skip(0) =~= path@);
    while i < path.len()
        invariant
            i <= path.len(),
            out@ + replace_home(path@.skip(i as int), home@) == replace_home(path@, home@),
        decreases path.len() - i,
    {
        let ghost rest = path@.skip(i as int);
        if path[i] == '~' && i + 1 < path.len() && path[i + 1] == '/' {
            assert(rest.skip(2) =~= path@.skip(i + 2));
            let ghost before = out@;
            out.append(home);
            out.push('/');
            assert(out@ =~= before + (home@ + seq!['/']));
            assert(out@ + replace_home(path@.skip(i + 2), home@) =~= before + replace_home(
                rest,
                home@,
            ));
            i = i + 2;
        } else {
            assert(rest.skip(1) =~= path@.skip(i + 1));
            let ghost before = out@;
            out.push(path[i]);
            assert(out@ + replace_home(path@.skip(i + 1), home@) =~= before + replace_home(
                rest,
                home@,
            ));
            i = i + 1;
        }
    }
    assert(out@ + Seq::<char>::empty() =~= out@);
    out
}

/// The path that the trimmed `path` stands for: see [`expanded`].
fn expand(path: &Vec<char>, home: &str) -> (out: String)
    ensures
        out@ == expanded(path@, home@),
{
    if path.len() == 0 {
        String::from_str(home)
    } else if path.len() >= 2 && path[0] == '~' && path[1] == '/' {
        expand_home(path, home)
    } else if path.len() == 1 && path[0] == '~' {
        String::from_str(home)
    } else {
        let out = string_of(path, 0, path.len());
        assert(path@.subrange(0, path@.len() as int) =~= path@);
        out
    }
}

/// Resolves what the user named to an absolute path.
///
/// `input_path` is trimmed and read as [`expanded`] says, against `home`
/// where it needs the home directory. It is then made absolute against `cwd`,
/// which takes `.` and `..` out of it. With `check_dir` the file system is
/// asked whether a directory stands there.
///
/// Without `check_dir` a path is found unless the home directory is needed
/// and missing. No path is ever found invalid: against an absolute `cwd`
/// every path can be made absolute.
pub fn locate(
    input_path: String,
    cwd: String,
    home: Option<String>,
    check_dir: bool,
) -> (found: Result<String, PathError>)
    requires
        is_absolute(cwd@),
    ensures
        exists|exists: bool, is_dir: bool|
            located_view(found) == located(
                input_path@,
                cwd@,
                opt_text(home),
                check_dir,
                exists,
                is_dir,
            ),
        !check_dir ==> located_view(found) == located(
            input_path@,
            cwd@,
            opt_text(home),
            false,
            false,
            false,
        ),
        !check_dir ==> (found is Err <==> needs_home(trimmed(input_path@)) && home is None),
        found matches Err(error) ==> !(error@ is Invalid),
{
    let ghost home_view = opt_text(home);
    let path = trim(input_path.as_str());
    let computed = if path.len() == 0 || path[0] == '~' {
        match home {
            Some(home) => expand(&path, home.as_str()),
            None => {
                assert(located_view(Err(PathError::NoHome)) == located(
                    input_path@,
                    cwd@,
                    home_view,
                    check_dir,
                    false,
                    false,
                ));
                return Err(PathError::NoHome);
            },
        }
    } else {
        let kept = string_of(&path, 0, path.len());
        assert(path@.subrange(0, path@.len() as int) =~= path@);
        kept
    };
    let resolved = absolutize_from(computed.as_str(), cwd.as_str());
    let exists = check_dir && match &resolved {
        Some(path) => path_exists(path.as_str()),
        None => false,
    };
    let is_dir = exists && match &resolved {
        Some(path) => path_is_dir(path.as_str()),
        None => false,
    };
    let found = settle_path(computed, resolved, check_dir, exists, is_dir);
    assert(located_view(found) == located(
        input_path@,
        cwd@,
        home_view,
        check_dir,
        exists,
        is_dir,
    ));
    found
}

/// The value of what [`resolve_path`] returns.
pub open spec fn resolved_view(resolved: Result<String, i32>) -> Result<Seq<char>, int> {
    match resolved {
        Ok(path) => Ok(path@),
        Err(code) => Err(code as int),
    }
}

/// A located path, with the error's exit code in place of the error.
pub open spec fn with_code(found: Result<Seq<char>, PathErrorView>) -> Result<Seq<char>, int> {
    match found {
        Ok(path) => Ok(path),
        Err(error) => Err(error.code()),
    }
}

/// Resolves what the user named to an absolute path, as [`locate`] does, and
/// reports a failure by its exit code: 2 where the home directory or the path
/// is missing, 20 where the path leads to no directory.
pub fn resolve_path(
    input_path: String,
    cwd: String,
    home: Option<String>,
    check_dir: bool,
) -> (resolved: Result<String, i32>)
    requires
        is_absolute(cwd@),
    ensures
        exists|exists: bool, is_dir: bool|
            resolved_view(resolved) == with_code(
                located(
                    input_path@,
                    cwd@,
                    opt_text(home),
                    check_dir,
                    exists,
                    is_dir,
                ),
            ),
        !check_dir ==> resolved_view(resolved) == with_code(
            located(
                input_path@,
                cwd@,
                opt_text(home),
                false,
                false,
                false,
            ),
        ),
        !check_dir ==> (resolved is Err <==> needs_home(trimmed(input_path@)) && home is None),
        resolved matches Err(code) ==> code == 2 || (check_dir && code == 20),
{
    match locate(input_path, cwd, home, check_dir) {
        Ok(path) => Ok(path),
        Err(error) => Err(error.code()),
    }
}

/// Whether `std` takes two paths for equal: they are made of the same
/// components.
pub uninterp spec fn same_path(a: Seq<char>, b: Seq<char>) -> bool;

/// Compares two paths with `==` of `std::path::Path`. The result depends on
/// the two texts alone, so it is named, [`same_path`].
#[verifier::external_body]
pub(crate) fn paths_equal(a: &str, b: &str) -> (same: bool)
    ensures
        same == same_path(a@, b@),
{
    std::path::Path::new(a) == std::path::Path::new(b)
}

} // verus!
