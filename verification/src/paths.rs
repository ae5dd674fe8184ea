//! Where the backend lives: the directory and the entry file of the server,
//! worked out from the build mode and from what the process knows of itself.

use vstd::prelude::*;

verus! {

/// Name of the directory in which the shell's build tooling runs.
pub const TOOLING_DIR: &'static str = "src-tauri";

/// Name of the directory that holds the backend.
pub const BACKEND_DIR: &'static str = "server";

/// Where the backend is looked for in development when the working
/// directory is of no help: two levels up, then into the backend directory.
pub const DEVELOPMENT_FALLBACK: &'static str = "../../server";

/// Name of the backend's entry file inside its directory.
pub const ENTRY_FILE: &'static str = "index.js";

/// The parent of a path as `std::path::Path::parent` gives it on the
/// platform the library is built for, both sides read as text.
pub uninterp spec fn path_parent(path: Seq<char>) -> Option<Seq<char>>;

/// Whether `child` is a suffix of `path`, whole components only, as
/// `std::path::Path::ends_with` decides it.
pub uninterp spec fn path_ends_with(path: Seq<char>, child: Seq<char>) -> bool;

/// `child` adjoined to `base` as `std::path::Path::join` does it.
pub uninterp spec fn path_join(base: Seq<char>, child: Seq<char>) -> Seq<char>;

/// Calls `std::path::Path::parent`.
///
/// Trusted: the result is the parent that std computes for this text, and
/// it is absent exactly where std finds no parent (a root, a prefix, the
/// empty path).
#[verifier::external_body]
fn parent_of(path: &str) -> (parent: Option<String>)
    ensures
        match parent {
            Some(p) => path_parent(path@) == Some(p@),
            None => path_parent(path@) is None,
        },
{
    match std::path::Path::new(path).parent() {
        Some(p) => Some(p.to_string_lossy().into_owned()),
        None => None,
    }
}

/// Calls `std::path::Path::ends_with`.
///
/// Trusted: the answer is std's, compared by whole components.
#[verifier::external_body]
fn ends_with(path: &str, child: &str) -> (b: bool)
    ensures
        b == path_ends_with(path@, child@),
{
    std::path::Path::new(path).ends_with(child)
}

/// Calls `std::path::Path::join`.
///
/// Trusted: the result is the path that std builds by adjoining `child` to
/// `base`; adjoining something leaves something, so the result of joining a
/// non-empty `child` is not empty.
#[verifier::external_body]
fn join(base: &str, child: &str) -> (joined: String)
    ensures
        joined@ == path_join(base@, child@),
        child@.len() > 0 ==> joined@.len() > 0,
{
    std::path::Path::new(base).join(child).to_string_lossy().into_owned()
}

/// How the shell was built, which decides where the backend is looked for.
#[derive(Clone, Copy, Debug, PartialEq, Eq, Structural)]
pub enum BuildMode {
    /// A development checkout: the backend sits beside the shell's project.
    Development,
    /// A packaged build: the backend is shipped next to the executable.
    Production,
}

/// The place where the backend is expected.
#[derive(Debug, PartialEq, Eq)]
pub struct Location {
    /// Directory that should hold the backend.
    pub dir: String,
    /// The entry file inside that directory.
    pub entry: String,
    /// Whether the expected layout was not found and a fixed relative path
    /// stands in for it.
    pub degraded: bool,
}

/// A location as plain text.
pub struct LocationView {
    pub dir: Seq<char>,
    pub entry: Seq<char>,
    pub degraded: bool,
}

impl View for Location {
    type V = LocationView;

    open spec fn view(&self) -> LocationView {
        LocationView { dir: self.dir@, entry: self.entry@, degraded: self.degraded }
    }
}

/// The text of an optional path.
pub open spec fn text_of(path: Option<&str>) -> Option<Seq<char>> {
    match path {
        Some(p) => Some(p@),
        None => None,
    }
}

/// The directory two levels above `cwd`, provided that `cwd` ends in the
/// tooling directory and has that many ancestors.
pub open spec fn project_root(cwd: Seq<char>) -> Option<Seq<char>> {
    if path_ends_with(cwd, TOOLING_DIR@) {
        match path_parent(cwd) {
            Some(client) => path_parent(client),
            None => None,
        }
    } else {
        None
    }
}

/// The directory from which the backend directory is reached, if the
/// process could find one: the project root in development, the directory
/// of the executable in production.
pub open spec fn anchor(mode: BuildMode, cwd: Option<Seq<char>>, exe: Option<Seq<char>>) -> Option<
    Seq<char>,
> {
    match mode {
        BuildMode::Development => match cwd {
            Some(c) => project_root(c),
            None => None,
        },
        BuildMode::Production => match exe {
            Some(e) => path_parent(e),
            None => None,
        },
    }
}

/// The relative path that stands in when no anchor was found.
pub open spec fn fallback_dir(mode: BuildMode) -> Seq<char> {
    match mode {
        BuildMode::Development => DEVELOPMENT_FALLBACK@,
        BuildMode::Production => BACKEND_DIR@,
    }
}

/// The backend directory for a build mode, a working directory and an
/// executable path, each of the two absent where it could not be read.
pub open spec fn resolved_dir(
    mode: BuildMode,
    cwd: Option<Seq<char>>,
    exe: Option<Seq<char>>,
) -> Seq<char> {
    match anchor(mode, cwd, exe) {
        Some(a) => path_join(a, BACKEND_DIR@),
        None => fallback_dir(mode),
    }
}

/// The full resolution: directory, entry file, and whether the fallback
/// was needed.
pub open spec fn resolved(
    mode: BuildMode,
    cwd: Option<Seq<char>>,
    exe: Option<Seq<char>>,
) -> LocationView {
    LocationView {
        dir: resolved_dir(mode, cwd, exe),
        entry: path_join(resolved_dir(mode, cwd, exe), ENTRY_FILE@),
        degraded: anchor(mode, cwd, exe) is None,
    }
}

/// Finds the project root above the working directory of a development
/// run: two levels up from a directory that ends in the tooling directory.
pub fn find_project_root(cwd: &str) -> (root: Option<String>)
    ensures
        match root {
            Some(r) => project_root(cwd@) == Some(r@),
            None => project_root(cwd@) is None,
        },
{
    if !ends_with(cwd, TOOLING_DIR) {
        return None;
    }
    match parent_of(cwd) {
        Some(client) => parent_of(client.as_str()),
        None => None,
    }
}

/// Looks for the directory from which the backend directory is reached.
pub fn find_anchor(mode: BuildMode, cwd: Option<&str>, exe: Option<&str>) -> (found: Option<String>)
    ensures
        match found {
            Some(a) => anchor(mode, text_of(cwd), text_of(exe)) == Some(a@),
            None => anchor(mode, text_of(cwd), text_of(exe)) is None,
        },
{
    match mode {
        BuildMode::Development => match cwd {
            Some(c) => find_project_root(c),
            None => None,
        },
        BuildMode::Production => match exe {
            Some(e) => parent_of(e),
            None => None,
        },
    }
}

/// The relative path that stands in for the backend directory when no
/// anchor was found.
pub fn fallback(mode: BuildMode) -> (dir: String)
    ensures
        dir@ == fallback_dir(mode),
        dir@.len() > 0,
{
    proof {
        reveal_strlit("server");
        reveal_strlit("../../server");
    }
    match mode {
        BuildMode::Development => DEVELOPMENT_FALLBACK.to_owned(),
        BuildMode::Production => BACKEND_DIR.to_owned(),
    }
}

/// The backend directory below an anchor, or the fallback without one.
fn dir_below(mode: BuildMode, found: &Option<String>) -> (dir: String)
    ensures
        dir@ == match *found {
            Some(a) => path_join(a@, BACKEND_DIR@),
            None => fallback_dir(mode),
        },
        dir@.len() > 0,
{
    proof {
        reveal_strlit("server");
    }
    match found {
        Some(a) => join(a.as_str(), BACKEND_DIR),
        None => fallback(mode),
    }
}

/// Works out the directory of the backend.
///
/// In development the working directory decides, in production the path of
/// the executable; the other one is not looked at. Where the deciding path
/// is absent or does not have the expected shape, a fixed relative path is
/// returned instead. The result is never empty.
pub fn resolve_server_dir(mode: BuildMode, cwd: Option<&str>, exe: Option<&str>) -> (dir: String)
    ensures
        dir@ == resolved_dir(mode, text_of(cwd), text_of(exe)),
        dir@.len() > 0,
{
    let found = find_anchor(mode, cwd, exe);
    dir_below(mode, &found)
}

/// Resolves the backend's location: its directory, its entry file, and
/// whether the fallback had to stand in.
pub fn resolve(mode: BuildMode, cwd: Option<&str>, exe: Option<&str>) -> (location: Location)
    ensures
        location@ == resolved(mode, text_of(cwd), text_of(exe)),
        location.dir@.len() > 0,
        location.entry@.len() > 0,
{
    proof {
        reveal_strlit("index.js");
    }
    let found = find_anchor(mode, cwd, exe);
    let dir = dir_below(mode, &found);
    let entry = join(dir.as_str(), ENTRY_FILE);
    Location { dir, entry, degraded: found.is_none() }
}

/// In development, a working directory that ends in the tooling directory
/// and has a grandparent resolves to that grandparent joined with the
/// backend directory, whatever the executable path is.
pub proof fn law_tooling_directory_resolves_to_project_root(
    cwd: Seq<char>,
    client: Seq<char>,
    root: Seq<char>,
    exe: Option<Seq<char>>,
)
    requires
        path_ends_with(cwd, TOOLING_DIR@),
        path_parent(cwd) == Some(client),
        path_parent(client) == Some(root),
    ensures
        resolved_dir(BuildMode::Development, Some(cwd), exe) == path_join(root, BACKEND_DIR@),
        !resolved(BuildMode::Development, Some(cwd), exe).degraded,
{
}

/// Resolution looks only at the path that belongs to the build mode: the
/// working directory in development, the executable in production.
pub proof fn law_only_the_deciding_path_matters(
    cwd: Option<Seq<char>>,
    other_cwd: Option<Seq<char>>,
    exe: Option<Seq<char>>,
    other_exe: Option<Seq<char>>,
)
    ensures
        resolved(BuildMode::Development, cwd, exe) == resolved(
            BuildMode::Development,
            cwd,
            other_exe,
        ),
        resolved(BuildMode::Production, cwd, exe) == resolved(
            BuildMode::Production,
            other_cwd,
            exe,
        ),
{
}

/// Without the deciding path, or with one of the wrong shape, resolution
/// degrades to the fixed relative path of the build mode.
pub proof fn law_resolution_degrades_to_fallback(
    mode: BuildMode,
    cwd: Option<Seq<char>>,
    exe: Option<Seq<char>>,
)
    requires
        anchor(mode, cwd, exe) is None,
    ensures
        resolved(mode, cwd, exe).degraded,
        resolved_dir(mode, cwd, exe) == fallback_dir(mode),
        resolved_dir(mode, cwd, exe).len() > 0,
{
    reveal_strlit("server");
    reveal_strlit("../../server");
}

} // verus!
