use vstd::prelude::*;
use vstd::string::StringExecFns;

verus! {

/// Name of the directory that holds the backend, under each candidate root.
pub const BACKEND_DIR_NAME: &'static str = "backend";

/// Entry point of the backend, relative to its working directory.
pub const ENTRY_POINT: &'static str = "src/index.js";

/// `base/rest`.
pub open spec fn joined(base: Seq<char>, rest: Seq<char>) -> Seq<char> {
    base + "/"@ + rest
}

/// The backend's working directory under candidate root `root` of the
/// directory `exe_dir` that holds the running executable.
pub open spec fn backend_dir_path(exe_dir: Seq<char>, root: Seq<char>) -> Seq<char> {
    joined(joined(exe_dir, root), BACKEND_DIR_NAME@)
}

/// The entry-point file whose existence decides a candidate.
pub open spec fn entry_path(exe_dir: Seq<char>, root: Seq<char>) -> Seq<char> {
    joined(backend_dir_path(exe_dir, root), ENTRY_POINT@)
}

/// A resolved way to launch the backend.
#[derive(Debug, PartialEq, Eq)]
pub struct BackendLocation {
    /// Program to run (the JavaScript runtime).
    pub command: String,
    /// Directory the program runs in.
    pub working_dir: String,
    /// Argument naming the entry point, relative to `working_dir`.
    pub entry: String,
}

pub ghost struct LocationView {
    pub command: Seq<char>,
    pub working_dir: Seq<char>,
    pub entry: Seq<char>,
}

impl View for BackendLocation {
    type V = LocationView;

    open spec fn view(&self) -> LocationView {
        LocationView { command: self.command@, working_dir: self.working_dir@, entry: self.entry@ }
    }
}

/// The location that candidate root `root` resolves to.
pub open spec fn location_at(exe_dir: Seq<char>, root: Seq<char>, command: Seq<char>) -> LocationView {
    LocationView {
        command: command,
        working_dir: backend_dir_path(exe_dir, root),
        entry: ENTRY_POINT@,
    }
}

#[derive(Debug, PartialEq, Eq)]
pub enum LocateResult {
    Found(BackendLocation),
    NotFound,
}

/// `i` is the first index at which `exists` holds.
pub open spec fn is_first_existing(exists: Seq<bool>, i: int) -> bool {
    &&& 0 <= i < exists.len()
    &&& exists[i]
    &&& forall|j: int| 0 <= j < i ==> !exists[j]
}

/// No candidate exists.
pub open spec fn none_exist(exists: Seq<bool>) -> bool {
    forall|j: int| 0 <= j < exists.len() ==> !exists[j]
}

/// The ordered candidate roots, relative to the executable's directory,
/// searched first to last.
pub struct LocatorConfig {
    pub roots: Vec<String>,
}

fn join(base: &str, rest: &str) -> (r: String)
    ensures
        r@ == joined(base@, rest@),
{
    let mut s = String::from_str(base);
    s.append("/");
    s.append(rest);
    s
}

/// Working directory of the backend under candidate root `root`.
pub fn backend_dir(exe_dir: &str, root: &str) -> (r: String)
    ensures
        r@ == backend_dir_path(exe_dir@, root@),
{
    let base = join(exe_dir, root);
    join(base.as_str(), BACKEND_DIR_NAME)
}

impl LocatorConfig {
    /// Search order for a build tree first (`target/release`), then a bundle
    /// one level below the backend, then a backend beside the executable.
    pub fn standard() -> (r: LocatorConfig)
        ensures
            r.roots@.len() == 3,
            r.roots@[0]@ == "../.."@,
            r.roots@[1]@ == ".."@,
            r.roots@[2]@ == "."@,
    {
        let mut roots: Vec<String> = Vec::new();
        roots.push(String::from_str("../.."));
        roots.push(String::from_str(".."));
        roots.push(String::from_str("."));
        LocatorConfig { roots }
    }

    /// The entry-point files to test, one per root, in search order.
    pub fn candidate_paths(&self, exe_dir: &str) -> (r: Vec<String>)
        ensures
            r@.len() == self.roots@.len(),
            forall|i: int| 0 <= i < r@.len() ==> #[trigger] r@[i]@ == entry_path(exe_dir@, self.roots@[i]@),
    {
        let mut out: Vec<String> = Vec::new();
        let mut i: usize = 0;
        while i < self.roots.len()
            invariant
                i <= self.roots@.len(),
                out@.len() == i,
                forall|k: int| 0 <= k < i ==> #[trigger] out@[k]@ == entry_path(exe_dir@, self.roots@[k]@),
            decreases self.roots@.len() - i,
        {
            let dir = backend_dir(exe_dir, self.roots[i].as_str());
            out.push(join(dir.as_str(), ENTRY_POINT));
            i = i + 1;
        }
        out
    }

    /// Picks the first candidate whose entry point exists (`exists[i]` tells
    /// whether the path of root `i` exists); later candidates are never chosen.
    pub fn locate(&self, exe_dir: &str, command: &str, exists: &Vec<bool>) -> (r: LocateResult)
        requires
            exists@.len() == self.roots@.len(),
        ensures
            r is NotFound <==> none_exist(exists@),
            r matches LocateResult::Found(loc) ==> exists|i: int|
                is_first_existing(exists@, i) && loc@ == location_at(exe_dir@, self.roots@[i]@, command@),
    {
        let mut i: usize = 0;
        while i < exists.len()
            invariant
                i <= exists@.len(),
                exists@.len() == self.roots@.len(),
                forall|j: int| 0 <= j < i ==> !exists@[j],
            decreases exists@.len() - i,
        {
            if exists[i] {
                let loc = BackendLocation {
                    command: String::from_str(command),
                    working_dir: backend_dir(exe_dir, self.roots[i].as_str()),
                    entry: String::from_str(ENTRY_POINT),
                };
                assert(is_first_existing(exists@, i as int));
                return LocateResult::Found(loc);
            }
            i = i + 1;
        }
        LocateResult::NotFound
    }
}

} // verus!
