//! The worker supervisor's decisions: where the worker's entry lies, and how
//! the worker is started.
//!
//! Paths are held as their components, so that "the directory above" and "the
//! entry below" are plain operations on a sequence. Reading the environment,
//! looking at the disk and starting the process are left to the caller.

use vstd::prelude::*;
use vstd::string::*;

verus! {

/// The program that runs the worker.
pub const WORKER_PROGRAM: &'static str = "node";

/// The directory of workers below the project root.
pub const APPS_DIR: &'static str = "apps";

/// The worker's own directory below [`APPS_DIR`].
pub const WORKER_DIR: &'static str = "scraper";

/// The directory of the worker's sources below its own directory.
pub const SOURCE_DIR: &'static str = "src";

/// The file the worker starts from.
pub const ENTRY_FILE: &'static str = "index.js";

/// One component of a path.
#[derive(Clone, Debug, PartialEq, Eq)]
pub enum PathPart {
    /// A volume or share prefix, where the platform has such a thing.
    Prefix(String),
    /// The root directory.
    Root,
    /// The current directory, `.`.
    Current,
    /// The directory above, `..`.
    Parent,
    /// A file or directory name.
    Name(String),
}

/// A component of a path, its text as a sequence of characters.
pub enum PathPartView {
    Prefix(Seq<char>),
    Root,
    Current,
    Parent,
    Name(Seq<char>),
}

impl View for PathPart {
    type V = PathPartView;

    open spec fn view(&self) -> PathPartView {
        match *self {
            PathPart::Prefix(p) => PathPartView::Prefix(p@),
            PathPart::Root => PathPartView::Root,
            PathPart::Current => PathPartView::Current,
            PathPart::Parent => PathPartView::Parent,
            PathPart::Name(n) => PathPartView::Name(n@),
        }
    }
}

/// The components of a path, each by its view.
pub open spec fn parts_view(parts: Seq<PathPart>) -> Seq<PathPartView> {
    Seq::new(parts.len(), |i: int| parts[i]@)
}

/// The path without its final component. There is none for the empty path
/// and for a path that ends in a root or a prefix.
pub open spec fn parent_path(parts: Seq<PathPartView>) -> Option<Seq<PathPartView>> {
    if parts.len() == 0 {
        None
    } else {
        match parts.last() {
            PathPartView::Name(_) | PathPartView::Current | PathPartView::Parent => Some(
                parts.drop_last(),
            ),
            PathPartView::Root | PathPartView::Prefix(_) => None,
        }
    }
}

/// The worker's directory below a project root.
pub open spec fn worker_dir_below(root: Seq<PathPartView>) -> Seq<PathPartView> {
    root.push(PathPartView::Name(APPS_DIR@)).push(PathPartView::Name(WORKER_DIR@))
}

/// The worker's entry file below the worker's directory.
pub open spec fn entry_below(worker_dir: Seq<PathPartView>) -> Seq<PathPartView> {
    worker_dir.push(PathPartView::Name(SOURCE_DIR@)).push(PathPartView::Name(ENTRY_FILE@))
}

/// Where the worker's entry is expected, given the directory this package is
/// built in: the project root lies two levels above that directory.
pub open spec fn expected_entry(build_dir: Seq<PathPartView>) -> Option<
    (Seq<PathPartView>, Seq<PathPartView>),
> {
    match parent_path(build_dir) {
        None => None,
        Some(above) => match parent_path(above) {
            None => None,
            Some(root) => Some((worker_dir_below(root), entry_below(worker_dir_below(root)))),
        },
    }
}

/// The worker's entry: the directory it runs in and the file it starts from.
#[derive(Clone, Debug, PartialEq, Eq)]
pub struct WorkerEntry {
    pub working_dir: Vec<PathPart>,
    pub entry_path: Vec<PathPart>,
}

impl WorkerEntry {
    /// The two paths of an entry, by their views.
    pub open spec fn paths(&self) -> (Seq<PathPartView>, Seq<PathPartView>) {
        (parts_view(self.working_dir@), parts_view(self.entry_path@))
    }
}

/// How the worker is started.
#[derive(Clone, Debug, PartialEq, Eq)]
pub struct LaunchPlan {
    pub program: String,
    pub argument: Vec<PathPart>,
    pub working_dir: Vec<PathPart>,
}

/// A copy of one component.
fn copy_part(part: &PathPart) -> (copy: PathPart)
    ensures
        copy@ == part@,
{
    match part {
        PathPart::Prefix(p) => PathPart::Prefix(p.clone()),
        PathPart::Root => PathPart::Root,
        PathPart::Current => PathPart::Current,
        PathPart::Parent => PathPart::Parent,
        PathPart::Name(n) => PathPart::Name(n.clone()),
    }
}

/// A copy of a path.
pub fn copy_parts(parts: &Vec<PathPart>) -> (copy: Vec<PathPart>)
    ensures
        parts_view(copy@) == parts_view(parts@),
{
    let mut copy: Vec<PathPart> = Vec::new();
    let mut i: usize = 0;
    while i < parts.len()
        invariant
            i <= parts.len(),
            copy@.len() == i,
            forall|k: int| 0 <= k < i ==> (#[trigger] copy@[k])@ == parts@[k]@,
        decreases parts.len() - i,
    {
        copy.push(copy_part(&parts[i]));
        i = i + 1;
    }
    copy
}

/// The path without its final component, if it has one to give up.
pub fn parent_of(parts: Vec<PathPart>) -> (parent: Option<Vec<PathPart>>)
    ensures
        match parent_path(parts_view(parts@)) {
            Some(expected) => parent matches Some(p) && parts_view(p@) == expected,
            None => parent is None,
        },
{
    let mut rest = parts;
    if rest.len() == 0 {
        return None;
    }
    match rest.pop() {
        Some(PathPart::Name(_)) | Some(PathPart::Current) | Some(PathPart::Parent) => {
            Some(rest)
        },
        _ => None,
    }
}

/// The path with one more name at its end.
pub fn child_of(parts: Vec<PathPart>, name: &str) -> (child: Vec<PathPart>)
    ensures
        parts_view(child@) == parts_view(parts@).push(PathPartView::Name(name@)),
{
    let mut child = parts;
    child.push(PathPart::Name(name.to_owned()));
    child
}

/// Locates the worker's entry from the directory this package is built in,
/// when that directory is known: two levels up lies the project root, and the
/// entry lies below it. Nothing is located when the directory is unknown or
/// has no two levels above it.
pub fn resolve_worker_entry(build_dir: Option<Vec<PathPart>>) -> (entry: Option<WorkerEntry>)
    ensures
        match build_dir {
            Some(dir) => match expected_entry(parts_view(dir@)) {
                Some(expected) => entry matches Some(e) && e.paths() == expected,
                None => entry is None,
            },
            None => entry is None,
        },
{
    let dir = match build_dir {
        Some(dir) => dir,
        None => {
            return None;
        },
    };
    let above = match parent_of(dir) {
        Some(above) => above,
        None => {
            return None;
        },
    };
    let root = match parent_of(above) {
        Some(root) => root,
        None => {
            return None;
        },
    };
    let working_dir = child_of(child_of(root, APPS_DIR), WORKER_DIR);
    let entry_path = child_of(child_of(copy_parts(&working_dir), SOURCE_DIR), ENTRY_FILE);
    Some(WorkerEntry { working_dir, entry_path })
}

/// Keeps a located entry only if its file exists: a missing entry is the
/// normal case where the worker is supplied from outside.
pub fn confirm_worker_entry(located: Option<WorkerEntry>, entry_exists: bool) -> (entry: Option<
    WorkerEntry,
>)
    ensures
        entry == (if entry_exists {
            located
        } else {
            None
        }),
{
    if entry_exists {
        located
    } else {
        None
    }
}

/// How to start the worker for an entry: the worker program with the entry
/// file as its one argument, run in the worker's own directory. Without an
/// entry nothing is started.
pub fn spawn_plan(entry: Option<WorkerEntry>) -> (plan: Option<LaunchPlan>)
    ensures
        entry is None <==> plan is None,
        entry matches Some(e) ==> plan matches Some(p) && p.program@ == WORKER_PROGRAM@
            && p.argument == e.entry_path && p.working_dir == e.working_dir,
{
    match entry {
        Some(e) => Some(
            LaunchPlan {
                program: String::from_str(WORKER_PROGRAM),
                argument: e.entry_path,
                working_dir: e.working_dir,
            },
        ),
        None => None,
    }
}

} // verus!
