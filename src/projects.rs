//! The project registry: each project, keyed by its path, is assigned either
//! an explicit runtime version or a named group.
use vstd::prelude::*;

use crate::draft::Snapshot;
use crate::error::CoreError;

verus! {

/// What a project runs: an explicit version, or whatever its group runs.
/// The kind is always stated by the caller, never guessed from whether a
/// group happens to carry the same name as a version.
#[derive(Clone, Debug, PartialEq, Eq)]
pub enum Assignment {
    Version(String),
    Group(String),
}

/// One registered project.
#[derive(Clone, Debug, PartialEq, Eq)]
pub struct Project {
    /// Absolute path of the project directory.
    pub path: String,
    pub version: Option<Assignment>,
}

/// A project directory picked by the user, with the version its marker file
/// holds, if it has one.
#[derive(Clone, Debug, PartialEq, Eq)]
pub struct PInfo {
    pub path: String,
    pub version: Option<String>,
}

/// The project registry document.
#[derive(Clone, Debug, PartialEq, Eq)]
pub struct IProjects {
    pub list: Vec<Project>,
}

impl View for IProjects {
    type V = Seq<Project>;

    open spec fn view(&self) -> Seq<Project> {
        self.list@
    }
}

/// `i` is the first position in `s` of a project with the given path.
pub open spec fn is_first_with_path(s: Seq<Project>, path: Seq<char>, i: int) -> bool {
    &&& 0 <= i < s.len()
    &&& s[i].path@ == path
    &&& forall|j: int| 0 <= j < i ==> s[j].path@ != path
}

/// Some project in `s` has the given path.
pub open spec fn has_path(s: Seq<Project>, path: Seq<char>) -> bool {
    exists|i: int| 0 <= i < s.len() && s[i].path@ == path
}

/// The position of the first project with the given path.
pub open spec fn project_index(s: Seq<Project>, path: Seq<char>) -> int {
    choose|i: int| is_first_with_path(s, path, i)
}

/// The registry after the first project with the given path is assigned `a`.
pub open spec fn assign(s: Seq<Project>, path: Seq<char>, a: Assignment) -> Seq<Project> {
    let i = project_index(s, path);
    s.update(i, Project { path: s[i].path, version: Some(a) })
}

/// The first position with `path` is the one `project_index` names.
pub proof fn lemma_project_index(s: Seq<Project>, path: Seq<char>, i: int)
    requires
        is_first_with_path(s, path, i),
    ensures
        project_index(s, path) == i,
{
    let k = project_index(s, path);
    assert(is_first_with_path(s, path, k));
    if k < i {
        assert(s[k].path@ != path);
    } else if i < k {
        assert(s[i].path@ != path);
    }
}

impl Assignment {
    /// An exact copy.
    pub fn copy(&self) -> (r: Assignment)
        ensures
            r == *self,
    {
        match self {
            Assignment::Version(v) => Assignment::Version(v.clone()),
            Assignment::Group(g) => Assignment::Group(g.clone()),
        }
    }
}

impl Project {
    /// An exact copy.
    pub fn copy(&self) -> (r: Project)
        ensures
            r == *self,
    {
        let version = match &self.version {
            Some(a) => Some(a.copy()),
            None => None,
        };
        Project { path: self.path.clone(), version }
    }
}

impl PInfo {
    /// A picked directory and the contents of its marker file, if any.
    pub fn new(path: String, version: Option<String>) -> (r: PInfo)
        ensures
            r.path == path,
            r.version == version,
    {
        PInfo { path, version }
    }
}

/// A copy of a list of projects.
pub fn copy_projects(list: &Vec<Project>) -> (r: Vec<Project>)
    ensures
        r@ == list@,
{
    let mut out: Vec<Project> = Vec::new();
    let mut i: usize = 0;
    while i < list.len()
        invariant
            i <= list.len(),
            out@ == list@.subrange(0, i as int),
        decreases list.len() - i,
    {
        out.push(list[i].copy());
        i = i + 1;
    }
    assert(out@ =~= list@);
    out
}

impl Snapshot for IProjects {
    fn snapshot(&self) -> (r: Self) {
        IProjects { list: copy_projects(&self.list) }
    }
}

impl IProjects {
    /// Replaces the whole registry with `list`.
    pub fn update_list(&mut self, list: &Vec<Project>)
        ensures
            final(self)@ == list@,
    {
        self.list = copy_projects(list);
    }

    /// Assigns `assignment` to the project registered under `path`, and
    /// returns that path. Fails when no project has that path; the registry
    /// is then left as it was.
    pub fn update_version(&mut self, path: &String, assignment: Assignment) -> (r: Result<
        String,
        CoreError,
    >)
        ensures
            r is Ok <==> has_path(old(self)@, path@),
            match r {
                Ok(p) => p@ == path@ && final(self)@ == assign(old(self)@, path@, assignment),
                Err(e) => e == CoreError::ProjectNotFound && final(self)@ == old(self)@,
            },
    {
        let mut i: usize = 0;
        while i < self.list.len()
            invariant
                i <= self.list.len(),
                self@ == old(self)@,
                forall|j: int| 0 <= j < i ==> self.list@[j].path@ != path@,
            decreases self.list.len() - i,
        {
            if self.list[i].path == *path {
                proof {
                    lemma_project_index(self@, path@, i as int);
                }
                let entry = Project { path: self.list[i].path.clone(), version: Some(assignment) };
                self.list.set(i, entry);
                return Ok(path.clone());
            }
            i = i + 1;
        }
        Err(CoreError::ProjectNotFound)
    }
}

} // verus!
