//! A discovered project and its build-output directory.
use vstd::prelude::*;

use crate::manifest::{project_name, resolve_project_name};
use crate::target::{stale_at, TargetError, TargetInfo, TARGET_DIR_NAME};
use crate::text::{join_path, join_seq};

verus! {

/// The file whose presence marks a directory as a project root.
pub const MANIFEST_FILE_NAME: &'static str = "Cargo.toml";

/// A directory holding a manifest, with its name and, once analyzed, its
/// build-output directory.
#[derive(Clone, Debug)]
pub struct RustProject {
    pub path: String,
    pub name: String,
    pub target_info: Option<TargetInfo>,
}

/// Why no project was made of a directory.
pub enum ProjectError {
    /// The manifest could not be read; it holds the directory.
    ManifestUnreadable(String),
    /// Neither the manifest nor the directory gives a name; it holds the directory.
    NoName(String),
}

impl RustProject {
    /// The project in directory `path`, whose manifest text is `manifest`
    /// (`None` where it could not be read).
    pub fn from_path(path: &str, manifest: Option<&str>) -> (r: Result<Self, ProjectError>)
        ensures
            manifest is None ==> (r matches Err(ProjectError::ManifestUnreadable(p)) && p@ == path@),
            manifest matches Some(m) ==> match project_name(m@, path@) {
                Some(n) => (r matches Ok(pr) && pr.path@ == path@ && pr.name@ == n
                    && pr.target_info is None),
                None => (r matches Err(ProjectError::NoName(p)) && p@ == path@),
            },
    {
        match manifest {
            None => Err(ProjectError::ManifestUnreadable(String::from_str(path))),
            Some(m) => match resolve_project_name(m, path) {
                Some(name) => Ok(RustProject { path: String::from_str(path), name, target_info: None }),
                None => Err(ProjectError::NoName(String::from_str(path))),
            },
        }
    }

    /// This project with `target_info` attached.
    pub fn with_target_info(self, target_info: TargetInfo) -> (r: Self)
        ensures
            r.path == self.path,
            r.name == self.name,
            r.target_info == Some(target_info),
    {
        RustProject { target_info: Some(target_info), ..self }
    }

    /// The path of this project's build-output directory.
    pub fn target_path(&self) -> (r: Option<String>)
        ensures
            r matches Some(p) && p@ == join_seq(self.path@, TARGET_DIR_NAME@),
    {
        Some(join_path(self.path.as_str(), TARGET_DIR_NAME))
    }
}

/// The project found at a manifest in directory `dir`: made only where the
/// manifest gives a name and the build-output directory was found.
pub fn discover_project(dir: &str, manifest: Option<&str>, target: Result<TargetInfo, TargetError>)
    -> (r: Option<RustProject>)
    ensures
        r is Some <==> (manifest matches Some(m) && project_name(m@, dir@) is Some && target is Ok),
        r matches Some(p) ==> p.path@ == dir@ && Some(p.name@) == project_name(
            manifest->0@,
            dir@,
        ) && p.target_info == Some(target->Ok_0),
{
    match RustProject::from_path(dir, manifest) {
        Ok(project) => match target {
            Ok(t) => Some(project.with_target_info(t)),
            Err(_) => None,
        },
        Err(_) => None,
    }
}

/// Sets the stale flag of every project's build-output directory for `now`
/// and `threshold` seconds; nothing else changes.
pub fn classify_projects(projects: &mut Vec<RustProject>, threshold: u64, now: u64)
    ensures
        final(projects)@.len() == old(projects)@.len(),
        forall|i: int|
            0 <= i < final(projects)@.len() ==> {
                let a = #[trigger] old(projects)@[i];
                let b = final(projects)@[i];
                &&& b.path == a.path
                &&& b.name == a.name
                &&& b.target_info is Some == a.target_info is Some
                &&& b.target_info matches Some(tb) ==> {
                    let ta = a.target_info->0;
                    &&& tb.path == ta.path
                    &&& tb.size_bytes == ta.size_bytes
                    &&& tb.last_accessed == ta.last_accessed
                    &&& tb.is_stale == stale_at(ta.last_accessed, threshold, now)
                }
            },
{
    let ghost start = projects@;
    let mut i: usize = 0;
    while i < projects.len()
        invariant
            i <= projects@.len(),
            projects@.len() == start.len(),
            forall|j: int| i <= j < start.len() ==> #[trigger] projects@[j] == start[j],
            forall|j: int|
                0 <= j < i ==> {
                    let a = #[trigger] start[j];
                    let b = projects@[j];
                    &&& b.path == a.path
                    &&& b.name == a.name
                    &&& b.target_info is Some == a.target_info is Some
                    &&& b.target_info matches Some(tb) ==> {
                        let ta = a.target_info->0;
                        &&& tb.path == ta.path
                        &&& tb.size_bytes == ta.size_bytes
                        &&& tb.last_accessed == ta.last_accessed
                        &&& tb.is_stale == stale_at(ta.last_accessed, threshold, now)
                    }
                },
        decreases start.len() - i,
    {
        if let Some(t) = &projects[i].target_info {
            let stale = crate::target::TargetFinder::is_stale(t, threshold, now);
            if let Some(tm) = &mut projects[i].target_info {
                tm.is_stale = stale;
            }
        }
        i = i + 1;
    }
}

} // verus!
