//! The editing session: the open project and the file it came from.
use vstd::prelude::*;
use crate::project::Project;
use crate::textutil::owned;

verus! {

/// The message when a command needs a project and none is open.
pub open spec fn no_project_text() -> Seq<char> {
    "No hay ningún proyecto abierto. Usa `vedit project open <path>`"@
}

/// The session of the editor.
#[derive(Debug)]
pub struct AppContext {
    /// The open project.
    pub project: Option<Project>,
    /// The file of the open project.
    pub project_path: Option<String>,
}

impl AppContext {
    /// A session with no project open.
    pub fn new() -> (r: Self)
        ensures
            r.project is None,
            r.project_path is None,
    {
        AppContext { project: None, project_path: None }
    }

    /// Opens `project`, read from `path`.
    pub fn set_project(&mut self, project: Project, path: &str)
        ensures
            final(self).project == Some(project),
            final(self).project_path matches Some(p) && p@ == path@,
    {
        self.project_path = Some(owned(path));
        self.project = Some(project);
    }

    /// The open project, or the message saying that none is open.
    pub fn require_project(&self) -> (r: Result<&Project, String>)
        ensures
            match self.project {
                Some(p) => r matches Ok(q) && *q == p,
                None => r matches Err(m) && m@ == no_project_text(),
            },
    {
        match &self.project {
            Some(p) => Ok(p),
            None => Err(owned("No hay ningún proyecto abierto. Usa `vedit project open <path>`")),
        }
    }

    /// The open project to change in place, or the message saying that none is open.
    pub fn require_project_mut(&mut self) -> (r: Result<&mut Project, String>)
        ensures
            match old(self).project {
                Some(p) => {
                    &&& r is Ok
                    &&& *r->Ok_0 == p
                    &&& final(self).project == Some(*final(r->Ok_0))
                    &&& final(self).project_path == old(self).project_path
                },
                None => (r matches Err(m) && m@ == no_project_text()) && *final(self) == *old(self),
            },
    {
        match &mut self.project {
            Some(p) => Ok(p),
            None => Err(owned("No hay ningún proyecto abierto. Usa `vedit project open <path>`")),
        }
    }
}

impl Default for AppContext {
    fn default() -> (r: Self)
        ensures
            r.project is None,
            r.project_path is None,
    {
        AppContext::new()
    }
}

} // verus!
