use vstd::prelude::*;
use vstd::string::*;

verus! {

/// The inputs of one deployment run: the project to clone, the server that
/// receives the bare copy, and the name of the local working directory in
/// which the new remote is registered and pushed.
///
/// The request is built once from the command line and is immutable for the
/// run's duration; every step reads it, none changes it.
pub struct DeploymentRequest {
    pub project: String,
    pub server: String,
    pub remote: String,
}

impl DeploymentRequest {
    /// The one literal guard of the tool: a run whose project argument is
    /// `"."` would clone — and later remove — the current working directory,
    /// so it is refused before any step runs.
    pub open spec fn names_current_dir(self) -> bool {
        self.project@ == "."@
    }

    /// A request with the default remote directory name, `origin`.
    pub fn new(project: String, server: String) -> (r: DeploymentRequest)
        ensures
            r.project@ == project@,
            r.server@ == server@,
            r.remote@ == "origin"@,
    {
        DeploymentRequest { project, server, remote: String::from_str("origin") }
    }

    /// A request with an explicit remote directory name.
    pub fn with_remote(project: String, server: String, remote: String) -> (r: DeploymentRequest)
        ensures
            r.project@ == project@,
            r.server@ == server@,
            r.remote@ == remote@,
    {
        DeploymentRequest { project, server, remote }
    }

    /// Tests the guard: true exactly when the project argument is `"."`.
    pub fn is_current_dir(&self) -> (r: bool)
        ensures
            r == self.names_current_dir(),
    {
        let dot = String::from_str(".");
        self.project == dot
    }
}

} // verus!
