use vstd::prelude::*;
use vstd::string::*;

use crate::request::DeploymentRequest;

verus! {

/// The name of the local bare clone: the project name followed by `.git`.
pub open spec fn bare_dir_spec(project: Seq<char>) -> Seq<char> {
    project + ".git"@
}

/// Where the bare clone is sent: `{server}:{project}.git`.
pub open spec fn transfer_target_spec(project: Seq<char>, server: Seq<char>) -> Seq<char> {
    server + ":"@ + project + ".git"@
}

/// The compound shell command of the final step: inside the working
/// directory named by the remote name, register a remote named after the
/// project that points at the transferred repository, then push `master`
/// to it with upstream tracking.
pub open spec fn push_script_spec(
    project: Seq<char>,
    server: Seq<char>,
    remote: Seq<char>,
) -> Seq<char> {
    "cd "@ + remote + " && git remote add "@ + project + " "@ + transfer_target_spec(
        project,
        server,
    ) + " && git push --set-upstream "@ + remote + " master"@
}

/// The argument vector of the bare-clone step:
/// `git clone --bare {project} {project}.git`.
pub open spec fn is_clone_command(v: Seq<String>, project: Seq<char>) -> bool {
    &&& v.len() == 5
    &&& v[0]@ == "git"@
    &&& v[1]@ == "clone"@
    &&& v[2]@ == "--bare"@
    &&& v[3]@ == project
    &&& v[4]@ == bare_dir_spec(project)
}

/// The argument vector of the remote-copy step:
/// `scp -r {project}.git {server}:{project}.git`.
pub open spec fn is_transfer_command(v: Seq<String>, project: Seq<char>, server: Seq<char>) -> bool {
    &&& v.len() == 4
    &&& v[0]@ == "scp"@
    &&& v[1]@ == "-r"@
    &&& v[2]@ == bare_dir_spec(project)
    &&& v[3]@ == transfer_target_spec(project, server)
}

/// The argument vector of the remote-registration step: a shell runs the
/// compound `cd && git remote add && git push` script in one invocation.
pub open spec fn is_push_command(
    v: Seq<String>,
    project: Seq<char>,
    server: Seq<char>,
    remote: Seq<char>,
) -> bool {
    &&& v.len() == 3
    &&& v[0]@ == "sh"@
    &&& v[1]@ == "-c"@
    &&& v[2]@ == push_script_spec(project, server, remote)
}

/// The remote name chooses only where the push step runs: the push script
/// opens with `cd ` followed by the whole remote name, so the remote
/// registration and the push happen inside that directory. Every other
/// step is untouched by the remote name: the clone and transfer commands
/// and the cleanup target are functions of the project and server alone,
/// as their definitions show.
pub proof fn lemma_push_script_enters_remote_dir(
    project: Seq<char>,
    server: Seq<char>,
    remote: Seq<char>,
)
    ensures
        push_script_spec(project, server, remote).subrange(0, 3) == "cd "@,
        push_script_spec(project, server, remote).subrange(3, 3 + remote.len() as int) == remote,
{
    reveal_strlit("cd ");
    assert(push_script_spec(project, server, remote).subrange(0, 3) =~= "cd "@);
    assert(push_script_spec(project, server, remote).subrange(3, 3 + remote.len() as int)
        =~= remote);
}

/// The name of the local bare clone, `{project}.git`; it is both the clone
/// destination and, later, the directory that the cleanup step removes.
pub fn bare_dir_name(project: &str) -> (r: String)
    ensures
        r@ == bare_dir_spec(project@),
{
    let mut s = project.to_owned();
    s.append(".git");
    s
}

/// The remote-copy destination, `{server}:{project}.git`.
pub fn transfer_target(project: &str, server: &str) -> (r: String)
    ensures
        r@ == transfer_target_spec(project@, server@),
{
    let mut s = server.to_owned();
    s.append(":");
    s.append(project);
    s.append(".git");
    s
}

/// The bare-clone invocation for a request.
pub fn clone_command(req: &DeploymentRequest) -> (r: Vec<String>)
    ensures
        is_clone_command(r@, req.project@),
{
    let mut v: Vec<String> = Vec::new();
    v.push(String::from_str("git"));
    v.push(String::from_str("clone"));
    v.push(String::from_str("--bare"));
    v.push(req.project.clone());
    v.push(bare_dir_name(req.project.as_str()));
    v
}

/// The remote-copy invocation for a request.
pub fn transfer_command(req: &DeploymentRequest) -> (r: Vec<String>)
    ensures
        is_transfer_command(r@, req.project@, req.server@),
{
    let mut v: Vec<String> = Vec::new();
    v.push(String::from_str("scp"));
    v.push(String::from_str("-r"));
    v.push(bare_dir_name(req.project.as_str()));
    v.push(transfer_target(req.project.as_str(), req.server.as_str()));
    v
}

/// The remote-registration-and-push invocation for a request.
pub fn push_command(req: &DeploymentRequest) -> (r: Vec<String>)
    ensures
        is_push_command(r@, req.project@, req.server@, req.remote@),
{
    let mut script = String::from_str("cd ");
    script.append(req.remote.as_str());
    script.append(" && git remote add ");
    script.append(req.project.as_str());
    script.append(" ");
    script.append(req.server.as_str());
    script.append(":");
    script.append(req.project.as_str());
    script.append(".git");
    script.append(" && git push --set-upstream ");
    script.append(req.remote.as_str());
    script.append(" master");
    proof {
        assert(script@ =~= push_script_spec(req.project@, req.server@, req.remote@));
    }
    let mut v: Vec<String> = Vec::new();
    v.push(String::from_str("sh"));
    v.push(String::from_str("-c"));
    v.push(script);
    v
}

} // verus!
