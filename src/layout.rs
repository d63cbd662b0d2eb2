//! Remote layout: every remote path of a project is a pure function of the
//! root directory and the project name.
use vstd::prelude::*;

verus! {

/// Root directory of all projects on the remote host.
pub const HMD_ROOT: &'static str = "~/.hmd";

/// `a/b`.
pub open spec fn path_join(a: Seq<char>, b: Seq<char>) -> Seq<char> {
    a + seq!['/'] + b
}

/// Builds `a/b`.
pub fn join_path(a: &str, b: &str) -> (r: String)
    ensures
        r@ == path_join(a@, b@),
{
    let mut r = String::from_str(a);
    r.append("/");
    r.append(b);
    proof {
        reveal_strlit("/");
    }
    r
}

/// The directory of `project` under `root`.
pub open spec fn project_dir_of(root: Seq<char>, project: Seq<char>) -> Seq<char> {
    path_join(root, project)
}

/// The bare repository of `project` under `root`.
pub open spec fn git_dir_of(root: Seq<char>, project: Seq<char>) -> Seq<char> {
    path_join(project_dir_of(root, project), "git"@)
}

/// The work tree of `project` under `root`, where the pipeline runs and keeps
/// its pid file and logs.
pub open spec fn work_tree_of(root: Seq<char>, project: Seq<char>) -> Seq<char> {
    path_join(project_dir_of(root, project), "work-tree"@)
}

/// The remote paths of one project, and the address of its host.
pub struct Env {
    pub project: String,
    pub ssh_address: String,
    pub project_dir: String,
    pub git_dir: String,
    pub work_tree: String,
}

impl Env {
    pub const OUT_LOG: &'static str = "out.log";
    pub const PIPELINE_PID: &'static str = "pipeline.pid";
    pub const PIPELINE_SH: &'static str = "pipeline.sh";
    pub const STATUS_LOG: &'static str = "status.log";

    /// The layout of `project` under `root`, on the host `ssh_address`.
    pub open spec fn laid_out(self, root: Seq<char>, project: Seq<char>, ssh_address: Seq<char>) -> bool {
        &&& self.project@ == project
        &&& self.ssh_address@ == ssh_address
        &&& self.project_dir@ == project_dir_of(root, project)
        &&& self.git_dir@ == git_dir_of(root, project)
        &&& self.work_tree@ == work_tree_of(root, project)
    }

    /// Lays out `project` under an explicit root directory.
    pub fn under_root(root: &str, project: &str, ssh_address: &str) -> (r: Env)
        ensures
            r.laid_out(root@, project@, ssh_address@),
    {
        let project_dir = join_path(root, project);
        let git_dir = join_path(project_dir.as_str(), "git");
        let work_tree = join_path(project_dir.as_str(), "work-tree");
        Env {
            ssh_address: String::from_str(ssh_address),
            project: String::from_str(project),
            project_dir,
            git_dir,
            work_tree,
        }
    }

    /// Lays out `project` under the default root directory.
    pub fn new(project: &str, ssh_address: &str) -> (r: Env)
        ensures
            r.laid_out(HMD_ROOT@, project@, ssh_address@),
    {
        Env::under_root(HMD_ROOT, project, ssh_address)
    }

    pub fn out_log(&self) -> (r: String)
        ensures
            r@ == path_join(self.work_tree@, Self::OUT_LOG@),
    {
        join_path(self.work_tree.as_str(), Self::OUT_LOG)
    }

    pub fn status_log(&self) -> (r: String)
        ensures
            r@ == path_join(self.work_tree@, Self::STATUS_LOG@),
    {
        join_path(self.work_tree.as_str(), Self::STATUS_LOG)
    }

    pub fn pipeline_pid(&self) -> (r: String)
        ensures
            r@ == path_join(self.work_tree@, Self::PIPELINE_PID@),
    {
        join_path(self.work_tree.as_str(), Self::PIPELINE_PID)
    }
}

} // verus!
