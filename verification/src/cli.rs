use vstd::prelude::*;
use vstd::string::StringExecFns;

use crate::commands::Command;
use crate::envs::Environment;
use crate::projects::Project;

verus! {

/// What `str::to_lowercase` returns; the result depends on the characters
/// of the input alone.
pub uninterp spec fn lower_of(s: Seq<char>) -> Seq<char>;

/// Relies on str::to_lowercase: the lowercase equivalent of the input,
/// determined by the input's characters alone.
#[verifier::external_body]
fn to_lower(s: &str) -> (r: String)
    ensures
        r@ == lower_of(s@),
{
    s.to_lowercase()
}

/// The remote namespace for a project in an environment:
/// `project/environment`, both lowercase.
pub open spec fn spec_remote_prefix(p: Project, e: Environment) -> Seq<char> {
    p.label() + "/"@ + e.label()
}

/// The local cache directory mirroring [`spec_remote_prefix`] under
/// `root/conf`, with the root folded to lowercase.
pub open spec fn spec_local_prefix(root: Seq<char>, p: Project, e: Environment) -> Seq<char> {
    lower_of(root) + "/conf/"@ + spec_remote_prefix(p, e)
}

/// One fully resolved invocation: the project and environment that pick the
/// namespace, and the validated command to run in it.
#[derive(Debug)]
pub struct CliConfig {
    project: Project,
    env: Environment,
    pub cmd: Command,
}

impl CliConfig {
    pub closed spec fn spec_project(&self) -> Project {
        self.project
    }

    pub closed spec fn spec_env(&self) -> Environment {
        self.env
    }

    pub closed spec fn spec_cmd(&self) -> Command {
        self.cmd
    }

    pub fn new(project: Project, env: Environment, cmd: Command) -> (r: Self)
        ensures
            r.spec_project() == project,
            r.spec_env() == env,
            r.spec_cmd() == cmd,
    {
        Self { project, env, cmd }
    }

    /// Same as `s3_path`, but ending with `/`.
    pub fn s3_dir(&self) -> (r: String)
        ensures
            r@ == spec_remote_prefix(self.spec_project(), self.spec_env()) + "/"@,
    {
        let mut dir = self.s3_path();
        dir.append("/");
        dir
    }

    pub fn s3_path(&self) -> (r: String)
        ensures
            r@ == spec_remote_prefix(self.spec_project(), self.spec_env()),
    {
        let mut path = self.project.lower_name();
        path.append("/");
        let env_name = self.env.lower_name();
        path.append(env_name.as_str());
        path
    }

    /// The local cache directory for this project and environment under the
    /// given root; creating the directory on disk is the caller's concern.
    pub fn local_path(&self, root: &str) -> (r: String)
        ensures
            r@ == spec_local_prefix(root@, self.spec_project(), self.spec_env()),
    {
        let mut path = to_lower(root);
        path.append("/conf/");
        let remote = self.s3_path();
        path.append(remote.as_str());
        path
    }
}

} // verus!
