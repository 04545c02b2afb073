//! A Conda environment, kept in a `.conda` directory inside the folder.
use vstd::prelude::*;

use super::{env_minimal, minimal_envs, Folder, Host, InstallPlan, InstallPlanView, CONDA_DESCRIPTOR};
use crate::command::{Invocation, InvocationView};
use crate::paths::{join_path, join_spec};

verus! {

/// Where, relative to the folder, the environment is created.
pub const CONDA_PREFIX: &'static str = ".conda";

/// The directory that `conda env create --prefix <p> ...` creates: `p`,
/// taken from the working directory.
pub open spec fn created_dir(cmd: InvocationView) -> Option<Seq<char>> {
    if cmd.args.len() >= 4 && cmd.args.take(3) == seq!["env"@, "create"@, "--prefix"@]
        && cmd.current_dir is Some {
        Some(join_spec(cmd.current_dir->Some_0, cmd.args[3]))
    } else {
        None
    }
}

/// The environment directories after `plan` runs, each mapped to the
/// descriptor it was made from: `remove_first` is removed, then the command
/// creates its directory from `descriptor`, unless that directory still
/// exists (creation refuses an existing prefix).
pub open spec fn run_install(
    dirs: Map<Seq<char>, Seq<char>>,
    plan: InstallPlanView,
    descriptor: Seq<char>,
) -> Map<Seq<char>, Seq<char>> {
    let cleared = match plan.remove_first {
        Some(d) => dirs.remove(d),
        None => dirs,
    };
    match created_dir(plan.command) {
        Some(p) => if cleared.contains_key(p) {
            cleared
        } else {
            cleared.insert(p, descriptor)
        },
        None => cleared,
    }
}

#[derive(Debug)]
pub struct Conda {
    path: String,
}

impl View for Conda {
    type V = Seq<char>;

    closed spec fn view(&self) -> Seq<char> {
        self.path@
    }
}

impl Conda {
    /// The environment of `dir`, when it holds an `environment.yml`.
    pub fn new(dir: &Folder) -> (r: Result<Self, ()>)
        ensures
            r is Ok <==> dir.files.deep_view().contains(CONDA_DESCRIPTOR@),
            r matches Ok(c) ==> c@ == dir.path@,
    {
        let env = Conda { path: dir.path.clone() };
        if dir.has_file(CONDA_DESCRIPTOR) {
            return Ok(env);
        }
        Err(())
    }

    pub fn path(&self) -> (r: &String)
        ensures
            r@ == self@,
    {
        &self.path
    }

    /// Removes an earlier environment directory, then creates the environment
    /// anew from the descriptor.
    pub open spec fn install_spec(&self, host: &Host) -> InstallPlanView {
        InstallPlanView {
            remove_first: Some(join_spec(self@, CONDA_PREFIX@)),
            command: InvocationView {
                program: "conda"@,
                args: seq![
                    "env"@,
                    "create"@,
                    "--prefix"@,
                    CONDA_PREFIX@,
                    "--file"@,
                    CONDA_DESCRIPTOR@,
                ],
                current_dir: Some(self@),
                inherit_env: false,
                envs: minimal_envs(host),
            },
        }
    }

    /// The environment's directory.
    pub open spec fn env_dir(&self) -> Seq<char> {
        join_spec(self@, CONDA_PREFIX@)
    }

    pub fn install(&self, host: &Host) -> (r: InstallPlan)
        ensures
            r@ == self.install_spec(host),
    {
        let mut cmd = env_minimal("conda", host);
        cmd.current_dir(self.path.as_str());
        cmd.arg("env");
        cmd.arg("create");
        cmd.arg("--prefix");
        cmd.arg(CONDA_PREFIX);
        cmd.arg("--file");
        cmd.arg(CONDA_DESCRIPTOR);
        proof {
            assert(cmd@.args =~= seq![
                "env"@,
                "create"@,
                "--prefix"@,
                CONDA_PREFIX@,
                "--file"@,
                CONDA_DESCRIPTOR@,
            ]);
        }
        let old_env = join_path(self.path.as_str(), CONDA_PREFIX);
        InstallPlan { remove_first: Some(old_env), command: cmd }
    }

    /// `cmd`, run by `conda run` inside the environment, from the folder, with
    /// a minimal environment and the settings of `cmd` repeated on top.
    pub open spec fn with_env_spec(&self, cmd: InvocationView, host: &Host) -> InvocationView {
        InvocationView {
            program: "conda"@,
            args: seq!["run"@, "--prefix"@, CONDA_PREFIX@, "--live-stream"@, cmd.program]
                + cmd.args,
            current_dir: Some(self@),
            inherit_env: false,
            envs: minimal_envs(host) + cmd.envs,
        }
    }

    pub fn with_env(&self, cmd: Invocation, host: &Host) -> (r: Invocation)
        ensures
            r@ == self.with_env_spec(cmd@, host),
    {
        let mut conda_cmd = env_minimal("conda", host);
        conda_cmd.current_dir(self.path.as_str());
        conda_cmd.arg("run");
        conda_cmd.arg("--prefix");
        conda_cmd.arg(CONDA_PREFIX);
        conda_cmd.arg("--live-stream");
        conda_cmd.arg(cmd.program.as_str());
        conda_cmd.args(&cmd.args);
        conda_cmd.with_envs(&cmd);
        proof {
            assert(conda_cmd@.args =~= seq![
                "run"@,
                "--prefix"@,
                CONDA_PREFIX@,
                "--live-stream"@,
                cmd.program@,
            ] + cmd@.args);
        }
        conda_cmd
    }
}

/// Installing a Conda environment twice in a row leaves exactly one
/// environment directory for it, made from the second descriptor, whatever
/// existed before: each install removes the directory it then creates.
pub proof fn lemma_conda_reinstall(
    c: &Conda,
    host: &Host,
    dirs: Map<Seq<char>, Seq<char>>,
    first: Seq<char>,
    second: Seq<char>,
)
    ensures
        ({
            let plan = c.install_spec(host);
            let after = run_install(run_install(dirs, plan, first), plan, second);
            &&& after.contains_key(c.env_dir())
            &&& after[c.env_dir()] == second
            &&& after.dom() == dirs.dom().insert(c.env_dir())
            &&& forall|d: Seq<char>| d != c.env_dir() && #[trigger] dirs.contains_key(d) ==> after[d] == dirs[d]
        }),
{
    let plan = c.install_spec(host);
    let p = c.env_dir();
    assert(plan.command.args.take(3) =~= seq!["env"@, "create"@, "--prefix"@]);
    assert(created_dir(plan.command) == Some(p));
    let once = run_install(dirs, plan, first);
    assert(once == dirs.remove(p).insert(p, first));
    assert(once.remove(p) =~= dirs.remove(p));
    let twice = run_install(once, plan, second);
    assert(twice == dirs.remove(p).insert(p, second));
    assert(twice.dom() =~= dirs.dom().insert(p));
}

} // verus!
