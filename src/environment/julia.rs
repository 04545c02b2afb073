//! A Julia project.
use vstd::prelude::*;

use super::{Folder, InstallPlan, InstallPlanView, JULIA_PROJECT};
use crate::command::{Invocation, InvocationView};

verus! {

#[derive(Debug)]
pub struct Julia {
    path: String,
}

impl View for Julia {
    type V = Seq<char>;

    closed spec fn view(&self) -> Seq<char> {
        self.path@
    }
}

impl Julia {
    /// The environment of `dir`, when it holds a `Project.toml`.
    pub fn new(dir: &Folder) -> (r: Result<Self, ()>)
        ensures
            r is Ok <==> dir.files.deep_view().contains(JULIA_PROJECT@),
            r matches Ok(j) ==> j@ == dir.path@,
    {
        if dir.has_file(JULIA_PROJECT) {
            return Ok(Julia { path: dir.path.clone() });
        }
        Err(())
    }

    pub fn path(&self) -> (r: &String)
        ensures
            r@ == self@,
    {
        &self.path
    }

    /// Instantiates the project's packages, without startup customisation.
    pub open spec fn install_spec(&self) -> InstallPlanView {
        InstallPlanView {
            remove_first: None,
            command: InvocationView {
                program: "julia"@,
                args: seq![
                    "--startup-file=no"@,
                    "--project"@,
                    "--eval"@,
                    "using Pkg; Pkg.instantiate()"@,
                ],
                current_dir: Some(self@),
                inherit_env: true,
                envs: seq![],
            },
        }
    }

    pub fn install(&self) -> (r: InstallPlan)
        ensures
            r@ == self.install_spec(),
    {
        let mut cmd = Invocation::new("julia");
        cmd.current_dir(self.path.as_str());
        cmd.arg("--startup-file=no");
        cmd.arg("--project");
        cmd.arg("--eval");
        cmd.arg("using Pkg; Pkg.instantiate()");
        proof {
            assert(cmd@.args =~= seq![
                "--startup-file=no"@,
                "--project"@,
                "--eval"@,
                "using Pkg; Pkg.instantiate()"@,
            ]);
        }
        InstallPlan { remove_first: None, command: cmd }
    }

    /// `cmd`, run from the folder with the project active and the load path
    /// restricted to it.
    pub open spec fn with_env_spec(&self, cmd: InvocationView) -> InvocationView {
        InvocationView {
            current_dir: Some(self@),
            envs: cmd.envs + seq![
                ("JULIA_PROJECT"@, Some(self@)),
                ("JULIA_LOAD_PATH"@, Some("@"@)),
            ],
            ..cmd
        }
    }

    pub fn with_env(&self, cmd: Invocation) -> (r: Invocation)
        ensures
            r@ == self.with_env_spec(cmd@),
    {
        let mut cmd = cmd;
        let ghost start = cmd@;
        cmd.env("JULIA_PROJECT", self.path.as_str());
        cmd.env("JULIA_LOAD_PATH", "@");
        cmd.current_dir(self.path.as_str());
        proof {
            assert(cmd@.envs =~= start.envs + seq![
                ("JULIA_PROJECT"@, Some(self@)),
                ("JULIA_LOAD_PATH"@, Some("@"@)),
            ]);
        }
        cmd
    }
}

} // verus!
