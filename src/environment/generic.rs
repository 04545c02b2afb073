//! A folder whose `install.sh` script sets up its dependencies.
use vstd::prelude::*;

use super::{Folder, InstallPlan, InstallPlanView, INSTALL_SCRIPT};
use crate::command::{Invocation, InvocationView};
use crate::paths::{join_path, join_spec};

verus! {

#[derive(Debug)]
pub struct Generic {
    path: String,
}

impl View for Generic {
    type V = Seq<char>;

    closed spec fn view(&self) -> Seq<char> {
        self.path@
    }
}

impl Generic {
    /// The environment of `dir`, when it holds an install script.
    pub fn new(dir: &Folder) -> (r: Result<Self, ()>)
        ensures
            r is Ok <==> dir.files.deep_view().contains(INSTALL_SCRIPT@),
            r matches Ok(g) ==> g@ == dir.path@,
    {
        if dir.has_file(INSTALL_SCRIPT) {
            return Ok(Generic { path: dir.path.clone() });
        }
        Err(())
    }

    pub fn path(&self) -> (r: &String)
        ensures
            r@ == self@,
    {
        &self.path
    }

    /// Runs the install script with `bash`, from the folder.
    pub open spec fn install_spec(&self) -> InstallPlanView {
        InstallPlanView {
            remove_first: None,
            command: InvocationView {
                program: "bash"@,
                args: seq![join_spec(self@, INSTALL_SCRIPT@)],
                current_dir: Some(self@),
                inherit_env: true,
                envs: seq![],
            },
        }
    }

    pub fn install(&self) -> (r: InstallPlan)
        ensures
            r@ == self.install_spec(),
    {
        let mut cmd = Invocation::new("bash");
        cmd.current_dir(self.path.as_str());
        let script = join_path(self.path.as_str(), INSTALL_SCRIPT);
        cmd.arg(script.as_str());
        InstallPlan { remove_first: None, command: cmd }
    }

    /// `cmd`, run from the folder with an empty environment.
    pub open spec fn with_env_spec(&self, cmd: InvocationView) -> InvocationView {
        InvocationView { current_dir: Some(self@), inherit_env: false, envs: seq![], ..cmd }
    }

    pub fn with_env(&self, cmd: Invocation) -> (r: Invocation)
        ensures
            r@ == self.with_env_spec(cmd@),
    {
        let mut cmd = cmd;
        cmd.current_dir(self.path.as_str());
        cmd.env_clear();
        cmd
    }
}

} // verus!
