//! A container image, built by `apptainer` (or `singularity`) from a
//! definition file in the folder.
use vstd::prelude::*;

use super::{
    definition_name, image_name, Folder, Host, InstallPlan, InstallPlanView, ToolMissing,
    APPTAINER_STEM, SINGULARITY_STEM,
};
use crate::command::{Invocation, InvocationView};
use crate::paths::{join_path, join_spec};

verus! {

/// The stem of the definition file that `files` holds, if any.
pub open spec fn stem_spec(files: Seq<Seq<char>>) -> Option<Seq<char>> {
    if files.contains(definition_name(APPTAINER_STEM@)) {
        Some(APPTAINER_STEM@)
    } else if files.contains(definition_name(SINGULARITY_STEM@)) {
        Some(SINGULARITY_STEM@)
    } else {
        None
    }
}

/// The container tool to use: `apptainer` where found, else `singularity`.
pub fn apptainer(found_apptainer: Option<String>, found_singularity: Option<String>) -> (r: Option<
    String,
>)
    ensures
        r.deep_view() == (if found_apptainer is Some {
            found_apptainer.deep_view()
        } else {
            found_singularity.deep_view()
        }),
{
    if let Some(path) = found_apptainer {
        return Some(path);
    }
    if let Some(path) = found_singularity {
        return Some(path);
    }
    None
}

#[derive(Debug)]
pub struct Apptainer {
    path: String,
    definition: String,
    image: String,
}

pub struct ApptainerView {
    pub path: Seq<char>,
    pub definition: Seq<char>,
    pub image: Seq<char>,
}

impl View for Apptainer {
    type V = ApptainerView;

    closed spec fn view(&self) -> ApptainerView {
        ApptainerView { path: self.path@, definition: self.definition@, image: self.image@ }
    }
}

impl Apptainer {
    /// The environment of `dir`, when it holds a container definition.
    pub fn new(dir: &Folder) -> (r: Result<Self, ()>)
        ensures
            match stem_spec(dir.files.deep_view()) {
                Some(stem) => r matches Ok(a) && a@ == (ApptainerView {
                    path: dir.path@,
                    definition: join_spec(dir.path@, definition_name(stem)),
                    image: join_spec(dir.path@, image_name(stem)),
                }),
                None => r is Err,
            },
    {
        let stem = if dir.has_file(String::from_str(APPTAINER_STEM).concat(".def").as_str()) {
            APPTAINER_STEM
        } else if dir.has_file(String::from_str(SINGULARITY_STEM).concat(".def").as_str()) {
            SINGULARITY_STEM
        } else {
            return Err(());
        };
        let definition = String::from_str(stem).concat(".def");
        let image = String::from_str(stem).concat(".sif");
        Ok(
            Apptainer {
                path: dir.path.clone(),
                definition: join_path(dir.path.as_str(), definition.as_str()),
                image: join_path(dir.path.as_str(), image.as_str()),
            },
        )
    }

    pub fn path(&self) -> (r: &String)
        ensures
            r@ == self@.path,
    {
        &self.path
    }

    /// Where the image built from the definition goes.
    pub fn get_image(&self) -> (r: String)
        ensures
            r@ == self@.image,
    {
        self.image.clone()
    }

    /// Builds the image from the definition.
    pub open spec fn install_spec(&self, tool: Seq<char>) -> InstallPlanView {
        InstallPlanView {
            remove_first: None,
            command: InvocationView {
                program: tool,
                args: seq!["build"@, self@.image, self@.definition],
                current_dir: None,
                inherit_env: true,
                envs: seq![],
            },
        }
    }

    pub fn install(&self, host: &Host) -> (r: Result<InstallPlan, ToolMissing>)
        ensures
            match host.container_tool {
                Some(tool) => r matches Ok(p) && p@ == self.install_spec(tool@),
                None => r == Err::<InstallPlan, ToolMissing>(ToolMissing::Container),
            },
    {
        match &host.container_tool {
            Some(tool) => {
                let mut cmd = Invocation::new(tool.as_str());
                cmd.arg("build");
                cmd.arg(self.image.as_str());
                cmd.arg(self.definition.as_str());
                proof {
                    assert(cmd@.args =~= seq!["build"@, self@.image, self@.definition]);
                }
                Ok(InstallPlan { remove_first: None, command: cmd })
            },
            None => Err(ToolMissing::Container),
        }
    }

    /// `cmd` run inside the image, without the home directory and with the
    /// GPUs; the working directory and environment of `cmd` are kept.
    pub open spec fn with_env_spec(&self, cmd: InvocationView, tool: Seq<char>) -> InvocationView {
        InvocationView {
            program: tool,
            args: seq!["run"@, "--no-home"@, "--nv"@, self@.image, cmd.program] + cmd.args,
            ..cmd
        }
    }

    pub fn with_env(&self, cmd: Invocation, host: &Host) -> (r: Result<Invocation, ToolMissing>)
        ensures
            match host.container_tool {
                Some(tool) => r matches Ok(c) && c@ == self.with_env_spec(cmd@, tool@),
                None => r == Err::<Invocation, ToolMissing>(ToolMissing::Container),
            },
    {
        let tool = match &host.container_tool {
            Some(t) => t,
            None => {
                return Err(ToolMissing::Container);
            },
        };
        let mut cmd_env = Invocation::new(tool.as_str());
        match &cmd.current_dir {
            Some(cwd) => cmd_env.current_dir(cwd.as_str()),
            None => {},
        }
        if !cmd.inherit_env {
            cmd_env.env_clear();
        }
        cmd_env.arg("run");
        cmd_env.arg("--no-home");
        cmd_env.arg("--nv");
        cmd_env.arg(self.image.as_str());
        cmd_env.arg(cmd.program.as_str());
        cmd_env.args(&cmd.args);
        cmd_env.with_envs(&cmd);
        proof {
            assert(cmd_env@.args =~= seq!["run"@, "--no-home"@, "--nv"@, self@.image, cmd@.program]
                + cmd@.args);
            assert(seq![] + cmd@.envs =~= cmd@.envs);
        }
        Ok(cmd_env)
    }
}

} // verus!
