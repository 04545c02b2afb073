//! A Spack environment, described by a `spack.yaml` (or `spack.yml`).
use vstd::prelude::*;

use super::{has_yaml, yaml_spec, Folder, Host, InstallPlan, InstallPlanView, ToolMissing, SPACK_DESCRIPTOR};
use crate::command::{Invocation, InvocationView};
use crate::matching::{capture_group, group_of};
use crate::paths::{pop_path, pop_spec};
use crate::text::{lines_of, split_lines};

verus! {

/// An assignment in the shell code that `spack env activate --sh` prints.
pub const EXPORT_PATTERN: &'static str = "export (\\S+)=(\\S*);";

/// The search path that the activation runs with.
pub const SYSTEM_PATH: &'static str = "/usr/local/bin:/usr/bin:/bin";

/// The assignments, in order, that the export lines among `lines` make.
pub open spec fn exports(lines: Seq<Seq<char>>) -> Seq<(Seq<char>, Seq<char>)>
    decreases lines.len(),
{
    if lines.len() == 0 {
        seq![]
    } else {
        let prev = exports(lines.drop_last());
        let line = lines.last();
        match (group_of(EXPORT_PATTERN@, line, 1), group_of(EXPORT_PATTERN@, line, 2)) {
            (Some(k), Some(v)) => prev.push((k, v)),
            _ => prev,
        }
    }
}

/// `vars`, then `SPACK_ROOT`: the directory two levels above the `spack`
/// executable.
pub open spec fn with_root_spec(vars: Seq<(Seq<char>, Seq<char>)>, spack: Seq<char>) -> Seq<
    (Seq<char>, Seq<char>),
> {
    vars.push(("SPACK_ROOT"@, pop_spec(pop_spec(spack))))
}

/// The variables of the environment: those that the activation output
/// exports, then `SPACK_ROOT`.
pub open spec fn spack_env_spec(output: Seq<char>, spack: Seq<char>) -> Seq<
    (Seq<char>, Seq<char>),
> {
    with_root_spec(exports(lines_of(output)), spack)
}

/// The exported variables `vars`, then `SPACK_ROOT`.
pub fn with_spack_root(vars: Vec<(String, String)>, spack: &str) -> (r: Vec<(String, String)>)
    ensures
        r.deep_view() == with_root_spec(vars.deep_view(), spack@),
{
    let mut env = vars;
    let root = pop_path(pop_path(spack).as_str());
    let ghost before = env.deep_view();
    env.push((String::from_str("SPACK_ROOT"), root));
    proof {
        assert(env.deep_view() =~= before.push(("SPACK_ROOT"@, pop_spec(pop_spec(spack@)))));
    }
    env
}

/// Each variable as a setting of its value.
pub open spec fn as_settings(vars: Seq<(Seq<char>, Seq<char>)>) -> Seq<
    (Seq<char>, Option<Seq<char>>),
> {
    vars.map_values(|p: (Seq<char>, Seq<char>)| (p.0, Some(p.1)))
}

#[derive(Debug)]
pub struct Spack {
    path: String,
}

impl View for Spack {
    type V = Seq<char>;

    closed spec fn view(&self) -> Seq<char> {
        self.path@
    }
}

impl Spack {
    /// The environment of `dir`, when it holds a Spack descriptor.
    pub fn new(dir: &Folder) -> (r: Result<Self, ()>)
        ensures
            r is Ok <==> yaml_spec(dir.files.deep_view(), SPACK_DESCRIPTOR@) is Some,
            r matches Ok(s) ==> s@ == dir.path@,
    {
        if let Ok(_) = has_yaml(dir, SPACK_DESCRIPTOR) {
            return Ok(Spack { path: dir.path.clone() });
        } else {
            return Err(());
        }
    }

    pub fn path(&self) -> (r: &String)
        ensures
            r@ == self@,
    {
        &self.path
    }

    /// Prints, as shell code, the variables that activate the environment.
    pub open spec fn activation_spec(&self, spack: Seq<char>) -> InvocationView {
        InvocationView {
            program: spack,
            args: seq!["env"@, "activate"@, "--sh"@, "--dir"@, "."@],
            current_dir: Some(self@),
            inherit_env: false,
            envs: seq![("PATH"@, Some(SYSTEM_PATH@))],
        }
    }

    /// The command whose output `with_env` reads.
    pub fn activation(&self, host: &Host) -> (r: Result<Invocation, ToolMissing>)
        ensures
            match host.spack {
                Some(spack) => r matches Ok(c) && c@ == self.activation_spec(spack@),
                None => r == Err::<Invocation, ToolMissing>(ToolMissing::Spack),
            },
    {
        match &host.spack {
            Some(spack) => {
                let mut cmd = Invocation::new(spack.as_str());
                cmd.env_clear();
                cmd.env("PATH", SYSTEM_PATH);
                cmd.current_dir(self.path.as_str());
                cmd.arg("env");
                cmd.arg("activate");
                cmd.arg("--sh");
                cmd.arg("--dir");
                cmd.arg(".");
                proof {
                    assert(cmd@.args =~= seq!["env"@, "activate"@, "--sh"@, "--dir"@, "."@]);
                    assert(cmd@.envs =~= seq![("PATH"@, Some(SYSTEM_PATH@))]);
                }
                Ok(cmd)
            },
            None => Err(ToolMissing::Spack),
        }
    }

    /// The variables of the environment, read from the output of its
    /// activation, given where the `spack` executable is.
    pub fn spack_env(&self, activation_output: &str, spack: &str) -> (r: Vec<(String, String)>)
        ensures
            r.deep_view() == spack_env_spec(activation_output@, spack@),
    {
        let lines = split_lines(activation_output);
        let ghost all = lines.deep_view();
        let mut env: Vec<(String, String)> = Vec::new();
        let mut i: usize = 0;
        while i < lines.len()
            invariant
                i <= lines.len(),
                all == lines.deep_view(),
                all == lines_of(activation_output@),
                env.deep_view() == exports(all.take(i as int)),
            decreases lines.len() - i,
        {
            let line = lines[i].as_str();
            proof {
                assert(all.take(i + 1).drop_last() =~= all.take(i as int));
                assert(all.take(i + 1).last() == line@);
            }
            let key = capture_group(EXPORT_PATTERN, line, 1);
            let value = capture_group(EXPORT_PATTERN, line, 2);
            match (key, value) {
                (Some(k), Some(v)) => {
                    let ghost before = env.deep_view();
                    env.push((k, v));
                    proof {
                        assert(env.deep_view() =~= before.push((k@, v@)));
                    }
                },
                _ => {},
            }
            i = i + 1;
        }
        proof {
            assert(all.take(lines.len() as int) =~= all);
        }
        with_spack_root(env, spack)
    }

    /// Installs the environment's packages.
    pub open spec fn install_spec(&self, spack: Seq<char>) -> InstallPlanView {
        InstallPlanView {
            remove_first: None,
            command: InvocationView {
                program: spack,
                args: seq!["-e"@, self@, "install"@],
                current_dir: None,
                inherit_env: true,
                envs: seq![],
            },
        }
    }

    pub fn install(&self, host: &Host) -> (r: Result<InstallPlan, ToolMissing>)
        ensures
            match host.spack {
                Some(spack) => r matches Ok(p) && p@ == self.install_spec(spack@),
                None => r == Err::<InstallPlan, ToolMissing>(ToolMissing::Spack),
            },
    {
        match &host.spack {
            Some(spack) => {
                let mut cmd = Invocation::new(spack.as_str());
                cmd.arg("-e");
                cmd.arg(self.path.as_str());
                cmd.arg("install");
                proof {
                    assert(cmd@.args =~= seq!["-e"@, self@, "install"@]);
                }
                Ok(InstallPlan { remove_first: None, command: cmd })
            },
            None => Err(ToolMissing::Spack),
        }
    }

    /// `cmd`, run from the folder with only the environment's variables, and
    /// the settings of `cmd` repeated on top.
    pub open spec fn with_env_spec(
        &self,
        cmd: InvocationView,
        activation_output: Seq<char>,
        spack: Seq<char>,
    ) -> InvocationView {
        InvocationView {
            current_dir: Some(self@),
            inherit_env: false,
            envs: as_settings(spack_env_spec(activation_output, spack)) + cmd.envs,
            ..cmd
        }
    }

    /// `cmd` inside the environment, given what its activation printed.
    pub fn with_env(&self, cmd: Invocation, host: &Host, activation_output: &str) -> (r: Result<
        Invocation,
        ToolMissing,
    >)
        ensures
            match host.spack {
                Some(spack) => r matches Ok(c) && c@ == self.with_env_spec(
                    cmd@,
                    activation_output@,
                    spack@,
                ),
                None => r == Err::<Invocation, ToolMissing>(ToolMissing::Spack),
            },
    {
        let spack = match &host.spack {
            Some(s) => s,
            None => {
                return Err(ToolMissing::Spack);
            },
        };
        let vars = self.spack_env(activation_output, spack.as_str());
        let mut spack_cmd = Invocation::new(cmd.program.as_str());
        spack_cmd.current_dir(self.path.as_str());
        spack_cmd.env_clear();
        proof {
            assert(as_settings(vars.deep_view().take(0)) =~= seq![]);
        }
        let mut i: usize = 0;
        while i < vars.len()
            invariant
                i <= vars.len(),
                spack_cmd@ == (InvocationView {
                    program: cmd@.program,
                    args: seq![],
                    current_dir: Some(self@),
                    inherit_env: false,
                    envs: as_settings(vars.deep_view().take(i as int)),
                }),
            decreases vars.len() - i,
        {
            let ghost before = spack_cmd@.envs;
            spack_cmd.env(vars[i].0.as_str(), vars[i].1.as_str());
            proof {
                assert(as_settings(vars.deep_view().take(i + 1)) =~= before.push(
                    (vars[i as int].0@, Some(vars[i as int].1@)),
                ));
            }
            i = i + 1;
        }
        proof {
            assert(vars.deep_view().take(vars.len() as int) =~= vars.deep_view());
        }
        spack_cmd.args(&cmd.args);
        spack_cmd.with_envs(&cmd);
        proof {
            assert(seq![] + cmd@.args =~= cmd@.args);
        }
        Ok(spack_cmd)
    }
}

} // verus!
