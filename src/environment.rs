//! Detecting a benchmark's environment from the files of its folder, and the
//! pieces that the environment kinds share.
use vstd::prelude::*;

pub mod apptainer;
pub mod conda;
pub mod generic;
pub mod julia;
pub mod spack;

use crate::command::{child_env, Invocation, InvocationView};
use crate::paths::{join_path, join_spec};
use crate::text::{trim, trim_spec};
use apptainer::Apptainer;
use conda::Conda;
use generic::Generic;
use julia::Julia;
use spack::Spack;

verus! {

/// A folder and the names of the regular files directly inside it.
pub struct Folder {
    pub path: String,
    pub files: Vec<String>,
}

impl Folder {
    /// Whether the folder holds a file called `name`.
    pub fn has_file(&self, name: &str) -> (r: bool)
        ensures
            r == self.files.deep_view().contains(name@),
    {
        let target = String::from_str(name);
        let mut i: usize = 0;
        while i < self.files.len()
            invariant
                i <= self.files.len(),
                target@ == name@,
                forall|k: int| 0 <= k < i ==> self.files.deep_view()[k] != name@,
            decreases self.files.len() - i,
        {
            if self.files[i] == target {
                proof {
                    assert(self.files.deep_view()[i as int] == name@);
                }
                return true;
            }
            i = i + 1;
        }
        false
    }
}

/// Marks a folder whose dependencies an `install.sh` script sets up.
pub const INSTALL_SCRIPT: &'static str = "install.sh";

/// Names a Spack environment descriptor, with extension `yaml` or `yml`.
pub const SPACK_DESCRIPTOR: &'static str = "spack";

/// Marks a Julia project.
pub const JULIA_PROJECT: &'static str = "Project.toml";

/// Marks a Conda environment descriptor.
pub const CONDA_DESCRIPTOR: &'static str = "environment.yml";

/// Container build definitions are `<stem>.def`, with these stems in the
/// order they are looked for; the image built from one is `<stem>.sif`.
pub const APPTAINER_STEM: &'static str = "Apptainer";

pub const SINGULARITY_STEM: &'static str = "Singularity";

pub open spec fn definition_name(stem: Seq<char>) -> Seq<char> {
    stem + ".def"@
}

pub open spec fn image_name(stem: Seq<char>) -> Seq<char> {
    stem + ".sif"@
}

/// The kinds of environment, in the order detection tries them.
#[derive(PartialEq, Eq, Structural, Clone, Copy, Debug)]
pub enum Kind {
    Generic,
    Spack,
    Julia,
    Conda,
    Apptainer,
}

/// A kind's place in the detection order.
pub open spec fn rank(kind: Kind) -> int {
    match kind {
        Kind::Generic => 0,
        Kind::Spack => 1,
        Kind::Julia => 2,
        Kind::Conda => 3,
        Kind::Apptainer => 4,
    }
}

pub open spec fn yaml_name(name: Seq<char>) -> Seq<char> {
    name + ".yaml"@
}

pub open spec fn yml_name(name: Seq<char>) -> Seq<char> {
    name + ".yml"@
}

/// Whether a folder holding `files` carries the marker of `kind`.
pub open spec fn detects(kind: Kind, files: Seq<Seq<char>>) -> bool {
    match kind {
        Kind::Generic => files.contains(INSTALL_SCRIPT@),
        Kind::Spack => files.contains(yaml_name(SPACK_DESCRIPTOR@)) || files.contains(
            yml_name(SPACK_DESCRIPTOR@),
        ),
        Kind::Julia => files.contains(JULIA_PROJECT@),
        Kind::Conda => files.contains(CONDA_DESCRIPTOR@),
        Kind::Apptainer => files.contains(definition_name(APPTAINER_STEM@)) || files.contains(
            definition_name(SINGULARITY_STEM@),
        ),
    }
}

/// The first kind, in detection order, whose marker the files carry.
pub open spec fn resolve_spec(files: Seq<Seq<char>>) -> Option<Kind> {
    if detects(Kind::Generic, files) {
        Some(Kind::Generic)
    } else if detects(Kind::Spack, files) {
        Some(Kind::Spack)
    } else if detects(Kind::Julia, files) {
        Some(Kind::Julia)
    } else if detects(Kind::Conda, files) {
        Some(Kind::Conda)
    } else if detects(Kind::Apptainer, files) {
        Some(Kind::Apptainer)
    } else {
        None
    }
}

/// The descriptor `name.yaml`, or else `name.yml`, that `files` holds.
pub open spec fn yaml_spec(files: Seq<Seq<char>>, name: Seq<char>) -> Option<Seq<char>> {
    if files.contains(yaml_name(name)) {
        Some(yaml_name(name))
    } else if files.contains(yml_name(name)) {
        Some(yml_name(name))
    } else {
        None
    }
}

/// The path of the descriptor `name.yaml`, or else `name.yml`, in `dir`.
pub fn has_yaml(dir: &Folder, name: &str) -> (r: Result<String, ()>)
    ensures
        match yaml_spec(dir.files.deep_view(), name@) {
            Some(f) => r matches Ok(p) && p@ == join_spec(dir.path@, f),
            None => r is Err,
        },
{
    let yaml = String::from_str(name).concat(".yaml");
    if dir.has_file(yaml.as_str()) {
        return Ok(join_path(dir.path.as_str(), yaml.as_str()));
    }
    let yml = String::from_str(name).concat(".yml");
    if dir.has_file(yml.as_str()) {
        return Ok(join_path(dir.path.as_str(), yml.as_str()));
    }
    Err(())
}

/// Resolution finds the kinds whose markers a folder carries, and picks the
/// earliest of them in detection order; it finds nothing only where the folder
/// carries no marker.
pub proof fn lemma_resolve_earliest(files: Seq<Seq<char>>)
    ensures
        match resolve_spec(files) {
            Some(k) => detects(k, files) && forall|o: Kind| #[trigger]
                detects(o, files) ==> rank(k) <= rank(o),
            None => forall|o: Kind| !#[trigger] detects(o, files),
        },
{
}

/// A folder that carries the marker of exactly one kind resolves to that kind.
pub proof fn lemma_single_marker(files: Seq<Seq<char>>, k: Kind)
    requires
        detects(k, files),
        forall|o: Kind| o != k ==> !#[trigger] detects(o, files),
    ensures
        resolve_spec(files) == Some(k),
{
    lemma_resolve_earliest(files);
}

/// A folder that carries no marker resolves to nothing.
pub proof fn lemma_no_marker(files: Seq<Seq<char>>)
    requires
        forall|o: Kind| !#[trigger] detects(o, files),
    ensures
        resolve_spec(files) is None,
{
    assert(!detects(Kind::Generic, files));
    assert(!detects(Kind::Spack, files));
    assert(!detects(Kind::Julia, files));
    assert(!detects(Kind::Conda, files));
    assert(!detects(Kind::Apptainer, files));
}

/// The path that `which` printed, when it found the program.
pub fn which(success: bool, stdout: &str) -> (r: Option<String>)
    ensures
        r.deep_view() == (if success {
            Some(trim_spec(stdout@))
        } else {
            None
        }),
{
    if success {
        Some(trim(stdout))
    } else {
        None
    }
}

/// What the machine offers the environments: found by the caller, handed in.
pub struct Host {
    /// The search path given to tools that run with a cleared environment.
    pub path_env: String,
    /// The terminal type to pass on, if the caller has one.
    pub term: Option<String>,
    /// Where the `spack` executable is, if installed.
    pub spack: Option<String>,
    /// Where `apptainer` (or else `singularity`) is, if installed.
    pub container_tool: Option<String>,
}

/// A tool that an environment needs is not installed.
#[derive(PartialEq, Eq, Structural, Clone, Copy, Debug)]
pub enum ToolMissing {
    Spack,
    Container,
}

/// How to install an environment: remove a directory first, if named, then run
/// the command.
pub struct InstallPlan {
    pub remove_first: Option<String>,
    pub command: Invocation,
}

pub struct InstallPlanView {
    pub remove_first: Option<Seq<char>>,
    pub command: InvocationView,
}

impl View for InstallPlan {
    type V = InstallPlanView;

    open spec fn view(&self) -> InstallPlanView {
        InstallPlanView { remove_first: self.remove_first.deep_view(), command: self.command@ }
    }
}

pub open spec fn plan_result_view(r: Result<InstallPlan, ToolMissing>) -> Result<
    InstallPlanView,
    ToolMissing,
> {
    match r {
        Ok(p) => Ok(p@),
        Err(e) => Err(e),
    }
}

pub open spec fn command_result_view(r: Result<Invocation, ToolMissing>) -> Result<
    InvocationView,
    ToolMissing,
> {
    match r {
        Ok(c) => Ok(c@),
        Err(e) => Err(e),
    }
}

/// The only variables a tool run with a minimal environment gets.
pub open spec fn minimal_envs(host: &Host) -> Seq<(Seq<char>, Option<Seq<char>>)> {
    let path = seq![("PATH"@, Some(host.path_env@))];
    match host.term {
        Some(t) => path.push(("TERM"@, Some(t@))),
        None => path,
    }
}

/// `program`, run from a cleared environment that holds only the host's
/// search path and terminal type.
pub fn env_minimal(program: &str, host: &Host) -> (r: Invocation)
    ensures
        r@ == (InvocationView {
            program: program@,
            args: seq![],
            current_dir: None,
            inherit_env: false,
            envs: minimal_envs(host),
        }),
{
    let mut cmd = Invocation::new(program);
    cmd.env_clear();
    cmd.env("PATH", host.path_env.as_str());
    match &host.term {
        Some(t) => cmd.env("TERM", t.as_str()),
        None => {},
    }
    cmd
}


/// A benchmark folder's environment, one variant per kind.
#[derive(Debug)]
pub enum Environment {
    Generic(Generic),
    Spack(Spack),
    Julia(Julia),
    Conda(Conda),
    Apptainer(Apptainer),
}

impl Environment {
    pub open spec fn kind_spec(&self) -> Kind {
        match self {
            Environment::Generic(_) => Kind::Generic,
            Environment::Spack(_) => Kind::Spack,
            Environment::Julia(_) => Kind::Julia,
            Environment::Conda(_) => Kind::Conda,
            Environment::Apptainer(_) => Kind::Apptainer,
        }
    }

    /// The folder the environment belongs to.
    pub open spec fn dir(&self) -> Seq<char> {
        match self {
            Environment::Generic(g) => g@,
            Environment::Spack(s) => s@,
            Environment::Julia(j) => j@,
            Environment::Conda(c) => c@,
            Environment::Apptainer(a) => a@.path,
        }
    }

    pub fn kind(&self) -> (r: Kind)
        ensures
            r == self.kind_spec(),
    {
        match self {
            Environment::Generic(_) => Kind::Generic,
            Environment::Spack(_) => Kind::Spack,
            Environment::Julia(_) => Kind::Julia,
            Environment::Conda(_) => Kind::Conda,
            Environment::Apptainer(_) => Kind::Apptainer,
        }
    }

    pub fn path(&self) -> (r: &String)
        ensures
            r@ == self.dir(),
    {
        match self {
            Environment::Generic(g) => g.path(),
            Environment::Spack(s) => s.path(),
            Environment::Julia(j) => j.path(),
            Environment::Conda(c) => c.path(),
            Environment::Apptainer(a) => a.path(),
        }
    }

    /// The environment of `dir`: that of the first kind, in detection order,
    /// whose marker the folder holds.
    pub fn from_folder(dir: &Folder) -> (r: Result<Self, ()>)
        ensures
            match resolve_spec(dir.files.deep_view()) {
                Some(k) => r matches Ok(e) && e.kind_spec() == k && e.dir() == dir.path@,
                None => r is Err,
            },
    {
        if let Ok(env) = Generic::new(dir) {
            return Ok(Environment::Generic(env));
        } else if let Ok(env) = Spack::new(dir) {
            return Ok(Environment::Spack(env));
        } else if let Ok(env) = Julia::new(dir) {
            return Ok(Environment::Julia(env));
        } else if let Ok(env) = Conda::new(dir) {
            return Ok(Environment::Conda(env));
        } else if let Ok(env) = Apptainer::new(dir) {
            return Ok(Environment::Apptainer(env));
        }
        Err(())
    }

    /// How to install the environment, or the tool that is missing for it.
    pub open spec fn install_spec(&self, host: &Host) -> Result<InstallPlanView, ToolMissing> {
        match self {
            Environment::Generic(g) => Ok(g.install_spec()),
            Environment::Spack(s) => match host.spack {
                Some(spack) => Ok(s.install_spec(spack@)),
                None => Err(ToolMissing::Spack),
            },
            Environment::Julia(j) => Ok(j.install_spec()),
            Environment::Conda(c) => Ok(c.install_spec(host)),
            Environment::Apptainer(a) => match host.container_tool {
                Some(tool) => Ok(a.install_spec(tool@)),
                None => Err(ToolMissing::Container),
            },
        }
    }

    pub fn install(&self, host: &Host) -> (r: Result<InstallPlan, ToolMissing>)
        ensures
            plan_result_view(r) == self.install_spec(host),
    {
        match self {
            Environment::Generic(g) => Ok(g.install()),
            Environment::Spack(s) => s.install(host),
            Environment::Julia(j) => Ok(j.install()),
            Environment::Conda(c) => Ok(c.install(host)),
            Environment::Apptainer(a) => a.install(host),
        }
    }

    /// `cmd`, rewritten to run inside the environment, or the tool that is
    /// missing for it. `activation_output` is what the command of
    /// `activation` printed; only a Spack environment reads it.
    pub open spec fn with_env_spec(
        &self,
        cmd: InvocationView,
        host: &Host,
        activation_output: Seq<char>,
    ) -> Result<InvocationView, ToolMissing> {
        match self {
            Environment::Generic(g) => Ok(g.with_env_spec(cmd)),
            Environment::Spack(s) => match host.spack {
                Some(spack) => Ok(s.with_env_spec(cmd, activation_output, spack@)),
                None => Err(ToolMissing::Spack),
            },
            Environment::Julia(j) => Ok(j.with_env_spec(cmd)),
            Environment::Conda(c) => Ok(c.with_env_spec(cmd, host)),
            Environment::Apptainer(a) => match host.container_tool {
                Some(tool) => Ok(a.with_env_spec(cmd, tool@)),
                None => Err(ToolMissing::Container),
            },
        }
    }

    pub fn with_env(&self, cmd: Invocation, host: &Host, activation_output: &str) -> (r: Result<
        Invocation,
        ToolMissing,
    >)
        ensures
            command_result_view(r) == self.with_env_spec(cmd@, host, activation_output@),
    {
        match self {
            Environment::Generic(g) => Ok(g.with_env(cmd)),
            Environment::Spack(s) => s.with_env(cmd, host, activation_output),
            Environment::Julia(j) => Ok(j.with_env(cmd)),
            Environment::Conda(c) => Ok(c.with_env(cmd, host)),
            Environment::Apptainer(a) => a.with_env(cmd, host),
        }
    }

    /// The command whose output `with_env` needs: some for a Spack
    /// environment, none for the others.
    pub fn activation(&self, host: &Host) -> (r: Result<Option<Invocation>, ToolMissing>)
        ensures
            match self {
                Environment::Spack(s) => match host.spack {
                    Some(spack) => r matches Ok(Some(c)) && c@ == s.activation_spec(spack@),
                    None => r == Err::<Option<Invocation>, ToolMissing>(ToolMissing::Spack),
                },
                _ => r matches Ok(None),
            },
    {
        match self {
            Environment::Spack(s) => match s.activation(host) {
                Ok(c) => Ok(Some(c)),
                Err(e) => Err(e),
            },
            _ => Ok(None),
        }
    }
}

/// A command isolated by a Generic, Spack or Conda environment sees the same
/// variables whatever the environment of the process that starts it: it
/// inherits nothing.
pub proof fn lemma_isolation_ignores_ambient(
    env: &Environment,
    cmd: InvocationView,
    host: &Host,
    activation_output: Seq<char>,
    ambient1: Map<Seq<char>, Seq<char>>,
    ambient2: Map<Seq<char>, Seq<char>>,
)
    requires
        env.kind_spec() == Kind::Generic || env.kind_spec() == Kind::Spack || env.kind_spec()
            == Kind::Conda,
    ensures
        match env.with_env_spec(cmd, host, activation_output) {
            Ok(c) => child_env(c, ambient1) == child_env(c, ambient2),
            Err(_) => true,
        },
{
    if let Ok(c) = env.with_env_spec(cmd, host, activation_output) {
        assert(!c.inherit_env);
        assert(child_env(c, ambient1) =~= child_env(c, ambient2));
    }
}

} // verus!
