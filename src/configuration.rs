//! The search path that tools run with, and the steps of finding the
//! standard tools.
use vstd::prelude::*;

use crate::command::{Invocation, InvocationView};
use crate::matching::{is_match, regex_captures};
use crate::paths::{parent_dir, parent_spec};
use crate::text::{trim, trim_spec};

verus! {

/// The directories every search path starts with.
pub const SYSTEM_DIRS: [&'static str; 3] = ["/usr/local/bin/", "/usr/bin", "/bin"];

/// What `spack location` says of a package that is not installed.
pub const NOT_INSTALLED_PATTERN: &'static str = "no installed packages";

/// The Spack package that provides Conda.
pub const CONDA_PACKAGE: &'static str = "miniconda3";

/// `parts`, with `:` between each two.
pub open spec fn colon_join(parts: Seq<Seq<char>>) -> Seq<char>
    decreases parts.len(),
{
    if parts.len() == 0 {
        seq![]
    } else if parts.len() == 1 {
        parts[0]
    } else {
        colon_join(parts.drop_last()) + seq![':'] + parts.last()
    }
}

/// The directories searched for tools, in order.
#[derive(Debug)]
pub struct Config {
    path: Vec<String>,
}

impl Config {
    pub closed spec fn dirs(&self) -> Seq<Seq<char>> {
        self.path.deep_view()
    }

    pub fn new(path: Vec<String>) -> (r: Config)
        ensures
            r.dirs() == path.deep_view(),
    {
        Config { path }
    }

    pub fn path(&self) -> (r: &Vec<String>)
        ensures
            r.deep_view() == self.dirs(),
    {
        &self.path
    }

    /// The directories as a `PATH` value.
    pub fn get_path_env(&self) -> (r: String)
        ensures
            r@ == colon_join(self.dirs()),
    {
        let mut out = String::new();
        let mut i: usize = 0;
        while i < self.path.len()
            invariant
                i <= self.path.len(),
                out@ == colon_join(self.path.deep_view().take(i as int)),
            decreases self.path.len() - i,
        {
            let ghost parts = self.path.deep_view().take(i + 1);
            proof {
                assert(parts.drop_last() =~= self.path.deep_view().take(i as int));
                assert(parts.last() == self.path[i as int]@);
            }
            if i > 0 {
                out = out.concat(":");
                proof {
                    reveal_strlit(":");
                }
            } else {
                proof {
                    assert(self.path.deep_view().take(0) =~= Seq::<Seq<char>>::empty());
                }
            }
            out = out.concat(self.path[i].as_str());
            proof {
                if i == 0 {
                    assert(out@ =~= parts[0]);
                }
            }
            i = i + 1;
        }
        proof {
            assert(self.path.deep_view().take(self.path.len() as int) =~= self.path.deep_view());
        }
        out
    }
}

/// The tools every machine is set up with, in the order they are set up.
#[derive(PartialEq, Eq, Structural, Clone, Copy, Debug)]
pub enum StandardTools {
    Spack,
    Conda,
    Juliaup,
}

impl StandardTools {
    /// All of them, in order.
    pub fn all() -> (r: Vec<StandardTools>)
        ensures
            r@ == seq![StandardTools::Spack, StandardTools::Conda, StandardTools::Juliaup],
    {
        let r = vec![StandardTools::Spack, StandardTools::Conda, StandardTools::Juliaup];
        proof {
            assert(r@ =~= seq![StandardTools::Spack, StandardTools::Conda, StandardTools::Juliaup]);
        }
        r
    }

    pub open spec fn program_spec(&self) -> Seq<char> {
        match self {
            StandardTools::Spack => "spack"@,
            StandardTools::Conda => "conda"@,
            StandardTools::Juliaup => "juliaup"@,
        }
    }

    /// The executable the tool is found by.
    pub fn program(&self) -> (r: &'static str)
        ensures
            r@ == self.program_spec(),
    {
        match self {
            StandardTools::Spack => "spack",
            StandardTools::Conda => "conda",
            StandardTools::Juliaup => "juliaup",
        }
    }
}

pub open spec fn system_dirs() -> Seq<Seq<char>> {
    seq![SYSTEM_DIRS[0]@, SYSTEM_DIRS[1]@, SYSTEM_DIRS[2]@]
}

/// The configuration of a machine whose standard tools live in `tool_dirs`
/// (in the order of `StandardTools::all`): the system directories, then
/// those.
pub fn setup_environment(tool_dirs: &Vec<String>) -> (r: Config)
    ensures
        r.dirs() == system_dirs() + tool_dirs.deep_view(),
{
    let mut paths: Vec<String> = Vec::new();
    paths.push(String::from_str(SYSTEM_DIRS[0]));
    paths.push(String::from_str(SYSTEM_DIRS[1]));
    paths.push(String::from_str(SYSTEM_DIRS[2]));
    let ghost start = paths.deep_view();
    proof {
        assert(start =~= system_dirs());
    }
    let mut i: usize = 0;
    while i < tool_dirs.len()
        invariant
            i <= tool_dirs.len(),
            paths.deep_view() =~= system_dirs() + tool_dirs.deep_view().take(i as int),
        decreases tool_dirs.len() - i,
    {
        let ghost before = paths.deep_view();
        paths.push(tool_dirs[i].clone());
        proof {
            assert(paths.deep_view() =~= before.push(tool_dirs[i as int]@));
            assert(tool_dirs.deep_view().take(i + 1) =~= tool_dirs.deep_view().take(i as int).push(
                tool_dirs[i as int]@,
            ));
        }
        i = i + 1;
    }
    proof {
        assert(tool_dirs.deep_view().take(tool_dirs.len() as int) =~= tool_dirs.deep_view());
    }
    Config::new(paths)
}

/// The directory of a tool that `which` found; none when it was not found,
/// and the caller must install it.
pub fn try_which(found: Option<String>) -> (r: Option<String>)
    ensures
        r.deep_view() == match found {
            Some(p) => parent_spec(p@),
            None => None,
        },
{
    match found {
        Some(p) => parent_dir(p.as_str()),
        None => None,
    }
}

/// Asks Spack where package `spec` is installed.
pub fn location_command(spack: &str, spec: &str) -> (r: Invocation)
    ensures
        r@ == (InvocationView {
            program: spack@,
            args: seq!["location"@, "--install-dir"@, spec@],
            current_dir: None,
            inherit_env: true,
            envs: seq![],
        }),
{
    let mut cmd = Invocation::new(spack);
    cmd.arg("location");
    cmd.arg("--install-dir");
    cmd.arg(spec);
    proof {
        assert(cmd@.args =~= seq!["location"@, "--install-dir"@, spec@]);
    }
    cmd
}

/// Has Spack install package `spec`.
pub fn package_install_command(spack: &str, spec: &str) -> (r: Invocation)
    ensures
        r@ == (InvocationView {
            program: spack@,
            args: seq!["install"@, spec@],
            current_dir: None,
            inherit_env: true,
            envs: seq![],
        }),
{
    let mut cmd = Invocation::new(spack);
    cmd.arg("install");
    cmd.arg(spec);
    proof {
        assert(cmd@.args =~= seq!["install"@, spec@]);
    }
    cmd
}

/// What `spack location --install-dir` reported of a package.
#[derive(Debug)]
pub enum PackageLookup {
    /// Installed, in this directory.
    Installed(String),
    /// Not installed: install it, then look again.
    Missing,
    /// Spack failed otherwise, with this message.
    Failed(String),
}

/// What a run of the command of `location_command` that ended with
/// `success` and printed `stdout` and `stderr` says of the package, given
/// whether `stderr` says that it is not installed.
pub fn package_lookup(success: bool, stdout: &str, stderr: &str, not_installed: bool) -> (r:
    PackageLookup)
    ensures
        success ==> (r matches PackageLookup::Installed(d) && d@ == trim_spec(stdout@)),
        !success && not_installed ==> r is Missing,
        !success && !not_installed ==> (r matches PackageLookup::Failed(m) && m@ == stderr@),
{
    if success {
        return PackageLookup::Installed(trim(stdout));
    }
    if !not_installed {
        return PackageLookup::Failed(String::from_str(stderr));
    }
    PackageLookup::Missing
}

/// What a run of the command of `location_command` that ended with
/// `success` and printed `stdout` and `stderr` says of the package.
pub fn ensure_spack_package(success: bool, stdout: &str, stderr: &str) -> (r: PackageLookup)
    ensures
        success ==> (r matches PackageLookup::Installed(d) && d@ == trim_spec(stdout@)),
        !success && regex_captures(NOT_INSTALLED_PATTERN@, stderr@) is Some ==> r is Missing,
        !success && regex_captures(NOT_INSTALLED_PATTERN@, stderr@) is None ==> (r matches PackageLookup::Failed(m) && m@ == stderr@),
{
    let not_installed = is_match(NOT_INSTALLED_PATTERN, stderr);
    package_lookup(success, stdout, stderr, not_installed)
}

} // verus!
