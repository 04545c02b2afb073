//! A benchmark: a folder with a run script and an environment, and where its
//! trials are kept.
use vstd::prelude::*;

use crate::command::{Invocation, InvocationView};
use crate::environment::{
    command_result_view, plan_result_view, resolve_spec, Environment, Folder, Host, InstallPlan,
    ToolMissing,
};
use crate::paths::{base_name, base_name_spec, join_path, join_spec};

verus! {

/// The script that runs a benchmark.
pub const RUN_SCRIPT: &'static str = "run.sh";

/// The directory, inside the configuration directory, that holds results.
pub const RESULTS_DIR: &'static str = "results";

/// The file, inside a trial's directory, that holds the trial.
pub const TRIAL_FILE: &'static str = "trial.json";

pub open spec fn is_hex_lower(c: char) -> bool {
    ('0' <= c && c <= '9') || ('a' <= c && c <= 'f')
}

/// A trial id: 36 lowercase hexadecimal digits and dashes, the dashes at
/// positions 8, 13, 18 and 23.
pub open spec fn is_trial_id(id: Seq<char>) -> bool {
    &&& id.len() == 36
    &&& forall|i: int|
        0 <= i < 36 ==> if i == 8 || i == 13 || i == 18 || i == 23 {
            #[trigger] id[i] == '-'
        } else {
            is_hex_lower(id[i])
        }
}

/// Relies on `uuid::Builder::from_random_bytes` and the hyphenated text form
/// of a `Uuid`: the version 4 id made from `random`, written as lowercase
/// hexadecimal digits with dashes at positions 8, 13, 18 and 23.
#[verifier::external_body]
fn trial_id(random: [u8; 16]) -> (r: String)
    ensures
        is_trial_id(r@),
{
    uuid::Builder::from_random_bytes(random).into_uuid().hyphenated().to_string()
}

/// What a benchmark runs: its script, with `bash`, from its folder.
pub open spec fn script_command(dir: Seq<char>) -> InvocationView {
    InvocationView {
        program: "/bin/bash"@,
        args: seq![RUN_SCRIPT@],
        current_dir: Some(dir),
        inherit_env: true,
        envs: seq![],
    }
}

/// The directory of the results of the benchmark called `name`.
pub open spec fn results_spec(config_dir: Seq<char>, name: Seq<char>) -> Seq<char> {
    join_spec(join_spec(config_dir, RESULTS_DIR@), name)
}

/// The directory of the trial with id `id` of the benchmark called `name`.
pub open spec fn location_spec(config_dir: Seq<char>, name: Seq<char>, id: Seq<char>) -> Seq<
    char,
> {
    join_spec(results_spec(config_dir, name), id)
}

/// Whether `inner` is a path inside the directory `outer`.
pub open spec fn is_within(inner: Seq<char>, outer: Seq<char>) -> bool {
    inner.len() > outer.len() && inner.take(outer.len() + 1int) == outer.push('/')
}

pub struct Benchmark {
    environment: Environment,
    script: String,
    name: String,
}

impl Benchmark {
    pub closed spec fn env_spec(&self) -> Environment {
        self.environment
    }

    pub closed spec fn script_spec(&self) -> Seq<char> {
        self.script@
    }

    pub closed spec fn name_spec(&self) -> Seq<char> {
        self.name@
    }

    /// The benchmark of `dir`: it holds a run script and the marker of an
    /// environment, and has a name.
    pub fn from_folder(dir: &Folder) -> (r: Result<Self, ()>)
        ensures
            r is Ok <==> dir.files.deep_view().contains(RUN_SCRIPT@) && resolve_spec(
                dir.files.deep_view(),
            ) is Some && base_name_spec(dir.path@) is Some,
            r matches Ok(b) ==> {
                &&& b.env_spec().kind_spec() == resolve_spec(dir.files.deep_view())->Some_0
                &&& b.env_spec().dir() == dir.path@
                &&& b.script_spec() == join_spec(dir.path@, RUN_SCRIPT@)
                &&& b.name_spec() == base_name_spec(dir.path@)->Some_0
            },
    {
        if !dir.has_file(RUN_SCRIPT) {
            return Err(());
        }
        let script = join_path(dir.path.as_str(), RUN_SCRIPT);
        let name = match base_name(dir.path.as_str()) {
            Some(n) => n,
            None => {
                return Err(());
            },
        };
        match Environment::from_folder(dir) {
            Ok(environment) => Ok(Benchmark { environment, script, name }),
            Err(_) => Err(()),
        }
    }

    /// The name of the benchmark: that of its folder.
    pub fn name(&self) -> (r: &str)
        ensures
            r@ == self.name_spec(),
    {
        self.name.as_str()
    }

    pub fn script(&self) -> (r: &str)
        ensures
            r@ == self.script_spec(),
    {
        self.script.as_str()
    }

    pub fn environment(&self) -> (r: &Environment)
        ensures
            *r == self.env_spec(),
    {
        &self.environment
    }

    /// How to install the benchmark's environment.
    pub fn install(&self, host: &Host) -> (r: Result<InstallPlan, ToolMissing>)
        ensures
            plan_result_view(r) == self.env_spec().install_spec(host),
    {
        self.environment.install(host)
    }

    /// The command that runs the benchmark inside its environment, given what
    /// the environment's activation printed.
    pub fn command(&self, host: &Host, activation_output: &str) -> (r: Result<
        Invocation,
        ToolMissing,
    >)
        ensures
            command_result_view(r) == self.env_spec().with_env_spec(
                script_command(self.env_spec().dir()),
                host,
                activation_output@,
            ),
    {
        let mut cmd = Invocation::new("/bin/bash");
        cmd.arg(RUN_SCRIPT);
        cmd.current_dir(self.environment.path().as_str());
        proof {
            assert(cmd@.args =~= seq![RUN_SCRIPT@]);
        }
        self.environment.with_env(cmd, host, activation_output)
    }

    /// Where the trials of the benchmark go, under the configuration
    /// directory.
    pub fn results_directory(&self, config_dir: &str) -> (r: String)
        ensures
            r@ == results_spec(config_dir@, self.name_spec()),
    {
        let results = join_path(config_dir, RESULTS_DIR);
        join_path(results.as_str(), self.name.as_str())
    }

    /// The directory of the trial with id `id`.
    pub fn result_location(&self, config_dir: &str, id: &str) -> (r: String)
        ensures
            r@ == location_spec(config_dir@, self.name_spec(), id@),
    {
        let dir = self.results_directory(config_dir);
        join_path(dir.as_str(), id)
    }

    /// The trial id made from the 16 random bytes `random`, and the directory
    /// of the trial with that id.
    pub fn new_result_location(&self, config_dir: &str, random: [u8; 16]) -> (r: (String, String))
        ensures
            is_trial_id(r.0@),
            r.1@ == location_spec(config_dir@, self.name_spec(), r.0@),
    {
        let id = trial_id(random);
        let location = self.result_location(config_dir, id.as_str());
        (id, location)
    }
}

/// The file that holds the trial kept in `location`.
pub fn trial_file(location: &str) -> (r: String)
    ensures
        r@ == join_spec(location@, TRIAL_FILE@),
{
    join_path(location, TRIAL_FILE)
}

/// Two trials of one benchmark with different ids are kept in different
/// directories, neither inside the other, and in different files: one trial
/// never overwrites another.
pub proof fn lemma_distinct_locations(
    config_dir: Seq<char>,
    name: Seq<char>,
    id1: Seq<char>,
    id2: Seq<char>,
)
    requires
        is_trial_id(id1),
        is_trial_id(id2),
        id1 != id2,
    ensures
        location_spec(config_dir, name, id1) != location_spec(config_dir, name, id2),
        !is_within(location_spec(config_dir, name, id1), location_spec(config_dir, name, id2)),
        !is_within(location_spec(config_dir, name, id2), location_spec(config_dir, name, id1)),
        join_spec(location_spec(config_dir, name, id1), TRIAL_FILE@) != join_spec(
            location_spec(config_dir, name, id2),
            TRIAL_FILE@,
        ),
{
    let base = results_spec(config_dir, name);
    let l1 = location_spec(config_dir, name, id1);
    let l2 = location_spec(config_dir, name, id2);
    let b = if base.len() == 0 || base.last() == '/' {
        base
    } else {
        base + seq!['/']
    };
    assert(l1 == b + id1);
    assert(l2 == b + id2);
    if l1 == l2 {
        assert(l1.subrange(b.len() as int, l1.len() as int) =~= id1);
        assert(l2.subrange(b.len() as int, l2.len() as int) =~= id2);
    }
    assert(l1.last() == id1[35]);
    assert(l2.last() == id2[35]);
    let f1 = join_spec(l1, TRIAL_FILE@);
    let f2 = join_spec(l2, TRIAL_FILE@);
    assert(f1 == l1 + seq!['/'] + TRIAL_FILE@);
    assert(f2 == l2 + seq!['/'] + TRIAL_FILE@);
    if f1 == f2 {
        assert(f1.take(l1.len() as int) =~= l1);
        assert(f2.take(l2.len() as int) =~= l2);
    }
}

} // verus!
