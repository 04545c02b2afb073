//! A command to execute, held as plain data: program, arguments, working
//! directory and environment variables.
use vstd::prelude::*;

verus! {

/// One environment setting: a value to set, or `None` to remove the variable.
pub type EnvSetting = (String, Option<String>);

/// A command to execute.
///
/// The child's environment is the inherited one when `inherit_env` holds (an
/// empty one otherwise), with the entries of `envs` applied in order on top of
/// it; a later entry for a key overrides an earlier one.
pub struct Invocation {
    pub program: String,
    pub args: Vec<String>,
    pub current_dir: Option<String>,
    pub inherit_env: bool,
    pub envs: Vec<EnvSetting>,
}

pub struct InvocationView {
    pub program: Seq<char>,
    pub args: Seq<Seq<char>>,
    pub current_dir: Option<Seq<char>>,
    pub inherit_env: bool,
    pub envs: Seq<(Seq<char>, Option<Seq<char>>)>,
}

impl View for Invocation {
    type V = InvocationView;

    open spec fn view(&self) -> InvocationView {
        InvocationView {
            program: self.program@,
            args: self.args.deep_view(),
            current_dir: self.current_dir.deep_view(),
            inherit_env: self.inherit_env,
            envs: self.envs.deep_view(),
        }
    }
}

/// The variables that `envs` sets (`Some`) or removes (`None`), later entries
/// winning.
pub open spec fn env_map(envs: Seq<(Seq<char>, Option<Seq<char>>)>) -> Map<
    Seq<char>,
    Option<Seq<char>>,
>
    decreases envs.len(),
{
    if envs.len() == 0 {
        Map::empty()
    } else {
        env_map(envs.drop_last()).insert(envs.last().0, envs.last().1)
    }
}

/// The environment a child started from `inv` sees, given the environment
/// `ambient` of the process that starts it.
pub open spec fn child_env(inv: InvocationView, ambient: Map<Seq<char>, Seq<char>>) -> Map<
    Seq<char>,
    Seq<char>,
> {
    let settings = env_map(inv.envs);
    Map::new(
        |k: Seq<char>|
            if settings.contains_key(k) {
                settings[k] is Some
            } else {
                inv.inherit_env && ambient.contains_key(k)
            },
        |k: Seq<char>|
            if settings.contains_key(k) {
                settings[k]->Some_0
            } else {
                ambient[k]
            },
    )
}

/// A copy of `v`.
fn clone_strings(v: &Vec<String>) -> (r: Vec<String>)
    ensures
        r.deep_view() == v.deep_view(),
{
    let mut r: Vec<String> = Vec::new();
    let mut i: usize = 0;
    while i < v.len()
        invariant
            i <= v.len(),
            r.deep_view() =~= v.deep_view().take(i as int),
        decreases v.len() - i,
    {
        let ghost cur = r.deep_view();
        r.push(v[i].clone());
        proof {
            assert(r.deep_view() =~= cur.push(v[i as int]@));
            assert(v.deep_view().take(i + 1) =~= v.deep_view().take(i as int).push(v[i as int]@));
        }
        i = i + 1;
    }
    proof {
        assert(v.deep_view().take(v.len() as int) =~= v.deep_view());
    }
    r
}

fn clone_opt(v: &Option<String>) -> (r: Option<String>)
    ensures
        r.deep_view() == v.deep_view(),
{
    match v {
        Some(s) => Some(s.clone()),
        None => None,
    }
}

impl Invocation {
    /// A command that runs `program` with no arguments, in the current
    /// directory, with the inherited environment.
    pub fn new(program: &str) -> (r: Invocation)
        ensures
            r@ == (InvocationView {
                program: program@,
                args: seq![],
                current_dir: None,
                inherit_env: true,
                envs: seq![],
            }),
    {
        let r = Invocation {
            program: String::from_str(program),
            args: Vec::new(),
            current_dir: None,
            inherit_env: true,
            envs: Vec::new(),
        };
        proof {
            assert(r@.args =~= seq![]);
            assert(r@.envs =~= seq![]);
        }
        r
    }

    /// A copy of this command.
    pub fn duplicate(&self) -> (r: Invocation)
        ensures
            r@ == self@,
    {
        let mut envs: Vec<EnvSetting> = Vec::new();
        let mut i: usize = 0;
        while i < self.envs.len()
            invariant
                i <= self.envs.len(),
                envs.deep_view() =~= self.envs.deep_view().take(i as int),
            decreases self.envs.len() - i,
        {
            let ghost cur = envs.deep_view();
            let e = &self.envs[i];
            envs.push((e.0.clone(), clone_opt(&e.1)));
            proof {
                assert(envs.deep_view() =~= cur.push(self.envs.deep_view()[i as int]));
                assert(self.envs.deep_view().take(i + 1) =~= self.envs.deep_view().take(
                    i as int,
                ).push(self.envs.deep_view()[i as int]));
            }
            i = i + 1;
        }
        proof {
            assert(self.envs.deep_view().take(self.envs.len() as int) =~= self.envs.deep_view());
        }
        Invocation {
            program: self.program.clone(),
            args: clone_strings(&self.args),
            current_dir: clone_opt(&self.current_dir),
            inherit_env: self.inherit_env,
            envs,
        }
    }

    /// Adds one argument.
    pub fn arg(&mut self, a: &str)
        ensures
            final(self)@ == (InvocationView { args: old(self)@.args.push(a@), ..old(self)@ }),
    {
        let ghost before = self.args.deep_view();
        self.args.push(String::from_str(a));
        proof {
            assert(self.args.deep_view() =~= before.push(a@));
        }
    }

    /// Adds each of `more`, in order.
    pub fn args(&mut self, more: &Vec<String>)
        ensures
            final(self)@ == (InvocationView {
                args: old(self)@.args + more.deep_view(),
                ..old(self)@
            }),
    {
        let ghost before = self.args.deep_view();
        let mut i: usize = 0;
        while i < more.len()
            invariant
                i <= more.len(),
                self@ == (InvocationView {
                    args: before + more.deep_view().take(i as int),
                    ..old(self)@
                }),
            decreases more.len() - i,
        {
            let ghost cur = self.args.deep_view();
            self.args.push(more[i].clone());
            proof {
                assert(self.args.deep_view() =~= cur.push(more[i as int]@));
                assert(before + more.deep_view().take(i + 1) =~= (before + more.deep_view().take(
                    i as int,
                )).push(more[i as int]@));
            }
            i = i + 1;
        }
        proof {
            assert(more.deep_view().take(more.len() as int) =~= more.deep_view());
        }
    }

    /// Sets the working directory.
    pub fn current_dir(&mut self, dir: &str)
        ensures
            final(self)@ == (InvocationView { current_dir: Some(dir@), ..old(self)@ }),
    {
        self.current_dir = Some(String::from_str(dir));
    }

    /// Sets variable `key` to `value`.
    pub fn env(&mut self, key: &str, value: &str)
        ensures
            final(self)@ == (InvocationView {
                envs: old(self)@.envs.push((key@, Some(value@))),
                ..old(self)@
            }),
    {
        let ghost before = self.envs.deep_view();
        self.envs.push((String::from_str(key), Some(String::from_str(value))));
        proof {
            assert(self.envs.deep_view() =~= before.push((key@, Some(value@))));
        }
    }

    /// Starts from an empty environment, dropping every setting made so far.
    pub fn env_clear(&mut self)
        ensures
            final(self)@ == (InvocationView { inherit_env: false, envs: seq![], ..old(self)@ }),
    {
        self.inherit_env = false;
        self.envs = Vec::new();
        proof {
            assert(self.envs.deep_view() =~= seq![]);
        }
    }

    /// Repeats on this command every environment setting of `other`, in order.
    pub fn with_envs(&mut self, other: &Invocation)
        ensures
            final(self)@ == (InvocationView {
                envs: old(self)@.envs + other@.envs,
                ..old(self)@
            }),
    {
        let ghost before = self.envs.deep_view();
        let mut i: usize = 0;
        while i < other.envs.len()
            invariant
                i <= other.envs.len(),
                self@ == (InvocationView {
                    envs: before + other.envs.deep_view().take(i as int),
                    ..old(self)@
                }),
            decreases other.envs.len() - i,
        {
            let ghost cur = self.envs.deep_view();
            let e = &other.envs[i];
            self.envs.push((e.0.clone(), clone_opt(&e.1)));
            proof {
                assert(self.envs.deep_view() =~= cur.push(other.envs.deep_view()[i as int]));
                assert(before + other.envs.deep_view().take(i + 1) =~= (before
                    + other.envs.deep_view().take(i as int)).push(
                    other.envs.deep_view()[i as int],
                ));
            }
            i = i + 1;
        }
        proof {
            assert(other.envs.deep_view().take(other.envs.len() as int) =~= other.envs.deep_view());
        }
    }
}

} // verus!
