use eegmark::command::Invocation;
use eegmark::environment::apptainer::{apptainer, Apptainer};
use eegmark::environment::conda::Conda;
use eegmark::environment::generic::Generic;
use eegmark::environment::julia::Julia;
use eegmark::environment::spack::{with_spack_root, Spack};
use eegmark::environment::{has_yaml, Environment, Folder, Host, Kind, ToolMissing};

fn folder(path: &str, files: &[&str]) -> Folder {
    Folder {
        path: path.to_string(),
        files: files.iter().map(|f| f.to_string()).collect(),
    }
}

fn host(spack: Option<&str>, tool: Option<&str>) -> Host {
    Host {
        path_env: "/usr/bin:/bin".to_string(),
        term: Some("xterm".to_string()),
        spack: spack.map(|s| s.to_string()),
        container_tool: tool.map(|s| s.to_string()),
    }
}

fn strings(v: &[&str]) -> Vec<String> {
    v.iter().map(|s| s.to_string()).collect()
}

fn envs(v: &[(&str, Option<&str>)]) -> Vec<(String, Option<String>)> {
    v.iter()
        .map(|(k, x)| (k.to_string(), x.map(|s| s.to_string())))
        .collect()
}

#[test]
fn single_marker_resolves_to_its_kind() {
    let cases = [
        ("install.sh", Kind::Generic),
        ("spack.yaml", Kind::Spack),
        ("spack.yml", Kind::Spack),
        ("Project.toml", Kind::Julia),
        ("environment.yml", Kind::Conda),
        ("Apptainer.def", Kind::Apptainer),
        ("Singularity.def", Kind::Apptainer),
    ];
    for (marker, kind) in cases {
        let dir = folder("/b/x", &["run.sh", marker, "README.md"]);
        let env = Environment::from_folder(&dir).expect("a marker is present");
        assert_eq!(env.kind(), kind, "marker {}", marker);
        assert_eq!(env.path(), "/b/x");
    }
}

#[test]
fn no_marker_resolves_to_nothing() {
    assert!(Environment::from_folder(&folder("/b/x", &[])).is_err());
    assert!(Environment::from_folder(&folder("/b/x", &["run.sh", "spack.json", "environment.yaml"])).is_err());
}

#[test]
fn several_markers_resolve_to_the_earliest() {
    let all = ["environment.yml", "Project.toml", "spack.yaml", "install.sh", "Apptainer.def"];
    assert_eq!(Environment::from_folder(&folder("/d", &all)).unwrap().kind(), Kind::Generic);
    let dir = folder("/d", &["environment.yml", "Project.toml", "spack.yml"]);
    assert_eq!(Environment::from_folder(&dir).unwrap().kind(), Kind::Spack);
    // and again: resolution depends on the files alone
    assert_eq!(Environment::from_folder(&dir).unwrap().kind(), Kind::Spack);
    let dir = folder("/d", &["environment.yml", "Project.toml"]);
    assert_eq!(Environment::from_folder(&dir).unwrap().kind(), Kind::Julia);
    let dir = folder("/d", &["Singularity.def", "environment.yml"]);
    assert_eq!(Environment::from_folder(&dir).unwrap().kind(), Kind::Conda);
}

#[test]
fn has_yaml_prefers_yaml_extension() {
    let dir = folder("/e", &["spack.yml", "spack.yaml"]);
    assert_eq!(has_yaml(&dir, "spack"), Ok("/e/spack.yaml".to_string()));
    let dir = folder("/e/", &["spack.yml"]);
    assert_eq!(has_yaml(&dir, "spack"), Ok("/e/spack.yml".to_string()));
    assert_eq!(has_yaml(&folder("/e", &["spack.json"]), "spack"), Err(()));
}

#[test]
fn constructors_check_their_marker() {
    assert!(Generic::new(&folder("/g", &["install.sh"])).is_ok());
    assert!(Generic::new(&folder("/g", &["install.bash"])).is_err());
    assert!(Julia::new(&folder("/g", &["Project.toml"])).is_ok());
    assert!(Julia::new(&folder("/g", &["project.toml"])).is_err());
    assert!(Conda::new(&folder("/g", &["environment.yml"])).is_ok());
    assert!(Conda::new(&folder("/g", &["environment.yaml"])).is_err());
    assert!(Spack::new(&folder("/g", &["spack.yml"])).is_ok());
    assert!(Spack::new(&folder("/g", &["Spack.yml"])).is_err());
    assert!(Apptainer::new(&folder("/g", &["x.def"])).is_err());
}

#[test]
fn generic_install_runs_the_script() {
    let g = Generic::new(&folder("/bench/a", &["install.sh"])).unwrap();
    let plan = g.install();
    assert!(plan.remove_first.is_none());
    assert_eq!(plan.command.program, "bash");
    assert_eq!(plan.command.args, strings(&["/bench/a/install.sh"]));
    assert_eq!(plan.command.current_dir.as_deref(), Some("/bench/a"));
    assert!(plan.command.inherit_env);
}

#[test]
fn generic_isolation_clears_the_environment() {
    let g = Generic::new(&folder("/bench/a", &["install.sh"])).unwrap();
    let mut cmd = Invocation::new("/bin/bash");
    cmd.arg("run.sh");
    cmd.env("HOME", "/root");
    let out = g.with_env(cmd);
    assert_eq!(out.program, "/bin/bash");
    assert_eq!(out.args, strings(&["run.sh"]));
    assert_eq!(out.current_dir.as_deref(), Some("/bench/a"));
    assert!(!out.inherit_env);
    assert!(out.envs.is_empty());
}

#[test]
fn julia_install_and_isolation() {
    let j = Julia::new(&folder("/j", &["Project.toml"])).unwrap();
    let plan = j.install();
    assert_eq!(plan.command.program, "julia");
    assert_eq!(
        plan.command.args,
        strings(&["--startup-file=no", "--project", "--eval", "using Pkg; Pkg.instantiate()"])
    );
    assert_eq!(plan.command.current_dir.as_deref(), Some("/j"));
    let mut cmd = Invocation::new("/bin/bash");
    cmd.env("A", "1");
    let out = j.with_env(cmd);
    assert!(out.inherit_env);
    assert_eq!(out.current_dir.as_deref(), Some("/j"));
    assert_eq!(
        out.envs,
        envs(&[("A", Some("1")), ("JULIA_PROJECT", Some("/j")), ("JULIA_LOAD_PATH", Some("@"))])
    );
}

#[test]
fn conda_install_removes_then_creates() {
    let c = Conda::new(&folder("/c", &["environment.yml"])).unwrap();
    let h = host(None, None);
    let plan = c.install(&h);
    assert_eq!(plan.remove_first.as_deref(), Some("/c/.conda"));
    assert_eq!(plan.command.program, "conda");
    assert_eq!(
        plan.command.args,
        strings(&["env", "create", "--prefix", ".conda", "--file", "environment.yml"])
    );
    assert_eq!(plan.command.current_dir.as_deref(), Some("/c"));
    assert!(!plan.command.inherit_env);
    assert_eq!(plan.command.envs, envs(&[("PATH", Some("/usr/bin:/bin")), ("TERM", Some("xterm"))]));
    // a second install is the same plan: it again removes what it creates
    let again = c.install(&h);
    assert_eq!(again.remove_first, plan.remove_first);
    assert_eq!(again.command.args, plan.command.args);
}

#[test]
fn conda_isolation_wraps_in_conda_run() {
    let c = Conda::new(&folder("/c", &["environment.yml"])).unwrap();
    let mut h = host(None, None);
    h.term = None;
    let mut cmd = Invocation::new("/bin/bash");
    cmd.arg("run.sh");
    cmd.env("X", "y");
    let out = c.with_env(cmd, &h);
    assert_eq!(out.program, "conda");
    assert_eq!(
        out.args,
        strings(&["run", "--prefix", ".conda", "--live-stream", "/bin/bash", "run.sh"])
    );
    assert_eq!(out.current_dir.as_deref(), Some("/c"));
    assert!(!out.inherit_env);
    assert_eq!(out.envs, envs(&[("PATH", Some("/usr/bin:/bin")), ("X", Some("y"))]));
}

#[test]
fn spack_activation_output_becomes_the_environment() {
    let s = Spack::new(&folder("/s", &["spack.yaml"])).unwrap();
    let output = "export PATH=/opt/view/bin:/usr/bin;\nalias despacktivate='spack env deactivate';\nexport CMAKE_PREFIX_PATH=/opt/view;\nexport EMPTY=;\n";
    let vars = s.spack_env(output, "/opt/spack/bin/spack");
    let expected: Vec<(String, String)> = [
        ("PATH", "/opt/view/bin:/usr/bin"),
        ("CMAKE_PREFIX_PATH", "/opt/view"),
        ("EMPTY", ""),
        ("SPACK_ROOT", "/opt/spack"),
    ]
    .iter()
    .map(|(k, v)| (k.to_string(), v.to_string()))
    .collect();
    assert_eq!(vars, expected);
}

#[test]
fn spack_without_exports_keeps_only_its_root() {
    let s = Spack::new(&folder("/s", &["spack.yaml"])).unwrap();
    let vars = s.spack_env("", "/opt/spack/bin/spack");
    assert_eq!(vars, vec![("SPACK_ROOT".to_string(), "/opt/spack".to_string())]);
}

#[test]
fn spack_isolation_and_missing_tool() {
    let s = Spack::new(&folder("/s", &["spack.yml"])).unwrap();
    let mut cmd = Invocation::new("/bin/bash");
    cmd.arg("run.sh");
    let none = host(None, None);
    assert_eq!(s.with_env(cmd.duplicate(), &none, "").err(), Some(ToolMissing::Spack));
    assert_eq!(s.install(&none).err(), Some(ToolMissing::Spack));
    assert_eq!(s.activation(&none).err(), Some(ToolMissing::Spack));
    let h = host(Some("/opt/spack/bin/spack"), None);
    let act = s.activation(&h).unwrap();
    assert_eq!(act.program, "/opt/spack/bin/spack");
    assert_eq!(act.args, strings(&["env", "activate", "--sh", "--dir", "."]));
    assert_eq!(act.envs, envs(&[("PATH", Some("/usr/local/bin:/usr/bin:/bin"))]));
    let out = s.with_env(cmd, &h, "export FOO=bar;\n").unwrap();
    assert_eq!(out.program, "/bin/bash");
    assert_eq!(out.args, strings(&["run.sh"]));
    assert_eq!(out.current_dir.as_deref(), Some("/s"));
    assert!(!out.inherit_env);
    assert_eq!(out.envs, envs(&[("FOO", Some("bar")), ("SPACK_ROOT", Some("/opt/spack"))]));
    let plan = s.install(&h).unwrap();
    assert_eq!(plan.command.args, strings(&["-e", "/s", "install"]));
}

#[test]
fn apptainer_builds_and_wraps() {
    let a = Apptainer::new(&folder("/k", &["Singularity.def"])).unwrap();
    assert_eq!(a.get_image(), "/k/Singularity.sif");
    let none = host(None, None);
    assert_eq!(a.install(&none).err(), Some(ToolMissing::Container));
    let h = host(None, Some("/usr/bin/apptainer"));
    let plan = a.install(&h).unwrap();
    assert_eq!(plan.command.program, "/usr/bin/apptainer");
    assert_eq!(plan.command.args, strings(&["build", "/k/Singularity.sif", "/k/Singularity.def"]));
    let mut cmd = Invocation::new("/bin/bash");
    cmd.arg("run.sh");
    cmd.current_dir("/k");
    let out = a.with_env(cmd, &h).unwrap();
    assert_eq!(out.program, "/usr/bin/apptainer");
    assert_eq!(
        out.args,
        strings(&["run", "--no-home", "--nv", "/k/Singularity.sif", "/bin/bash", "run.sh"])
    );
    assert_eq!(out.current_dir.as_deref(), Some("/k"));
}

#[test]
fn apptainer_prefers_its_own_definition_and_tool() {
    let a = Apptainer::new(&folder("/k", &["Singularity.def", "Apptainer.def"])).unwrap();
    assert_eq!(a.get_image(), "/k/Apptainer.sif");
    assert_eq!(
        apptainer(Some("/a/apptainer".to_string()), Some("/s/singularity".to_string())),
        Some("/a/apptainer".to_string())
    );
    assert_eq!(apptainer(None, Some("/s/singularity".to_string())), Some("/s/singularity".to_string()));
    assert_eq!(apptainer(None, None), None);
}

#[test]
fn environment_dispatches_to_its_variant() {
    let env = Environment::from_folder(&folder("/c", &["environment.yml"])).unwrap();
    let h = host(None, None);
    let plan = env.install(&h).unwrap();
    assert_eq!(plan.remove_first.as_deref(), Some("/c/.conda"));
    assert!(env.activation(&h).unwrap().is_none());
    let out = env.with_env(Invocation::new("/bin/bash"), &h, "").unwrap();
    assert_eq!(out.program, "conda");
    let env = Environment::from_folder(&folder("/s", &["spack.yaml"])).unwrap();
    assert_eq!(env.install(&h).err(), Some(ToolMissing::Spack));
}

#[test]
fn spack_root_is_two_levels_up() {
    let vars = vec![("A".to_string(), "1".to_string())];
    let out = with_spack_root(vars, "/home/u/spack/bin/spack");
    assert_eq!(
        out,
        vec![
            ("A".to_string(), "1".to_string()),
            ("SPACK_ROOT".to_string(), "/home/u/spack".to_string())
        ]
    );
}
