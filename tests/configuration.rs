use eegmark::environment::which;
use eegmark::configuration::{
    ensure_spack_package, location_command, package_lookup, package_install_command, setup_environment, try_which,
    Config, PackageLookup, StandardTools,
};

fn strings(v: &[&str]) -> Vec<String> {
    v.iter().map(|s| s.to_string()).collect()
}

#[test]
fn path_env_joins_with_colons() {
    assert_eq!(Config::new(strings(&["/usr/bin", "/bin", "/opt/x"])).get_path_env(), "/usr/bin:/bin:/opt/x");
    assert_eq!(Config::new(strings(&["/bin"])).get_path_env(), "/bin");
    assert_eq!(Config::new(Vec::new()).get_path_env(), "");
}

#[test]
fn setup_puts_system_dirs_first() {
    let c = setup_environment(&strings(&["/opt/spack/bin", "/opt/conda", "/home/u/.juliaup/bin"]));
    assert_eq!(
        c.path(),
        &strings(&[
            "/usr/local/bin/",
            "/usr/bin",
            "/bin",
            "/opt/spack/bin",
            "/opt/conda",
            "/home/u/.juliaup/bin"
        ])
    );
    assert_eq!(
        c.get_path_env(),
        "/usr/local/bin/:/usr/bin:/bin:/opt/spack/bin:/opt/conda:/home/u/.juliaup/bin"
    );
}

#[test]
fn standard_tools_in_order() {
    let names: Vec<&str> = StandardTools::all().iter().map(|t| t.program()).collect();
    assert_eq!(names, vec!["spack", "conda", "juliaup"]);
}

#[test]
fn which_output_is_trimmed() {
    assert_eq!(which(true, "/usr/bin/spack\n"), Some("/usr/bin/spack".to_string()));
    assert_eq!(which(true, "  /opt/x/bin/conda \r\n"), Some("/opt/x/bin/conda".to_string()));
    assert_eq!(which(false, "/usr/bin/spack\n"), None);
}

#[test]
fn try_which_gives_the_directory() {
    assert_eq!(try_which(Some("/opt/spack/bin/spack".to_string())), Some("/opt/spack/bin".to_string()));
    assert_eq!(try_which(Some("/spack".to_string())), Some("/".to_string()));
    assert_eq!(try_which(None), None);
}

#[test]
fn spack_package_lookup_outcomes() {
    match ensure_spack_package(true, "/opt/spack/opt/miniconda3\n", "") {
        PackageLookup::Installed(d) => assert_eq!(d, "/opt/spack/opt/miniconda3"),
        other => panic!("{:?}", other),
    }
    assert!(matches!(
        ensure_spack_package(false, "", "==> Error: Spec 'miniconda3' matches no installed packages.\n"),
        PackageLookup::Missing
    ));
    match ensure_spack_package(false, "", "==> Error: miniconda3 matches multiple packages.\n") {
        PackageLookup::Failed(m) => assert_eq!(m, "==> Error: miniconda3 matches multiple packages.\n"),
        other => panic!("{:?}", other),
    }
}

#[test]
fn spack_package_commands() {
    let c = location_command("/opt/spack/bin/spack", "miniconda3");
    assert_eq!(c.program, "/opt/spack/bin/spack");
    assert_eq!(c.args, strings(&["location", "--install-dir", "miniconda3"]));
    let c = package_install_command("spack", "miniconda3");
    assert_eq!(c.args, strings(&["install", "miniconda3"]));
}

#[test]
fn package_lookup_from_flags() {
    assert!(matches!(package_lookup(true, " /x \n", "", true), PackageLookup::Installed(d) if d == "/x"));
    assert!(matches!(package_lookup(false, "", "whatever", true), PackageLookup::Missing));
    assert!(matches!(package_lookup(false, "", "boom", false), PackageLookup::Failed(m) if m == "boom"));
}
