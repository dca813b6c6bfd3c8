use compose_driver::actions::{compose_down, compose_ps, compose_up, docker_version};
use compose_driver::invocation::{Arg, Program};

#[test]
fn compose_up_without_build_passes_no_build() {
    let args = compose_up(Some(false));
    assert_eq!(args, vec!["up", "-d", "--remove-orphans", "--no-build"]);
    assert!(args.contains(&"--no-build".to_string()));
    assert!(!args.contains(&"--build".to_string()));
}

#[test]
fn compose_up_with_build_passes_build() {
    let args = compose_up(Some(true));
    assert_eq!(args, vec!["up", "-d", "--remove-orphans", "--build"]);
    assert!(args.contains(&"--build".to_string()));
    assert!(!args.contains(&"--no-build".to_string()));
}

#[test]
fn compose_up_builds_by_default() {
    let args = compose_up(None);
    assert_eq!(args, vec!["up", "-d", "--remove-orphans", "--build"]);
    assert!(!args.contains(&"--no-build".to_string()));
}

#[test]
fn compose_ps_and_down_are_single_words() {
    assert_eq!(compose_ps(), vec!["ps"]);
    assert_eq!(compose_down(), vec!["down"]);
}

#[test]
fn docker_version_asks_docker_directly() {
    let call = docker_version();
    assert_eq!(call.program, Program::Docker);
    assert_eq!(call.program.name(), "docker");
    assert_eq!(call.dir, None);
    assert_eq!(call.args, vec![Arg::Text("--version".to_string())]);
}
