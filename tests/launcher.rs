use pi_launcher::delegate::{delegation_result, exit_code, exit_status, FALLBACK_EXIT_CODE};
use pi_launcher::error::LaunchError;
use pi_launcher::greeting::index;
use pi_launcher::intent::{contains_text, detect_intent};
use pi_launcher::resolve::{
    candidate_plan, run_bundled_cli, runtime_program, Candidate, FsPath, Strategy, TargetKind,
    PARENT_LEVELS,
};

fn strings(items: &[&str]) -> Vec<String> {
    items.iter().map(|s| s.to_string()).collect()
}

fn dir(parts: &[&str]) -> FsPath {
    FsPath { root: "/".to_string(), parts: strings(parts) }
}

fn joined(base: &[&str], rel: &[&str]) -> Vec<String> {
    let mut v = strings(base);
    v.extend(strings(rel));
    v
}

const SCOPED: [&str; 5] = ["node_modules", "@0xshariq", "package-installer", "dist", "index.js"];
const UNSCOPED: [&str; 4] = ["node_modules", "package-installer-cli", "dist", "index.js"];
const BUNDLE: [&str; 2] = ["bundle-standalone", "pi"];

#[test]
fn substring_search() {
    assert!(contains_text("pi-tool", "pi"));
    assert!(contains_text("/usr/bin/package-installer", "package-installer"));
    assert!(contains_text("a", ""));
    assert!(!contains_text("launcher", "pi"));
    assert!(!contains_text("p", "pi"));
    assert!(!contains_text("", "pi"));
}

#[test]
fn name_with_identifier_forwards_all_but_name() {
    let args = strings(&["pi-tool", "create", "app"]);
    assert_eq!(detect_intent(&args), Ok(strings(&["create", "app"])));
}

#[test]
fn name_with_identifier_and_no_arguments() {
    let args = strings(&["/opt/package-installer"]);
    assert_eq!(detect_intent(&args), Ok(Vec::new()));
}

#[test]
fn named_invocation_keeps_alias_argument() {
    let args = strings(&["pi", "pi", "x"]);
    assert_eq!(detect_intent(&args), Ok(strings(&["pi", "x"])));
}

#[test]
fn alias_argument_is_stripped() {
    let args = strings(&["launcher", "pi", "create", "app"]);
    assert_eq!(detect_intent(&args), Ok(strings(&["create", "app"])));
}

#[test]
fn unrelated_invocation_is_refused() {
    let args = strings(&["launcher", "create", "app"]);
    assert_eq!(detect_intent(&args), Err(LaunchError::IntentNotRecognized));
    let args = strings(&["launcher"]);
    assert_eq!(detect_intent(&args), Err(LaunchError::IntentNotRecognized));
    let args = strings(&["launcher", "PI"]);
    assert_eq!(detect_intent(&args), Err(LaunchError::IntentNotRecognized));
    assert_eq!(detect_intent(&Vec::new()), Err(LaunchError::IntentNotRecognized));
}

#[test]
fn plan_order_and_contents() {
    let cwd = dir(&["home", "me", "proj"]);
    let exe = dir(&["opt", "bin"]);
    let plan = candidate_plan(&Some(cwd), &Some(exe));
    // Four levels exist above and at /home/me/proj (proj, me, home, root).
    assert_eq!(plan.len(), 2 * 4 + 2);
    assert_eq!(plan[0].strategy, Strategy::LocalPackage);
    assert_eq!(plan[0].path.parts, joined(&["home", "me", "proj"], &SCOPED));
    assert_eq!(plan[1].path.parts, joined(&["home", "me", "proj"], &UNSCOPED));
    assert_eq!(plan[2].path.parts, joined(&["home", "me"], &SCOPED));
    assert_eq!(plan[7].path.parts, joined(&[], &UNSCOPED));
    assert_eq!(plan[8].strategy, Strategy::BesideExecutable);
    assert_eq!(plan[8].path.parts, joined(&["opt", "bin"], &BUNDLE));
    assert_eq!(plan[9].strategy, Strategy::WorkingTree);
    assert_eq!(plan[9].path.parts, joined(&["home", "me", "proj"], &BUNDLE));
    assert!(plan.iter().all(|c| c.path.root == "/"));
}

#[test]
fn search_stops_after_five_levels() {
    let deep = ["a", "b", "c", "d", "e", "f", "g"];
    let plan = candidate_plan(&Some(dir(&deep)), &None);
    assert_eq!(PARENT_LEVELS, 5);
    // The working directory and five parents, two package paths each, then the working-tree bundle.
    assert_eq!(plan.len(), 2 * 6 + 1);
    assert_eq!(plan[0].path.parts, joined(&deep, &SCOPED));
    assert_eq!(plan[10].path.parts, joined(&["a", "b"], &SCOPED));
    assert_eq!(plan[11].path.parts, joined(&["a", "b"], &UNSCOPED));
    assert_eq!(plan[12].strategy, Strategy::WorkingTree);
    // Nothing found within the bound.
    let present = vec![false; plan.len()];
    let r = run_bundled_cli(&plan, &present, &Vec::new());
    assert_eq!(r, Err(LaunchError::NotFound));
}

#[test]
fn script_under_fifth_parent_is_found() {
    let deep = ["a", "b", "c", "d", "e", "f", "g"];
    let plan = candidate_plan(&Some(dir(&deep)), &None);
    let mut present = vec![false; plan.len()];
    present[11] = true;
    let cmd = run_bundled_cli(&plan, &present, &strings(&["create"])).unwrap();
    assert_eq!(cmd.target.strategy, Strategy::LocalPackage);
    assert_eq!(cmd.target.path.parts, joined(&["a", "b"], &UNSCOPED));
}

#[test]
fn shallow_directory_stops_at_root() {
    let plan = candidate_plan(&Some(dir(&["a", "b"])), &None);
    // /a/b, /a and / only.
    assert_eq!(plan.len(), 2 * 3 + 1);
    assert_eq!(plan[5].path.parts, joined(&[], &UNSCOPED));
}

#[test]
fn plan_without_working_directory() {
    let plan = candidate_plan(&None, &Some(dir(&["opt"])));
    assert_eq!(plan.len(), 1);
    assert_eq!(plan[0].strategy, Strategy::BesideExecutable);
    assert!(candidate_plan(&None, &None).is_empty());
}

#[test]
fn local_install_wins_over_bundle() {
    let plan = candidate_plan(&Some(dir(&["w"])), &Some(dir(&["x"])));
    let mut present = vec![false; plan.len()];
    present[3] = true; // unscoped package one level up
    present[4] = true; // bundle beside the executable
    let r = run_bundled_cli(&plan, &present, &strings(&["create"])).unwrap();
    assert_eq!(r.target.strategy, Strategy::LocalPackage);
    assert_eq!(r.target.strategy.kind(), TargetKind::Script);
    assert_eq!(r.target.path.parts, joined(&[], &UNSCOPED));
    assert_eq!(r.args, strings(&["create"]));
}

#[test]
fn scenario_no_installation() {
    let args = strings(&["pi", "create", "app"]);
    let forwarded = detect_intent(&args).unwrap();
    let plan = candidate_plan(&Some(dir(&["p"])), &Some(dir(&["b"])));
    let present = vec![false; plan.len()];
    let outcome = run_bundled_cli(&plan, &present, &forwarded).map(|_| 0);
    assert_eq!(outcome, Err(LaunchError::NotFound));
    assert_eq!(exit_status(&outcome), 1);
}

#[test]
fn scenario_scoped_local_package() {
    let args = strings(&["pi", "create", "app"]);
    let forwarded = detect_intent(&args).unwrap();
    let plan = candidate_plan(&Some(dir(&["p"])), &Some(dir(&["b"])));
    let mut present = vec![false; plan.len()];
    present[0] = true;
    let cmd = run_bundled_cli(&plan, &present, &forwarded).unwrap();
    assert_eq!(cmd.target.strategy.kind(), TargetKind::Script);
    assert_eq!(cmd.target.path, FsPath { root: "/".to_string(), parts: joined(&["p"], &SCOPED) });
    assert_eq!(cmd.args, strings(&["create", "app"]));
    assert_eq!(runtime_program(), "node");
    let outcome = delegation_result(Ok(Some(3)));
    assert_eq!(outcome, Ok(3));
    assert_eq!(exit_status(&outcome), 3);
}

#[test]
fn scenario_bundle_beside_executable() {
    let args = strings(&["launcher", "pi", "--help"]);
    let forwarded = detect_intent(&args).unwrap();
    let plan = candidate_plan(&Some(dir(&["p"])), &Some(dir(&["opt", "pi"])));
    let mut present = vec![false; plan.len()];
    let beside = plan.iter().position(|c| c.strategy == Strategy::BesideExecutable).unwrap();
    present[beside] = true;
    let cmd = run_bundled_cli(&plan, &present, &forwarded).unwrap();
    assert_eq!(
        cmd.target,
        Candidate {
            strategy: Strategy::BesideExecutable,
            path: FsPath { root: "/".to_string(), parts: joined(&["opt", "pi"], &BUNDLE) },
        }
    );
    assert_eq!(cmd.target.strategy.kind(), TargetKind::Standalone);
    assert_eq!(cmd.args, strings(&["--help"]));
    assert_eq!(exit_status(&delegation_result(Ok(Some(0)))), 0);
}

#[test]
fn working_tree_bundle_is_last() {
    let plan = candidate_plan(&Some(dir(&["src"])), &Some(dir(&["bin"])));
    let mut present = vec![false; plan.len()];
    let last = plan.len() - 1;
    present[last] = true;
    let cmd = run_bundled_cli(&plan, &present, &Vec::new()).unwrap();
    assert_eq!(cmd.target.strategy, Strategy::WorkingTree);
    assert_eq!(cmd.target.strategy.kind(), TargetKind::Standalone);
    assert_eq!(cmd.target.path.parts, joined(&["src"], &BUNDLE));
}

#[test]
fn exit_code_passthrough() {
    assert_eq!(exit_code(Some(42)), 42);
    assert_eq!(exit_code(Some(0)), 0);
    assert_eq!(exit_code(None), 1);
    assert_eq!(FALLBACK_EXIT_CODE, 1);
    assert_eq!(delegation_result(Ok(Some(42))), Ok(42));
    assert_eq!(delegation_result(Ok(None)), Ok(1));
    assert_eq!(exit_status(&Ok(42)), 42);
}

#[test]
fn spawn_failure_reported() {
    let r = delegation_result(Err("permission denied".to_string()));
    assert_eq!(r, Err(LaunchError::SpawnFailed("permission denied".to_string())));
    assert_eq!(exit_status(&r), 1);
    assert_eq!(exit_status(&Err(LaunchError::IntentNotRecognized)), 1);
}

#[test]
fn rocket_index_body() {
    assert_eq!(index(), "Hello from Rocket!");
}
