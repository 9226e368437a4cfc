use sudo::BacktraceForward;
use sudo::ChildStatus;
use sudo::EscalationError;
use sudo::EscalationPlan;
use sudo::HelperVerdict;
use sudo::ProcessSnapshot;
use sudo::RunningAs;
use sudo::after_claim;
use sudo::after_spawn;
use sudo::build_forward_args;
use sudo::classify;
use sudo::escalate_if_needed;
use sudo::make_assignment;
use sudo::matches_any;
use sudo::normalize_backtrace;
use sudo::with_env;

fn strings(items: &[&str]) -> Vec<String> {
    items.iter().map(|s| s.to_string()).collect()
}

fn pairs(items: &[(&str, &str)]) -> Vec<(String, String)> {
    items.iter().map(|(n, v)| (n.to_string(), v.to_string())).collect()
}

fn snapshot(
    uid: u32,
    euid: u32,
    argv: &[&str],
    exe_path: Option<&str>,
    backtrace: Option<&str>,
    env: &[(&str, &str)],
) -> ProcessSnapshot {
    ProcessSnapshot {
        uid,
        euid,
        argv: strings(argv),
        exe_path: exe_path.map(|s| s.to_string()),
        backtrace: backtrace.map(|s| s.to_string()),
        env: pairs(env),
    }
}

#[test]
fn it_works() {
    let c = classify(1000, 1000);
    assert!(true, "{:?}", c);
}

#[test]
fn classify_root() {
    assert_eq!(classify(0, 0), RunningAs::Root);
}

#[test]
fn classify_suid() {
    assert_eq!(classify(1000, 0), RunningAs::Suid);
}

#[test]
fn classify_user() {
    assert_eq!(classify(1000, 1000), RunningAs::User);
    assert_eq!(classify(0, 1000), RunningAs::User);
    assert_eq!(classify(1000, 500), RunningAs::User);
}

#[test]
fn classify_is_deterministic() {
    assert_eq!(classify(42, 0), classify(42, 0));
    assert_eq!(classify(0, 0), classify(0, 0));
    assert_eq!(classify(7, 7), classify(7, 7));
}

#[test]
fn normalize_backtrace_table() {
    assert_eq!(normalize_backtrace(""), BacktraceForward::Omit);
    assert_eq!(normalize_backtrace("1"), BacktraceForward::One);
    assert_eq!(normalize_backtrace("TRUE"), BacktraceForward::One);
    assert_eq!(normalize_backtrace("true"), BacktraceForward::One);
    assert_eq!(normalize_backtrace("full"), BacktraceForward::Full);
    assert_eq!(normalize_backtrace("FULL"), BacktraceForward::Full);
    assert_eq!(normalize_backtrace("garbage"), BacktraceForward::FullWithWarning);
    assert_eq!(normalize_backtrace("0"), BacktraceForward::FullWithWarning);
}

#[test]
fn assignment_formats_name_equals_value() {
    let a = make_assignment(&"APP_NAME".to_string(), &"x".to_string());
    assert_eq!(a, "APP_NAME=x");
    let empty = make_assignment(&"A".to_string(), &"".to_string());
    assert_eq!(empty, "A=");
}

#[test]
fn prefix_forwarding_selects_matching_variables() {
    let prefixes = strings(&["APP_", "LOG_"]);
    let env = pairs(&[("APP_NAME", "x"), ("LOG_LEVEL", "debug"), ("PATH", "/bin")]);
    let out = build_forward_args(&env, &prefixes);
    assert_eq!(out, strings(&["APP_NAME=x", "LOG_LEVEL=debug"]));
}

#[test]
fn prefix_forwarding_skips_backtrace_variable() {
    let prefixes = strings(&["RUST"]);
    let env = pairs(&[("RUST_BACKTRACE", "1"), ("RUST_LOG", "info")]);
    let out = build_forward_args(&env, &prefixes);
    assert_eq!(out, strings(&["RUST_LOG=info"]));
}

#[test]
fn empty_prefix_set_forwards_nothing() {
    let prefixes: Vec<String> = Vec::new();
    let env = pairs(&[("APP_NAME", "x"), ("PATH", "/bin")]);
    let out = build_forward_args(&env, &prefixes);
    assert!(out.is_empty());
}

#[test]
fn empty_string_prefix_matches_every_name() {
    let prefixes = strings(&[""]);
    assert!(matches_any(&"ANYTHING".to_string(), &prefixes));
    assert!(matches_any(&"".to_string(), &prefixes));
    assert!(!matches_any(&"ANYTHING".to_string(), &Vec::new()));
}

#[test]
fn prefix_matching_is_case_sensitive_and_not_normalized() {
    let prefixes = strings(&["app_"]);
    let env = pairs(&[("APP_NAME", "x"), ("app_name", "y")]);
    let out = build_forward_args(&env, &prefixes);
    assert_eq!(out, strings(&["app_name=y"]));
}

#[test]
fn forwarded_values_pass_through_verbatim() {
    let prefixes = strings(&["APP_"]);
    let env = pairs(&[("APP_OPTS", "a=b c"), ("APP_EMPTY", "")]);
    let out = build_forward_args(&env, &prefixes);
    assert_eq!(out, strings(&["APP_OPTS=a=b c", "APP_EMPTY="]));
}

#[test]
fn duplicate_prefixes_forward_each_variable_once() {
    let prefixes = strings(&["APP_", "APP_", "AP"]);
    let env = pairs(&[("APP_NAME", "x"), ("PATH", "/bin")]);
    let out = build_forward_args(&env, &prefixes);
    assert_eq!(out, strings(&["APP_NAME=x"]));
}

#[test]
fn root_plan_is_done_for_every_prefix_set() {
    let snap = snapshot(0, 0, &["prog"], None, None, &[("APP_NAME", "x")]);
    match with_env(&Vec::new(), &snap) {
        EscalationPlan::Done(r) => assert_eq!(r, Ok(RunningAs::Root)),
        _ => panic!("root must need no action"),
    }
    let snap2 = snapshot(0, 0, &["prog"], None, Some("1"), &[("APP_NAME", "x")]);
    match with_env(&strings(&["APP_", "LOG_"]), &snap2) {
        EscalationPlan::Done(r) => assert_eq!(r, Ok(RunningAs::Root)),
        _ => panic!("root must need no action"),
    }
}

#[test]
fn suid_plan_claims_privileges_in_place() {
    let snap = snapshot(1000, 0, &["prog"], None, None, &[]);
    assert!(matches!(with_env(&Vec::new(), &snap), EscalationPlan::ClaimPrivileges));
}

#[test]
fn claim_outcomes() {
    assert_eq!(after_claim(true), Ok(RunningAs::Suid));
    assert_eq!(after_claim(false), Err(EscalationError::PrivilegeClaimFailed));
}

#[test]
fn user_plan_spawns_helper_with_full_argument_list() {
    let snap = snapshot(
        1000,
        1000,
        &["prog", "--flag", "value"],
        Some("/abs/prog"),
        Some("garbage"),
        &[("APP_NAME", "x"), ("PATH", "/bin")],
    );
    match with_env(&strings(&["APP_"]), &snap) {
        EscalationPlan::SpawnHelper { args, warn_invalid_backtrace } => {
            assert_eq!(
                args,
                strings(&[
                    "RUST_BACKTRACE=full",
                    "APP_NAME=x",
                    "/abs/prog",
                    "--flag",
                    "value",
                ])
            );
            assert!(warn_invalid_backtrace);
        }
        _ => panic!("user must spawn the helper"),
    }
}

#[test]
fn user_plan_forwards_true_backtrace_as_one() {
    let snap = snapshot(1000, 1000, &["prog"], None, Some("TRUE"), &[]);
    match with_env(&Vec::new(), &snap) {
        EscalationPlan::SpawnHelper { args, warn_invalid_backtrace } => {
            assert_eq!(args, strings(&["RUST_BACKTRACE=1", "prog"]));
            assert!(!warn_invalid_backtrace);
        }
        _ => panic!("user must spawn the helper"),
    }
}

#[test]
fn user_plan_omits_empty_backtrace_and_keeps_argv_without_exe_path() {
    let snap = snapshot(1000, 1000, &["prog", "-v"], None, Some(""), &[("PATH", "/bin")]);
    match escalate_if_needed(&snap) {
        EscalationPlan::SpawnHelper { args, warn_invalid_backtrace } => {
            assert_eq!(args, strings(&["prog", "-v"]));
            assert!(!warn_invalid_backtrace);
        }
        _ => panic!("user must spawn the helper"),
    }
}

#[test]
fn escalate_if_needed_forwards_no_optional_variables() {
    let snap = snapshot(
        1000,
        1000,
        &["prog"],
        Some("/abs/prog"),
        None,
        &[("APP_NAME", "x"), ("LOG_LEVEL", "debug")],
    );
    match escalate_if_needed(&snap) {
        EscalationPlan::SpawnHelper { args, warn_invalid_backtrace } => {
            assert_eq!(args, strings(&["/abs/prog"]));
            assert!(!warn_invalid_backtrace);
        }
        _ => panic!("user must spawn the helper"),
    }
}

#[test]
fn spawn_failure_reports_helper_launch_failed() {
    assert_eq!(
        after_spawn(None),
        HelperVerdict::Fail(EscalationError::HelperLaunchFailed)
    );
}

#[test]
fn helper_success_exits_zero() {
    let status = ChildStatus { success: true, code: Some(0) };
    assert_eq!(after_spawn(Some(status)), HelperVerdict::Terminate(0));
}

#[test]
fn helper_failure_exit_code_is_propagated() {
    let status = ChildStatus { success: false, code: Some(3) };
    assert_eq!(after_spawn(Some(status)), HelperVerdict::Terminate(3));
}

#[test]
fn helper_killed_without_code_exits_one() {
    let status = ChildStatus { success: false, code: None };
    assert_eq!(after_spawn(Some(status)), HelperVerdict::Terminate(1));
}
