use vstd::prelude::*;
use vstd::string::StringExecFns;

verus! {

use crate::forwarding::BacktraceForward;
use crate::forwarding::assignment_spec;
use crate::forwarding::backtrace_name;
use crate::forwarding::build_forward_args;
use crate::forwarding::forward_list;
use crate::forwarding::make_assignment;
use crate::forwarding::normalize_backtrace;
use crate::forwarding::normalize_backtrace_spec;
use crate::forwarding::views_of;
use crate::state::RunningAs;
use crate::state::classify;
use crate::state::classify_spec;

/// Why an escalation attempt failed before any helper process ran.
#[derive(Clone, Copy, Debug, PartialEq, Eq, Structural)]
pub enum EscalationError {
    /// The operation was invoked on a platform without Unix process
    /// identities.
    PlatformUnsupported,
    /// The in-place claim of the effective user id (the `Suid` path)
    /// did not succeed.
    PrivilegeClaimFailed,
    /// The elevation helper could not be spawned at all (missing binary,
    /// permission denied, exec failure).
    HelperLaunchFailed,
}

/// A consistent snapshot of the process, taken once per escalation
/// attempt so that every decision works from the same observation.
pub struct ProcessSnapshot {
    /// The real user id.
    pub uid: u32,
    /// The effective user id.
    pub euid: u32,
    /// The original command-line arguments, the program name first.
    pub argv: Vec<String>,
    /// The resolved absolute path of the running executable, when it
    /// could be determined.
    pub exe_path: Option<String>,
    /// The value of the backtrace variable, when it is set.
    pub backtrace: Option<String>,
    /// All environment variables, as name/value pairs.
    pub env: Vec<(String, String)>,
}

/// The action the embedding program must carry out for the snapshot it
/// handed in.
pub enum EscalationPlan {
    /// No action is needed: hand this result straight back to the caller.
    Done(Result<RunningAs, EscalationError>),
    /// Set the process's effective user id to the superuser id in place,
    /// then settle the outcome with `after_claim`.
    ClaimPrivileges,
    /// Spawn the elevation helper with exactly these arguments, then
    /// settle the outcome with `after_spawn`. When
    /// `warn_invalid_backtrace` is set, the backtrace variable held an
    /// unrecognized value that was substituted by `"full"`, and a
    /// warning should be emitted.
    SpawnHelper { args: Vec<String>, warn_invalid_backtrace: bool },
}

/// The assignments contributed by the backtrace variable: none when it
/// is unset or empty, and its normalized `NAME=value` form otherwise.
pub open spec fn backtrace_args_spec(backtrace: Option<String>) -> Seq<Seq<char>> {
    match backtrace {
        Option::None => Seq::empty(),
        Option::Some(v) => match normalize_backtrace_spec(v@) {
            BacktraceForward::Omit => Seq::empty(),
            BacktraceForward::One => seq![assignment_spec(backtrace_name(), "1"@)],
            BacktraceForward::Full => seq![assignment_spec(backtrace_name(), "full"@)],
            BacktraceForward::FullWithWarning => seq![
                assignment_spec(backtrace_name(), "full"@),
            ],
        },
    }
}

/// The backtrace variable held a non-empty value that is neither
/// `"1"`/`"true"` nor `"full"`, so `"full"` was substituted and a
/// warning is owed.
pub open spec fn backtrace_warn_spec(backtrace: Option<String>) -> bool {
    match backtrace {
        Option::None => false,
        Option::Some(v) => normalize_backtrace_spec(v@) == BacktraceForward::FullWithWarning,
    }
}

/// The original arguments with the program name replaced by the
/// resolved executable path, when one is available.
pub open spec fn rewritten_argv(argv: Seq<String>, exe_path: Option<String>) -> Seq<String> {
    match exe_path {
        Option::Some(p) => argv.update(0, p),
        Option::None => argv,
    }
}

/// Every argument handed to the elevation helper, in order: the
/// normalized backtrace assignment, the prefix-forwarded environment
/// assignments, then the rewritten original arguments.
pub open spec fn helper_args_spec(snap: ProcessSnapshot, prefixes: Seq<String>) -> Seq<
    Seq<char>,
> {
    backtrace_args_spec(snap.backtrace) + forward_list(snap.env@, views_of(prefixes))
        + views_of(rewritten_argv(snap.argv@, snap.exe_path))
}

fn rewrite_argv(argv: &Vec<String>, exe_path: &Option<String>) -> (out: Vec<String>)
    requires
        argv@.len() >= 1,
    ensures
        out@ == rewritten_argv(argv@, *exe_path),
{
    let mut out: Vec<String> = Vec::new();
    match exe_path {
        Option::Some(p) => out.push(p.clone()),
        Option::None => out.push(argv[0].clone()),
    }
    let mut k: usize = 1;
    while k < argv.len()
        invariant
            1 <= k <= argv@.len(),
            argv@.len() >= 1,
            out@.len() == k,
            out@[0] == rewritten_argv(argv@, *exe_path)[0],
            forall|j: int| 1 <= j < k ==> out@[j] == argv@[j],
        decreases argv@.len() - k,
    {
        out.push(argv[k].clone());
        k += 1;
    }
    proof {
        assert(out@ =~= rewritten_argv(argv@, *exe_path));
    }
    out
}

/// Build the full helper invocation for an unprivileged process: the
/// argument list in its exact order, and whether a warning about an
/// invalid backtrace value is owed.
pub fn build_helper_invocation(prefixes: &Vec<String>, snap: &ProcessSnapshot) -> (r: (
    Vec<String>,
    bool,
))
    requires
        snap.argv@.len() >= 1,
    ensures
        views_of(r.0@) == helper_args_spec(*snap, prefixes@),
        r.1 == backtrace_warn_spec(snap.backtrace),
{
    let mut args: Vec<String> = Vec::new();
    let mut warn = false;
    let bt_name = String::from_str("RUST_BACKTRACE");
    match &snap.backtrace {
        Option::None => {},
        Option::Some(v) => {
            match normalize_backtrace(v.as_str()) {
                BacktraceForward::Omit => {},
                BacktraceForward::One => {
                    args.push(make_assignment(&bt_name, &String::from_str("1")));
                },
                BacktraceForward::Full => {
                    args.push(make_assignment(&bt_name, &String::from_str("full")));
                },
                BacktraceForward::FullWithWarning => {
                    args.push(make_assignment(&bt_name, &String::from_str("full")));
                    warn = true;
                },
            }
        },
    }
    proof {
        assert(views_of(args@) =~= backtrace_args_spec(snap.backtrace));
    }
    let ghost bt_part = views_of(args@);
    let mut fwd = build_forward_args(&snap.env, prefixes);
    let ghost fwd_part = views_of(fwd@);
    args.append(&mut fwd);
    proof {
        assert(views_of(args@) =~= bt_part + fwd_part);
    }
    let ghost env_done = views_of(args@);
    let mut tail = rewrite_argv(&snap.argv, &snap.exe_path);
    let ghost tail_part = views_of(tail@);
    args.append(&mut tail);
    proof {
        assert(views_of(args@) =~= env_done + tail_part);
        assert(views_of(args@) =~= helper_args_spec(*snap, prefixes@));
    }
    (args, warn)
}

/// Decide how to obtain privileges for the process described by `snap`,
/// forwarding the environment variables whose names start with one of
/// `prefixes` to a spawned helper. A root process needs no action; a
/// set-user-id process claims its latent privilege in place; an
/// ordinary user process re-executes itself through the elevation
/// helper with a filtered environment.
pub fn with_env(prefixes: &Vec<String>, snap: &ProcessSnapshot) -> (plan: EscalationPlan)
    requires
        snap.argv@.len() >= 1,
    ensures
        classify_spec(snap.uid, snap.euid) == RunningAs::Root ==> plan == EscalationPlan::Done(
            Result::<RunningAs, EscalationError>::Ok(RunningAs::Root),
        ),
        classify_spec(snap.uid, snap.euid) == RunningAs::Suid ==> plan
            == EscalationPlan::ClaimPrivileges,
        classify_spec(snap.uid, snap.euid) == RunningAs::User ==> (plan matches EscalationPlan::SpawnHelper {
            args,
            warn_invalid_backtrace,
        } && views_of(args@) == helper_args_spec(*snap, prefixes@) && warn_invalid_backtrace
            == backtrace_warn_spec(snap.backtrace)),
{
    match classify(snap.uid, snap.euid) {
        RunningAs::Root => EscalationPlan::Done(Result::Ok(RunningAs::Root)),
        RunningAs::Suid => EscalationPlan::ClaimPrivileges,
        RunningAs::User => {
            let (args, warn) = build_helper_invocation(prefixes, snap);
            EscalationPlan::SpawnHelper { args, warn_invalid_backtrace: warn }
        },
    }
}

/// Decide how to obtain privileges with no optional forwarding: only
/// the backtrace variable (if set) is handed to a spawned helper.
pub fn escalate_if_needed(snap: &ProcessSnapshot) -> (plan: EscalationPlan)
    requires
        snap.argv@.len() >= 1,
    ensures
        classify_spec(snap.uid, snap.euid) == RunningAs::Root ==> plan == EscalationPlan::Done(
            Result::<RunningAs, EscalationError>::Ok(RunningAs::Root),
        ),
        classify_spec(snap.uid, snap.euid) == RunningAs::Suid ==> plan
            == EscalationPlan::ClaimPrivileges,
        classify_spec(snap.uid, snap.euid) == RunningAs::User ==> (plan matches EscalationPlan::SpawnHelper {
            args,
            warn_invalid_backtrace,
        } && views_of(args@) == helper_args_spec(*snap, Seq::<String>::empty())
            && warn_invalid_backtrace == backtrace_warn_spec(snap.backtrace)),
{
    let prefixes: Vec<String> = Vec::new();
    with_env(&prefixes, snap)
}

/// Settle the `Suid` path. `claimed` reports whether the in-place
/// change of the effective user id to the superuser id succeeded: a
/// successful claim yields `Ok(Suid)`, a failed one is surfaced as
/// `PrivilegeClaimFailed` rather than silently continuing without
/// privileges.
pub fn after_claim(claimed: bool) -> (r: Result<RunningAs, EscalationError>)
    ensures
        claimed ==> r == Result::<RunningAs, EscalationError>::Ok(RunningAs::Suid),
        !claimed ==> r == Result::<RunningAs, EscalationError>::Err(
            EscalationError::PrivilegeClaimFailed,
        ),
{
    if claimed {
        Result::Ok(RunningAs::Suid)
    } else {
        Result::Err(EscalationError::PrivilegeClaimFailed)
    }
}

/// How the spawned helper terminated, as observed by the embedding
/// program.
#[derive(Clone, Copy, Debug)]
pub struct ChildStatus {
    /// The helper exited successfully.
    pub success: bool,
    /// The helper's own exit code, when one is available (a helper
    /// killed by a signal has none).
    pub code: Option<i32>,
}

/// The exit code the current process owes its own caller once the
/// helper has run: 0 on helper success, the helper's own code on
/// failure, and 1 when no code is available.
pub open spec fn exit_code_spec(status: ChildStatus) -> i32 {
    if status.success {
        0
    } else {
        match status.code {
            Option::Some(c) => c,
            Option::None => 1,
        }
    }
}

/// What the embedding program must do after attempting to spawn the
/// helper.
#[derive(Clone, Copy, Debug, PartialEq, Eq, Structural)]
pub enum HelperVerdict {
    /// The helper never ran: report this error to the caller, which
    /// keeps control.
    Fail(EscalationError),
    /// The helper ran to completion: terminate the current process with
    /// this exit code, never returning to the caller.
    Terminate(i32),
}

/// Settle the `User` path after the spawn attempt. `status` is `None`
/// when the helper could not be launched at all — a broken deployment,
/// reported as `HelperLaunchFailed` — and the helper's termination
/// status otherwise, in which case the current process terminates with
/// the helper's outcome propagated transparently.
pub fn after_spawn(status: Option<ChildStatus>) -> (verdict: HelperVerdict)
    ensures
        status is None ==> verdict == HelperVerdict::Fail(EscalationError::HelperLaunchFailed),
        status matches Some(st) ==> verdict == HelperVerdict::Terminate(exit_code_spec(st)),
{
    match status {
        Option::None => HelperVerdict::Fail(EscalationError::HelperLaunchFailed),
        Option::Some(st) => {
            if st.success {
                HelperVerdict::Terminate(0)
            } else {
                match st.code {
                    Option::Some(c) => HelperVerdict::Terminate(c),
                    Option::None => HelperVerdict::Terminate(1),
                }
            }
        },
    }
}

} // verus!
