//! Privilege detection and escalation planning for Unix processes.
//!
//! The library classifies the current process from its real and effective
//! user ids (`RunningAs`), and decides how to obtain root privileges:
//! return immediately when already root, claim the latent privilege of a
//! set-user-id binary in place, or re-execute the program through the
//! system's `sudo` helper with a filtered environment and forward the
//! helper's exit status.
//!
//! Everything here is pure decision logic over a snapshot of the process
//! (ids, arguments, environment). The actual system calls — reading the
//! ids, changing the effective id, spawning and waiting on the helper —
//! are performed by the embedding program, which feeds their outcomes
//! back into the verified state machine.

mod escalate;
mod forwarding;
mod state;

pub use escalate::ChildStatus;
pub use escalate::EscalationError;
pub use escalate::EscalationPlan;
pub use escalate::HelperVerdict;
pub use escalate::ProcessSnapshot;
pub use escalate::after_claim;
pub use escalate::after_spawn;
pub use escalate::backtrace_args_spec;
pub use escalate::backtrace_warn_spec;
pub use escalate::build_helper_invocation;
pub use escalate::escalate_if_needed;
pub use escalate::exit_code_spec;
pub use escalate::helper_args_spec;
pub use escalate::rewritten_argv;
pub use escalate::with_env;
pub use forwarding::BacktraceForward;
pub use forwarding::assignment_of;
pub use forwarding::assignment_spec;
pub use forwarding::backtrace_name;
pub use forwarding::build_forward_args;
pub use forwarding::forward_list;
pub use forwarding::forward_pred;
pub use forwarding::forwarded;
pub use forwarding::lemma_forward_list_exact;
pub use forwarding::lower_code;
pub use forwarding::make_assignment;
pub use forwarding::matches_any;
pub use forwarding::matches_any_spec;
pub use forwarding::normalize_backtrace;
pub use forwarding::normalize_backtrace_spec;
pub use forwarding::seq_eq_ci;
pub use forwarding::starts_with_spec;
pub use forwarding::views_of;
pub use state::RunningAs;
pub use state::classify;
pub use state::classify_spec;
pub use state::lemma_classification_deterministic;
pub use state::lemma_classification_partition;
