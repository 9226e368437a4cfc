use vstd::prelude::*;
use vstd::string::StrSliceExecFns;
use vstd::string::StringExecFns;

verus! {

/// The name of the environment variable that controls backtrace
/// verbosity. It is always forwarded through its own normalization rule
/// and excluded from prefix-based forwarding.
pub open spec fn backtrace_name() -> Seq<char> {
    "RUST_BACKTRACE"@
}

/// The character code used for case-insensitive comparison: ASCII
/// upper-case letters are mapped to their lower-case counterpart, every
/// other character to itself.
pub open spec fn lower_code(c: char) -> u32 {
    if 65 <= c as u32 && c as u32 <= 90 {
        (c as u32 + 32) as u32
    } else {
        c as u32
    }
}

/// Two character sequences are equal up to ASCII case.
pub open spec fn seq_eq_ci(s: Seq<char>, t: Seq<char>) -> bool {
    s.len() == t.len() && forall|i: int|
        0 <= i < s.len() ==> lower_code(s[i]) == lower_code(t[i])
}

fn lower_code_exec(c: char) -> (code: u32)
    ensures
        code == lower_code(c),
{
    let u = c as u32;
    if 65 <= u && u <= 90 {
        u + 32
    } else {
        u
    }
}

/// Compare two strings for equality up to ASCII case.
fn str_eq_ci(s: &str, t: &str) -> (eq: bool)
    ensures
        eq == seq_eq_ci(s@, t@),
{
    let n = s.unicode_len();
    if n != t.unicode_len() {
        return false;
    }
    let mut i: usize = 0;
    while i < n
        invariant
            i <= n,
            n == s@.len(),
            n == t@.len(),
            forall|j: int| 0 <= j < i ==> lower_code(s@[j]) == lower_code(t@[j]),
        decreases n - i,
    {
        let a = lower_code_exec(s.get_char(i));
        let b = lower_code_exec(t.get_char(i));
        if a != b {
            assert(lower_code(s@[i as int]) != lower_code(t@[i as int]));
            return false;
        }
        i += 1;
    }
    true
}

/// How the backtrace variable's value is forwarded to the helper.
#[derive(Clone, Copy, Debug, PartialEq, Eq, Structural)]
pub enum BacktraceForward {
    /// An empty value: the variable is not forwarded at all.
    Omit,
    /// `"1"` or `"true"` (case-insensitive): forwarded as `"1"`.
    One,
    /// `"full"` (case-insensitive): forwarded as `"full"`.
    Full,
    /// Any other non-empty value: forwarded as `"full"`, and the caller
    /// should warn about the substitution.
    FullWithWarning,
}

/// The normalization rule for the backtrace variable's value.
pub open spec fn normalize_backtrace_spec(v: Seq<char>) -> BacktraceForward {
    if v.len() == 0 {
        BacktraceForward::Omit
    } else if seq_eq_ci(v, "1"@) || seq_eq_ci(v, "true"@) {
        BacktraceForward::One
    } else if seq_eq_ci(v, "full"@) {
        BacktraceForward::Full
    } else {
        BacktraceForward::FullWithWarning
    }
}

/// Normalize the backtrace variable's value: empty values are omitted,
/// `"1"`/`"true"` become `"1"`, `"full"` stays `"full"`, and anything
/// else becomes `"full"` with a warning, all case-insensitively.
pub fn normalize_backtrace(value: &str) -> (fwd: BacktraceForward)
    ensures
        fwd == normalize_backtrace_spec(value@),
{
    if value.is_empty() {
        BacktraceForward::Omit
    } else if str_eq_ci(value, "1") || str_eq_ci(value, "true") {
        BacktraceForward::One
    } else if str_eq_ci(value, "full") {
        BacktraceForward::Full
    } else {
        BacktraceForward::FullWithWarning
    }
}

/// `prefix` is a prefix of `name`.
pub open spec fn starts_with_spec(name: Seq<char>, prefix: Seq<char>) -> bool {
    prefix.len() <= name.len() && forall|i: int|
        0 <= i < prefix.len() ==> name[i] == prefix[i]
}

fn str_starts_with(name: &str, prefix: &str) -> (r: bool)
    ensures
        r == starts_with_spec(name@, prefix@),
{
    let n = prefix.unicode_len();
    if n > name.unicode_len() {
        return false;
    }
    let mut i: usize = 0;
    while i < n
        invariant
            i <= n,
            n == prefix@.len(),
            n <= name@.len(),
            forall|j: int| 0 <= j < i ==> name@[j] == prefix@[j],
        decreases n - i,
    {
        if name.get_char(i) != prefix.get_char(i) {
            assert(name@[i as int] != prefix@[i as int]);
            return false;
        }
        i += 1;
    }
    true
}

/// The views of a sequence of strings.
pub open spec fn views_of(strings: Seq<String>) -> Seq<Seq<char>> {
    strings.map_values(|s: String| s@)
}

/// `name` starts with at least one of the prefixes.
pub open spec fn matches_any_spec(name: Seq<char>, prefixes: Seq<Seq<char>>) -> bool {
    exists|i: int| 0 <= i < prefixes.len() && starts_with_spec(name, prefixes[i])
}

/// Decide whether `name` starts with any of the supplied prefixes.
pub fn matches_any(name: &String, prefixes: &Vec<String>) -> (r: bool)
    ensures
        r == matches_any_spec(name@, views_of(prefixes@)),
{
    let ghost pviews = views_of(prefixes@);
    let mut i: usize = 0;
    while i < prefixes.len()
        invariant
            i <= prefixes@.len(),
            pviews == views_of(prefixes@),
            forall|j: int| 0 <= j < i ==> !starts_with_spec(name@, pviews[j]),
        decreases prefixes@.len() - i,
    {
        if str_starts_with(name.as_str(), prefixes[i].as_str()) {
            assert(starts_with_spec(name@, pviews[i as int]));
            return true;
        }
        assert(!starts_with_spec(name@, pviews[i as int]));
        i += 1;
    }
    false
}

/// A `NAME=value` assignment handed to the helper.
pub open spec fn assignment_spec(name: Seq<char>, value: Seq<char>) -> Seq<char> {
    name + seq!['='] + value
}

/// Format a `NAME=value` assignment.
pub fn make_assignment(name: &String, value: &String) -> (a: String)
    ensures
        a@ == assignment_spec(name@, value@),
{
    let mut s = name.clone();
    s.append("=");
    s.append(value.as_str());
    proof {
        reveal_strlit("=");
        assert(s@ =~= assignment_spec(name@, value@));
    }
    s
}

/// A variable is forwarded through the prefix rule when its name is not
/// the backtrace variable's (that one has its own rule) and starts with
/// one of the supplied prefixes.
pub open spec fn forwarded(name: Seq<char>, prefixes: Seq<Seq<char>>) -> bool {
    name != backtrace_name() && matches_any_spec(name, prefixes)
}

/// The assignments forwarded from the environment `vars`, in order: one
/// `NAME=value` entry for every variable whose name passes the prefix
/// rule.
pub open spec fn forward_list(
    vars: Seq<(String, String)>,
    prefixes: Seq<Seq<char>>,
) -> Seq<Seq<char>>
    decreases vars.len(),
{
    if vars.len() == 0 {
        Seq::empty()
    } else {
        forward_list(vars.drop_last(), prefixes) + (
        if forwarded(vars.last().0@, prefixes) {
            seq![assignment_spec(vars.last().0@, vars.last().1@)]
        } else {
            Seq::<Seq<char>>::empty()
        })
    }
}

/// The prefix rule as a predicate on a name/value pair.
pub open spec fn forward_pred(prefixes: Seq<Seq<char>>) -> spec_fn((String, String)) -> bool {
    |v: (String, String)| forwarded(v.0@, prefixes)
}

/// The `NAME=value` form of a name/value pair.
pub open spec fn assignment_of() -> spec_fn((String, String)) -> Seq<char> {
    |v: (String, String)| assignment_spec(v.0@, v.1@)
}

/// The forwarding list is exact: it holds the assignments of precisely
/// the variables that pass the prefix rule — no other variable is
/// forwarded — and keeps them in their original order.
pub proof fn lemma_forward_list_exact(vars: Seq<(String, String)>, prefixes: Seq<Seq<char>>)
    ensures
        forward_list(vars, prefixes) == vars.filter(forward_pred(prefixes)).map_values(
            assignment_of(),
        ),
    decreases vars.len(),
{
    reveal(Seq::filter);
    let p = forward_pred(prefixes);
    let f = assignment_of();
    if vars.len() == 0 {
        assert(vars.filter(p).map_values(f) =~= Seq::<Seq<char>>::empty());
        assert(forward_list(vars, prefixes) =~= Seq::<Seq<char>>::empty());
    } else {
        let rest = vars.drop_last();
        lemma_forward_list_exact(rest, prefixes);
        if p(vars.last()) {
            assert(vars.filter(p) == rest.filter(p).push(vars.last()));
            assert(vars.filter(p).map_values(f) =~= rest.filter(p).map_values(f) + seq![
                f(vars.last()),
            ]);
            assert(forward_list(vars, prefixes) =~= rest.filter(p).map_values(f) + seq![
                f(vars.last()),
            ]);
        } else {
            assert(vars.filter(p) == rest.filter(p));
            assert(forward_list(vars, prefixes) =~= forward_list(rest, prefixes));
        }
    }
}

/// Build the forwarded assignments for the environment `vars` under the
/// given prefixes, in the order the variables appear.
pub fn build_forward_args(vars: &Vec<(String, String)>, prefixes: &Vec<String>) -> (out: Vec<
    String,
>)
    ensures
        views_of(out@) == forward_list(vars@, views_of(prefixes@)),
{
    let bt = String::from_str("RUST_BACKTRACE");
    let ghost pviews = views_of(prefixes@);
    let mut out: Vec<String> = Vec::new();
    let mut i: usize = 0;
    while i < vars.len()
        invariant
            i <= vars@.len(),
            bt@ == backtrace_name(),
            pviews == views_of(prefixes@),
            views_of(out@) =~= forward_list(vars@.take(i as int), pviews),
        decreases vars@.len() - i,
    {
        let name = &vars[i].0;
        let value = &vars[i].1;
        let is_backtrace = *name == bt;
        if !is_backtrace && matches_any(name, prefixes) {
            out.push(make_assignment(name, value));
        }
        proof {
            assert(vars@.take(i as int + 1).drop_last() =~= vars@.take(i as int));
            assert(vars@.take(i as int + 1).last() == vars@[i as int]);
            assert(views_of(out@) =~= forward_list(vars@.take(i as int + 1), pviews));
        }
        i += 1;
    }
    proof {
        assert(vars@.take(vars@.len() as int) =~= vars@);
    }
    out
}

} // verus!
