use vstd::prelude::*;

verus! {

/// The privilege configuration a process runs under, derived from its
/// real and effective user ids at the moment of the check.
#[derive(Clone, Copy, Debug, PartialEq, Eq, Structural)]
pub enum RunningAs {
    /// Both the real and the effective user id are the superuser id 0.
    Root,
    /// Running as an ordinary user: no latent privilege is available.
    User,
    /// The effective user id is 0 but the real one is not: the binary was
    /// started with the set-user-id bit and its privilege is latent until
    /// claimed.
    Suid,
}

/// The three-way partition of `(uid, euid)` pairs into privilege states.
pub open spec fn classify_spec(uid: u32, euid: u32) -> RunningAs {
    if uid == 0 && euid == 0 {
        RunningAs::Root
    } else if euid == 0 {
        RunningAs::Suid
    } else {
        RunningAs::User
    }
}

/// Classify a process from its real user id `uid` and effective user id
/// `euid`. A pure read: the caller samples the two ids and nothing else.
pub fn classify(uid: u32, euid: u32) -> (state: RunningAs)
    ensures
        state == classify_spec(uid, euid),
        (state == RunningAs::Root) <==> (uid == 0 && euid == 0),
        (state == RunningAs::Suid) <==> (uid != 0 && euid == 0),
        (state == RunningAs::User) <==> (euid != 0),
{
    if uid == 0 && euid == 0 {
        RunningAs::Root
    } else if euid == 0 {
        RunningAs::Suid
    } else {
        RunningAs::User
    }
}

/// Classification is a total function of the two ids and the three
/// states partition the input space: every `(uid, euid)` pair falls
/// under exactly one of `Root`, `Suid` and `User`, and there is no
/// fourth state.
pub proof fn lemma_classification_partition(uid: u32, euid: u32)
    ensures
        (classify_spec(uid, euid) == RunningAs::Root) <==> (uid == 0 && euid == 0),
        (classify_spec(uid, euid) == RunningAs::Suid) <==> (uid != 0 && euid == 0),
        (classify_spec(uid, euid) == RunningAs::User) <==> (euid != 0),
{
}

/// Classification depends on the two ids alone: two reads that observe
/// the same ids — for instance two checks in immediate succession with
/// no privilege change in between — yield the same state.
pub proof fn lemma_classification_deterministic(
    uid1: u32,
    euid1: u32,
    uid2: u32,
    euid2: u32,
)
    requires
        uid1 == uid2,
        euid1 == euid2,
    ensures
        classify_spec(uid1, euid1) == classify_spec(uid2, euid2),
{
}

} // verus!
