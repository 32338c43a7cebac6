//! The disease-state taxonomy consumed by the accounting subsystem, and the
//! counting of states within a batch.
//!
//! The taxonomy is a closed set of mutually exclusive states. Only variant
//! identity matters here: the attributes of `Exposed` and `Infected` are
//! carried but never read by the accounting logic. `Deceased` is terminal and
//! travel-ineligible; every other state classifies into exactly one counted
//! bucket.

use vstd::prelude::*;

verus! {

/// Severity of an infection. Carried for variant identity only; the
/// accounting logic never distinguishes severities.
#[derive(Clone, Copy, Debug)]
pub enum InfectionSeverity {
    Mild,
    Severe,
}

/// Current disease state of a simulated citizen.
///
/// Matching on this type is exhaustive at the single classification site, so
/// adding a new state is a compile-time-visible break, never a silent
/// miscount.
#[derive(Clone, Copy, Debug)]
pub enum State {
    Susceptible,
    Exposed { at_hour: i32 },
    Infected { symptoms: bool, severity: InfectionSeverity },
    Recovered,
    Deceased,
}

/// One of the four counted buckets of a count record. `Deceased` has no
/// bucket: it must never appear in an outgoing batch.
#[derive(Clone, Copy, Debug)]
pub enum Bucket {
    Susceptible,
    Exposed,
    Infected,
    Recovered,
}

/// The bucket a state classifies into, or `None` for `Deceased`.
pub open spec fn bucket_of(st: State) -> Option<Bucket> {
    match st {
        State::Susceptible => Some(Bucket::Susceptible),
        State::Exposed { .. } => Some(Bucket::Exposed),
        State::Infected { .. } => Some(Bucket::Infected),
        State::Recovered => Some(Bucket::Recovered),
        State::Deceased => None,
    }
}

/// How many states of `s` classify into bucket `b`.
pub open spec fn count_bucket(s: Seq<State>, b: Bucket) -> int
    decreases s.len(),
{
    if s.len() == 0 {
        0
    } else {
        count_bucket(s.drop_last(), b) + if bucket_of(s.last()) == Some(b) {
            1int
        } else {
            0int
        }
    }
}

/// Classification completeness: in a sequence of states none of which is
/// `Deceased`, every state falls into exactly one bucket, so the four bucket
/// counts sum exactly to the length, for every possible mixture.
pub proof fn lemma_classification_complete(s: Seq<State>)
    requires
        forall|i: int| 0 <= i < s.len() ==> !(#[trigger] s[i] is Deceased),
    ensures
        count_bucket(s, Bucket::Susceptible) + count_bucket(s, Bucket::Exposed) + count_bucket(
            s,
            Bucket::Infected,
        ) + count_bucket(s, Bucket::Recovered) == s.len(),
    decreases s.len(),
{
    if s.len() > 0 {
        assert(s.drop_last() =~= s.subrange(0, s.len() - 1));
        assert(forall|i: int|
            0 <= i < s.drop_last().len() ==> !(#[trigger] s.drop_last()[i] is Deceased));
        lemma_classification_complete(s.drop_last());
        assert(s.last() == s[s.len() - 1]);
    }
}

} // verus!
