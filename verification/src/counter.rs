//! Count records and the travel accounting listener.
//!
//! A [`CountsByRegion`] summarizes one outgoing batch: for a given simulated
//! hour and destination, how many travellers were in each non-terminal
//! disease-state category. A [`TravelCounter`] accumulates such records in an
//! append-only ledger and, at simulation end, freezes the ledger and renders
//! it as report rows.

use vstd::prelude::*;
use crate::disease::{Bucket, State, count_bucket};
use crate::travel::TravellersByRegion;

verus! {

/// Failure of count-record construction: the domain invariant that no
/// traveller in an outgoing batch may be in a terminal non-travel state was
/// violated.
#[derive(Clone, Copy, Debug, PartialEq, Eq, Structural)]
pub enum AccountingError {
    DeceasedTraveller,
}

impl AccountingError {
    /// The diagnostic identifying the violated invariant.
    pub fn message(&self) -> (s: String)
        ensures
            s@ == "a deceased agent must never be included in an outgoing-travel batch"@,
    {
        String::from_str("a deceased agent must never be included in an outgoing-travel batch")
    }
}

/// One ledger row: how many outgoing travellers bound for `destination` at
/// hour `hr` fell into each counted disease-state bucket.
#[derive(Debug)]
pub struct CountsByRegion {
    pub hr: i32,
    pub destination: String,
    pub susceptible: i32,
    pub exposed: i32,
    pub infected: i32,
    pub recovered: i32,
}

/// `rec` is exactly the record that classifying batch `batch` at hour `hr`
/// must produce: destination copied from the batch, and each counter the
/// number of travellers in the corresponding bucket.
pub open spec fn is_record_of(rec: CountsByRegion, hr: i32, batch: TravellersByRegion) -> bool {
    &&& rec.hr == hr
    &&& rec.destination@ == batch.engine_id@
    &&& rec.susceptible == count_bucket(batch.states(), Bucket::Susceptible)
    &&& rec.exposed == count_bucket(batch.states(), Bucket::Exposed)
    &&& rec.infected == count_bucket(batch.states(), Bucket::Infected)
    &&& rec.recovered == count_bucket(batch.states(), Bucket::Recovered)
}

impl CountsByRegion {
    /// Classifies one batch observed at hour `hr` into a count record.
    ///
    /// Every traveller increments exactly one of the four counters, so the
    /// counters sum to the batch size. A deceased traveller must never be
    /// included in an outgoing-travel batch: callers rule that out (see
    /// [`TravellersByRegion::contains_deceased`]) and abort on violation
    /// rather than let a corrupt batch be counted.
    pub fn create_from(hr: i32, travellers_by_region: &TravellersByRegion) -> (rec: CountsByRegion)
        requires
            !travellers_by_region.has_deceased(),
            travellers_by_region.travellers@.len() <= i32::MAX,
        ensures
            is_record_of(rec, hr, *travellers_by_region),
            rec.susceptible + rec.exposed + rec.infected + rec.recovered
                == travellers_by_region.travellers@.len(),
    {
        let ghost states = travellers_by_region.states();
        let mut susceptible: i32 = 0;
        let mut exposed: i32 = 0;
        let mut infected: i32 = 0;
        let mut recovered: i32 = 0;
        let n = travellers_by_region.travellers.len();
        for i in 0..n
            invariant
                n == states.len(),
                n == travellers_by_region.travellers@.len(),
                n <= i32::MAX,
                states == travellers_by_region.states(),
                !travellers_by_region.has_deceased(),
                0 <= susceptible,
                0 <= exposed,
                0 <= infected,
                0 <= recovered,
                susceptible == count_bucket(states.take(i as int), Bucket::Susceptible),
                exposed == count_bucket(states.take(i as int), Bucket::Exposed),
                infected == count_bucket(states.take(i as int), Bucket::Infected),
                recovered == count_bucket(states.take(i as int), Bucket::Recovered),
                susceptible + exposed + infected + recovered == i,
        {
            proof {
                assert(states.take(i + 1).drop_last() =~= states.take(i as int));
                assert(states.take(i + 1).last() == states[i as int]);
            }
            match travellers_by_region.travellers[i].state {
                State::Susceptible => { susceptible = susceptible + 1 },
                State::Exposed { .. } => { exposed = exposed + 1 },
                State::Infected { .. } => { infected = infected + 1 },
                State::Recovered => { recovered = recovered + 1 },
                State::Deceased => {
                    // the caller rules out deceased travellers, so this arm
                    // is unreachable; matching it keeps the dispatch closed
                    proof {
                        assert(states[i as int] is Deceased);
                        assert(false);
                    }
                },
            }
        }
        proof {
            assert(states.take(n as int) =~= states);
        }
        CountsByRegion {
            hr,
            destination: travellers_by_region.to_engine_id().clone(),
            susceptible,
            exposed,
            infected,
            recovered,
        }
    }

    /// Classifies one batch, refusing a corrupt one instead of aborting:
    /// returns the count record exactly when no traveller in the batch is
    /// deceased, and the invariant-violation failure otherwise. A deceased
    /// traveller is never silently counted as zero or misclassified; callers
    /// that meet one abort, since it indicates upstream scheduling
    /// corruption, not bad input data.
    pub fn try_create_from(hr: i32, travellers_by_region: &TravellersByRegion) -> (r: Result<
        CountsByRegion,
        AccountingError,
    >)
        requires
            travellers_by_region.travellers@.len() <= i32::MAX,
        ensures
            r is Ok <==> !travellers_by_region.has_deceased(),
            r is Ok ==> is_record_of(r->Ok_0, hr, *travellers_by_region),
            r is Err ==> r->Err_0 is DeceasedTraveller,
    {
        if travellers_by_region.contains_deceased() {
            Err(AccountingError::DeceasedTraveller)
        } else {
            Ok(CountsByRegion::create_from(hr, travellers_by_region))
        }
    }

    /// Builds a record directly from its six fields, in column order.
    pub fn new(hr: i32, destination: String, s: i32, e: i32, i: i32, r: i32) -> (rec:
        CountsByRegion)
        ensures
            rec.hr == hr,
            rec.destination@ == destination@,
            rec.susceptible == s,
            rec.exposed == e,
            rec.infected == i,
            rec.recovered == r,
    {
        CountsByRegion { hr, destination, susceptible: s, exposed: e, infected: i, recovered: r }
    }
}

/// The travel accounting listener.
///
/// Driven by two notifications from the simulation loop: each time outgoing
/// travellers are dispatched it classifies every batch and appends one record
/// per destination to its ledger; when the simulation ends it freezes the
/// ledger. The ledger is append-only, and insertion order is notification
/// order, then batch order within a notification.
pub struct TravelCounter {
    /// The accumulated ledger, in insertion order.
    pub counts: Vec<CountsByRegion>,
    /// File name (within the resolved output directory) the report is meant
    /// for; this subsystem never resolves the directory itself.
    pub output_file_name: String,
    /// Whether the simulation-ended notification has been received. Once set,
    /// the ledger is frozen: further travel notifications are a programmer
    /// error and are refused.
    pub finalized: bool,
}

impl TravelCounter {
    /// A listener with an empty ledger, accepting notifications.
    pub fn new(output_file_name: String) -> (counter: TravelCounter)
        ensures
            counter.counts@.len() == 0,
            counter.output_file_name == output_file_name,
            !counter.finalized,
    {
        TravelCounter { counts: Vec::new(), output_file_name, finalized: false }
    }

    /// Classifies each batch dispatched at hour `hr` and appends one record
    /// per batch to the ledger, in batch order, after everything already
    /// recorded. No batch is skipped, nothing already recorded changes, and
    /// an empty batch list leaves the ledger untouched. Calls for the same
    /// hour are never merged: every call appends.
    pub fn outgoing_travellers_added(&mut self, hr: i32, travellers: &Vec<TravellersByRegion>)
        requires
            !old(self).finalized,
            forall|i: int|
                0 <= i < travellers@.len() ==> !(#[trigger] travellers@[i]).has_deceased(),
            forall|i: int|
                0 <= i < travellers@.len() ==> (#[trigger] travellers@[i]).travellers@.len()
                    <= i32::MAX,
        ensures
            !final(self).finalized,
            final(self).output_file_name == old(self).output_file_name,
            final(self).counts@.len() == old(self).counts@.len() + travellers@.len(),
            forall|i: int|
                0 <= i < old(self).counts@.len() ==> final(self).counts@[i] == old(
                    self,
                ).counts@[i],
            forall|j: int|
                0 <= j < travellers@.len() ==> is_record_of(
                    #[trigger] final(self).counts@[old(self).counts@.len() + j],
                    hr,
                    travellers@[j],
                ),
            travellers@.len() == 0 ==> final(self).counts@ == old(self).counts@,
    {
        let ghost ledger0 = self.counts@;
        let n = travellers.len();
        for j in 0..n
            invariant
                n == travellers@.len(),
                !self.finalized,
                self.output_file_name == old(self).output_file_name,
                forall|i: int|
                    0 <= i < travellers@.len() ==> !(#[trigger] travellers@[i]).has_deceased(),
                forall|i: int|
                    0 <= i < travellers@.len() ==> (#[trigger] travellers@[i]).travellers@.len()
                        <= i32::MAX,
                self.counts@.len() == ledger0.len() + j,
                forall|i: int| 0 <= i < ledger0.len() ==> self.counts@[i] == ledger0[i],
                forall|k: int|
                    0 <= k < j ==> is_record_of(
                        #[trigger] self.counts@[ledger0.len() + k],
                        hr,
                        travellers@[k],
                    ),
        {
            let rec = CountsByRegion::create_from(hr, &travellers[j]);
            self.counts.push(rec);
        }
        proof {
            if travellers@.len() == 0 {
                assert(self.counts@ =~= ledger0);
            }
        }
    }

    /// Receives the simulation-ended notification: freezes the ledger and
    /// returns the report rows to be persisted — the header, then every
    /// ledger record in insertion order, with the stable column order. The
    /// ledger itself is left intact, so the rows are a pure function of its
    /// contents. Writing the rows to the resolved output path, and swallowing
    /// any write failure, is the caller's business: report durability must
    /// never abort simulation shutdown.
    pub fn simulation_ended(&mut self) -> (rows: Vec<String>)
        requires
            !old(self).finalized,
        ensures
            final(self).finalized,
            final(self).counts@ == old(self).counts@,
            final(self).output_file_name == old(self).output_file_name,
            rows@.len() == final(self).counts@.len() + 1,
            rows@[0]@ == crate::report::header_line(),
            forall|i: int|
                0 <= i < final(self).counts@.len() ==> (#[trigger] rows@[i + 1])@
                    == crate::report::csv_line(final(self).counts@[i]),
    {
        self.finalized = true;
        crate::report::render_report(&self.counts)
    }
}

impl PartialEq for CountsByRegion {
    fn eq(&self, other: &Self) -> (r: bool) {
        self.hr == other.hr && self.destination == other.destination && self.susceptible
            == other.susceptible && self.exposed == other.exposed && self.infected == other.infected
            && self.recovered == other.recovered
    }
}

impl vstd::std_specs::cmp::PartialEqSpecImpl for CountsByRegion {
    open spec fn obeys_eq_spec() -> bool {
        true
    }

    open spec fn eq_spec(&self, other: &Self) -> bool {
        &&& self.hr == other.hr
        &&& self.destination@ == other.destination@
        &&& self.susceptible == other.susceptible
        &&& self.exposed == other.exposed
        &&& self.infected == other.infected
        &&& self.recovered == other.recovered
    }
}

} // verus!
