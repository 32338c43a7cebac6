//! Region traveller batches: a named destination together with the ordered
//! collection of travellers currently holding that destination as their
//! outgoing target.

use vstd::prelude::*;
use crate::disease::State;

verus! {

/// A simulated citizen currently assigned to travel, exposing its current
/// disease state.
#[derive(Clone, Copy, Debug)]
pub struct Traveller {
    pub state: State,
}

impl Traveller {
    /// A fresh traveller, susceptible until told otherwise.
    pub fn new() -> (t: Traveller)
        ensures
            t.state is Susceptible,
    {
        Traveller { state: State::Susceptible }
    }
}

/// All travellers bound for one destination region, in the order the
/// scheduler listed them.
#[derive(Debug)]
pub struct TravellersByRegion {
    pub engine_id: String,
    pub travellers: Vec<Traveller>,
}

impl TravellersByRegion {
    /// The ordered disease states of the travellers in this batch.
    pub open spec fn states(self) -> Seq<State> {
        self.travellers@.map_values(|t: Traveller| t.state)
    }

    /// Whether some traveller in this batch is deceased: the violated
    /// invariant that record construction must reject.
    pub open spec fn has_deceased(self) -> bool {
        exists|i: int| 0 <= i < self.states().len() && self.states()[i] is Deceased
    }

    /// An empty batch bound for the given destination region.
    pub fn create(engine_id: &String) -> (batch: TravellersByRegion)
        ensures
            batch.engine_id@ == engine_id@,
            batch.travellers@.len() == 0,
    {
        TravellersByRegion { engine_id: engine_id.clone(), travellers: Vec::new() }
    }

    /// Appends one traveller to the batch.
    pub fn alloc_citizen(&mut self, traveller: Traveller)
        ensures
            final(self).engine_id@ == old(self).engine_id@,
            final(self).travellers@ == old(self).travellers@.push(traveller),
    {
        self.travellers.push(traveller);
    }

    /// The destination region this batch is bound for.
    pub fn to_engine_id(&self) -> (id: &String)
        ensures
            id@ == self.engine_id@,
    {
        &self.engine_id
    }

    /// Read-only ordered view over the travellers of this batch.
    pub fn get_travellers_slice(&self) -> (ts: &Vec<Traveller>)
        ensures
            ts@ == self.travellers@,
    {
        &self.travellers
    }

    /// Reports whether this batch holds a deceased traveller. Deceased
    /// citizens are travel-ineligible, so a `true` here means the upstream
    /// scheduler is corrupt and accounting must refuse the batch.
    pub fn contains_deceased(&self) -> (found: bool)
        ensures
            found == self.has_deceased(),
    {
        let n = self.travellers.len();
        for i in 0..n
            invariant
                n == self.travellers@.len(),
                forall|j: int| 0 <= j < i ==> !(#[trigger] self.states()[j] is Deceased),
        {
            if let State::Deceased = self.travellers[i].state {
                assert(self.states()[i as int] is Deceased);
                return true;
            }
            assert(!(self.states()[i as int] is Deceased));
        }
        false
    }
}

} // verus!
