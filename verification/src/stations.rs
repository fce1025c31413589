//! The catalogue of station names from which departures are drawn.

use vstd::prelude::*;
use crate::chance::random_in_range;
use crate::text::texts;

verus! {

/// A list of station names that is known to hold at least one name.
#[derive(Clone, Debug)]
pub struct StationCatalog {
    names: Vec<String>,
}

impl View for StationCatalog {
    type V = Seq<Seq<char>>;

    /// The names in the order in which they were loaded.
    closed spec fn view(&self) -> Seq<Seq<char>> {
        texts(self.names@)
    }
}

impl StationCatalog {
    /// A catalogue always has a name to draw.
    pub open spec fn wf(&self) -> bool {
        self@.len() > 0
    }

    /// Makes the catalogue of the names in `lines`, one name per line and in the
    /// same order. A list without a single line makes no catalogue: drawing from
    /// it would have nothing to give.
    pub fn load_station_names(lines: Vec<String>) -> (catalog: Option<StationCatalog>)
        ensures
            catalog is Some <==> lines@.len() > 0,
            catalog matches Some(c) ==> c@ == texts(lines@) && c.wf(),
    {
        if lines.len() == 0 {
            None
        } else {
            Some(StationCatalog { names: lines })
        }
    }

    /// How many names the catalogue holds.
    pub fn len(&self) -> (n: usize)
        ensures
            n == self@.len(),
    {
        self.names.len()
    }

    /// The name at `index`.
    pub fn station_name(&self, index: usize) -> (name: &str)
        requires
            index < self@.len(),
        ensures
            name@ == self@[index as int],
    {
        self.names[index].as_str()
    }

    /// Draws one name of the catalogue, each with the same chance.
    pub fn get_random_station_name(&self) -> (name: &str)
        requires
            self.wf(),
        ensures
            self@.contains(name@),
    {
        let index = random_in_range(0, self.names.len() as u64) as usize;
        assert(self@[index as int] == self.names@[index as int]@);
        self.names[index].as_str()
    }
}

} // verus!
