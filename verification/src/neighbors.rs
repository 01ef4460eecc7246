use vstd::prelude::*;

use std::collections::BTreeMap;

verus! {

// ============================================================================
// The county-adjacency table. It is stored as one small JSON object of the
// shape { "CountyName": ["Neighbor", ...], ... } and loaded whole; here it
// is held as rows in the stored key order.
// ============================================================================

/// One county's row: the county and its neighbors in stored order.
pub struct NeighborEntry {
    pub county: String,
    pub neighbors: Vec<String>,
}

impl DeepView for NeighborEntry {
    type V = (Seq<char>, Seq<Seq<char>>);

    open spec fn deep_view(&self) -> Self::V {
        (self.county@, self.neighbors.deep_view())
    }
}

/// The county-adjacency table.
pub struct NeighborMap {
    pub entries: Vec<NeighborEntry>,
}

impl DeepView for NeighborMap {
    type V = Seq<(Seq<char>, Seq<Seq<char>>)>;

    open spec fn deep_view(&self) -> Self::V {
        self.entries.deep_view()
    }
}

/// The table the adjacency object's bytes denote — the rows of the JSON
/// object in ascending key order — or nothing where the bytes are not such
/// an object.
pub uninterp spec fn neighbor_table_model(bytes: Seq<u8>) -> Option<
    Seq<(Seq<char>, Seq<Seq<char>>)>,
>;

/// Relies on serde_json::from_slice for BTreeMap<String, Vec<String>>: the
/// parse is a function of the bytes alone, it succeeds exactly on a JSON
/// object of arrays of strings (a repeated key keeps its last value), and
/// the map hands its entries out in ascending key order, each key once.
#[verifier::external_body]
fn parse_neighbor_json(bytes: &[u8]) -> (r: Option<NeighborMap>)
    ensures
        r is Some <==> neighbor_table_model(bytes@) is Some,
        r is Some ==> r->Some_0.deep_view() == neighbor_table_model(bytes@)->Some_0,
{
    let table: BTreeMap<String, Vec<String>> = match serde_json::from_slice(bytes) {
        Ok(t) => t,
        Err(_) => return None,
    };
    let entries = table
        .into_iter()
        .map(|(county, neighbors)| NeighborEntry { county, neighbors })
        .collect();
    Some(NeighborMap { entries })
}

/// Parse the adjacency object's bytes into the table, or nothing where they
/// do not hold one.
pub fn parse_neighbor_map(bytes: &[u8]) -> (r: Option<NeighborMap>)
    ensures
        r is Some <==> neighbor_table_model(bytes@) is Some,
        r is Some ==> r->Some_0.deep_view() == neighbor_table_model(bytes@)->Some_0,
{
    parse_neighbor_json(bytes)
}

/// The neighbor list of the first row for `key` at or after position `i`.
pub open spec fn table_lookup_from(
    table: Seq<(Seq<char>, Seq<Seq<char>>)>,
    key: Seq<char>,
    i: int,
) -> Option<Seq<Seq<char>>>
    decreases table.len() - i,
{
    if i < 0 || i >= table.len() {
        Option::None
    } else if table[i].0 == key {
        Option::Some(table[i].1)
    } else {
        table_lookup_from(table, key, i + 1)
    }
}

/// The neighbor list stored for a county, if the table has its row.
pub open spec fn table_lookup(table: Seq<(Seq<char>, Seq<Seq<char>>)>, key: Seq<char>) -> Option<
    Seq<Seq<char>>,
> {
    table_lookup_from(table, key, 0)
}

impl NeighborMap {
    fn neighbors_from(&self, county: &String, i: usize) -> (r: Option<&Vec<String>>)
        requires
            i <= self.entries@.len(),
        ensures
            r is Some <==> table_lookup_from(self.deep_view(), county@, i as int) is Some,
            r is Some ==> r->Some_0.deep_view() == table_lookup_from(
                self.deep_view(),
                county@,
                i as int,
            )->Some_0,
        decreases self.entries@.len() - i,
    {
        if i < self.entries.len() {
            if self.entries[i].county == *county {
                Option::Some(&self.entries[i].neighbors)
            } else {
                self.neighbors_from(county, i + 1)
            }
        } else {
            Option::None
        }
    }

    /// The neighbor list stored for a county. A county without a row simply
    /// has no known neighbors; that is not an error.
    pub fn neighbors_of(&self, county: &String) -> (r: Option<&Vec<String>>)
        ensures
            r is Some <==> table_lookup(self.deep_view(), county@) is Some,
            r is Some ==> r->Some_0.deep_view() == table_lookup(self.deep_view(), county@)->Some_0,
    {
        self.neighbors_from(county, 0)
    }
}

} // verus!
