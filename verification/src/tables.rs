//! The provider's tables: a read-only index over the array of named tables,
//! answering for a table by its name and for a row by its id.
//!
//! Nothing is built: tables are small and asked a few dozen times, so every
//! answer is a scan from the front, and the first match is the one that counts.

use vstd::prelude::*;

use crate::json::{views, Json, JsonView};
use crate::scan::{first_true, lemma_first_true_at, lemma_first_true_none};
use crate::text::same_text;

verus! {

/// For each value, whether its member `id` is the string `id`.
pub open spec fn id_hits(values: Seq<JsonView>, id: Seq<char>) -> Seq<bool> {
    Seq::new(values.len(), |i: int| values[i].text_field("id"@) == Some(id))
}

/// The rows of the first table named `name`: the elements of its member
/// `data_rows`. There are none where no table has that name, or where that
/// table has no array under `data_rows`.
pub open spec fn table_rows(tables: Seq<JsonView>, name: Seq<char>) -> Option<Seq<JsonView>> {
    match first_true(id_hits(tables, name)) {
        Some(i) => match tables[i].field("data_rows"@) {
            Some(rows) => rows.items(),
            None => None,
        },
        None => None,
    }
}

/// The first row of the table `table` whose id is `id`.
pub open spec fn row_by_id(tables: Seq<JsonView>, table: Seq<char>, id: Seq<char>) -> Option<
    JsonView,
> {
    match table_rows(tables, table) {
        Some(rows) => match first_true(id_hits(rows, id)) {
            Some(i) => Some(rows[i]),
            None => None,
        },
        None => None,
    }
}

/// The position of the first of `values` whose member `id` is the string
/// `id`. A value without such a member, or with one that is no string, is
/// passed over.
pub fn position_by_id(values: &Vec<Json>, id: &str) -> (found: Option<usize>)
    ensures
        match found {
            Some(i) => first_true(id_hits(views(values@), id@)) == Some(i as int),
            None => first_true(id_hits(views(values@), id@)) is None,
        },
{
    let ghost hits = id_hits(views(values@), id@);
    let mut i: usize = 0;
    while i < values.len()
        invariant
            i <= values.len(),
            hits == id_hits(views(values@), id@),
            forall|j: int| 0 <= j < i ==> !hits[j],
        decreases values.len() - i,
    {
        let hit = match values[i].str_at("id") {
            Some(text) => same_text(text, id),
            None => false,
        };
        if hit {
            proof {
                lemma_first_true_at(hits, i as int);
            }
            return Some(i);
        }
        i += 1;
    }
    proof {
        lemma_first_true_none(hits);
    }
    None
}

/// The tables of one answer of the provider, as they came.
pub struct SlowTables<'a>(pub &'a Vec<Json>);

impl<'a> View for SlowTables<'a> {
    type V = Seq<JsonView>;

    open spec fn view(&self) -> Seq<JsonView> {
        views(self.0@)
    }
}

impl<'a> SlowTables<'a> {
    /// The rows of the table `name`.
    pub fn table(&self, name: &str) -> (rows: Option<&'a Vec<Json>>)
        ensures
            match rows {
                Some(rows) => table_rows(self@, name@) == Some(views(rows@)),
                None => table_rows(self@, name@) is None,
            },
    {
        match position_by_id(self.0, name) {
            Some(i) => match self.0[i].get("data_rows") {
                Some(rows) => rows.as_array(),
                None => None,
            },
            None => None,
        }
    }

    /// The row of the table `table` whose id is `id`.
    pub fn value(&self, table: &str, id: &str) -> (row: Option<&'a Json>)
        ensures
            match row {
                Some(row) => row_by_id(self@, table@, id@) == Some(row@),
                None => row_by_id(self@, table@, id@) is None,
            },
    {
        match self.table(table) {
            Some(rows) => match position_by_id(rows, id) {
                Some(i) => Some(&rows[i]),
                None => None,
            },
            None => None,
        }
    }
}

} // verus!
