use indexmap::IndexMap;
use vstd::prelude::*;

use crate::value::{columns_view, lemma_record_view, DynValue, DynView};

verus! {

#[verifier::external_type_specification]
#[verifier::external_body]
#[verifier::reject_recursive_types(K)]
#[verifier::reject_recursive_types(V)]
#[verifier::reject_recursive_types(S)]
pub struct ExIndexMap<K, V, S>(IndexMap<K, V, S>);

/// The columns of a row under construction, in their order.
pub uninterp spec fn row_columns(m: IndexMap<String, DynValue>) -> Seq<(Seq<char>, DynView)>;

/// Inserting into ordered columns: an existing key keeps its place and takes the new
/// value; a new key goes last.
pub open spec fn columns_insert(cols: Seq<(Seq<char>, DynView)>, key: Seq<char>, value: DynView) -> Seq<
    (Seq<char>, DynView),
>
    decreases cols.len(),
{
    if cols.len() == 0 {
        seq![(key, value)]
    } else if cols[0].0 == key {
        cols.update(0, (key, value))
    } else {
        seq![cols[0]] + columns_insert(cols.drop_first(), key, value)
    }
}

/// Inserting several columns, one after the other.
pub open spec fn insert_all(cols: Seq<(Seq<char>, DynView)>, entries: Seq<(Seq<char>, DynView)>) -> Seq<
    (Seq<char>, DynView),
>
    decreases entries.len(),
{
    if entries.len() == 0 {
        cols
    } else {
        let rest = insert_all(cols, entries.drop_last());
        columns_insert(rest, entries.last().0, entries.last().1)
    }
}

/// Relies on indexmap's `IndexMap::new`: a new map holds no entry.
#[verifier::external_body]
pub(crate) fn new_row() -> (m: IndexMap<String, DynValue>)
    ensures
        row_columns(m) == Seq::<(Seq<char>, DynView)>::empty(),
{
    IndexMap::new()
}

/// Relies on indexmap's `IndexMap::insert`: a key already present keeps its place in the
/// order and takes the new value; a new key is inserted last.
#[verifier::external_body]
pub(crate) fn row_insert(m: &mut IndexMap<String, DynValue>, key: String, value: DynValue)
    ensures
        row_columns(*final(m)) == columns_insert(row_columns(*old(m)), key@, value@),
{
    m.insert(key, value);
}

/// Relies on indexmap's `IntoIterator` for `IndexMap`: the entries come out in the map's order.
#[verifier::external_body]
fn row_into_columns(m: IndexMap<String, DynValue>) -> (r: Vec<(String, DynValue)>)
    ensures
        columns_view(r@) == row_columns(m),
{
    m.into_iter().collect()
}

/// Turns a finished row into a record value, keeping the order of its columns.
pub fn row_to_record(m: IndexMap<String, DynValue>) -> (r: DynValue)
    ensures
        r@ == DynView::Record(row_columns(m)),
{
    let cols = row_into_columns(m);
    proof {
        lemma_record_view(cols);
    }
    DynValue::Record(cols)
}

} // verus!
