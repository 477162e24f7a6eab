use vstd::prelude::*;

verus! {

/// A binary64 floating-point number, held as its IEEE-754 bit pattern.
/// The library carries such numbers without computing with them.
#[derive(Clone, Copy, Debug, PartialEq, Eq, Structural)]
pub struct Float64 {
    pub bits: u64,
}

/// The mathematical model of a [`DynValue`].
pub enum DynView {
    Absent,
    Bool(bool),
    Integer(i64),
    Decimal(Float64),
    Text(Seq<char>),
    List(Seq<DynView>),
    Record(Seq<(Seq<char>, DynView)>),
    Other(Seq<char>),
}

/// The dynamic value tree that both mapping directions produce.
#[derive(Debug, PartialEq)]
pub enum DynValue {
    /// No value.
    Absent,
    /// A boolean, only ever carried over from wire-form input.
    Bool(bool),
    Integer(i64),
    Decimal(Float64),
    Text(String),
    /// An ordered list of values.
    List(Vec<DynValue>),
    /// An ordered list of columns: (name, value).
    Record(Vec<(String, DynValue)>),
    /// A wire-form value of a kind the library does not model, by its type name.
    Other(String),
}

impl DynValue {
    pub open spec fn view(&self) -> DynView
        decreases self,
    {
        match self {
            DynValue::Absent => DynView::Absent,
            DynValue::Bool(b) => DynView::Bool(*b),
            DynValue::Integer(i) => DynView::Integer(*i),
            DynValue::Decimal(d) => DynView::Decimal(*d),
            DynValue::Text(s) => DynView::Text(s@),
            DynValue::List(items) => DynView::List(
                Seq::new(items.len() as nat, |i: int| if 0 <= i < items.len() { items[i].view() } else { DynView::Absent }),
            ),
            DynValue::Record(cols) => DynView::Record(
                Seq::new(cols.len() as nat, |i: int| if 0 <= i < cols.len() { (cols[i].0@, cols[i].1.view()) } else { (Seq::empty(), DynView::Absent) }),
            ),
            DynValue::Other(s) => DynView::Other(s@),
        }
    }
}

/// The views of a list's items.
pub open spec fn items_view(items: Seq<DynValue>) -> Seq<DynView> {
    items.map_values(|v: DynValue| v@)
}

/// The views of a record's columns.
pub open spec fn columns_view(cols: Seq<(String, DynValue)>) -> Seq<(Seq<char>, DynView)> {
    cols.map_values(|c: (String, DynValue)| (c.0@, c.1@))
}

pub proof fn lemma_list_view(items: Vec<DynValue>)
    ensures
        (DynValue::List(items))@ == DynView::List(items_view(items@)),
{
    let r = DynValue::List(items);
    if let DynView::List(s) = r@ {
        assert(s =~= items_view(items@));
    }
}

pub proof fn lemma_record_view(cols: Vec<(String, DynValue)>)
    ensures
        (DynValue::Record(cols))@ == DynView::Record(columns_view(cols@)),
{
    let r = DynValue::Record(cols);
    if let DynView::Record(s) = r@ {
        assert(s =~= columns_view(cols@));
    }
}

} // verus!
