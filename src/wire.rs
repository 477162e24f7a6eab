use vstd::prelude::*;

use crate::value::{items_view, columns_view, lemma_list_view, lemma_record_view, DynValue, DynView, Float64};

verus! {

/// A value of the wire form, as a JSON-style decoder gives it.
#[derive(Debug)]
pub enum WireValue {
    Nothing,
    Bool(bool),
    /// An integer, together with the binary64 number nearest to it.
    Int(i64, Float64),
    Float(Float64),
    String(String),
    List(Vec<WireValue>),
    /// Columns in their order: (name, value).
    Record(Vec<(String, WireValue)>),
    /// A value of a type the library does not read, by its type name.
    Other(String),
}

/// A wire-form value carried over unchanged into the value tree.
pub open spec fn wire_view(w: WireValue) -> DynView
    decreases w,
{
    match w {
        WireValue::Nothing => DynView::Absent,
        WireValue::Bool(b) => DynView::Bool(b),
        WireValue::Int(i, _) => DynView::Integer(i),
        WireValue::Float(f) => DynView::Decimal(f),
        WireValue::String(s) => DynView::Text(s@),
        WireValue::List(items) => DynView::List(
            Seq::new(items.len() as nat, |i: int| if 0 <= i < items.len() { wire_view(items[i]) } else { DynView::Absent }),
        ),
        WireValue::Record(cols) => DynView::Record(
            Seq::new(
                cols.len() as nat,
                |i: int| if 0 <= i < cols.len() { (cols[i].0@, wire_view(cols[i].1)) } else { (Seq::empty(), DynView::Absent) },
            ),
        ),
        WireValue::Other(n) => DynView::Other(n@),
    }
}

/// The name of a wire-form value's type, as error reports give it.
pub open spec fn kind_name(w: WireValue) -> Seq<char> {
    match w {
        WireValue::Nothing => "nothing"@,
        WireValue::Bool(_) => "bool"@,
        WireValue::Int(..) => "int"@,
        WireValue::Float(_) => "float"@,
        WireValue::String(_) => "string"@,
        WireValue::List(_) => "list"@,
        WireValue::Record(_) => "record"@,
        WireValue::Other(n) => n@,
    }
}

/// The value under the first column named `key`, if any.
pub open spec fn record_get(cols: Seq<(String, WireValue)>, key: Seq<char>) -> Option<WireValue>
    decreases cols.len(),
{
    if cols.len() == 0 {
        None
    } else if cols[0].0@ == key {
        Some(cols[0].1)
    } else {
        record_get(cols.drop_first(), key)
    }
}

/// The place of the first column named `key`, if any.
pub open spec fn key_position(cols: Seq<(String, WireValue)>, key: Seq<char>) -> Option<int>
    decreases cols.len(),
{
    if cols.len() == 0 {
        None
    } else if cols[0].0@ == key {
        Some(0)
    } else {
        match key_position(cols.drop_first(), key) {
            Some(i) => Some(i + 1),
            None => None,
        }
    }
}

pub proof fn lemma_key_position(cols: Seq<(String, WireValue)>, key: Seq<char>)
    ensures
        key_position(cols, key) is None <==> record_get(cols, key) is None,
        key_position(cols, key) matches Some(i) ==> 0 <= i < cols.len() && cols[i].0@ == key
            && record_get(cols, key) == Some(cols[i].1),
    decreases cols.len(),
{
    if cols.len() > 0 {
        lemma_key_position(cols.drop_first(), key);
    }
}

/// Whether two texts are the same.
pub fn same_text(a: &str, b: &str) -> (r: bool)
    ensures
        r == (a@ == b@),
{
    let n = a.unicode_len();
    if n != b.unicode_len() {
        return false;
    }
    let mut i: usize = 0;
    while i < n
        invariant
            n == a@.len(),
            n == b@.len(),
            i <= n,
            forall|j: int| 0 <= j < i ==> a@[j] == b@[j],
        decreases n - i,
    {
        if a.get_char(i) != b.get_char(i) {
            return false;
        }
        i = i + 1;
    }
    proof {
        assert(a@ =~= b@);
    }
    true
}

/// The place of the first column named `key`, if any.
pub fn find_column(cols: &Vec<(String, WireValue)>, key: &str) -> (r: Option<usize>)
    ensures
        r matches Some(i) ==> key_position(cols@, key@) == Some(i as int),
        r is None ==> key_position(cols@, key@) is None,
{
    let mut i: usize = 0;
    proof {
        assert(cols@.subrange(0, cols@.len() as int) =~= cols@);
    }
    while i < cols.len()
        invariant
            i <= cols.len(),
            forall|j: int| 0 <= j < i ==> cols@[j].0@ != key@,
            key_position(cols@, key@) == (match key_position(cols@.subrange(i as int, cols@.len() as int), key@) {
                Some(k) => Some(k + i),
                None => None,
            }),
        decreases cols.len() - i,
    {
        let ghost rest = cols@.subrange(i as int, cols@.len() as int);
        if same_text(cols[i].0.as_str(), key) {
            return Some(i);
        }
        proof {
            assert(rest.drop_first() =~= cols@.subrange(i as int + 1, cols@.len() as int));
        }
        i = i + 1;
    }
    None
}

/// The column named `key` is present.
pub fn has_column(cols: &Vec<(String, WireValue)>, key: &str) -> (r: bool)
    ensures
        r == (record_get(cols@, key@) is Some),
{
    proof {
        lemma_key_position(cols@, key@);
    }
    find_column(cols, key).is_some()
}

impl WireValue {
    /// The value carried over unchanged into the value tree.
    pub fn to_dyn(&self) -> (r: DynValue)
        ensures
            r@ == wire_view(*self),
        decreases self,
    {
        match self {
            WireValue::Nothing => DynValue::Absent,
            WireValue::Bool(b) => DynValue::Bool(*b),
            WireValue::Int(i, _) => DynValue::Integer(*i),
            WireValue::Float(f) => DynValue::Decimal(*f),
            WireValue::String(s) => DynValue::Text(s.clone()),
            WireValue::List(items) => {
                let mut out: Vec<DynValue> = Vec::new();
                let mut k: usize = 0;
                while k < items.len()
                    invariant
                        k <= items.len(),
                        *self == WireValue::List(*items),
                        out@.len() == k,
                        forall|j: int| 0 <= j < k ==> (#[trigger] out@[j])@ == wire_view(items@[j]),
                    decreases items.len() - k,
                {
                    proof {
                        assert(decreases_to!(*self => self->List_0));
                        assert(decreases_to!(self->List_0 => self->List_0[k as int]));
                    }
                    out.push(items[k].to_dyn());
                    k = k + 1;
                }
                proof {
                    lemma_list_view(out);
                    if let DynView::List(s) = wire_view(*self) {
                        assert(items_view(out@) =~= s);
                    }
                }
                DynValue::List(out)
            },
            WireValue::Record(cols) => {
                let mut out: Vec<(String, DynValue)> = Vec::new();
                let mut k: usize = 0;
                while k < cols.len()
                    invariant
                        k <= cols.len(),
                        *self == WireValue::Record(*cols),
                        out@.len() == k,
                        forall|j: int|
                            0 <= j < k ==> (#[trigger] out@[j]).0@ == cols@[j].0@ && out@[j].1@ == wire_view(
                                cols@[j].1,
                            ),
                    decreases cols.len() - k,
                {
                    proof {
                        assert(decreases_to!(*self => self->Record_0));
                        assert(decreases_to!(self->Record_0 => self->Record_0[k as int]));
                        assert(decreases_to!(self->Record_0[k as int] => self->Record_0[k as int].1));
                    }
                    let v = cols[k].1.to_dyn();
                    out.push((cols[k].0.clone(), v));
                    k = k + 1;
                }
                proof {
                    lemma_record_view(out);
                    if let DynView::Record(s) = wire_view(*self) {
                        assert(columns_view(out@) =~= s);
                    }
                }
                DynValue::Record(out)
            },
            WireValue::Other(n) => DynValue::Other(n.clone()),
        }
    }

    /// The name of the value's type, as error reports give it.
    pub fn kind_name(&self) -> (r: String)
        ensures
            r@ == kind_name(*self),
    {
        match self {
            WireValue::Nothing => String::from_str("nothing"),
            WireValue::Bool(_) => String::from_str("bool"),
            WireValue::Int(..) => String::from_str("int"),
            WireValue::Float(_) => String::from_str("float"),
            WireValue::String(_) => String::from_str("string"),
            WireValue::List(_) => String::from_str("list"),
            WireValue::Record(_) => String::from_str("record"),
            WireValue::Other(n) => n.clone(),
        }
    }
}

} // verus!
