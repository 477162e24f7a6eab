use indexmap::IndexMap;
use vstd::prelude::*;

use crate::convert::{class_value, convert, ConversionError, Payload};
use crate::dictionary::{resolve, tag_name, TagDictionary};
use crate::row::{columns_insert, insert_all, new_row, row_columns, row_insert, row_to_record};
use crate::value::{items_view, lemma_list_view, DynValue, DynView};
use crate::vr::Vr;

verus! {

/// What a decoded field holds.
pub enum ElementValue {
    /// A primitive payload, converted by the class of the type code.
    Primitive(Payload),
    /// A sequence of nested objects.
    Sequence(Vec<DicomObject>),
    /// Encapsulated pixel data, which is never read.
    PixelSequence,
}

/// One decoded field: its tag, its type code and its value.
pub struct Element {
    pub group: u16,
    pub element: u16,
    pub vr: Vr,
    pub value: ElementValue,
}

/// A decoded object: its fields in encounter order.
pub struct DicomObject {
    pub elements: Vec<Element>,
}

/// The columns that the first `n` fields of an object give, pixel data left out.
pub open spec fn object_entries<D: TagDictionary>(dict: &D, o: DicomObject, n: int) -> Result<
    Seq<(Seq<char>, DynView)>,
    ConversionError,
>
    decreases o, n,
{
    if n <= 0 || n > o.elements.len() {
        Ok(Seq::empty())
    } else {
        match object_entries(dict, o, n - 1) {
            Err(e) => Err(e),
            Ok(prev) => match element_entry(dict, o.elements[n - 1]) {
                Err(e) => Err(e),
                Ok(None) => Ok(prev),
                Ok(Some(en)) => Ok(prev.push(en)),
            },
        }
    }
}

/// The column that one field gives: its name and value; none for pixel data.
pub open spec fn element_entry<D: TagDictionary>(dict: &D, e: Element) -> Result<
    Option<(Seq<char>, DynView)>,
    ConversionError,
>
    decreases e, 0int,
{
    let name = tag_name(dict, e.group, e.element);
    match e.value {
        ElementValue::PixelSequence => Ok(None),
        ElementValue::Primitive(p) => match class_value(e.vr.binary_class(), p) {
            Ok(v) => Ok(Some((name, v))),
            Err(x) => Err(x),
        },
        ElementValue::Sequence(items) => match sequence_records(dict, items, items.len() as int) {
            Ok(rs) => Ok(Some((name, DynView::List(rs)))),
            Err(x) => Err(x),
        },
    }
}

/// The records of the first `n` nested objects of a sequence, each mapped on its own.
pub open spec fn sequence_records<D: TagDictionary>(dict: &D, items: Vec<DicomObject>, n: int) -> Result<
    Seq<DynView>,
    ConversionError,
>
    decreases items, n,
{
    if n <= 0 || n > items.len() {
        Ok(Seq::empty())
    } else {
        match sequence_records(dict, items, n - 1) {
            Err(e) => Err(e),
            Ok(prev) => match object_entries(dict, items[n - 1], items[n - 1].elements.len() as int) {
                Err(e) => Err(e),
                Ok(es) => Ok(prev.push(DynView::Record(insert_all(Seq::empty(), es)))),
            },
        }
    }
}

/// The record of a whole object, mapped on its own.
pub open spec fn object_record<D: TagDictionary>(dict: &D, o: DicomObject) -> Result<DynView, ConversionError> {
    match object_entries(dict, o, o.elements.len() as int) {
        Ok(es) => Ok(DynView::Record(insert_all(Seq::empty(), es))),
        Err(e) => Err(e),
    }
}

/// Maps decoded objects to rows, naming fields through a tag dictionary.
pub struct DicomDump<'a, D: TagDictionary> {
    pub dcm_dictionary: &'a D,
}

impl<'a, D: TagDictionary> DicomDump<'a, D> {
    /// Adds a column for every field of `obj`, in encounter order, to `index_map`.
    /// Pixel data are left out; nested sequences become lists of records.
    pub fn make_row_from_dicom_object(&self, index_map: &mut IndexMap<String, DynValue>, obj: &DicomObject) -> (r:
        Result<(), ConversionError>)
        ensures
            match object_entries(self.dcm_dictionary, *obj, obj.elements.len() as int) {
                Ok(es) => r is Ok && row_columns(*final(index_map)) == insert_all(row_columns(*old(index_map)), es),
                Err(e) => r == Err::<(), ConversionError>(e),
            },
        decreases obj, 1int,
    {
        let ghost start = row_columns(*index_map);
        let mut k: usize = 0;
        while k < obj.elements.len()
            invariant
                k <= obj.elements.len(),
                object_entries(self.dcm_dictionary, *obj, k as int) matches Ok(es)
                    && row_columns(*index_map) == insert_all(start, es),
            decreases obj.elements.len() - k,
        {
            let ghost es = object_entries(self.dcm_dictionary, *obj, k as int)->Ok_0;
            match self.make_data_from_dicom_element(index_map, &obj.elements[k]) {
                Err(e) => {
                    proof {
                        lemma_entries_error_persists(self.dcm_dictionary, *obj, k as int + 1);
                    }
                    return Err(e);
                },
                Ok(()) => {
                    proof {
                        if let Ok(Some(en)) = element_entry(self.dcm_dictionary, obj.elements[k as int]) {
                            assert(es.push(en).drop_last() =~= es);
                        }
                    }
                },
            }
            k = k + 1;
        }
        Ok(())
    }

    fn make_data_from_dicom_element(&self, index_map: &mut IndexMap<String, DynValue>, elem: &Element) -> (r: Result<
        (),
        ConversionError,
    >)
        ensures
            match element_entry(self.dcm_dictionary, *elem) {
                Ok(Some(en)) => r is Ok && row_columns(*final(index_map)) == columns_insert(
                    row_columns(*old(index_map)),
                    en.0,
                    en.1,
                ),
                Ok(None) => r is Ok && row_columns(*final(index_map)) == row_columns(*old(index_map)),
                Err(e) => r == Err::<(), ConversionError>(e),
            },
        decreases elem, 0int,
    {
        let key = resolve(self.dcm_dictionary, elem.group, elem.element);
        match &elem.value {
            ElementValue::Sequence(items) => {
                let mut rows: Vec<DynValue> = Vec::new();
                let mut i: usize = 0;
                proof {
                    assert(items_view(rows@) =~= Seq::<DynView>::empty());
                }
                while i < items.len()
                    invariant
                        i <= items.len(),
                        elem.value == ElementValue::Sequence(*items),
                        sequence_records(self.dcm_dictionary, *items, i as int) == Ok::<
                            Seq<DynView>,
                            ConversionError,
                        >(items_view(rows@)),
                    decreases items.len() - i,
                {
                    let mut nested = new_row();
                    match self.make_row_from_dicom_object(&mut nested, &items[i]) {
                        Err(e) => {
                            proof {
                                lemma_records_error_persists(self.dcm_dictionary, *items, i as int + 1);
                            }
                            return Err(e);
                        },
                        Ok(()) => {},
                    }
                    let record = row_to_record(nested);
                    proof {
                        assert(items_view(rows@.push(record)) =~= items_view(rows@).push(record@));
                    }
                    rows.push(record);
                    i = i + 1;
                }
                proof {
                    lemma_list_view(rows);
                }
                row_insert(index_map, key, DynValue::List(rows));
                Ok(())
            },
            ElementValue::PixelSequence => Ok(()),
            ElementValue::Primitive(p) => {
                let v = convert(elem.vr.value_class(), p);
                match v {
                    Ok(v) => {
                        row_insert(index_map, key, v);
                        Ok(())
                    },
                    Err(e) => Err(e),
                }
            },
        }
    }
}

proof fn lemma_sequence_records_shape<D: TagDictionary>(dict: &D, items: Vec<DicomObject>, n: int)
    requires
        0 <= n <= items.len(),
        sequence_records(dict, items, n) is Ok,
    ensures
        sequence_records(dict, items, n)->Ok_0.len() == n,
        forall|i: int|
            0 <= i < n ==> object_record(dict, #[trigger] items[i]) == Ok::<DynView, ConversionError>(
                sequence_records(dict, items, n)->Ok_0[i],
            ),
    decreases n,
{
    if n > 0 {
        lemma_sequence_records_shape(dict, items, n - 1);
    }
}

/// A sequence field maps to a list holding one record per nested object, in order, and
/// each record is what that nested object maps to on its own.
pub proof fn lemma_nested_sequence_shape<D: TagDictionary>(dict: &D, e: Element)
    requires
        e.value is Sequence,
        element_entry(dict, e) is Ok,
    ensures
        element_entry(dict, e) matches Ok(Some((name, DynView::List(rs)))) && name == tag_name(
            dict,
            e.group,
            e.element,
        ) && rs.len() == e.value->Sequence_0.len() && forall|i: int|
            0 <= i < rs.len() ==> object_record(dict, #[trigger] e.value->Sequence_0[i]) == Ok::<
                DynView,
                ConversionError,
            >(rs[i]),
{
    let items = e.value->Sequence_0;
    lemma_sequence_records_shape(dict, items, items.len() as int);
}

proof fn lemma_entries_error_persists<D: TagDictionary>(dict: &D, o: DicomObject, n: int)
    requires
        0 < n <= o.elements.len(),
        element_entry(dict, o.elements[n - 1]) is Err,
        object_entries(dict, o, n - 1) is Ok,
    ensures
        object_entries(dict, o, o.elements.len() as int) == Err::<Seq<(Seq<char>, DynView)>, ConversionError>(
            element_entry(dict, o.elements[n - 1])->Err_0,
        ),
    decreases o.elements.len() - n,
{
    if n < o.elements.len() {
        lemma_entries_error_stays(dict, o, n, o.elements.len() as int);
    }
}

proof fn lemma_entries_error_stays<D: TagDictionary>(dict: &D, o: DicomObject, n: int, m: int)
    requires
        0 < n <= m <= o.elements.len(),
        object_entries(dict, o, n) is Err,
    ensures
        object_entries(dict, o, m) == object_entries(dict, o, n),
    decreases m - n,
{
    if m > n {
        lemma_entries_error_stays(dict, o, n, m - 1);
    }
}

proof fn lemma_records_error_persists<D: TagDictionary>(dict: &D, items: Vec<DicomObject>, n: int)
    requires
        0 < n <= items.len(),
        sequence_records(dict, items, n) is Err,
    ensures
        sequence_records(dict, items, items.len() as int) == sequence_records(dict, items, n),
    decreases items.len() - n,
{
    if n < items.len() {
        lemma_records_error_persists(dict, items, n + 1);
    }
}

} // verus!
