use vstd::prelude::*;

use crate::convert::{all_blank, class_value, Payload};
use crate::dictionary::{resolve, tag_name, TagDictionary};
use crate::text::{joined_lines, trimmed};
use crate::tag::{parse_tag, tag_of_key};
use crate::value::{columns_view, items_view, lemma_list_view, lemma_record_view, DynValue, DynView, Float64};
use crate::vr::{lemma_vr_code_round_trip, vr_of_code, ValueClass, Vr, WireClass};
use crate::wire::{
    find_column, has_column, key_position, kind_name, lemma_key_position, record_get, wire_view, WireValue,
};

verus! {

/// Why a wire-form value could not be mapped.
#[derive(Debug)]
pub enum DicomWebError {
    /// A column that must be there is missing.
    MissingRequiredColumn { column: String },
    /// A value is of another type than expected.
    InvalidType { expected: String, actual: String },
    /// A value has the right type but cannot be read.
    InvalidValue { expected: String, actual: String },
    /// The type code is known but its wire-form values are not read yet.
    Unsupported { vr: Vr },
}

/// The model of a [`DicomWebError`].
pub enum WebErrorView {
    MissingRequiredColumn(Seq<char>),
    InvalidType(Seq<char>, Seq<char>),
    InvalidValue(Seq<char>, Seq<char>),
    Unsupported(Vr),
}

impl DicomWebError {
    pub open spec fn view(&self) -> WebErrorView {
        match self {
            DicomWebError::MissingRequiredColumn { column } => WebErrorView::MissingRequiredColumn(column@),
            DicomWebError::InvalidType { expected, actual } => WebErrorView::InvalidType(expected@, actual@),
            DicomWebError::InvalidValue { expected, actual } => WebErrorView::InvalidValue(expected@, actual@),
            DicomWebError::Unsupported { vr } => WebErrorView::Unsupported(*vr),
        }
    }
}

/// The model of a mapping result.
pub open spec fn web_view(r: Result<DynValue, DicomWebError>) -> Result<DynView, WebErrorView> {
    match r {
        Ok(v) => Ok(v@),
        Err(e) => Err(e@),
    }
}

/// What the members of a multi-valued wire-form field must be.
pub enum Expect {
    Text,
    Integer,
    Number,
    PersonName,
}

/// The number that a wire-form integer or number stands for.
pub open spec fn number_view(w: WireValue) -> DynView {
    match w {
        WireValue::Int(_, f) => DynView::Decimal(f),
        WireValue::Float(f) => DynView::Decimal(f),
        _ => DynView::Absent,
    }
}

/// The name of one person-name item: its alphabetic form, else its ideographic form,
/// else its phonetic form, each taken as it stands.
pub open spec fn pn_item(w: WireValue) -> Result<DynView, WebErrorView> {
    match w {
        WireValue::Record(cols) => {
            if record_get(cols@, "Alphabetic"@) is Some {
                Ok(wire_view(record_get(cols@, "Alphabetic"@)->0))
            } else if record_get(cols@, "Ideographic"@) is Some {
                Ok(wire_view(record_get(cols@, "Ideographic"@)->0))
            } else if record_get(cols@, "Phonetic"@) is Some {
                Ok(wire_view(record_get(cols@, "Phonetic"@)->0))
            } else {
                Err(WebErrorView::MissingRequiredColumn("Alphabetic|Ideographic|Phonetic"@))
            }
        },
        _ => Err(WebErrorView::InvalidType("PatientName record"@, kind_name(w))),
    }
}

/// Whether a member of a multi-valued field is of the expected kind.
pub open spec fn fits(e: Expect, w: WireValue) -> bool {
    match e {
        Expect::Text => w is String,
        Expect::Integer => w is Int,
        Expect::Number => w is Int || w is Float,
        Expect::PersonName => pn_item(w) is Ok,
    }
}

/// The place of the first member that does not fit, if any.
pub open spec fn first_misfit(vals: Seq<WireValue>, e: Expect) -> Option<int>
    decreases vals.len(),
{
    if vals.len() == 0 {
        None
    } else if !fits(e, vals[0]) {
        Some(0)
    } else {
        match first_misfit(vals.drop_first(), e) {
            Some(i) => Some(i + 1),
            None => None,
        }
    }
}

proof fn lemma_first_misfit(vals: Seq<WireValue>, e: Expect, i: int)
    requires
        0 <= i <= vals.len(),
        forall|j: int| 0 <= j < i ==> fits(e, #[trigger] vals[j]),
    ensures
        i < vals.len() && !fits(e, vals[i]) ==> first_misfit(vals, e) == Some(i),
        i == vals.len() ==> first_misfit(vals, e) is None,
    decreases vals.len(),
{
    if vals.len() > 0 && i > 0 {
        let rest = vals.drop_first();
        assert forall|j: int| 0 <= j < i - 1 implies fits(e, #[trigger] rest[j]) by {
            assert(rest[j] == vals[j + 1]);
        }
        lemma_first_misfit(rest, e, i - 1);
    }
}

/// The value of a text-like field of the wire form.
pub open spec fn stringlike_value(v: WireValue) -> Result<DynView, WebErrorView> {
    match v {
        WireValue::Nothing => Ok(DynView::Absent),
        WireValue::String(s) => Ok(DynView::Text(s@)),
        WireValue::List(vals) => {
            if vals.len() == 0 {
                Ok(DynView::Absent)
            } else if let Some(i) = first_misfit(vals@, Expect::Text) {
                Err(WebErrorView::InvalidType("string"@, kind_name(vals@[i])))
            } else if vals.len() == 1 {
                Ok(wire_view(vals@[0]))
            } else {
                Ok(DynView::List(vals@.map_values(|w: WireValue| wire_view(w))))
            }
        },
        WireValue::Record(cols) if cols.len() == 0 => Ok(DynView::Absent),
        _ => Err(WebErrorView::InvalidType("string, list of strings or empty record"@, kind_name(v))),
    }
}

/// The value of an integer-like field of the wire form.
pub open spec fn integer_like_value(v: WireValue) -> Result<DynView, WebErrorView> {
    match v {
        WireValue::Nothing => Ok(DynView::Absent),
        WireValue::Int(i, _) => Ok(DynView::Integer(i)),
        WireValue::List(vals) => {
            if vals.len() == 0 {
                Ok(DynView::Absent)
            } else if let Some(i) = first_misfit(vals@, Expect::Integer) {
                Err(WebErrorView::InvalidType("list of integers"@, kind_name(vals@[i])))
            } else if vals.len() == 1 {
                Ok(wire_view(vals@[0]))
            } else {
                Ok(DynView::List(vals@.map_values(|w: WireValue| wire_view(w))))
            }
        },
        _ => Err(WebErrorView::InvalidType("integer or a list of integers"@, kind_name(v))),
    }
}

/// The value of a decimal-like field of the wire form; integers stand for their nearest number.
pub open spec fn decimal_like_value(v: WireValue) -> Result<DynView, WebErrorView> {
    match v {
        WireValue::Nothing => Ok(DynView::Absent),
        WireValue::Float(f) => Ok(DynView::Decimal(f)),
        WireValue::Int(_, f) => Ok(DynView::Decimal(f)),
        WireValue::List(vals) => {
            if vals.len() == 0 {
                Ok(DynView::Absent)
            } else if let Some(i) = first_misfit(vals@, Expect::Number) {
                Err(WebErrorView::InvalidType("list of numbers"@, kind_name(vals@[i])))
            } else if vals.len() == 1 {
                Ok(number_view(vals@[0]))
            } else {
                Ok(DynView::List(vals@.map_values(|w: WireValue| number_view(w))))
            }
        },
        _ => Err(WebErrorView::InvalidType("number or a list of number"@, kind_name(v))),
    }
}

/// The value of a person-name field of the wire form.
pub open spec fn pn_value(v: WireValue) -> Result<DynView, WebErrorView> {
    match v {
        WireValue::Nothing => Ok(DynView::Absent),
        WireValue::List(vals) => {
            if vals.len() == 0 {
                Ok(DynView::Absent)
            } else if let Some(i) = first_misfit(vals@, Expect::PersonName) {
                Err(pn_item(vals@[i])->Err_0)
            } else if vals.len() == 1 {
                pn_item(vals@[0])
            } else {
                Ok(DynView::List(vals@.map_values(|w: WireValue| pn_item(w)->Ok_0)))
            }
        },
        _ => Err(WebErrorView::InvalidType("list of PatientName records"@, kind_name(v))),
    }
}

/// The value of one field of the wire form: a record with a type code under `vr` and,
/// mostly, its value under `Value`.
pub open spec fn field_value<D: TagDictionary>(dict: &D, value: WireValue) -> Result<DynView, WebErrorView>
    decreases value, 0int,
{
    match value {
        WireValue::Record(cols) => match key_position(cols@, "vr"@) {
            None => Err(WebErrorView::MissingRequiredColumn("vr"@)),
            Some(i) => if 0 <= i < cols.len() {
                match cols[i].1 {
                    WireValue::String(code) => match vr_of_code(code@) {
                        None => Err(WebErrorView::InvalidValue("valid VR"@, code@)),
                        Some(vr) => match key_position(cols@, "Value"@) {
                            None => if cols.len() == 1 || record_get(cols@, "BulkDataURI"@) is Some || record_get(
                                cols@,
                                "InlineBinary"@,
                            ) is Some {
                                Ok(DynView::Absent)
                            } else {
                                Err(WebErrorView::MissingRequiredColumn("Value|BulkDataURI|InlineBinary"@))
                            },
                            Some(j) => if 0 <= j < cols.len() {
                                match vr.wire_class() {
                                    WireClass::Sequence => match cols[j].1 {
                                        WireValue::List(items) => match wire_list(dict, items, items.len() as int) {
                                            Ok(rs) => Ok(DynView::List(rs)),
                                            Err(e) => Err(e),
                                        },
                                        _ => Err(WebErrorView::InvalidType("list"@, kind_name(cols[j].1))),
                                    },
                                    WireClass::PersonName => pn_value(cols[j].1),
                                    WireClass::Text => stringlike_value(cols[j].1),
                                    WireClass::Integer => integer_like_value(cols[j].1),
                                    WireClass::Decimal => decimal_like_value(cols[j].1),
                                    WireClass::Unsupported => Err(WebErrorView::Unsupported(vr)),
                                }
                            } else {
                                Ok(DynView::Absent)
                            },
                        },
                    },
                    _ => Err(WebErrorView::InvalidType("string representing a VR"@, kind_name(cols[i].1))),
                }
            } else {
                Err(WebErrorView::MissingRequiredColumn("vr"@))
            },
        },
        _ => Err(WebErrorView::InvalidType("record with VR and Value"@, kind_name(value))),
    }
}

/// The records that the first `n` items of a wire-form list map to.
pub open spec fn wire_list<D: TagDictionary>(dict: &D, items: Vec<WireValue>, n: int) -> Result<
    Seq<DynView>,
    WebErrorView,
>
    decreases items, n,
{
    if n <= 0 || n > items.len() {
        Ok(Seq::empty())
    } else {
        match wire_list(dict, items, n - 1) {
            Err(e) => Err(e),
            Ok(prev) => match items[n - 1] {
                WireValue::Record(cols) => match wire_record(dict, cols, cols.len() as int) {
                    Ok(c) => Ok(prev.push(DynView::Record(c))),
                    Err(e) => Err(e),
                },
                _ => Err(WebErrorView::InvalidType("record (in a list)"@, kind_name(items[n - 1]))),
            },
        }
    }
}

/// The columns that the first `n` fields of a wire-form record map to: each key read as a
/// tag and named through the dictionary, each value mapped by its type code.
pub open spec fn wire_record<D: TagDictionary>(dict: &D, cols: Vec<(String, WireValue)>, n: int) -> Result<
    Seq<(Seq<char>, DynView)>,
    WebErrorView,
>
    decreases cols, n,
{
    if n <= 0 || n > cols.len() {
        Ok(Seq::empty())
    } else {
        match wire_record(dict, cols, n - 1) {
            Err(e) => Err(e),
            Ok(prev) => match tag_of_key(cols[n - 1].0@) {
                None => Err(
                    WebErrorView::InvalidValue("a hexadecimal string representing a DICOM tag"@, cols[n - 1].0@),
                ),
                Some(t) => match field_value(dict, cols[n - 1].1) {
                    Ok(v) => Ok(prev.push((tag_name(dict, t.0, t.1), v))),
                    Err(e) => Err(e),
                },
            },
        }
    }
}

/// What a whole wire-form list maps to.
pub open spec fn list_value<D: TagDictionary>(dict: &D, items: Vec<WireValue>) -> Result<DynView, WebErrorView> {
    match wire_list(dict, items, items.len() as int) {
        Ok(rs) => Ok(DynView::List(rs)),
        Err(e) => Err(e),
    }
}

/// What a whole wire-form record maps to.
pub open spec fn record_value<D: TagDictionary>(dict: &D, cols: Vec<(String, WireValue)>) -> Result<
    DynView,
    WebErrorView,
> {
    match wire_record(dict, cols, cols.len() as int) {
        Ok(c) => Ok(DynView::Record(c)),
        Err(e) => Err(e),
    }
}

pub(crate) fn invalid_type(expected: &str, actual: &WireValue) -> (r: DicomWebError)
    ensures
        r@ == WebErrorView::InvalidType(expected@, kind_name(*actual)),
{
    DicomWebError::InvalidType { expected: String::from_str(expected), actual: actual.kind_name() }
}

fn missing(column: &str) -> (r: DicomWebError)
    ensures
        r@ == WebErrorView::MissingRequiredColumn(column@),
{
    DicomWebError::MissingRequiredColumn { column: String::from_str(column) }
}

fn pn_item_exec(w: &WireValue) -> (r: Result<DynValue, DicomWebError>)
    ensures
        web_view(r) == pn_item(*w),
{
    match w {
        WireValue::Record(cols) => {
            proof {
                lemma_key_position(cols@, "Alphabetic"@);
                lemma_key_position(cols@, "Ideographic"@);
                lemma_key_position(cols@, "Phonetic"@);
            }
            if let Some(i) = find_column(cols, "Alphabetic") {
                return Ok(cols[i].1.to_dyn());
            }
            if let Some(i) = find_column(cols, "Ideographic") {
                return Ok(cols[i].1.to_dyn());
            }
            if let Some(i) = find_column(cols, "Phonetic") {
                return Ok(cols[i].1.to_dyn());
            }
            Err(missing("Alphabetic|Ideographic|Phonetic"))
        },
        _ => Err(invalid_type("PatientName record", w)),
    }
}

/// Maps wire-form records and lists to value trees, naming fields through a tag dictionary.
pub struct DicomWebDump<'a, D: TagDictionary> {
    pub dcm_dictionary: &'a D,
}

impl<'a, D: TagDictionary> DicomWebDump<'a, D> {
    pub fn with_dictionary(dcm_dictionary: &'a D) -> (r: Self)
        ensures
            r.dcm_dictionary == dcm_dictionary,
    {
        DicomWebDump { dcm_dictionary }
    }

    /// Maps every item of a list, each of which must be a record; the first failure ends the mapping.
    pub fn process_dicomweb_list(&self, list: &Vec<WireValue>) -> (r: Result<DynValue, DicomWebError>)
        ensures
            web_view(r) == list_value(self.dcm_dictionary, *list),
        decreases *list, 1int,
    {
        let mut out: Vec<DynValue> = Vec::new();
        let mut k: usize = 0;
        proof {
            assert(items_view(out@) =~= Seq::<DynView>::empty());
        }
        while k < list.len()
            invariant
                k <= list.len(),
                wire_list(self.dcm_dictionary, *list, k as int) == Ok::<Seq<DynView>, WebErrorView>(
                    items_view(out@),
                ),
            decreases list.len() - k,
        {
            match &list[k] {
                WireValue::Record(cols) => {
                    proof {
                        assert(decreases_to!(*list => list[k as int]));
                        assert(decreases_to!(list[k as int] => list[k as int]->Record_0));
                    }
                    match self.process_dicomweb_record(cols) {
                        Ok(v) => {
                            proof {
                                assert(items_view(out@.push(v)) =~= items_view(out@).push(v@));
                            }
                            out.push(v);
                        },
                        Err(e) => {
                            proof {
                                lemma_list_error_stays(self.dcm_dictionary, *list, k as int + 1, list.len() as int);
                            }
                            return Err(e);
                        },
                    }
                },
                _ => {
                    proof {
                        lemma_list_error_stays(self.dcm_dictionary, *list, k as int + 1, list.len() as int);
                    }
                    return Err(invalid_type("record (in a list)", &list[k]));
                },
            }
            k = k + 1;
        }
        proof {
            lemma_list_view(out);
        }
        Ok(DynValue::List(out))
    }

    /// Maps a wire-form record: one column per field, in order, named through the dictionary;
    /// the first failure ends the mapping.
    pub fn process_dicomweb_record(&self, record: &Vec<(String, WireValue)>) -> (r: Result<DynValue, DicomWebError>)
        ensures
            web_view(r) == record_value(self.dcm_dictionary, *record),
        decreases *record, 1int,
    {
        let mut out: Vec<(String, DynValue)> = Vec::new();
        let mut k: usize = 0;
        proof {
            assert(columns_view(out@) =~= Seq::<(Seq<char>, DynView)>::empty());
        }
        while k < record.len()
            invariant
                k <= record.len(),
                wire_record(self.dcm_dictionary, *record, k as int) == Ok::<
                    Seq<(Seq<char>, DynView)>,
                    WebErrorView,
                >(columns_view(out@)),
            decreases record.len() - k,
        {
            let tag = parse_tag(record[k].0.as_str());
            match tag {
                None => {
                    proof {
                        lemma_record_error_stays(self.dcm_dictionary, *record, k as int + 1, record.len() as int);
                    }
                    return Err(
                        DicomWebError::InvalidValue {
                            expected: String::from_str("a hexadecimal string representing a DICOM tag"),
                            actual: record[k].0.clone(),
                        },
                    );
                },
                Some((group, element)) => {
                    let key = resolve(self.dcm_dictionary, group, element);
                    proof {
                        assert(decreases_to!(*record => record[k as int]));
                        assert(decreases_to!(record[k as int] => record[k as int].1));
                    }
                    match self.convert_value(&record[k].1) {
                        Ok(v) => {
                            proof {
                                assert(columns_view(out@.push((key, v))) =~= columns_view(out@).push((key@, v@)));
                            }
                            out.push((key, v));
                        },
                        Err(e) => {
                            proof {
                                lemma_record_error_stays(self.dcm_dictionary, *record, k as int + 1, record.len() as int);
                            }
                            return Err(e);
                        },
                    }
                },
            }
            k = k + 1;
        }
        proof {
            lemma_record_view(out);
        }
        Ok(DynValue::Record(out))
    }

    fn convert_value(&self, value: &WireValue) -> (r: Result<DynValue, DicomWebError>)
        ensures
            web_view(r) == field_value(self.dcm_dictionary, *value),
        decreases *value, 0int,
    {
        match value {
            WireValue::Record(cols) => {
                let vr_at = find_column(cols, "vr");
                let i = match vr_at {
                    None => {
                        return Err(missing("vr"));
                    },
                    Some(i) => i,
                };
                proof {
                    lemma_key_position(cols@, "vr"@);
                }
                let code = match &cols[i].1 {
                    WireValue::String(code) => code,
                    _ => {
                        return Err(invalid_type("string representing a VR", &cols[i].1));
                    },
                };
                let vr = match Vr::parse(code.as_str()) {
                    None => {
                        return Err(
                            DicomWebError::InvalidValue { expected: String::from_str("valid VR"), actual: code.clone() },
                        );
                    },
                    Some(vr) => vr,
                };
                let j = match find_column(cols, "Value") {
                    None => {
                        if cols.len() == 1 || has_column(cols, "BulkDataURI") || has_column(cols, "InlineBinary") {
                            return Ok(DynValue::Absent);
                        } else {
                            return Err(missing("Value|BulkDataURI|InlineBinary"));
                        }
                    },
                    Some(j) => j,
                };
                proof {
                    lemma_key_position(cols@, "Value"@);
                }
                let val = &cols[j].1;
                match vr.wire_value_class() {
                    WireClass::Sequence => match val {
                        WireValue::List(items) => {
                            proof {
                                assert(decreases_to!(*value => value->Record_0));
                                assert(decreases_to!(value->Record_0 => value->Record_0[j as int]));
                                assert(decreases_to!(value->Record_0[j as int] => value->Record_0[j as int].1));
                                assert(decreases_to!(value->Record_0[j as int].1 => value->Record_0[j as int].1->List_0));
                            }
                            self.process_dicomweb_list(items)
                        },
                        _ => Err(invalid_type("list", val)),
                    },
                    WireClass::PersonName => self.convert_pn_value(val),
                    WireClass::Text => self.convert_stringlike_value(val),
                    WireClass::Integer => self.convert_integer_like_value(val),
                    WireClass::Decimal => self.convert_decimal_like_value(val),
                    WireClass::Unsupported => Err(DicomWebError::Unsupported { vr }),
                }
            },
            _ => Err(invalid_type("record with VR and Value", value)),
        }
    }

    /// Integer-like values: nothing, an integer, or a list of integers (one collapses to a scalar).
    pub fn convert_integer_like_value(&self, value: &WireValue) -> (r: Result<DynValue, DicomWebError>)
        ensures
            web_view(r) == integer_like_value(*value),
    {
        match value {
            WireValue::Nothing => Ok(DynValue::Absent),
            WireValue::Int(i, _) => Ok(DynValue::Integer(*i)),
            WireValue::List(vals) => {
                if vals.len() == 0 {
                    return Ok(DynValue::Absent);
                }
                let mut out: Vec<DynValue> = Vec::new();
                let mut k: usize = 0;
                while k < vals.len()
                    invariant
                        k <= vals.len(),
                        *value == WireValue::List(*vals),
                        vals.len() > 0,
                        out@.len() == k,
                        forall|j: int| 0 <= j < k ==> fits(Expect::Integer, #[trigger] vals@[j]),
                        forall|j: int| 0 <= j < k ==> (#[trigger] out@[j])@ == wire_view(vals@[j]),
                    decreases vals.len() - k,
                {
                    match &vals[k] {
                        WireValue::Int(..) => {},
                        _ => {
                            proof {
                                lemma_first_misfit(vals@, Expect::Integer, k as int);
                            }
                            return Err(invalid_type("list of integers", &vals[k]));
                        },
                    }
                    out.push(vals[k].to_dyn());
                    k = k + 1;
                }
                proof {
                    lemma_first_misfit(vals@, Expect::Integer, k as int);
                }
                if vals.len() == 1 {
                    return Ok(vals[0].to_dyn());
                }
                proof {
                    lemma_list_view(out);
                    assert(items_view(out@) =~= vals@.map_values(|w: WireValue| wire_view(w)));
                }
                Ok(DynValue::List(out))
            },
            _ => Err(invalid_type("integer or a list of integers", value)),
        }
    }

    /// Decimal-like values: nothing, a number, an integer, or a list of them (one collapses to a
    /// scalar); integers become their nearest binary64 number.
    pub fn convert_decimal_like_value(&self, value: &WireValue) -> (r: Result<DynValue, DicomWebError>)
        ensures
            web_view(r) == decimal_like_value(*value),
    {
        match value {
            WireValue::Nothing => Ok(DynValue::Absent),
            WireValue::Float(f) => Ok(DynValue::Decimal(*f)),
            WireValue::Int(_, f) => Ok(DynValue::Decimal(*f)),
            WireValue::List(vals) => {
                if vals.len() == 0 {
                    return Ok(DynValue::Absent);
                }
                let mut out: Vec<DynValue> = Vec::new();
                let mut k: usize = 0;
                while k < vals.len()
                    invariant
                        k <= vals.len(),
                        *value == WireValue::List(*vals),
                        vals.len() > 0,
                        out@.len() == k,
                        forall|j: int| 0 <= j < k ==> fits(Expect::Number, #[trigger] vals@[j]),
                        forall|j: int| 0 <= j < k ==> (#[trigger] out@[j])@ == number_view(vals@[j]),
                    decreases vals.len() - k,
                {
                    let d = match &vals[k] {
                        WireValue::Int(_, f) => *f,
                        WireValue::Float(f) => *f,
                        _ => {
                            proof {
                                lemma_first_misfit(vals@, Expect::Number, k as int);
                            }
                            return Err(invalid_type("list of numbers", &vals[k]));
                        },
                    };
                    out.push(DynValue::Decimal(d));
                    k = k + 1;
                }
                proof {
                    lemma_first_misfit(vals@, Expect::Number, k as int);
                }
                if vals.len() == 1 {
                    let only = out.pop();
                    return match only {
                        Some(v) => Ok(v),
                        None => Ok(DynValue::Absent),
                    };
                }
                proof {
                    lemma_list_view(out);
                    assert(items_view(out@) =~= vals@.map_values(|w: WireValue| number_view(w)));
                }
                Ok(DynValue::List(out))
            },
            _ => Err(invalid_type("number or a list of number", value)),
        }
    }

    /// Person-name values: nothing, or a list of records, each giving its alphabetic, else
    /// ideographic, else phonetic form (one collapses to a scalar).
    pub fn convert_pn_value(&self, value: &WireValue) -> (r: Result<DynValue, DicomWebError>)
        ensures
            web_view(r) == pn_value(*value),
    {
        match value {
            WireValue::Nothing => Ok(DynValue::Absent),
            WireValue::List(vals) => {
                if vals.len() == 0 {
                    return Ok(DynValue::Absent);
                }
                let mut out: Vec<DynValue> = Vec::new();
                let mut k: usize = 0;
                while k < vals.len()
                    invariant
                        k <= vals.len(),
                        *value == WireValue::List(*vals),
                        vals.len() > 0,
                        out@.len() == k,
                        forall|j: int| 0 <= j < k ==> fits(Expect::PersonName, #[trigger] vals@[j]),
                        forall|j: int| 0 <= j < k ==> Ok::<DynView, WebErrorView>((#[trigger] out@[j])@) == pn_item(vals@[j]),
                    decreases vals.len() - k,
                {
                    match pn_item_exec(&vals[k]) {
                        Ok(v) => {
                            out.push(v);
                        },
                        Err(e) => {
                            proof {
                                lemma_first_misfit(vals@, Expect::PersonName, k as int);
                            }
                            return Err(e);
                        },
                    }
                    k = k + 1;
                }
                proof {
                    lemma_first_misfit(vals@, Expect::PersonName, k as int);
                }
                if vals.len() == 1 {
                    let only = out.pop();
                    return match only {
                        Some(v) => Ok(v),
                        None => Ok(DynValue::Absent),
                    };
                }
                proof {
                    lemma_list_view(out);
                    assert(items_view(out@) =~= vals@.map_values(|w: WireValue| pn_item(w)->Ok_0));
                }
                Ok(DynValue::List(out))
            },
            _ => Err(invalid_type("list of PatientName records", value)),
        }
    }

    /// Text-like values: nothing, a string, a list of strings (one collapses to a scalar), or an
    /// empty record standing for nothing.
    pub fn convert_stringlike_value(&self, value: &WireValue) -> (r: Result<DynValue, DicomWebError>)
        ensures
            web_view(r) == stringlike_value(*value),
    {
        match value {
            WireValue::Nothing => Ok(DynValue::Absent),
            WireValue::String(s) => Ok(DynValue::Text(s.clone())),
            WireValue::List(vals) => {
                if vals.len() == 0 {
                    return Ok(DynValue::Absent);
                }
                let mut out: Vec<DynValue> = Vec::new();
                let mut k: usize = 0;
                while k < vals.len()
                    invariant
                        k <= vals.len(),
                        *value == WireValue::List(*vals),
                        vals.len() > 0,
                        out@.len() == k,
                        forall|j: int| 0 <= j < k ==> fits(Expect::Text, #[trigger] vals@[j]),
                        forall|j: int| 0 <= j < k ==> (#[trigger] out@[j])@ == wire_view(vals@[j]),
                    decreases vals.len() - k,
                {
                    match &vals[k] {
                        WireValue::String(..) => {},
                        _ => {
                            proof {
                                lemma_first_misfit(vals@, Expect::Text, k as int);
                            }
                            return Err(invalid_type("string", &vals[k]));
                        },
                    }
                    out.push(vals[k].to_dyn());
                    k = k + 1;
                }
                proof {
                    lemma_first_misfit(vals@, Expect::Text, k as int);
                }
                if vals.len() == 1 {
                    return Ok(vals[0].to_dyn());
                }
                proof {
                    lemma_list_view(out);
                    assert(items_view(out@) =~= vals@.map_values(|w: WireValue| wire_view(w)));
                }
                Ok(DynValue::List(out))
            },
            WireValue::Record(cols) => {
                if cols.len() == 0 {
                    Ok(DynValue::Absent)
                } else {
                    Err(invalid_type("string, list of strings or empty record", value))
                }
            },
            _ => Err(invalid_type("string, list of strings or empty record", value)),
        }
    }
}

/// A person-name item without an alphabetic form gives its ideographic form, taken as it
/// stands; the missing alphabetic form is no error.
pub proof fn lemma_person_name_priority(vals: Vec<WireValue>)
    requires
        vals.len() == 1,
        vals[0] is Record,
        record_get(vals[0]->Record_0@, "Alphabetic"@) is None,
        record_get(vals[0]->Record_0@, "Ideographic"@) is Some,
    ensures
        pn_value(WireValue::List(vals)) == Ok::<DynView, WebErrorView>(
            wire_view(record_get(vals[0]->Record_0@, "Ideographic"@)->0),
        ),
{
    lemma_first_misfit(vals@, Expect::PersonName, 1);
}

/// The wire-form values `items` encode the same logical field as the payload `p` of a
/// field with type code `vr`: the same integers, the same numbers, or the one text
/// already trimmed. Only type codes that both pipelines read the same way take part.
pub open spec fn encodes(vr: Vr, p: Payload, items: Seq<WireValue>) -> bool {
    match (vr.binary_class(), vr.wire_class()) {
        (ValueClass::Integer, WireClass::Integer) => p.integers matches Some(xs) && items.len() == xs@.len()
            && forall|i: int| 0 <= i < items.len() ==> (#[trigger] items[i] matches WireValue::Int(x, _) && x == xs@[i]),
        (ValueClass::Decimal, WireClass::Decimal) => p.decimals matches Some(ds) && items.len() == ds@.len()
            && forall|i: int| 0 <= i < items.len() ==> (#[trigger] items[i] matches WireValue::Float(f) && f == ds@[i]),
        (ValueClass::Text, WireClass::Text) => p.texts@.len() == 1 && items.len() == 1 && (items[0] matches WireValue::String(
            s,
        ) && s@ == trimmed(p.texts@[0]@)),
        _ => false,
    }
}

/// A field gives the same value whether it comes from a decoded object or from its
/// wire-form encoding `{"vr": code, "Value": items}`.
pub proof fn lemma_round_trip<D: TagDictionary>(dict: &D, vr: Vr, p: Payload, cols: Vec<(String, WireValue)>)
    requires
        cols.len() == 2,
        cols[0].0@ == "vr"@,
        cols[0].1 is String,
        cols[0].1->String_0@ == vr.code(),
        cols[1].0@ == "Value"@,
        cols[1].1 is List,
        !all_blank(p.text_view()),
        encodes(vr, p, cols[1].1->List_0@),
    ensures
        class_value(vr.binary_class(), p) matches Ok(a) && field_value(dict, WireValue::Record(cols)) matches Ok(b)
            && a == b,
{
    lemma_vr_code_round_trip(vr.code(), vr);
    let rest = cols@.drop_first();
    assert(rest[0] == cols@[1]);
    assert("vr"@ != "Value"@) by {
        reveal_strlit("vr");
        reveal_strlit("Value");
        assert("vr"@.len() != "Value"@.len());
    }
    assert(key_position(rest, "Value"@) == Some(0int));
    let items = cols[1].1->List_0;
    match (vr.binary_class(), vr.wire_class()) {
        (ValueClass::Integer, WireClass::Integer) => {
            let xs = p.integers->0;
            assert forall|j: int| 0 <= j < items@.len() implies fits(Expect::Integer, #[trigger] items@[j]) by {
                assert(items@[j] matches WireValue::Int(x, _) && x == xs@[j]);
            }
            lemma_first_misfit(items@, Expect::Integer, items@.len() as int);
            if items@.len() > 1 {
                assert(items@.map_values(|w: WireValue| wire_view(w)) =~= xs@.map_values(|x: i64| DynView::Integer(x)));
            }
        },
        (ValueClass::Decimal, WireClass::Decimal) => {
            let ds = p.decimals->0;
            assert forall|j: int| 0 <= j < items@.len() implies fits(Expect::Number, #[trigger] items@[j]) by {
                assert(items@[j] matches WireValue::Float(f) && f == ds@[j]);
            }
            lemma_first_misfit(items@, Expect::Number, items@.len() as int);
            if items@.len() > 1 {
                assert(items@.map_values(|w: WireValue| number_view(w)) =~= ds@.map_values(|x: Float64| DynView::Decimal(x)));
            }
        },
        (ValueClass::Text, WireClass::Text) => {
            lemma_first_misfit(items@, Expect::Text, 1);
            let parts = p.text_view().map_values(|t: Seq<char>| trimmed(t));
            assert(parts.len() == 1);
            assert(joined_lines(parts) == parts[0]);
        },
        _ => {},
    }
}

proof fn lemma_list_error_stays<D: TagDictionary>(dict: &D, items: Vec<WireValue>, n: int, m: int)
    requires
        0 < n <= m <= items.len(),
        wire_list(dict, items, n) is Err,
    ensures
        wire_list(dict, items, m) == wire_list(dict, items, n),
    decreases m - n,
{
    if m > n {
        lemma_list_error_stays(dict, items, n, m - 1);
    }
}

proof fn lemma_record_error_stays<D: TagDictionary>(dict: &D, cols: Vec<(String, WireValue)>, n: int, m: int)
    requires
        0 < n <= m <= cols.len(),
        wire_record(dict, cols, n) is Err,
    ensures
        wire_record(dict, cols, m) == wire_record(dict, cols, n),
    decreases m - n,
{
    if m > n {
        lemma_record_error_stays(dict, cols, n, m - 1);
    }
}

} // verus!
