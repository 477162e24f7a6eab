use vstd::prelude::*;

use crate::text::{is_blank, join_trimmed_lines, trimmed, trimmed_lines};
use crate::value::{items_view, lemma_list_view, DynValue, DynView, Float64};
use crate::vr::ValueClass;

verus! {

/// The raw payload of a primitive field, as the element decoder reports it:
/// its logical sub-values as text, and the same sub-values read as numbers.
pub struct Payload {
    /// The sub-values as text; empty when the field holds no value.
    pub texts: Vec<String>,
    /// The sub-values read as 64-bit integers; `None` when one of them is not such an integer.
    pub integers: Option<Vec<i64>>,
    /// The sub-values read as binary64 numbers; `None` when one of them is not such a number.
    pub decimals: Option<Vec<Float64>>,
}

/// A sub-value of a primitive field could not be read as the number its type code asks for.
#[derive(Clone, Copy, Debug, PartialEq, Eq, Structural)]
pub enum ConversionError {
    NotAnInteger,
    NotADecimal,
}

impl Payload {
    pub open spec fn text_view(&self) -> Seq<Seq<char>> {
        self.texts@.map_values(|t: String| t@)
    }
}

/// No sub-value holds anything but trim characters (true also when there is no sub-value).
pub open spec fn all_blank(texts: Seq<Seq<char>>) -> bool {
    forall|i: int| 0 <= i < texts.len() ==> #[trigger] trimmed(texts[i]).len() == 0
}

/// Zero numbers are absent, one is a bare scalar, more are a list.
pub open spec fn collapse_integers(v: Seq<i64>) -> DynView {
    if v.len() == 0 {
        DynView::Absent
    } else if v.len() == 1 {
        DynView::Integer(v[0])
    } else {
        DynView::List(v.map_values(|x: i64| DynView::Integer(x)))
    }
}

/// Zero numbers are absent, one is a bare scalar, more are a list.
pub open spec fn collapse_decimals(v: Seq<Float64>) -> DynView {
    if v.len() == 0 {
        DynView::Absent
    } else if v.len() == 1 {
        DynView::Decimal(v[0])
    } else {
        DynView::List(v.map_values(|x: Float64| DynView::Decimal(x)))
    }
}

/// The value of a text-like field.
pub open spec fn text_value(texts: Seq<Seq<char>>) -> DynView {
    if all_blank(texts) {
        DynView::Absent
    } else {
        DynView::Text(trimmed_lines(texts))
    }
}

/// The value of an integer-like field.
pub open spec fn integer_value(p: Payload) -> Result<DynView, ConversionError> {
    if all_blank(p.text_view()) {
        Ok(DynView::Absent)
    } else {
        match p.integers {
            Some(v) => Ok(collapse_integers(v@)),
            None => Err(ConversionError::NotAnInteger),
        }
    }
}

/// The value of a decimal-like field.
pub open spec fn decimal_value(p: Payload) -> Result<DynView, ConversionError> {
    if all_blank(p.text_view()) {
        Ok(DynView::Absent)
    } else {
        match p.decimals {
            Some(v) => Ok(collapse_decimals(v@)),
            None => Err(ConversionError::NotADecimal),
        }
    }
}

/// The value of a primitive field of the given class.
pub open spec fn class_value(class: ValueClass, p: Payload) -> Result<DynView, ConversionError> {
    match class {
        ValueClass::Text => Ok(text_value(p.text_view())),
        ValueClass::Integer => integer_value(p),
        ValueClass::Decimal => decimal_value(p),
    }
}

/// The spec of a converted result: the view of the value, or the same error.
pub open spec fn result_view(r: Result<DynValue, ConversionError>) -> Result<DynView, ConversionError> {
    match r {
        Ok(v) => Ok(v@),
        Err(e) => Err(e),
    }
}

fn is_nothing(p: &Payload) -> (r: bool)
    ensures
        r == all_blank(p.text_view()),
{
    let mut k: usize = 0;
    while k < p.texts.len()
        invariant
            k <= p.texts.len(),
            forall|i: int| 0 <= i < k ==> #[trigger] trimmed(p.text_view()[i]).len() == 0,
        decreases p.texts.len() - k,
    {
        if !is_blank(&p.texts[k]) {
            assert(p.text_view()[k as int] == p.texts@[k as int]@);
            return false;
        }
        k = k + 1;
    }
    true
}

fn integer_list(v: &Vec<i64>) -> (r: DynValue)
    ensures
        r@ == DynView::List(v@.map_values(|x: i64| DynView::Integer(x))),
{
    let mut out: Vec<DynValue> = Vec::new();
    let mut k: usize = 0;
    while k < v.len()
        invariant
            k <= v.len(),
            out@.len() == k,
            forall|i: int| 0 <= i < k ==> (#[trigger] out@[i])@ == DynView::Integer(v@[i]),
        decreases v.len() - k,
    {
        out.push(DynValue::Integer(v[k]));
        k = k + 1;
    }
    proof {
        lemma_list_view(out);
        assert(items_view(out@) =~= v@.map_values(|x: i64| DynView::Integer(x)));
    }
    DynValue::List(out)
}

fn decimal_list(v: &Vec<Float64>) -> (r: DynValue)
    ensures
        r@ == DynView::List(v@.map_values(|x: Float64| DynView::Decimal(x))),
{
    let mut out: Vec<DynValue> = Vec::new();
    let mut k: usize = 0;
    while k < v.len()
        invariant
            k <= v.len(),
            out@.len() == k,
            forall|i: int| 0 <= i < k ==> (#[trigger] out@[i])@ == DynView::Decimal(v@[i]),
        decreases v.len() - k,
    {
        out.push(DynValue::Decimal(v[k]));
        k = k + 1;
    }
    proof {
        lemma_list_view(out);
        assert(items_view(out@) =~= v@.map_values(|x: Float64| DynView::Decimal(x)));
    }
    DynValue::List(out)
}

/// A text-like primitive field.
pub struct Stringlike<'a>(pub &'a Payload);

/// An integer-like primitive field.
pub struct Integerlike<'a>(pub &'a Payload);

/// A decimal-like primitive field.
pub struct Decimallike<'a>(pub &'a Payload);

impl<'a> Stringlike<'a> {
    /// Absent when every sub-value is blank, else the trimmed sub-values joined by line feeds.
    pub fn to_value(&self) -> (r: DynValue)
        ensures
            r@ == text_value(self.0.text_view()),
    {
        if is_nothing(self.0) {
            return DynValue::Absent;
        }
        DynValue::Text(join_trimmed_lines(&self.0.texts))
    }
}

impl<'a> Integerlike<'a> {
    /// Absent when every sub-value is blank; else the integers, collapsed by their number.
    pub fn to_value(&self) -> (r: Result<DynValue, ConversionError>)
        ensures
            result_view(r) == integer_value(*self.0),
    {
        if is_nothing(self.0) {
            return Ok(DynValue::Absent);
        }
        match &self.0.integers {
            None => Err(ConversionError::NotAnInteger),
            Some(v) => {
                if v.len() == 0 {
                    Ok(DynValue::Absent)
                } else if v.len() == 1 {
                    Ok(DynValue::Integer(v[0]))
                } else {
                    Ok(integer_list(v))
                }
            },
        }
    }
}

impl<'a> Decimallike<'a> {
    /// Absent when every sub-value is blank; else the numbers, collapsed by their number.
    pub fn to_value(&self) -> (r: Result<DynValue, ConversionError>)
        ensures
            result_view(r) == decimal_value(*self.0),
    {
        if is_nothing(self.0) {
            return Ok(DynValue::Absent);
        }
        match &self.0.decimals {
            None => Err(ConversionError::NotADecimal),
            Some(v) => {
                if v.len() == 0 {
                    Ok(DynValue::Absent)
                } else if v.len() == 1 {
                    Ok(DynValue::Decimal(v[0]))
                } else {
                    Ok(decimal_list(v))
                }
            },
        }
    }
}

/// Converts a primitive field by the class of its type code.
pub fn convert(class: ValueClass, p: &Payload) -> (r: Result<DynValue, ConversionError>)
    ensures
        result_view(r) == class_value(class, *p),
{
    match class {
        ValueClass::Text => Ok(Stringlike(p).to_value()),
        ValueClass::Integer => Integerlike(p).to_value(),
        ValueClass::Decimal => Decimallike(p).to_value(),
    }
}

/// A field with no sub-value is absent whatever its class, and so is any field whose
/// sub-values are all blank (spaces, line breaks, NUL characters).
pub proof fn lemma_absence(class: ValueClass, p: Payload)
    ensures
        p.texts@.len() == 0 ==> class_value(class, p) == Ok::<DynView, ConversionError>(DynView::Absent),
        all_blank(p.text_view()) ==> class_value(class, p) == Ok::<DynView, ConversionError>(DynView::Absent),
{
}

/// An integer-like field with one integer gives that integer as a bare scalar, and the
/// same integer standing in a field with several gives a list holding it as a scalar
/// at the same place.
pub proof fn lemma_scalar_collapse_integers(single: Payload, many: Payload, k: int)
    requires
        !all_blank(single.text_view()),
        !all_blank(many.text_view()),
        single.integers is Some,
        single.integers->0@.len() == 1,
        many.integers is Some,
        many.integers->0@.len() >= 2,
        0 <= k < many.integers->0@.len(),
        many.integers->0@[k] == single.integers->0@[0],
    ensures
        integer_value(single) == Ok::<DynView, ConversionError>(DynView::Integer(single.integers->0@[0])),
        integer_value(many) matches Ok(DynView::List(items)) && items.len() == many.integers->0@.len()
            && items[k] == DynView::Integer(single.integers->0@[0]),
{
}

/// A decimal-like field with one number gives that number as a bare scalar, and the
/// same number standing in a field with several gives a list holding it as a scalar
/// at the same place.
pub proof fn lemma_scalar_collapse_decimals(single: Payload, many: Payload, k: int)
    requires
        !all_blank(single.text_view()),
        !all_blank(many.text_view()),
        single.decimals is Some,
        single.decimals->0@.len() == 1,
        many.decimals is Some,
        many.decimals->0@.len() >= 2,
        0 <= k < many.decimals->0@.len(),
        many.decimals->0@[k] == single.decimals->0@[0],
    ensures
        decimal_value(single) == Ok::<DynView, ConversionError>(DynView::Decimal(single.decimals->0@[0])),
        decimal_value(many) matches Ok(DynView::List(items)) && items.len() == many.decimals->0@.len()
            && items[k] == DynView::Decimal(single.decimals->0@[0]),
{
}

} // verus!
