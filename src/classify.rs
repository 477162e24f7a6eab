use vstd::prelude::*;

use crate::tag::hex_value;
use crate::wire::{has_column, record_get, same_text, WireValue};

verus! {

/// How many leading columns of a record the classifier looks at.
pub const CHECKED_COLUMNS: usize = 50;

/// The keys a field record of the wire form may hold.
pub open spec fn allowed_field_key(k: Seq<char>) -> bool {
    k == "Value"@ || k == "BulkDataURI"@ || k == "InlineBinary"@ || k == "vr"@
}

/// A column looks like a wire-form field: its key is eight hexadecimal digits, and its
/// value is a record with a `vr` column and no column but the allowed ones.
pub open spec fn looks_like_field(key: Seq<char>, v: WireValue) -> bool {
    match v {
        WireValue::Record(inner) => {
            &&& key.len() == 8
            &&& forall|i: int| 0 <= i < 8 ==> #[trigger] hex_value(key[i]) is Some
            &&& record_get(inner@, "vr"@) is Some
            &&& forall|j: int| 0 <= j < inner.len() ==> allowed_field_key(#[trigger] inner@[j].0@)
        },
        _ => false,
    }
}

/// Every one of the first fifty columns looks like a wire-form field.
pub open spec fn looks_like_wire_record(cols: Seq<(String, WireValue)>) -> bool {
    forall|i: int| 0 <= i < cols.len() && i < CHECKED_COLUMNS ==> looks_like_field(#[trigger] cols[i].0@, cols[i].1)
}

fn is_hex_digit(c: char) -> (r: bool)
    ensures
        r == (hex_value(c) is Some),
{
    ('0' <= c && c <= '9') || ('a' <= c && c <= 'f') || ('A' <= c && c <= 'F')
}

fn is_allowed_field_key(k: &String) -> (r: bool)
    ensures
        r == allowed_field_key(k@),
{
    let k = k.as_str();
    same_text(k, "Value") || same_text(k, "BulkDataURI") || same_text(k, "InlineBinary") || same_text(k, "vr")
}

fn looks_like_field_exec(key: &String, v: &WireValue) -> (r: bool)
    ensures
        r == looks_like_field(key@, *v),
{
    match v {
        WireValue::Record(inner) => {
            let k = key.as_str();
            if k.unicode_len() != 8 {
                return false;
            }
            let mut i: usize = 0;
            while i < 8
                invariant
                    k@ == key@,
                    key@.len() == 8,
                    i <= 8,
                    forall|j: int| 0 <= j < i ==> #[trigger] hex_value(key@[j]) is Some,
                decreases 8 - i,
            {
                if !is_hex_digit(k.get_char(i)) {
                    return false;
                }
                i = i + 1;
            }
            if !has_column(inner, "vr") {
                return false;
            }
            let mut j: usize = 0;
            while j < inner.len()
                invariant
                    j <= inner.len(),
                    *v == WireValue::Record(*inner),
                    forall|m: int| 0 <= m < j ==> allowed_field_key(#[trigger] inner@[m].0@),
                decreases inner.len() - j,
            {
                if !is_allowed_field_key(&inner[j].0) {
                    return false;
                }
                j = j + 1;
            }
            true
        },
        _ => false,
    }
}

/// Whether a record looks like a wire-form field set, judged by its first fifty columns.
pub fn is_dicom_record(record: &Vec<(String, WireValue)>) -> (r: bool)
    ensures
        r == looks_like_wire_record(record@),
{
    let mut k: usize = 0;
    while k < record.len() && k < CHECKED_COLUMNS
        invariant
            k <= record.len(),
            forall|i: int| 0 <= i < k ==> looks_like_field(#[trigger] record@[i].0@, record@[i].1),
        decreases record.len() - k,
    {
        if !looks_like_field_exec(&record[k].0, &record[k].1) {
            return false;
        }
        k = k + 1;
    }
    true
}

} // verus!
