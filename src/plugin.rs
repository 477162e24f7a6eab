use vstd::prelude::*;

use crate::classify::{is_dicom_record, looks_like_wire_record};
use crate::convert::ConversionError;
use crate::dcm::{object_entries, DicomDump, DicomObject};
use crate::dicomweb::{invalid_type, record_value, web_view, DicomWebDump, DicomWebError, WebErrorView};
use crate::dictionary::TagDictionary;
use crate::meta::{make_row_from_dicom_metadata, meta_entries, FileMeta};
use crate::row::{insert_all, new_row, row_columns, row_insert, row_to_record};
use crate::value::{columns_view, lemma_record_view, DynValue, DynView};
use crate::wire::{find_column, kind_name, lemma_key_position, record_get, same_text, WireValue};

verus! {

/// The text under a column of a record, when that column holds a string.
pub open spec fn record_text(cols: Seq<(String, WireValue)>, field: Seq<char>) -> Option<Seq<char>> {
    match record_get(cols, field) {
        Some(WireValue::String(s)) => Some(s@),
        _ => None,
    }
}

/// A record that names a file: `type` is `file` and `name` is a string.
pub open spec fn names_file(cols: Seq<(String, WireValue)>) -> bool {
    record_text(cols, "type"@) == Some("file"@) && record_text(cols, "name"@) is Some
}

/// What a record handed to the command stands for.
#[derive(Debug)]
pub enum RecordRoute {
    /// A file, by the path under `name`.
    File(String),
    /// A wire-form field set.
    DicomWeb,
    /// Neither.
    Unsupported,
}

/// The columns a row starts with: the error column, empty, when one was asked for.
pub open spec fn error_columns(error_column: Option<String>) -> Seq<(Seq<char>, DynView)> {
    match error_column {
        Some(c) => seq![(c@, DynView::Text(Seq::empty()))],
        None => Seq::empty(),
    }
}

/// What one item of a wire-form batch maps to on its own.
pub open spec fn batch_item_value<D: TagDictionary>(dict: &D, w: WireValue) -> Result<DynView, WebErrorView> {
    match w {
        WireValue::Record(cols) => record_value(dict, cols),
        _ => Err(WebErrorView::InvalidType("record"@, kind_name(w))),
    }
}

fn get_record_string<'a>(record: &'a Vec<(String, WireValue)>, field: &str) -> (r: Option<&'a String>)
    ensures
        r matches Some(s) ==> record_text(record@, field@) == Some(s@),
        r is None ==> record_text(record@, field@) is None,
{
    proof {
        lemma_key_position(record@, field@);
    }
    match find_column(record, field) {
        None => None,
        Some(i) => match &record[i].1 {
            WireValue::String(s) => Some(s),
            _ => None,
        },
    }
}

/// The `dcm` command: what it decides and computes, apart from reading files and streams.
#[derive(Clone, Copy, Debug, Default)]
pub struct DcmPluginCommand;

impl DcmPluginCommand {
    /// The command's name.
    pub fn name(&self) -> (r: &'static str)
        ensures
            r@ == "dcm"@,
    {
        "dcm"
    }

    /// Decides what a record stands for: a file record (`type` is `file`, `name` a string),
    /// else a wire-form field set when it has neither column and looks like one, else neither.
    pub fn route_record(record: &Vec<(String, WireValue)>) -> (r: RecordRoute)
        ensures
            names_file(record@) ==> (r matches RecordRoute::File(n) && Some(n@) == record_text(record@, "name"@)),
            !names_file(record@) && record_text(record@, "type"@) is None && record_text(record@, "name"@) is None
                && looks_like_wire_record(record@) ==> r is DicomWeb,
            !names_file(record@) && !(record_text(record@, "type"@) is None && record_text(record@, "name"@) is None
                && looks_like_wire_record(record@)) ==> r is Unsupported,
    {
        let record_type = get_record_string(record, "type");
        let record_name = get_record_string(record, "name");
        if let (Some(t), Some(n)) = (record_type, record_name) {
            if same_text(t.as_str(), "file") {
                return RecordRoute::File(n.clone());
            }
        }
        if record_name.is_none() && record_type.is_none() && is_dicom_record(record) {
            return RecordRoute::DicomWeb;
        }
        RecordRoute::Unsupported
    }

    /// One row for a decoded container: the error column (empty) when one is asked for, the
    /// three metadata columns, then a column per field.
    pub fn process_dicom_object<D: TagDictionary>(
        dict: &D,
        meta: &FileMeta,
        obj: &DicomObject,
        error_column: &Option<String>,
    ) -> (r: Result<DynValue, ConversionError>)
        ensures
            match object_entries(dict, *obj, obj.elements.len() as int) {
                Ok(es) => r matches Ok(v) && v@ == DynView::Record(
                    insert_all(insert_all(error_columns(*error_column), meta_entries(*meta)), es),
                ),
                Err(e) => r == Err::<DynValue, ConversionError>(e),
            },
    {
        let dumper = DicomDump { dcm_dictionary: dict };
        let mut index_map = new_row();
        if let Some(c) = error_column {
            row_insert(&mut index_map, c.clone(), DynValue::Text(String::new()));
        }
        proof {
            assert(row_columns(index_map) =~= error_columns(*error_column));
        }
        make_row_from_dicom_metadata(&mut index_map, meta);
        match dumper.make_row_from_dicom_object(&mut index_map, obj) {
            Ok(()) => Ok(row_to_record(index_map)),
            Err(e) => Err(e),
        }
    }

    /// The record that stands in for an item that failed, when errors go into a column.
    pub fn error_record(column: &String, message: &String) -> (r: DynValue)
        ensures
            r@ == DynView::Record(seq![(column@, DynView::Text(message@))]),
    {
        let mut cols: Vec<(String, DynValue)> = Vec::new();
        cols.push((column.clone(), DynValue::Text(message.clone())));
        proof {
            lemma_record_view(cols);
            assert(columns_view(cols@) =~= seq![(column@, DynView::Text(message@))]);
        }
        DynValue::Record(cols)
    }

    /// Maps every item of a batch of wire-form records on its own: a failing item gives its
    /// error in its place and the others are mapped as if it were not there.
    pub fn process_wire_batch<D: TagDictionary>(dump: &DicomWebDump<D>, items: &Vec<WireValue>) -> (r: Vec<
        Result<DynValue, DicomWebError>,
    >)
        ensures
            r@.len() == items@.len(),
            forall|i: int|
                0 <= i < items@.len() ==> web_view(#[trigger] r@[i]) == batch_item_value(
                    dump.dcm_dictionary,
                    items@[i],
                ),
    {
        let mut out: Vec<Result<DynValue, DicomWebError>> = Vec::new();
        let mut k: usize = 0;
        while k < items.len()
            invariant
                k <= items.len(),
                out@.len() == k,
                forall|i: int|
                    0 <= i < k ==> web_view(#[trigger] out@[i]) == batch_item_value(dump.dcm_dictionary, items@[i]),
            decreases items.len() - k,
        {
            let item = match &items[k] {
                WireValue::Record(cols) => dump.process_dicomweb_record(cols),
                other => Err(invalid_type("record", other)),
            };
            out.push(item);
            k = k + 1;
        }
        out
    }
}

} // verus!
