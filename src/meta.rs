use indexmap::IndexMap;
use vstd::prelude::*;

use crate::row::{insert_all, row_columns, row_insert};
use crate::text::{trim_string, trimmed};
use crate::value::{DynValue, DynView};

verus! {

/// The identification fields of a container's meta information.
pub struct FileMeta {
    pub transfer_syntax: String,
    pub media_storage_sop_class_uid: String,
    pub media_storage_sop_instance_uid: String,
}

/// The three metadata columns, each a trimmed text.
pub open spec fn meta_entries(meta: FileMeta) -> Seq<(Seq<char>, DynView)> {
    seq![
        ("TransferSyntax"@, DynView::Text(trimmed(meta.transfer_syntax@))),
        ("MediaStorageSOPClassUID"@, DynView::Text(trimmed(meta.media_storage_sop_class_uid@))),
        ("MediaStorageSOPInstanceUID"@, DynView::Text(trimmed(meta.media_storage_sop_instance_uid@))),
    ]
}

/// Adds the transfer syntax, storage class and storage instance columns to `index_map`.
pub fn make_row_from_dicom_metadata(index_map: &mut IndexMap<String, DynValue>, meta: &FileMeta)
    ensures
        row_columns(*final(index_map)) == insert_all(row_columns(*old(index_map)), meta_entries(*meta)),
{
    let ghost start = row_columns(*index_map);
    row_insert(
        index_map,
        String::from_str("TransferSyntax"),
        DynValue::Text(String::from_str(trim_string(&meta.transfer_syntax))),
    );
    row_insert(
        index_map,
        String::from_str("MediaStorageSOPClassUID"),
        DynValue::Text(String::from_str(trim_string(&meta.media_storage_sop_class_uid))),
    );
    row_insert(
        index_map,
        String::from_str("MediaStorageSOPInstanceUID"),
        DynValue::Text(String::from_str(trim_string(&meta.media_storage_sop_instance_uid))),
    );
    proof {
        let es = meta_entries(*meta);
        assert(es.drop_last() =~= seq![es[0], es[1]]);
        assert(es.drop_last().drop_last() =~= seq![es[0]]);
        assert(es.drop_last().drop_last().drop_last() =~= Seq::<(Seq<char>, DynView)>::empty());
        reveal_with_fuel(insert_all, 4);
    }
}

} // verus!
