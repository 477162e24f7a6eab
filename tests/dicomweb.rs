use nu_plugin_dcm::dicomweb::{DicomWebDump, DicomWebError};
use nu_plugin_dcm::dictionary::{EmptyDictionary, StandardDictionary};
use nu_plugin_dcm::plugin::{DcmPluginCommand, RecordRoute};
use nu_plugin_dcm::value::{DynValue, Float64};
use nu_plugin_dcm::vr::Vr;
use nu_plugin_dcm::wire::WireValue;

fn s(x: &str) -> WireValue {
    WireValue::String(x.to_string())
}

fn float(x: f64) -> Float64 {
    Float64 { bits: x.to_bits() }
}

fn wint(i: i64) -> WireValue {
    WireValue::Int(i, float(i as f64))
}

fn list(items: Vec<WireValue>) -> WireValue {
    WireValue::List(items)
}

fn cols(items: Vec<(&str, WireValue)>) -> Vec<(String, WireValue)> {
    items.into_iter().map(|(k, v)| (k.to_string(), v)).collect()
}

fn rec(items: Vec<(&str, WireValue)>) -> WireValue {
    WireValue::Record(cols(items))
}

fn field(vr: &str, value: WireValue) -> WireValue {
    rec(vec![("vr", s(vr)), ("Value", value)])
}

fn text(x: &str) -> DynValue {
    DynValue::Text(x.to_string())
}

fn get<'a>(v: &'a DynValue, key: &str) -> &'a DynValue {
    match v {
        DynValue::Record(cols) => &cols.iter().find(|(k, _)| k == key).unwrap_or_else(|| panic!("no column {key}")).1,
        _ => panic!("not a record: {v:?}"),
    }
}

fn at(v: &DynValue, i: usize) -> &DynValue {
    match v {
        DynValue::List(items) => &items[i],
        _ => panic!("not a list: {v:?}"),
    }
}

fn study(uid: &str, modalities: [&str; 2], date: Option<&str>, issuers: [&str; 2]) -> Vec<(String, WireValue)> {
    let date_field = match date {
        Some(d) => field("DA", list(vec![s(d)])),
        None => rec(vec![("vr", s("DA"))]),
    };
    let other_id = |id: &str, issuer: &str| {
        rec(vec![("00100020", field("LO", list(vec![s(id)]))), ("00100021", field("LO", list(vec![s(issuer)])))])
    };
    cols(vec![
        ("0020000D", field("UI", list(vec![s(uid)]))),
        ("00080061", field("CS", list(vec![s(modalities[0]), s(modalities[1])]))),
        ("00100010", field("PN", list(vec![rec(vec![("Alphabetic", s("Wang^XiaoDong"))])]))),
        ("00080020", date_field),
        ("00101002", field("SQ", list(vec![other_id("54321", issuers[0]), other_id("24680", issuers[1])]))),
    ])
}

fn first_study() -> Vec<(String, WireValue)> {
    study(
        "1.2.392.200036.9116.2.2.2.1762893313.1029997326.945873",
        ["CT", "PET"],
        Some("20130409"),
        ["Hospital B", "Hospital C"],
    )
}

fn second_study() -> Vec<(String, WireValue)> {
    study("1.2.392.200036.9116.2.2.2.2162893313.1029997326.945876", ["CT", "MG"], None, ["Hospital B2", "Hospital C2"])
}

fn map_input(value: &WireValue) -> DynValue {
    let dict = StandardDictionary;
    let dump = DicomWebDump::with_dictionary(&dict);
    match value {
        WireValue::Record(c) => {
            assert!(matches!(DcmPluginCommand::route_record(c), RecordRoute::DicomWeb));
            dump.process_dicomweb_record(c).unwrap()
        },
        WireValue::List(items) => {
            let results = DcmPluginCommand::process_wire_batch(&dump, items);
            DynValue::List(results.into_iter().map(|r| r.unwrap()).collect())
        },
        other => panic!("unexpected input {other:?}"),
    }
}

fn assert_first_study(v: &DynValue) {
    assert_eq!(get(v, "StudyInstanceUID"), &text("1.2.392.200036.9116.2.2.2.1762893313.1029997326.945873"));
    assert_eq!(get(v, "ModalitiesInStudy"), &DynValue::List(vec![text("CT"), text("PET")]));
    assert_eq!(get(v, "PatientName"), &text("Wang^XiaoDong"));
    assert_eq!(get(v, "StudyDate"), &text("20130409"));
    let others = get(v, "OtherPatientIDsSequence");
    assert_eq!(get(at(others, 0), "PatientID"), &text("54321"));
    assert_eq!(get(at(others, 0), "IssuerOfPatientID"), &text("Hospital B"));
    assert_eq!(get(at(others, 1), "PatientID"), &text("24680"));
    assert_eq!(get(at(others, 1), "IssuerOfPatientID"), &text("Hospital C"));
}

#[test]
fn read_dicomweb_record() {
    let result = map_input(&WireValue::Record(first_study()));
    assert_first_study(&result);
}

#[test]
fn read_single_dicomweb_list() {
    let result = map_input(&list(vec![WireValue::Record(first_study()), WireValue::Record(second_study())]));
    match &result {
        DynValue::List(items) => assert_eq!(items.len(), 2),
        other => panic!("not a list: {other:?}"),
    }
    assert_first_study(at(&result, 0));
    let second = at(&result, 1);
    assert_eq!(get(second, "StudyInstanceUID"), &text("1.2.392.200036.9116.2.2.2.2162893313.1029997326.945876"));
    assert_eq!(get(second, "ModalitiesInStudy"), &DynValue::List(vec![text("CT"), text("MG")]));
    assert_eq!(get(second, "PatientName"), &text("Wang^XiaoDong"));
    assert_eq!(get(second, "StudyDate"), &DynValue::Absent);
    let others = get(second, "OtherPatientIDsSequence");
    assert_eq!(get(at(others, 0), "PatientID"), &text("54321"));
    assert_eq!(get(at(others, 0), "IssuerOfPatientID"), &text("Hospital B2"));
    assert_eq!(get(at(others, 1), "PatientID"), &text("24680"));
    assert_eq!(get(at(others, 1), "IssuerOfPatientID"), &text("Hospital C2"));
}

#[test]
fn read_mixed_files_one_with_list_one_with_record() {
    let record = map_input(&WireValue::Record(first_study()));
    let nested = map_input(&list(vec![WireValue::Record(first_study()), WireValue::Record(second_study())]));
    let result = DynValue::List(vec![record, nested]);
    match &result {
        DynValue::List(items) => assert_eq!(items.len(), 2),
        other => panic!("not a list: {other:?}"),
    }
    assert_eq!(get(at(&result, 0), "StudyInstanceUID"), &text("1.2.392.200036.9116.2.2.2.1762893313.1029997326.945873"));
    assert_eq!(get(at(&result, 0), "ModalitiesInStudy"), &DynValue::List(vec![text("CT"), text("PET")]));
    let inner = at(&result, 1);
    assert_eq!(get(at(inner, 0), "StudyInstanceUID"), &text("1.2.392.200036.9116.2.2.2.1762893313.1029997326.945873"));
    assert_eq!(get(at(inner, 0), "ModalitiesInStudy"), &DynValue::List(vec![text("CT"), text("PET")]));
    assert_eq!(get(at(inner, 1), "StudyInstanceUID"), &text("1.2.392.200036.9116.2.2.2.2162893313.1029997326.945876"));
    assert_eq!(get(at(inner, 1), "ModalitiesInStudy"), &DynValue::List(vec![text("CT"), text("MG")]));
}

#[test]
fn patient_name_scenario() {
    let dict = StandardDictionary;
    let dump = DicomWebDump::with_dictionary(&dict);
    let input = cols(vec![("00100010", field("PN", list(vec![rec(vec![("Alphabetic", s("Doe^John"))])])))]);
    let result = dump.process_dicomweb_record(&input).unwrap();
    assert_eq!(result, DynValue::Record(vec![("PatientName".to_string(), text("Doe^John"))]));
}

#[test]
fn person_name_ideographic_only() {
    let dict = EmptyDictionary;
    let dump = DicomWebDump::with_dictionary(&dict);
    let input = list(vec![rec(vec![("Ideographic", s("Doe=John"))])]);
    assert_eq!(dump.convert_pn_value(&input).unwrap(), text("Doe=John"));
}

#[test]
fn person_name_cases() {
    let dict = EmptyDictionary;
    let dump = DicomWebDump::with_dictionary(&dict);
    assert_eq!(dump.convert_pn_value(&WireValue::Nothing).unwrap(), DynValue::Absent);
    assert_eq!(dump.convert_pn_value(&list(vec![])).unwrap(), DynValue::Absent);
    let phonetic = list(vec![rec(vec![("Phonetic", s("Doe^John"))])]);
    assert_eq!(dump.convert_pn_value(&phonetic).unwrap(), text("Doe^John"));
    let both = list(vec![rec(vec![("Phonetic", s("P")), ("Alphabetic", s("A")), ("Ideographic", s("I"))])]);
    assert_eq!(dump.convert_pn_value(&both).unwrap(), text("A"));
    let mixed = list(vec![rec(vec![("Ideographic", s("Doe=John"))]), rec(vec![("Alphabetic", s("Smith^Jane"))])]);
    assert_eq!(dump.convert_pn_value(&mixed).unwrap(), DynValue::List(vec![text("Doe=John"), text("Smith^Jane")]));
    assert!(dump.convert_pn_value(&s("abc")).is_err());
    assert!(dump.convert_pn_value(&wint(1)).is_err());
    assert!(dump.convert_pn_value(&WireValue::Bool(true)).is_err());
    match dump.convert_pn_value(&list(vec![rec(vec![])])) {
        Err(DicomWebError::MissingRequiredColumn { column }) => assert_eq!(column, "Alphabetic|Ideographic|Phonetic"),
        other => panic!("unexpected {other:?}"),
    }
}

#[test]
fn stringlike_cases() {
    let dict = EmptyDictionary;
    let dump = DicomWebDump::with_dictionary(&dict);
    assert_eq!(dump.convert_stringlike_value(&WireValue::Nothing).unwrap(), DynValue::Absent);
    assert_eq!(dump.convert_stringlike_value(&s("test")).unwrap(), text("test"));
    assert_eq!(
        dump.convert_stringlike_value(&list(vec![s("test1"), s("test2")])).unwrap(),
        DynValue::List(vec![text("test1"), text("test2")])
    );
    assert_eq!(dump.convert_stringlike_value(&list(vec![s("only")])).unwrap(), text("only"));
    assert_eq!(dump.convert_stringlike_value(&list(vec![])).unwrap(), DynValue::Absent);
    assert_eq!(dump.convert_stringlike_value(&rec(vec![])).unwrap(), DynValue::Absent);
    assert!(dump.convert_stringlike_value(&wint(1)).is_err());
    assert!(dump.convert_stringlike_value(&WireValue::Float(float(1.0))).is_err());
    assert!(dump.convert_stringlike_value(&WireValue::Bool(true)).is_err());
    match dump.convert_stringlike_value(&list(vec![wint(1)])) {
        Err(DicomWebError::InvalidType { expected, actual }) => {
            assert_eq!(expected, "string");
            assert_eq!(actual, "int");
        },
        other => panic!("unexpected {other:?}"),
    }
}

#[test]
fn integer_like_cases() {
    let dict = EmptyDictionary;
    let dump = DicomWebDump::with_dictionary(&dict);
    assert_eq!(dump.convert_integer_like_value(&WireValue::Nothing).unwrap(), DynValue::Absent);
    assert_eq!(dump.convert_integer_like_value(&wint(1)).unwrap(), DynValue::Integer(1));
    assert_eq!(
        dump.convert_integer_like_value(&list(vec![wint(1), wint(2)])).unwrap(),
        DynValue::List(vec![DynValue::Integer(1), DynValue::Integer(2)])
    );
    assert_eq!(dump.convert_integer_like_value(&list(vec![wint(5)])).unwrap(), DynValue::Integer(5));
    assert_eq!(dump.convert_integer_like_value(&list(vec![])).unwrap(), DynValue::Absent);
    assert!(dump.convert_integer_like_value(&s("abc")).is_err());
    assert!(dump.convert_integer_like_value(&WireValue::Float(float(1.0))).is_err());
    assert!(dump.convert_integer_like_value(&WireValue::Bool(true)).is_err());
    assert!(dump.convert_integer_like_value(&list(vec![s("abc")])).is_err());
}

#[test]
fn decimal_like_cases() {
    let dict = EmptyDictionary;
    let dump = DicomWebDump::with_dictionary(&dict);
    assert_eq!(dump.convert_decimal_like_value(&WireValue::Nothing).unwrap(), DynValue::Absent);
    assert_eq!(dump.convert_decimal_like_value(&WireValue::Float(float(1.0))).unwrap(), DynValue::Decimal(float(1.0)));
    assert_eq!(dump.convert_decimal_like_value(&wint(1)).unwrap(), DynValue::Decimal(float(1.0)));
    assert_eq!(
        dump.convert_decimal_like_value(&list(vec![WireValue::Float(float(1.0)), WireValue::Float(float(2.0))])).unwrap(),
        DynValue::List(vec![DynValue::Decimal(float(1.0)), DynValue::Decimal(float(2.0))])
    );
    assert_eq!(
        dump.convert_decimal_like_value(&list(vec![wint(1), wint(2)])).unwrap(),
        DynValue::List(vec![DynValue::Decimal(float(1.0)), DynValue::Decimal(float(2.0))])
    );
    assert_eq!(dump.convert_decimal_like_value(&list(vec![wint(3)])).unwrap(), DynValue::Decimal(float(3.0)));
    assert_eq!(dump.convert_decimal_like_value(&list(vec![])).unwrap(), DynValue::Absent);
    assert!(dump.convert_decimal_like_value(&s("abc")).is_err());
    assert!(dump.convert_decimal_like_value(&WireValue::Bool(true)).is_err());
    assert!(dump.convert_decimal_like_value(&list(vec![s("abc")])).is_err());
}

#[test]
fn wire_field_errors() {
    let dict = EmptyDictionary;
    let dump = DicomWebDump::with_dictionary(&dict);
    match dump.process_dicomweb_record(&cols(vec![("0010001", field("LO", list(vec![s("x")])))])) {
        Err(DicomWebError::InvalidValue { actual, .. }) => assert_eq!(actual, "0010001"),
        other => panic!("unexpected {other:?}"),
    }
    match dump.process_dicomweb_record(&cols(vec![("00100010", rec(vec![("Value", list(vec![]))]))])) {
        Err(DicomWebError::MissingRequiredColumn { column }) => assert_eq!(column, "vr"),
        other => panic!("unexpected {other:?}"),
    }
    match dump.process_dicomweb_record(&cols(vec![("00100010", field("XX", list(vec![])))])) {
        Err(DicomWebError::InvalidValue { expected, actual }) => {
            assert_eq!(expected, "valid VR");
            assert_eq!(actual, "XX");
        },
        other => panic!("unexpected {other:?}"),
    }
    match dump.process_dicomweb_record(&cols(vec![("00100010", rec(vec![("vr", wint(3))]))])) {
        Err(DicomWebError::InvalidType { actual, .. }) => assert_eq!(actual, "int"),
        other => panic!("unexpected {other:?}"),
    }
    match dump.process_dicomweb_record(&cols(vec![("00100010", rec(vec![("vr", s("LO")), ("Other", s("x"))]))])) {
        Err(DicomWebError::MissingRequiredColumn { column }) => assert_eq!(column, "Value|BulkDataURI|InlineBinary"),
        other => panic!("unexpected {other:?}"),
    }
    match dump.process_dicomweb_record(&cols(vec![("7FE00010", field("OB", list(vec![])))])) {
        Err(DicomWebError::Unsupported { vr }) => assert_eq!(vr, Vr::OB),
        other => panic!("unexpected {other:?}"),
    }
    match dump.process_dicomweb_record(&cols(vec![("00101002", field("SQ", s("x")))])) {
        Err(DicomWebError::InvalidType { expected, actual }) => {
            assert_eq!(expected, "list");
            assert_eq!(actual, "string");
        },
        other => panic!("unexpected {other:?}"),
    }
    match dump.process_dicomweb_list(&vec![s("x")]) {
        Err(DicomWebError::InvalidType { expected, .. }) => assert_eq!(expected, "record (in a list)"),
        other => panic!("unexpected {other:?}"),
    }
}

#[test]
fn wire_field_without_value() {
    let dict = EmptyDictionary;
    let dump = DicomWebDump::with_dictionary(&dict);
    let input = cols(vec![
        ("00100010", rec(vec![("vr", s("PN"))])),
        ("7FE00010", rec(vec![("vr", s("OB")), ("BulkDataURI", s("http://example.org/1"))])),
        ("00420011", rec(vec![("vr", s("OB")), ("InlineBinary", s("AAAA"))])),
    ]);
    let result = dump.process_dicomweb_record(&input).unwrap();
    assert_eq!(
        result,
        DynValue::Record(vec![
            ("0010,0010".to_string(), DynValue::Absent),
            ("7FE0,0010".to_string(), DynValue::Absent),
            ("0042,0011".to_string(), DynValue::Absent),
        ])
    );
}

#[test]
fn wire_tag_forms() {
    let dict = EmptyDictionary;
    let dump = DicomWebDump::with_dictionary(&dict);
    let input = cols(vec![
        ("0008,0060", field("CS", list(vec![s("CT")]))),
        ("(0008,0070)", field("LO", list(vec![s("ACME")]))),
        ("0009abcd", field("LO", list(vec![s("x")]))),
    ]);
    let result = dump.process_dicomweb_record(&input).unwrap();
    assert_eq!(
        result,
        DynValue::Record(vec![
            ("0008,0060".to_string(), text("CT")),
            ("0008,0070".to_string(), text("ACME")),
            ("0009,ABCD".to_string(), text("x")),
        ])
    );
}

#[test]
fn batch_isolation() {
    let dict = StandardDictionary;
    let dump = DicomWebDump::with_dictionary(&dict);
    let good1 = WireValue::Record(first_study());
    let bad = rec(vec![("nothex!!", field("LO", list(vec![s("x")])))]);
    let good3 = WireValue::Record(second_study());
    let results = DcmPluginCommand::process_wire_batch(&dump, &vec![good1, bad, good3]);
    assert_eq!(results.len(), 3);
    let alone1 = dump.process_dicomweb_record(&first_study()).unwrap();
    let alone3 = dump.process_dicomweb_record(&second_study()).unwrap();
    assert_eq!(results[0].as_ref().unwrap(), &alone1);
    assert!(matches!(results[1], Err(DicomWebError::InvalidValue { .. })));
    assert_eq!(results[2].as_ref().unwrap(), &alone3);
}

#[test]
fn route_records() {
    let file = cols(vec![("name", s("a.dcm")), ("type", s("file")), ("size", WireValue::Other("filesize".to_string()))]);
    match DcmPluginCommand::route_record(&file) {
        RecordRoute::File(name) => assert_eq!(name, "a.dcm"),
        other => panic!("unexpected {other:?}"),
    }
    let dir = cols(vec![("name", s("d")), ("type", s("dir"))]);
    assert!(matches!(DcmPluginCommand::route_record(&dir), RecordRoute::Unsupported));
    assert!(matches!(DcmPluginCommand::route_record(&first_study()), RecordRoute::DicomWeb));
    let plain = cols(vec![("foo", wint(1))]);
    assert!(matches!(DcmPluginCommand::route_record(&plain), RecordRoute::Unsupported));
}
