use indexmap::IndexMap;
use nu_plugin_dcm::classify::is_dicom_record;
use nu_plugin_dcm::convert::{convert, ConversionError, Decimallike, Integerlike, Payload, Stringlike};
use nu_plugin_dcm::dcm::{DicomDump, DicomObject, Element, ElementValue};
use nu_plugin_dcm::dicomweb::DicomWebDump;
use nu_plugin_dcm::dictionary::{resolve, EmptyDictionary, StandardDictionary};
use nu_plugin_dcm::meta::{make_row_from_dicom_metadata, FileMeta};
use nu_plugin_dcm::plugin::DcmPluginCommand;
use nu_plugin_dcm::reader::{decode_start, has_preamble, Error, NoPreamblePolicy};
use nu_plugin_dcm::row::row_to_record;
use nu_plugin_dcm::tag::parse_tag;
use nu_plugin_dcm::text::{format_tag, join_trimmed_lines, trim_string};
use nu_plugin_dcm::value::{DynValue, Float64};
use nu_plugin_dcm::vr::{ValueClass, Vr};
use nu_plugin_dcm::wire::WireValue;

fn float(x: f64) -> Float64 {
    Float64 { bits: x.to_bits() }
}

fn text(x: &str) -> DynValue {
    DynValue::Text(x.to_string())
}

fn strings(v: &[&str]) -> Vec<String> {
    v.iter().map(|x| x.to_string()).collect()
}

fn text_payload(v: &[&str]) -> Payload {
    Payload { texts: strings(v), integers: None, decimals: None }
}

fn int_payload(v: &[i64]) -> Payload {
    Payload {
        texts: v.iter().map(|i| i.to_string()).collect(),
        integers: Some(v.to_vec()),
        decimals: Some(v.iter().map(|i| float(*i as f64)).collect()),
    }
}

fn decimal_payload(v: &[f64]) -> Payload {
    Payload {
        texts: v.iter().map(|x| x.to_string()).collect(),
        integers: None,
        decimals: Some(v.iter().map(|x| float(*x)).collect()),
    }
}

fn primitive(group: u16, element: u16, vr: Vr, p: Payload) -> Element {
    Element { group, element, vr, value: ElementValue::Primitive(p) }
}

fn map_object(obj: &DicomObject) -> Result<DynValue, ConversionError> {
    let dict = StandardDictionary;
    let dump = DicomDump { dcm_dictionary: &dict };
    let mut row = IndexMap::new();
    dump.make_row_from_dicom_object(&mut row, obj)?;
    Ok(row_to_record(row))
}

#[test]
fn trims_whitespace_and_nul() {
    assert_eq!(trim_string(&"  ExplicitVRLittleEndian-Preamble\0".to_string()), "ExplicitVRLittleEndian-Preamble");
    assert_eq!(trim_string(&"\t\r\n x y \0\0".to_string()), "x y");
    assert_eq!(trim_string(&" \0 ".to_string()), "");
    assert_eq!(trim_string(&String::new()), "");
    assert_eq!(join_trimmed_lines(&strings(&[" a ", "b\0", ""])), "a\nb\n");
}

#[test]
fn text_like_conversion() {
    assert_eq!(Stringlike(&text_payload(&["ORIGINAL ", " PRIMARY"])).to_value(), text("ORIGINAL\nPRIMARY"));
    assert_eq!(Stringlike(&text_payload(&["CT"])).to_value(), text("CT"));
    assert_eq!(Stringlike(&text_payload(&["  ", "\0"])).to_value(), DynValue::Absent);
    assert_eq!(Stringlike(&text_payload(&[])).to_value(), DynValue::Absent);
}

#[test]
fn absence_for_every_class() {
    let empty = Payload { texts: vec![], integers: Some(vec![]), decimals: Some(vec![]) };
    for class in [ValueClass::Text, ValueClass::Integer, ValueClass::Decimal] {
        assert_eq!(convert(class, &empty), Ok(DynValue::Absent));
    }
    let blank = Payload { texts: strings(&[" ", "\0"]), integers: None, decimals: None };
    for class in [ValueClass::Text, ValueClass::Integer, ValueClass::Decimal] {
        assert_eq!(convert(class, &blank), Ok(DynValue::Absent));
    }
}

#[test]
fn scalar_collapse() {
    assert_eq!(Integerlike(&int_payload(&[7])).to_value(), Ok(DynValue::Integer(7)));
    let many = Integerlike(&int_payload(&[3, 7])).to_value().unwrap();
    assert_eq!(many, DynValue::List(vec![DynValue::Integer(3), DynValue::Integer(7)]));
    match many {
        DynValue::List(items) => assert_eq!(items[1], Integerlike(&int_payload(&[7])).to_value().unwrap()),
        other => panic!("unexpected {other:?}"),
    }
    assert_eq!(Decimallike(&decimal_payload(&[0.5])).to_value(), Ok(DynValue::Decimal(float(0.5))));
    assert_eq!(
        Decimallike(&decimal_payload(&[0.5, 1.25])).to_value(),
        Ok(DynValue::List(vec![DynValue::Decimal(float(0.5)), DynValue::Decimal(float(1.25))]))
    );
}

#[test]
fn parse_failures_are_errors() {
    let p = text_payload(&["abc"]);
    assert_eq!(Integerlike(&p).to_value(), Err(ConversionError::NotAnInteger));
    assert_eq!(Decimallike(&p).to_value(), Err(ConversionError::NotADecimal));
}

#[test]
fn dictionary_fallback() {
    assert_eq!(resolve(&EmptyDictionary, 0x0009, 0x0010), "0009,0010");
    assert_eq!(format_tag(0x7FE0, 0x0010), "7FE0,0010");
    assert_eq!(format_tag(0xabcd, 0x0001), "ABCD,0001");
    assert_eq!(resolve(&StandardDictionary, 0x0010, 0x0010), "PatientName");
    assert_eq!(resolve(&StandardDictionary, 0x0007, 0x1234), "0007,1234");
}

#[test]
fn parses_tags_and_codes() {
    assert_eq!(parse_tag("00100010"), Some((0x0010, 0x0010)));
    assert_eq!(parse_tag("7fe00010"), Some((0x7FE0, 0x0010)));
    assert_eq!(parse_tag("0010,0020"), Some((0x0010, 0x0020)));
    assert_eq!(parse_tag("(0010,0020)"), Some((0x0010, 0x0020)));
    assert_eq!(parse_tag("0010002"), None);
    assert_eq!(parse_tag("0010002G"), None);
    assert_eq!(parse_tag("0010é002"), None);
    assert_eq!(Vr::parse("PN"), Some(Vr::PN));
    assert_eq!(Vr::parse("UV"), Some(Vr::UV));
    assert_eq!(Vr::parse("pn"), None);
    assert_eq!(Vr::parse("PNX"), None);
}

#[test]
fn container_scenario() {
    let obj = DicomObject {
        elements: vec![
            primitive(0x0010, 0x0010, Vr::PN, text_payload(&["  ExplicitVRLittleEndian-Preamble\0"])),
            primitive(0x0028, 0x0010, Vr::US, int_payload(&[7])),
        ],
    };
    assert_eq!(
        map_object(&obj).unwrap(),
        DynValue::Record(vec![
            ("PatientName".to_string(), text("ExplicitVRLittleEndian-Preamble")),
            ("Rows".to_string(), DynValue::Integer(7)),
        ])
    );
}

#[test]
fn nested_sequence_shape() {
    let child = |id: &str, issuer: &str| DicomObject {
        elements: vec![
            primitive(0x0010, 0x0020, Vr::LO, text_payload(&[id])),
            primitive(0x0010, 0x0021, Vr::LO, text_payload(&[issuer])),
        ],
    };
    let obj = DicomObject {
        elements: vec![Element {
            group: 0x0010,
            element: 0x1002,
            vr: Vr::SQ,
            value: ElementValue::Sequence(vec![child("54321", "Hospital B"), child("24680", "Hospital C")]),
        }],
    };
    let record = |id: &str, issuer: &str| {
        DynValue::Record(vec![("PatientID".to_string(), text(id)), ("IssuerOfPatientID".to_string(), text(issuer))])
    };
    assert_eq!(
        map_object(&obj).unwrap(),
        DynValue::Record(vec![(
            "OtherPatientIDsSequence".to_string(),
            DynValue::List(vec![record("54321", "Hospital B"), record("24680", "Hospital C")]),
        )])
    );
    assert_eq!(map_object(&child("54321", "Hospital B")).unwrap(), record("54321", "Hospital B"));
}

#[test]
fn pixel_data_and_errors() {
    let obj = DicomObject {
        elements: vec![
            primitive(0x0028, 0x0010, Vr::US, int_payload(&[512])),
            Element { group: 0x7FE0, element: 0x0010, vr: Vr::OB, value: ElementValue::PixelSequence },
        ],
    };
    assert_eq!(map_object(&obj).unwrap(), DynValue::Record(vec![("Rows".to_string(), DynValue::Integer(512))]));
    let bad = DicomObject { elements: vec![primitive(0x0020, 0x0013, Vr::IS, text_payload(&["x1"]))] };
    assert_eq!(map_object(&bad), Err(ConversionError::NotAnInteger));
    let dict = EmptyDictionary;
    let dump = DicomDump { dcm_dictionary: &dict };
    let mut row = IndexMap::new();
    let dup = DicomObject {
        elements: vec![
            primitive(0x0008, 0x0060, Vr::CS, text_payload(&["CT"])),
            primitive(0x0008, 0x0070, Vr::LO, text_payload(&["ACME"])),
            primitive(0x0008, 0x0060, Vr::CS, text_payload(&["MR"])),
        ],
    };
    dump.make_row_from_dicom_object(&mut row, &dup).unwrap();
    assert_eq!(
        row_to_record(row),
        DynValue::Record(vec![("0008,0060".to_string(), text("MR")), ("0008,0070".to_string(), text("ACME"))])
    );
}

#[test]
fn metadata_and_error_column() {
    let meta = FileMeta {
        transfer_syntax: "1.2.840.10008.1.2.1\0".to_string(),
        media_storage_sop_class_uid: "1.2.840.10008.5.1.4.1.1.2\0".to_string(),
        media_storage_sop_instance_uid: "1.2.3 ".to_string(),
    };
    let mut row = IndexMap::new();
    make_row_from_dicom_metadata(&mut row, &meta);
    assert_eq!(
        row_to_record(row),
        DynValue::Record(vec![
            ("TransferSyntax".to_string(), text("1.2.840.10008.1.2.1")),
            ("MediaStorageSOPClassUID".to_string(), text("1.2.840.10008.5.1.4.1.1.2")),
            ("MediaStorageSOPInstanceUID".to_string(), text("1.2.3")),
        ])
    );
    let obj = DicomObject { elements: vec![primitive(0x0008, 0x0060, Vr::CS, text_payload(&["CT"]))] };
    let with_error = DcmPluginCommand::process_dicom_object(&StandardDictionary, &meta, &obj, &Some("err".to_string()));
    assert_eq!(
        with_error.unwrap(),
        DynValue::Record(vec![
            ("err".to_string(), text("")),
            ("TransferSyntax".to_string(), text("1.2.840.10008.1.2.1")),
            ("MediaStorageSOPClassUID".to_string(), text("1.2.840.10008.5.1.4.1.1.2")),
            ("MediaStorageSOPInstanceUID".to_string(), text("1.2.3")),
            ("Modality".to_string(), text("CT")),
        ])
    );
    assert_eq!(
        DcmPluginCommand::error_record(&"err".to_string(), &"bad file".to_string()),
        DynValue::Record(vec![("err".to_string(), text("bad file"))])
    );
    assert_eq!(DcmPluginCommand.name(), "dcm");
}

#[test]
fn preamble_detection() {
    let mut head = vec![0u8; 128];
    head.extend_from_slice(b"DICM");
    assert!(has_preamble(&head));
    assert!(matches!(decode_start(&head, NoPreamblePolicy::Fail), Ok(128)));
    let mut other = vec![0u8; 128];
    other.extend_from_slice(b"DICX");
    assert!(!has_preamble(&other));
    assert!(matches!(decode_start(&other, NoPreamblePolicy::DecodeFromStart), Ok(0)));
    assert!(matches!(decode_start(&other, NoPreamblePolicy::Fail), Err(Error::MarkerNotFound)));
    assert!(!has_preamble(&head[..100]));
    assert!(!has_preamble(&[]));
}

fn wire_cols(items: Vec<(&str, WireValue)>) -> Vec<(String, WireValue)> {
    items.into_iter().map(|(k, v)| (k.to_string(), v)).collect()
}

#[test]
fn classifies_records() {
    let field = WireValue::Record(wire_cols(vec![("vr", WireValue::String("CS".to_string()))]));
    assert!(is_dicom_record(&wire_cols(vec![("00080060", field)])));
    let lower = WireValue::Record(wire_cols(vec![
        ("vr", WireValue::String("OB".to_string())),
        ("BulkDataURI", WireValue::String("u".to_string())),
    ]));
    assert!(is_dicom_record(&wire_cols(vec![("7fe00010", lower)])));
    let no_vr = WireValue::Record(wire_cols(vec![("Value", WireValue::List(vec![]))]));
    assert!(!is_dicom_record(&wire_cols(vec![("00080060", no_vr)])));
    let extra = WireValue::Record(wire_cols(vec![("vr", WireValue::String("CS".to_string())), ("x", WireValue::Nothing)]));
    assert!(!is_dicom_record(&wire_cols(vec![("00080060", extra)])));
    let vr_only = || WireValue::Record(wire_cols(vec![("vr", WireValue::String("CS".to_string()))]));
    assert!(!is_dicom_record(&wire_cols(vec![("0008006", vr_only())])));
    assert!(!is_dicom_record(&wire_cols(vec![("0008006Z", vr_only())])));
    assert!(!is_dicom_record(&wire_cols(vec![("name", WireValue::String("a".to_string()))])));
    assert!(is_dicom_record(&vec![]));
    let mut many: Vec<(String, WireValue)> = (0..50).map(|i| (format!("{:08X}", i), vr_only())).collect();
    many.push(("not a tag".to_string(), WireValue::Nothing));
    assert!(is_dicom_record(&many));
}

#[test]
fn round_trip_between_pipelines() {
    let dict = StandardDictionary;
    let web = DicomWebDump::with_dictionary(&dict);
    let binary = |vr: Vr, p: Payload| {
        let obj = DicomObject { elements: vec![primitive(0x0028, 0x0030, vr, p)] };
        map_object(&obj).unwrap()
    };
    let wire = |code: &str, items: Vec<WireValue>| {
        let field = WireValue::Record(wire_cols(vec![
            ("vr", WireValue::String(code.to_string())),
            ("Value", WireValue::List(items)),
        ]));
        web.process_dicomweb_record(&wire_cols(vec![("00280030", field)])).unwrap()
    };
    assert_eq!(
        binary(Vr::DS, decimal_payload(&[0.5, 0.25])),
        wire("DS", vec![WireValue::Float(float(0.5)), WireValue::Float(float(0.25))])
    );
    assert_eq!(binary(Vr::IS, int_payload(&[42])), wire("IS", vec![WireValue::Int(42, float(42.0))]));
    assert_eq!(binary(Vr::LO, text_payload(&[" ACME\0"])), wire("LO", vec![WireValue::String("ACME".to_string())]));
}
