use driver_staging::catalog::{
    catalog_from_response, decode_catalog, decode_record, OptionsPayload, RawRecord,
};
use driver_staging::models::SoftwareOption;

fn option(name: &str) -> SoftwareOption {
    SoftwareOption {
        name: name.to_string(),
        description: "desc".to_string(),
        url: "https://example.com/a".to_string(),
        filename: "a.exe".to_string(),
    }
}

fn record(name: &str, vid: u64, pid: u64, options: Vec<SoftwareOption>) -> RawRecord {
    RawRecord {
        name: Some(name.to_string()),
        vid: Some(vid),
        pid: Some(pid),
        options: Some(OptionsPayload::Decoded(options)),
        jsonb: None,
    }
}

#[test]
fn well_formed_record_decodes() {
    let d = decode_record(record("Mouse X", 0x1234, 0x5678, vec![option("Suite")])).unwrap();
    assert_eq!(d.name, "Mouse X");
    assert_eq!(d.vid, 0x1234);
    assert_eq!(d.pid, 0x5678);
    assert_eq!(d.options.len(), 1);
    assert_eq!(d.options[0].name, "Suite");
}

#[test]
fn record_missing_both_payload_fields_is_dropped_siblings_kept() {
    let missing_both = RawRecord {
        name: Some("Broken".to_string()),
        vid: Some(1),
        pid: Some(2),
        options: None,
        jsonb: None,
    };
    let batch = vec![
        record("Mouse A", 1, 1, vec![option("A Suite")]),
        missing_both,
        record("Mouse B", 2, 2, vec![option("B Suite")]),
    ];
    let catalog = decode_catalog(batch);
    assert_eq!(catalog.len(), 2);
    assert_eq!(catalog[0].name, "Mouse A");
    assert_eq!(catalog[1].name, "Mouse B");
}

#[test]
fn jsonb_field_is_used_when_options_is_absent() {
    let r = RawRecord {
        name: Some("Old Schema".to_string()),
        vid: Some(3),
        pid: Some(4),
        options: None,
        jsonb: Some(OptionsPayload::Decoded(vec![option("Legacy Suite")])),
    };
    let d = decode_record(r).unwrap();
    assert_eq!(d.name, "Old Schema");
    assert_eq!(d.options[0].name, "Legacy Suite");
}

#[test]
fn options_field_is_preferred_over_jsonb() {
    let r = RawRecord {
        name: Some("Both".to_string()),
        vid: Some(3),
        pid: Some(4),
        options: Some(OptionsPayload::Decoded(vec![option("New Suite")])),
        jsonb: Some(OptionsPayload::Decoded(vec![option("Legacy Suite")])),
    };
    let d = decode_record(r).unwrap();
    assert_eq!(d.options.len(), 1);
    assert_eq!(d.options[0].name, "New Suite");
}

#[test]
fn malformed_payload_drops_the_record() {
    let r = RawRecord {
        name: Some("Bad Payload".to_string()),
        vid: Some(1),
        pid: Some(1),
        options: Some(OptionsPayload::Malformed),
        jsonb: None,
    };
    assert!(decode_record(r).is_none());
}

#[test]
fn identifier_out_of_sixteen_bits_drops_the_record() {
    assert!(decode_record(record("Too Big Vid", 0x10000, 1, vec![option("S")])).is_none());
    assert!(decode_record(record("Too Big Pid", 1, 0x10000, vec![option("S")])).is_none());
    assert!(decode_record(record("Edge", 0xffff, 0xffff, vec![option("S")])).is_some());
}

#[test]
fn record_missing_name_is_dropped() {
    let r = RawRecord {
        name: None,
        vid: Some(1),
        pid: Some(2),
        options: Some(OptionsPayload::Decoded(vec![option("S")])),
        jsonb: None,
    };
    assert!(decode_record(r).is_none());
}

#[test]
fn option_order_within_a_record_is_preserved() {
    let d = decode_record(record(
        "Mouse X",
        1,
        2,
        vec![option("First"), option("Second"), option("Third")],
    ))
    .unwrap();
    let names: Vec<&str> = d.options.iter().map(|o| o.name.as_str()).collect();
    assert_eq!(names, vec!["First", "Second", "Third"]);
}

#[test]
fn non_success_status_yields_empty_catalog() {
    let records = vec![record("Mouse A", 1, 1, vec![option("A")])];
    assert!(catalog_from_response(404, Some(records)).is_empty());
}

#[test]
fn unparsed_body_yields_empty_catalog() {
    assert!(catalog_from_response(200, None).is_empty());
}

#[test]
fn success_status_with_records_decodes_them() {
    let records = vec![record("Mouse A", 1, 1, vec![option("A")])];
    let catalog = catalog_from_response(200, Some(records));
    assert_eq!(catalog.len(), 1);
    assert_eq!(catalog[0].name, "Mouse A");
}
