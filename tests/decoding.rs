use permit_correlator::decode::{decode, find_after_image, stream_kind, DecodeError, EntityEvent, Stream};
use permit_correlator::json::{Json, JsonNumber};

fn integer(x: i128) -> Json {
    Json::Number(JsonNumber::Int(x))
}

fn text(s: &str) -> Json {
    Json::Str(s.to_string())
}

fn object(entries: Vec<(&str, Json)>) -> Json {
    Json::Object(entries.into_iter().map(|(k, v)| (k.to_string(), v)).collect())
}

fn envelope(after: Json) -> Json {
    object(vec![("schema", Json::Null), ("payload", object(vec![("before", Json::Null), ("after", after)]))])
}

fn asset_image(id: i128, created: i128) -> Json {
    object(vec![
        ("id", integer(id)),
        ("tag", text("P-101")),
        ("name", text("Pump")),
        ("description", text("Feed pump")),
        ("status", text("active")),
        ("date_created", integer(created)),
        ("last_updated", integer(1_700_000_100_000)),
    ])
}

fn permit_image() -> Json {
    object(vec![
        ("id", integer(10)),
        ("description", text("Hot work")),
        ("status", text("open")),
        ("type", text("hot")),
        ("responsible_person", text("A. Smith")),
        ("valid_from", integer(1_700_000_000_000)),
        ("valid_to", integer(1_700_086_400_000)),
        ("authorized_by", text("B. Jones")),
        ("location", text("Unit 3")),
        ("permit_number", text("WP-001")),
        ("assets", Json::Array(vec![asset_image(1, 0)])),
    ])
}

#[test]
fn stream_names_are_recognised() {
    assert_eq!(stream_kind("datapoints"), Some(Stream::Datapoints));
    assert_eq!(stream_kind("work-permit"), Some(Stream::WorkPermits));
    assert_eq!(stream_kind("asset"), Some(Stream::Assets));
    assert_eq!(stream_kind("permit-asset"), Some(Stream::PermitAssets));
    assert_eq!(stream_kind("assets"), None);
    assert_eq!(stream_kind(""), None);
}

#[test]
fn asset_is_decoded_with_all_fields() {
    let root = envelope(asset_image(1, 1_700_000_000_000));
    match decode("asset", Some(&root)) {
        Ok(EntityEvent::Asset(a)) => {
            assert_eq!(a.id, 1);
            assert_eq!(a.tag, "P-101");
            assert_eq!(a.name, "Pump");
            assert_eq!(a.description, "Feed pump");
            assert_eq!(a.status, "active");
            assert_eq!(a.date_created, 1_700_000_000_000);
            assert_eq!(a.last_updated, 1_700_000_100_000);
        }
        other => panic!("unexpected {:?}", other),
    }
}

#[test]
fn permit_is_decoded_without_its_asset_list() {
    let root = envelope(permit_image());
    match decode("work-permit", Some(&root)) {
        Ok(EntityEvent::WorkPermit(p)) => {
            assert_eq!(p.id, 10);
            assert_eq!(p.permit_number, "WP-001");
            assert_eq!(p.permit_type, Some("hot".to_string()));
            assert_eq!(p.valid_from, 1_700_000_000_000);
            assert_eq!(p.valid_to, 1_700_086_400_000);
            assert_eq!(p.responsible_person, "A. Smith");
            assert_eq!(p.authorized_by, "B. Jones");
            assert_eq!(p.location, "Unit 3");
            assert!(p.asset_ids.is_empty());
        }
        other => panic!("unexpected {:?}", other),
    }
}

#[test]
fn permit_type_may_be_null_or_absent() {
    let with_null = object(vec![
        ("id", integer(20)),
        ("description", text("d")),
        ("status", text("s")),
        ("type", Json::Null),
        ("responsible_person", text("r")),
        ("valid_from", integer(0)),
        ("valid_to", integer(-1000)),
        ("authorized_by", text("a")),
        ("location", text("l")),
        ("permit_number", text("WP-002")),
    ]);
    match decode("work-permit", Some(&envelope(with_null))) {
        Ok(EntityEvent::WorkPermit(p)) => {
            assert_eq!(p.permit_type, None);
            assert_eq!(p.valid_to, -1000);
        }
        other => panic!("unexpected {:?}", other),
    }
    let without = object(vec![
        ("id", integer(21)),
        ("description", text("d")),
        ("status", text("s")),
        ("responsible_person", text("r")),
        ("valid_from", integer(0)),
        ("valid_to", integer(0)),
        ("authorized_by", text("a")),
        ("location", text("l")),
        ("permit_number", text("WP-003")),
    ]);
    match decode("work-permit", Some(&envelope(without))) {
        Ok(EntityEvent::WorkPermit(p)) => assert_eq!(p.permit_type, None),
        other => panic!("unexpected {:?}", other),
    }
}

#[test]
fn permit_asset_and_datapoint_are_decoded() {
    let link = envelope(object(vec![("permit_id", integer(10)), ("asset_id", integer(1))]));
    match decode("permit-asset", Some(&link)) {
        Ok(EntityEvent::PermitAsset(l)) => {
            assert_eq!(l.permit_id, 10);
            assert_eq!(l.asset_id, 1);
        }
        other => panic!("unexpected {:?}", other),
    }
    let point = envelope(object(vec![
        ("id", integer(5)),
        ("timestamp", integer(18_446_744_073_709_551_615)),
        ("value", Json::Number(JsonNumber::Float("21.5".to_string()))),
        ("asset_id", integer(1)),
    ]));
    match decode("datapoints", Some(&point)) {
        Ok(EntityEvent::Datapoint(d)) => {
            assert_eq!(d.id, 5);
            assert_eq!(d.timestamp, 18_446_744_073_709_551_615);
            assert!(matches!(d.value, JsonNumber::Float(ref s) if s == "21.5"));
            assert_eq!(d.asset_id, 1);
        }
        other => panic!("unexpected {:?}", other),
    }
}

#[test]
fn unparsed_payload_is_malformed() {
    assert!(matches!(decode("asset", None), Err(DecodeError::MalformedPayload)));
}

#[test]
fn missing_after_image_is_reported_for_every_stream() {
    let roots = vec![
        object(vec![]),
        object(vec![("payload", object(vec![]))]),
        object(vec![("payload", object(vec![("after", Json::Null)]))]),
        object(vec![("payload", text("x"))]),
        Json::Array(vec![]),
        integer(3),
    ];
    for root in roots.iter() {
        for stream in ["asset", "work-permit", "permit-asset", "datapoints", "other"] {
            assert!(matches!(decode(stream, Some(root)), Err(DecodeError::NoAfterImage)));
        }
        assert!(find_after_image(root).is_none());
    }
}

#[test]
fn unknown_stream_is_not_an_error() {
    let root = envelope(asset_image(1, 0));
    assert!(matches!(decode("sensors", Some(&root)), Ok(EntityEvent::UnknownStream)));
}

#[test]
fn schema_mismatch_names_the_first_faulty_member() {
    let wrong_type = envelope(object(vec![("permit_id", text("10")), ("asset_id", integer(1))]));
    match decode("permit-asset", Some(&wrong_type)) {
        Err(DecodeError::SchemaMismatch(d)) => assert_eq!(d, "permit_id"),
        other => panic!("unexpected {:?}", other),
    }
    let missing = envelope(object(vec![("permit_id", integer(10))]));
    match decode("permit-asset", Some(&missing)) {
        Err(DecodeError::SchemaMismatch(d)) => assert_eq!(d, "asset_id"),
        other => panic!("unexpected {:?}", other),
    }
    let too_large = envelope(object(vec![("permit_id", integer(i64::MAX as i128 + 1)), ("asset_id", integer(1))]));
    match decode("permit-asset", Some(&too_large)) {
        Err(DecodeError::SchemaMismatch(d)) => assert_eq!(d, "permit_id"),
        other => panic!("unexpected {:?}", other),
    }
    let float_id = envelope(object(vec![("permit_id", Json::Number(JsonNumber::Float("1.5".to_string()))), ("asset_id", integer(1))]));
    match decode("permit-asset", Some(&float_id)) {
        Err(DecodeError::SchemaMismatch(d)) => assert_eq!(d, "permit_id"),
        other => panic!("unexpected {:?}", other),
    }
    match decode("datapoints", Some(&envelope(text("row")))) {
        Err(DecodeError::SchemaMismatch(d)) => assert_eq!(d, "id"),
        other => panic!("unexpected {:?}", other),
    }
}

#[test]
fn out_of_range_millisecond_timestamp_is_refused() {
    for ms in [i64::MAX as i128, i64::MIN as i128, -8_400_000_000_000_000, 8_300_000_000_000_000] {
        match decode("asset", Some(&envelope(asset_image(1, ms)))) {
            Err(DecodeError::SchemaMismatch(d)) => assert_eq!(d, "date_created"),
            other => panic!("unexpected {:?}", other),
        }
    }
    for ms in [0, -1, -8_300_000_000_000_000, 8_200_000_000_000_000] {
        match decode("asset", Some(&envelope(asset_image(1, ms)))) {
            Ok(EntityEvent::Asset(a)) => assert_eq!(a.date_created as i128, ms),
            other => panic!("unexpected {:?}", other),
        }
    }
}

#[test]
fn nanosecond_timestamp_outside_json_integers_is_refused() {
    let point = envelope(object(vec![
        ("id", integer(5)),
        ("timestamp", integer(-(1i128 << 63) - 1)),
        ("value", integer(3)),
        ("asset_id", integer(1)),
    ]));
    match decode("datapoints", Some(&point)) {
        Err(DecodeError::SchemaMismatch(d)) => assert_eq!(d, "timestamp"),
        other => panic!("unexpected {:?}", other),
    }
}

#[test]
fn first_of_repeated_members_is_read() {
    let root = envelope(object(vec![("permit_id", integer(7)), ("permit_id", integer(8)), ("asset_id", integer(1))]));
    match decode("permit-asset", Some(&root)) {
        Ok(EntityEvent::PermitAsset(l)) => assert_eq!(l.permit_id, 7),
        other => panic!("unexpected {:?}", other),
    }
}
