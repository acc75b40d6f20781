use connect_client::json::Json;
use connect_client::models::ConnectorOffset;
use connect_client::offsets::decode_offset;

fn sink_record() -> Json {
    Json::Obj(vec![
        (
            "partition".to_string(),
            Json::Obj(vec![
                ("kafka_topic".to_string(), Json::Str("t".to_string())),
                ("kafka_partition".to_string(), Json::Int(0)),
            ]),
        ),
        (
            "offset".to_string(),
            Json::Obj(vec![("offset".to_string(), Json::Str("5".to_string()))]),
        ),
    ])
}

fn source_record() -> Json {
    Json::Obj(vec![
        (
            "partition".to_string(),
            Json::Obj(vec![("custom".to_string(), Json::Int(1))]),
        ),
        (
            "offset".to_string(),
            Json::Obj(vec![("custom".to_string(), Json::Int(2))]),
        ),
    ])
}

#[test]
fn sink_record_decodes_to_sink_variant() {
    let record = sink_record();
    // the generic decoders (plain integers) do not match the objects, so
    // the trial falls through to the fixed sink shape
    match decode_offset::<u64, u64>(&record) {
        Ok(ConnectorOffset::Sink(sink)) => {
            assert_eq!(sink.partition.kafka_topic, "t");
            assert_eq!(sink.partition.kafka_partition, 0);
            assert_eq!(sink.offset.offset, "5");
        },
        other => panic!("expected the sink variant, got {:?}", other),
    }
}

#[test]
fn source_record_decodes_to_source_variant() {
    let record = source_record();
    match decode_offset::<Vec<(String, i64)>, Vec<(String, i64)>>(&record) {
        Ok(ConnectorOffset::Source(source)) => {
            assert_eq!(source.partition, vec![("custom".to_string(), 1)]);
            assert_eq!(source.offset, vec![("custom".to_string(), 2)]);
        },
        other => panic!("expected the source variant, got {:?}", other),
    }
}

#[test]
fn unmatched_record_fails_naming_both_shapes() {
    let record = Json::Str("not an offset record".to_string());
    let error = decode_offset::<u64, u64>(&record).unwrap_err();
    let message = error.message();
    assert!(message.contains("source"));
    assert!(message.contains("sink"));
}

#[test]
fn record_missing_offset_field_fails() {
    let record = Json::Obj(vec![(
        "partition".to_string(),
        Json::Obj(vec![
            ("kafka_topic".to_string(), Json::Str("t".to_string())),
            ("kafka_partition".to_string(), Json::Int(0)),
        ]),
    )]);
    assert!(decode_offset::<u64, u64>(&record).is_err());
}

#[test]
fn source_shape_is_tried_first() {
    // a record both decoders match decodes as the source variant
    let record = Json::Obj(vec![
        ("partition".to_string(), Json::Int(3)),
        ("offset".to_string(), Json::Int(9)),
    ]);
    match decode_offset::<u64, u64>(&record) {
        Ok(ConnectorOffset::Source(source)) => {
            assert_eq!(source.partition, 3);
            assert_eq!(source.offset, 9);
        },
        other => panic!("expected the source variant, got {:?}", other),
    }
}
