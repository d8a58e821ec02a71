use cloud_client::query_info::{FileType, QueryInfo, QueryOutput, QueryResult};

fn sample_result() -> QueryResult {
    QueryResult {
        total_stages: 3,
        finished_stages: 2,
        failed_stages: 1,
        errors: vec!["e1".to_string()],
        output: Some(QueryOutput {
            sink_dst: vec!["s3://x".to_string()],
            n_rows_result: 300,
            file_type: Some(FileType::Csv),
        }),
    }
}

#[test]
fn encode_produces_exact_wire_bytes() {
    let bytes = sample_result().encode();
    let expected: Vec<u8> = vec![
        8, 3, // total_stages
        16, 2, // finished_stages
        24, 1, // failed_stages
        34, 4, 10, 2, 101, 49, // errors: one message holding "e1"
        42, 15, // output, 15 bytes
        10, 8, 10, 6, 115, 51, 58, 47, 47, 120, // destination "s3://x"
        16, 172, 2, // n_rows_result = 300 as a two-byte varint
        24, 3, // file type csv
    ];
    assert_eq!(bytes, expected);
}

#[test]
fn query_result_round_trips_losslessly() {
    let original = sample_result();
    let bytes = original.encode();
    let decoded = QueryResult::decode(&bytes).expect("well-formed envelope");
    assert_eq!(decoded, original);
}

#[test]
fn query_result_without_output_round_trips() {
    let original = QueryResult {
        total_stages: 0,
        finished_stages: 0,
        failed_stages: 0,
        errors: vec![],
        output: None,
    };
    let bytes = original.encode();
    let decoded = QueryResult::decode(&bytes).expect("well-formed envelope");
    assert_eq!(decoded, original);
}

#[test]
fn unknown_file_type_tag_decodes_to_unknown_not_failure() {
    let mut bytes = sample_result().encode();
    // the file-type tag is the last byte; replace it with a tag this build
    // does not know
    let last = bytes.len() - 1;
    bytes[last] = 77;
    let decoded = QueryResult::decode(&bytes).expect("unknown enum tags must not fail decoding");
    assert_eq!(decoded.output.as_ref().unwrap().file_type, None);
    // all other fields are untouched
    assert_eq!(decoded.total_stages, 3);
    assert_eq!(decoded.errors, vec!["e1".to_string()]);
    assert_eq!(decoded.output.as_ref().unwrap().sink_dst, vec!["s3://x".to_string()]);
    assert_eq!(decoded.output.as_ref().unwrap().n_rows_result, 300);
}

#[test]
fn unknown_file_type_reencodes_to_unspecified_sentinel() {
    let mut bytes = sample_result().encode();
    let last = bytes.len() - 1;
    bytes[last] = 77;
    let decoded = QueryResult::decode(&bytes).unwrap();
    let reencoded = decoded.encode();
    // lossy only in the unknown tag, which becomes the reserved sentinel 0
    assert_eq!(reencoded[last], 0);
    assert_eq!(&reencoded[..last], &bytes[..last]);
    // and from there the round trip is stable
    let again = QueryResult::decode(&reencoded).unwrap();
    assert_eq!(again, decoded);
}

#[test]
fn every_known_file_type_round_trips() {
    for ft in [FileType::Parquet, FileType::Ipc, FileType::Csv, FileType::Ndjson, FileType::Json] {
        let original = QueryResult {
            total_stages: 1,
            finished_stages: 1,
            failed_stages: 0,
            errors: vec![],
            output: Some(QueryOutput {
                sink_dst: vec![],
                n_rows_result: 0,
                file_type: Some(ft),
            }),
        };
        let decoded = QueryResult::decode(&original.encode()).unwrap();
        assert_eq!(decoded, original);
    }
}

#[test]
fn non_ascii_strings_round_trip() {
    let original = QueryResult {
        total_stages: 1,
        finished_stages: 0,
        failed_stages: 1,
        errors: vec!["colonne « prix » inconnue".to_string(), "räkna om".to_string()],
        output: None,
    };
    let decoded = QueryResult::decode(&original.encode()).unwrap();
    assert_eq!(decoded, original);
}

#[test]
fn malformed_envelopes_are_fatal_decode_errors() {
    // empty buffer
    assert!(QueryResult::decode(&[]).is_none());
    // truncated buffer
    let bytes = sample_result().encode();
    assert!(QueryResult::decode(&bytes[..bytes.len() - 1]).is_none());
    // trailing garbage
    let mut long = sample_result().encode();
    long.push(0);
    assert!(QueryResult::decode(&long).is_none());
    // a string field holding bytes that are not UTF-8
    let mut corrupt = sample_result().encode();
    corrupt[10] = 0xFF; // first byte of "e1"
    assert!(QueryResult::decode(&corrupt).is_none());
}

#[test]
fn query_info_round_trips() {
    let original = QueryInfo {
        labels: vec!["nightly".to_string(), "eu-west".to_string()],
    };
    let bytes = original.encode();
    let decoded = QueryInfo::decode(&bytes).expect("well-formed envelope");
    assert_eq!(decoded, original);
}

#[test]
fn query_info_empty_label_list_is_empty_buffer() {
    let original = QueryInfo { labels: vec![] };
    let bytes = original.encode();
    assert_eq!(bytes, Vec::<u8>::new());
    let decoded = QueryInfo::decode(&bytes).unwrap();
    assert_eq!(decoded, original);
}

#[test]
fn query_info_rejects_foreign_bytes() {
    assert!(QueryInfo::decode(&[9, 1]).is_none());
}
