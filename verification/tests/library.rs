use referral::cli::{parse_range_args, RangeArgsError};
use referral::decimal::{signed_text, unsigned_text};
use referral::export::{export_csv, export_record, ExportError, EXPORT_HEADER};
use referral::handlers::{
    after_existing_owner_lookup, after_owner_creation, check_owner_meta, default_export_project,
    redemption_from_path, OwnerCreationStep, BAD_REQUEST, INTERNAL_SERVER_ERROR,
};
use referral::models::{
    ProjectExportRow, RedemptionPath, ReferralCode, ReferralOwner, ReferralOwnerWithCode,
    Timestamp,
};
use referral::referral_code::map_to_referral_code;
use referral::repo::{
    check_code_counted, code_row_for_owner, select_owner_code, DatabaseError, ReferralRepoError,
};
use referral::service::{owner_referral_code, service_error, ReferralServiceError};

fn at(secs: i64) -> Timestamp {
    Timestamp { secs, nanos: 0 }
}

fn code(owner_id: i64, text: &str) -> ReferralCode {
    ReferralCode {
        owner_id,
        code: text.to_string(),
        is_active: true,
        use_count: 0,
        created_at: at(0),
        updated_at: at(0),
    }
}

fn owner_with_code(id: i64) -> ReferralOwnerWithCode {
    ReferralOwnerWithCode {
        owner: ReferralOwner {
            id,
            meta: "{\"user\":1}".to_string(),
            created_at: at(0),
            updated_at: at(0),
        },
        code: code(id, "brave-red-fox"),
    }
}

#[test]
fn decimal_text_matches_to_string() {
    assert_eq!(unsigned_text(0), "0");
    assert_eq!(unsigned_text(9), "9");
    assert_eq!(unsigned_text(10), "10");
    assert_eq!(unsigned_text(u64::MAX), u64::MAX.to_string());
    assert_eq!(signed_text(-123), "-123");
    assert_eq!(signed_text(i64::MIN), i64::MIN.to_string());
    assert_eq!(signed_text(i64::MAX), i64::MAX.to_string());
}

#[test]
fn range_arguments() {
    assert_eq!(parse_range_args("5", "10"), Ok((5, 10)));
    assert_eq!(parse_range_args("+7", "7"), Ok((7, 7)));
    assert_eq!(parse_range_args("0", "4294967295"), Ok((0, u32::MAX)));
    assert_eq!(parse_range_args("abc", "10"), Err(RangeArgsError::InvalidStart));
    assert_eq!(parse_range_args("-1", "10"), Err(RangeArgsError::InvalidStart));
    assert_eq!(parse_range_args("", "10"), Err(RangeArgsError::InvalidStart));
    assert_eq!(parse_range_args("1", "4294967296"), Err(RangeArgsError::InvalidEnd));
    assert_eq!(parse_range_args("1", " 2"), Err(RangeArgsError::InvalidEnd));
    assert_eq!(parse_range_args("10", "5"), Err(RangeArgsError::StartAfterEnd));
    assert_eq!(parse_range_args("x", "y"), Err(RangeArgsError::InvalidStart));
}

#[test]
fn owner_code_selection() {
    assert!(matches!(
        select_owner_code(7, vec![]),
        Err(ReferralRepoError::Diesel(DatabaseError::NotFound))
    ));
    let one = select_owner_code(7, vec![code(7, "a-b-c")]).unwrap();
    assert_eq!(one.code, "a-b-c");
    assert!(matches!(
        select_owner_code(7, vec![code(7, "a-b-c"), code(7, "d-e-f")]),
        Err(ReferralRepoError::MultipleCodes { owner_id: 7, count: 2 })
    ));
}

#[test]
fn redemption_must_count_a_code() {
    assert!(matches!(
        check_code_counted(0),
        Err(ReferralRepoError::Diesel(DatabaseError::NotFound))
    ));
    assert!(check_code_counted(1).is_ok());
}

#[test]
fn code_row_of_new_owner() {
    let row = code_row_for_owner(3, Ok("x-y-z".to_string())).unwrap();
    assert_eq!(row.owner_id, 3);
    assert_eq!(row.code, "x-y-z");
    assert!(row.is_active);
    assert_eq!(row.use_count, 0);
    match code_row_for_owner(3, Err("id too large: 5000000".to_string())) {
        Err(ReferralRepoError::CodeGeneration(message)) => {
            assert_eq!(message, "id too large: 5000000")
        }
        other => panic!("unexpected {:?}", other),
    }
}

#[test]
fn service_errors() {
    assert_eq!(
        service_error(&ReferralRepoError::CodeGeneration("x".to_string())),
        ReferralServiceError::CodeGenerationError
    );
    assert_eq!(
        service_error(&ReferralRepoError::Pool("down".to_string())),
        ReferralServiceError::DatabaseError
    );
    assert_eq!(
        service_error(&ReferralRepoError::MultipleCodes { owner_id: 1, count: 2 }),
        ReferralServiceError::DatabaseError
    );
    assert_eq!(
        service_error(&ReferralRepoError::Diesel(DatabaseError::NotFound)),
        ReferralServiceError::DatabaseError
    );
}

#[test]
fn owner_code_uses_the_low_bits_of_the_id() {
    assert_eq!(owner_referral_code(5), map_to_referral_code(5));
    assert_eq!(owner_referral_code((1i64 << 32) + 5), map_to_referral_code(5));
    assert!(owner_referral_code(3_000_000).is_err());
}

#[test]
fn owner_meta_must_be_a_non_empty_object() {
    assert!(check_owner_meta("{\"user\":\"abc\"}").is_ok());
    let empty = check_owner_meta("{}").unwrap_err();
    assert_eq!(empty.status, BAD_REQUEST);
    assert_eq!(empty.message, "owner meta object cannot be empty");
    for meta in ["[1,2]", "\"text\"", "3", "null", "true", "not json"] {
        let problem = check_owner_meta(meta).unwrap_err();
        assert_eq!(problem.status, BAD_REQUEST);
        assert_eq!(problem.message, "owner meta must be an object");
    }
}

#[test]
fn owner_creation_falls_back_to_lookup() {
    match after_owner_creation(Ok(owner_with_code(4))) {
        OwnerCreationStep::Created(created) => assert_eq!(created.owner.id, 4),
        OwnerCreationStep::LookUpExisting => panic!("expected the created owner"),
    }
    assert!(matches!(
        after_owner_creation(Err(ReferralServiceError::DatabaseError)),
        OwnerCreationStep::LookUpExisting
    ));
    assert!(matches!(
        after_owner_creation(Err(ReferralServiceError::CodeGenerationError)),
        OwnerCreationStep::LookUpExisting
    ));
    assert_eq!(after_existing_owner_lookup(Ok(Some(owner_with_code(9)))).unwrap().owner.id, 9);
    for lookup in [Ok(None), Err(ReferralServiceError::DatabaseError)] {
        let failure = after_existing_owner_lookup(lookup).unwrap_err();
        assert_eq!(failure.status, INTERNAL_SERVER_ERROR);
        assert_eq!(failure.message, "owner creation failed");
    }
}

fn path(code: &str, meta: &str) -> RedemptionPath {
    RedemptionPath { code: code.to_string(), meta: meta.to_string(), ts: "1700000000".to_string() }
}

#[test]
fn redemption_requests() {
    assert!(redemption_from_path(&path("   ", "{\"a\":1}")).is_none());
    assert!(redemption_from_path(&path("", "{\"a\":1}")).is_none());
    let kept = redemption_from_path(&path("  brave-red-fox\n", "{\"a\":1}")).unwrap();
    assert_eq!(kept.code, "brave-red-fox");
    assert_eq!(kept.meta.as_deref(), Some("{\"a\":1}"));
    assert_eq!(redemption_from_path(&path("c", "null")).unwrap().meta, None);
    assert_eq!(redemption_from_path(&path("c", "{}")).unwrap().meta, None);
    assert_eq!(redemption_from_path(&path("c", "not json")).unwrap().meta, None);
    assert_eq!(redemption_from_path(&path("c", "5")).unwrap().meta.as_deref(), Some("5"));
    assert_eq!(redemption_from_path(&path("c", "[]")).unwrap().meta.as_deref(), Some("[]"));
    assert_eq!(
        redemption_from_path(&path("\u{3000}c\u{a0}", "\"x\"")).unwrap().code,
        "c"
    );
}

#[test]
fn plain_export_lists_the_default_project() {
    assert_eq!(default_export_project(), "bitDCA");
}

fn row(meta: &str, redemption: Option<(i64, Option<&str>, Timestamp)>) -> ProjectExportRow {
    ProjectExportRow {
        owner_id: 12,
        owner_meta: meta.to_string(),
        owner_created_at: at(0),
        owner_updated_at: Timestamp { secs: 86_400, nanos: 5_000_000 },
        code: "brave-red-fox".to_string(),
        code_is_active: true,
        code_use_count: -3,
        code_created_at: at(1_700_000_000),
        code_updated_at: at(1_700_000_001),
        redemption_id: redemption.map(|r| r.0),
        redemption_meta: redemption.and_then(|r| r.1.map(|m| m.to_string())),
        redemption_created_at: redemption.map(|r| r.2),
    }
}

#[test]
fn export_record_fields() {
    let record = export_record(&row("{\"p\":\"bitDCA\"}", None)).unwrap();
    assert_eq!(
        record,
        vec![
            "12",
            "{\"p\":\"bitDCA\"}",
            "1970-01-01 00:00:00",
            "1970-01-02 00:00:00.005",
            "brave-red-fox",
            "true",
            "-3",
            "2023-11-14 22:13:20",
            "2023-11-14 22:13:21",
            "",
            "",
            "",
        ]
    );
}

#[test]
fn export_document() {
    let rows = vec![
        row("{\"p\":\"bitDCA\",\"n\":1}", Some((7, Some("{\"a\":\"b\"}"), at(60)))),
        row("{}", None),
    ];
    let bytes = export_csv(&rows).unwrap();
    let text = String::from_utf8(bytes).unwrap();
    let mut expected = EXPORT_HEADER.join(",");
    expected.push('\n');
    expected.push_str(
        "12,\"{\"\"p\"\":\"\"bitDCA\"\",\"\"n\"\":1}\",1970-01-01 00:00:00,1970-01-02 00:00:00.005,\
brave-red-fox,true,-3,2023-11-14 22:13:20,2023-11-14 22:13:21,7,\"{\"\"a\"\":\"\"b\"\"}\",1970-01-01 00:01:00\n",
    );
    expected.push_str(
        "12,{},1970-01-01 00:00:00,1970-01-02 00:00:00.005,brave-red-fox,true,-3,\
2023-11-14 22:13:20,2023-11-14 22:13:21,,,\n",
    );
    assert_eq!(text, expected);
}

#[test]
fn export_of_no_rows_is_the_header() {
    let text = String::from_utf8(export_csv(&vec![]).unwrap()).unwrap();
    assert_eq!(
        text,
        "owner_id,owner_meta,owner_created_at,owner_updated_at,code,code_is_active,\
code_use_count,code_created_at,code_updated_at,redemption_id,redemption_meta,\
redemption_created_at\n"
    );
}

#[test]
fn export_fails_on_a_timestamp_without_text() {
    let mut bad = row("{}", None);
    bad.code_created_at = Timestamp { secs: i64::MAX, nanos: 0 };
    assert!(export_record(&bad).is_none());
    assert_eq!(export_csv(&vec![row("{}", None), bad]), Err(ExportError::UnrepresentableTimestamp));
}

#[test]
fn export_of_concatenated_rows() {
    let first = || vec![row("{\"n\":1}", None), row("{\"n\":2}", Some((3, None, at(5))))];
    let second = || vec![row("{\"n\":3}", Some((4, Some("[1,2]"), at(6))))];
    let (a, b) = (first(), second());
    let header_len = export_csv(&vec![]).unwrap().len();
    let mut joined = first();
    joined.extend(second());
    let mut expected = export_csv(&a).unwrap();
    expected.extend_from_slice(&export_csv(&b).unwrap()[header_len..]);
    assert_eq!(export_csv(&joined).unwrap(), expected);
}

#[test]
fn export_reads_back_as_csv() {
    let rows = vec![
        row("{\"p\":\"a,b\",\"q\":\"line\\nbreak\"}", Some((7, Some("\"quoted\""), at(60)))),
        row("{}", None),
    ];
    let bytes = export_csv(&rows).unwrap();
    let mut reader = csv::ReaderBuilder::new().has_headers(false).from_reader(bytes.as_slice());
    let read: Vec<Vec<String>> = reader
        .records()
        .map(|record| record.unwrap().iter().map(|field| field.to_string()).collect())
        .collect();
    assert_eq!(read.len(), rows.len() + 1);
    assert_eq!(read[0], EXPORT_HEADER.iter().map(|name| name.to_string()).collect::<Vec<_>>());
    for (i, row) in rows.iter().enumerate() {
        assert_eq!(read[i + 1], export_record(row).unwrap());
    }
}
