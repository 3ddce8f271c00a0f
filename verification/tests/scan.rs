use corrently_fdw::{Cell, CorrentlyFdw, Decimal, FdwError, Qual, QualValue};

fn scan_record(index: i64) -> String {
    format!(
        "{{\"timeStamp\":{},\"timeframe\":{{\"start\":{},\"end\":{}}},\"gsi\":{}.5,\
         \"eevalue\":{},\"ewind\":30,\"esolar\":10,\"enwind\":25,\"ensolar\":8,\"sci\":70,\
         \"energyprice\":\"0.{}\",\"co2_avg\":350.25,\"co2_g_standard\":400,\
         \"co2_g_oekostrom\":30,\"zip\":\"69168\",\"iat\":1699999000000}}",
        1700000000000i64 + index * 3600000,
        1700000000000i64 + index * 3600000,
        1700003600000i64 + index * 3600000,
        40 + index,
        60 + index,
        2891 + index
    )
}

fn scan_body(n: i64) -> String {
    let records: Vec<String> = (0..n).map(scan_record).collect();
    format!("{{\"forecast\":[{}]}}", records.join(","))
}

fn scan_qual(field: &str, operator: &str, value: QualValue) -> Qual {
    Qual { field: field.to_string(), operator: operator.to_string(), value }
}

fn scan_quals() -> Vec<Qual> {
    vec![scan_qual("postal_code", "=", QualValue::String("69168".to_string()))]
}

fn scan_fresh() -> CorrentlyFdw {
    CorrentlyFdw::init(Some("secret".to_string()), None).unwrap()
}

fn scan_loaded(n: i64) -> CorrentlyFdw {
    let mut fdw = scan_fresh();
    fdw.begin_scan(&scan_quals()).unwrap();
    fdw.load_response(200, &scan_body(n)).unwrap();
    fdw
}

fn scan_names(names: &[&str]) -> Vec<String> {
    names.iter().map(|name| name.to_string()).collect()
}

fn scan_all(fdw: &mut CorrentlyFdw, columns: &[String]) -> Vec<Vec<Cell>> {
    let mut rows = Vec::new();
    while let Some(row) = fdw.iter_scan(columns).unwrap() {
        rows.push(row);
        assert!(rows.len() <= 10_000);
    }
    rows
}

#[test]
fn init_requires_the_credential() {
    let error = CorrentlyFdw::init(None, Some("https://example.test".to_string())).unwrap_err();
    assert_eq!(error, FdwError::MissingCredential);
    assert_eq!(error.message(), "api_key option is required in server options");
}

#[test]
fn init_defaults_the_base_url() {
    let fdw = CorrentlyFdw::init(Some("secret".to_string()), None).unwrap();
    assert_eq!(fdw.base_url(), "https://api.corrently.io");
    assert_eq!(fdw.api_key(), "secret");
    assert_eq!(fdw.postal_code(), "");
    assert_eq!(fdw.hours(), None);
    assert_eq!(fdw.row_count(), 0);
    assert_eq!(fdw.current_row(), 0);
}

#[test]
fn init_takes_the_base_url_of_the_options() {
    let fdw =
        CorrentlyFdw::init(Some("k".to_string()), Some("http://localhost:8080".to_string()))
            .unwrap();
    assert_eq!(fdw.base_url(), "http://localhost:8080");
}

#[test]
fn init_prepares_the_fixed_headers() {
    let fdw = scan_fresh();
    assert_eq!(
        fdw.headers(),
        &vec![
            ("user-agent".to_string(), "Supabase Wrappers Corrently FDW".to_string()),
            ("accept".to_string(), "application/json".to_string()),
        ]
    );
    assert_eq!(corrently_fdw::build_headers(), fdw.headers().clone());
}

#[test]
fn init_instance_is_empty() {
    let fdw = CorrentlyFdw::init_instance();
    assert_eq!(fdw.base_url(), "");
    assert_eq!(fdw.api_key(), "");
    assert!(fdw.headers().is_empty());
    assert_eq!(fdw.row_count(), 0);
    assert_eq!(fdw.current_row(), 0);
}

#[test]
fn default_is_the_empty_instance() {
    let fdw = CorrentlyFdw::default();
    assert_eq!(fdw.base_url(), "");
    assert_eq!(fdw.api_key(), "");
    assert!(fdw.headers().is_empty());
    assert_eq!(fdw.hours(), None);
    assert_eq!((fdw.row_count(), fdw.current_row()), (0, 0));
}

#[test]
fn host_version_requirement_is_fixed() {
    assert_eq!(CorrentlyFdw::host_version_requirement(), "^0.1.0");
}

#[test]
fn begin_scan_builds_the_request() {
    let mut fdw = scan_fresh();
    let request = fdw.begin_scan(&scan_quals()).unwrap();
    assert_eq!(
        request.url,
        "https://api.corrently.io/v2.0/gsi/prediction?zip=69168&token=secret"
    );
    assert_eq!(&request.headers, fdw.headers());
    assert_eq!(fdw.postal_code(), "69168");
    assert_eq!(fdw.hours(), None);
}

#[test]
fn begin_scan_adds_the_hours() {
    let mut fdw =
        CorrentlyFdw::init(Some("t0k".to_string()), Some("http://h".to_string())).unwrap();
    let quals = vec![
        scan_qual("hours", "=", QualValue::I64(24)),
        scan_qual("postal_code", "=", QualValue::String("10115".to_string())),
    ];
    let request = fdw.begin_scan(&quals).unwrap();
    assert_eq!(request.url, "http://h/v2.0/gsi/prediction?zip=10115&token=t0k&hours=24");
    assert_eq!(fdw.hours(), Some(24));
    assert_eq!(fdw.postal_code(), "10115");
}

#[test]
fn begin_scan_truncates_numeric_hours() {
    let mut fdw = scan_fresh();
    let quals = vec![
        scan_qual("postal_code", "=", QualValue::String("10115".to_string())),
        scan_qual("hours", "=", QualValue::Numeric(47.9f64.to_bits())),
    ];
    let request = fdw.begin_scan(&quals).unwrap();
    assert_eq!(
        request.url,
        "https://api.corrently.io/v2.0/gsi/prediction?zip=10115&token=secret&hours=47"
    );
}

#[test]
fn begin_scan_without_location_fails_before_any_request() {
    for quals in [
        vec![],
        vec![scan_qual("hours", "=", QualValue::I64(5))],
        vec![scan_qual("postal_code", "=", QualValue::I64(69168))],
        vec![scan_qual("postal_code", "<>", QualValue::String("69168".to_string()))],
        vec![scan_qual("zip", "=", QualValue::String("69168".to_string()))],
    ] {
        let mut fdw = scan_loaded(3);
        let error = fdw.begin_scan(&quals).unwrap_err();
        assert_eq!(error, FdwError::MissingPostalCode);
        assert_eq!(
            error.message(),
            "postal_code parameter is required in WHERE clause (e.g., WHERE postal_code = '69168')"
        );
        assert_eq!(fdw.row_count(), 0);
        assert_eq!(fdw.current_row(), 0);
        assert_eq!(fdw.postal_code(), "69168");
    }
}

#[test]
fn begin_scan_clears_the_previous_scan() {
    let mut fdw = scan_loaded(4);
    fdw.iter_scan(&scan_names(&["postal_code"])).unwrap();
    assert_eq!(fdw.current_row(), 1);
    fdw.begin_scan(&scan_quals()).unwrap();
    assert_eq!(fdw.row_count(), 0);
    assert_eq!(fdw.current_row(), 0);
}

#[test]
fn failed_status_leaves_the_cache_empty() {
    for status in [0u16, 100, 199, 300, 301, 404, 500, 503, 65535] {
        let mut fdw = scan_fresh();
        fdw.begin_scan(&scan_quals()).unwrap();
        let error = fdw.load_response(status, &scan_body(2)).unwrap_err();
        assert_eq!(error, FdwError::Transport { status, body: scan_body(2) });
        assert_eq!(fdw.row_count(), 0);
        assert_eq!(fdw.current_row(), 0);
        assert_eq!(fdw.iter_scan(&scan_names(&["postal_code"])), Ok(None));
    }
}

#[test]
fn transport_error_carries_status_and_body() {
    let mut fdw = scan_fresh();
    fdw.begin_scan(&scan_quals()).unwrap();
    let error = fdw.load_response(503, "upstream down").unwrap_err();
    assert_eq!(error.message(), "Corrently API error: HTTP status 503 - upstream down");
}

#[test]
fn every_success_status_is_loaded() {
    for status in [200u16, 201, 204, 250, 299] {
        let mut fdw = scan_fresh();
        fdw.begin_scan(&scan_quals()).unwrap();
        assert_eq!(fdw.load_response(status, &scan_body(2)), Ok(()));
        assert_eq!(fdw.row_count(), 2);
    }
}

#[test]
fn load_response_with_a_bad_body_fails_and_keeps_nothing() {
    let mut fdw = scan_fresh();
    fdw.begin_scan(&scan_quals()).unwrap();
    assert!(matches!(fdw.load_response(200, "<html>"), Err(FdwError::Decode { .. })));
    assert_eq!(fdw.row_count(), 0);
    assert_eq!(fdw.load_response(200, "{\"data\": []}"), Err(FdwError::MissingForecast));
    assert_eq!(fdw.row_count(), 0);
}

#[test]
fn completed_scan_yields_every_row() {
    for n in [0i64, 1, 5, 113] {
        let mut fdw = scan_loaded(n);
        assert_eq!(fdw.row_count(), n as usize);
        let columns = scan_names(&["renewable_energy_pct"]);
        let rows = scan_all(&mut fdw, &columns);
        assert_eq!(rows.len(), n as usize);
        for (index, row) in rows.iter().enumerate() {
            assert_eq!(row, &vec![Cell::I64(60 + index as i64)]);
        }
        assert_eq!(fdw.current_row(), n as usize);
        assert_eq!(fdw.iter_scan(&columns), Ok(None));
        assert_eq!(fdw.iter_scan(&columns), Ok(None));
        assert_eq!(fdw.current_row(), n as usize);
    }
}

#[test]
fn rescan_replays_the_same_rows() {
    let mut fdw = scan_loaded(6);
    let columns = scan_names(&["forecast_start_time", "energy_price_eur_kwh", "postal_code"]);
    let first = scan_all(&mut fdw, &columns);
    assert_eq!(first.len(), 6);
    assert_eq!(fdw.re_scan(), Ok(()));
    assert_eq!(fdw.current_row(), 0);
    assert_eq!(fdw.row_count(), 6);
    let second = scan_all(&mut fdw, &columns);
    assert_eq!(first, second);
    assert_eq!(fdw.re_scan(), Ok(()));
    assert_eq!(fdw.re_scan(), Ok(()));
    assert_eq!(scan_all(&mut fdw, &columns), first);
}

#[test]
fn rescan_in_the_middle_starts_over() {
    let mut fdw = scan_loaded(3);
    let columns = scan_names(&["renewable_energy_pct"]);
    assert_eq!(fdw.iter_scan(&columns), Ok(Some(vec![Cell::I64(60)])));
    assert_eq!(fdw.iter_scan(&columns), Ok(Some(vec![Cell::I64(61)])));
    fdw.re_scan().unwrap();
    assert_eq!(fdw.iter_scan(&columns), Ok(Some(vec![Cell::I64(60)])));
}

#[test]
fn rows_hold_the_requested_columns_only() {
    let mut fdw = scan_loaded(2);
    let columns = scan_names(&[
        "postal_code",
        "green_energy_index",
        "forecast_period_end",
        "wind_energy_pct",
        "postal_code",
    ]);
    assert_eq!(
        fdw.iter_scan(&columns),
        Ok(Some(vec![
            Cell::String("69168".to_string()),
            Cell::Numeric(Decimal::Bits(40.5f64.to_bits())),
            Cell::Timestamptz(1700003600000000),
            Cell::I64(30),
            Cell::String("69168".to_string()),
        ]))
    );
    assert_eq!(fdw.iter_scan(&[]), Ok(Some(vec![])));
    assert_eq!(fdw.iter_scan(&[]), Ok(None));
}

#[test]
fn undeclared_column_is_an_error() {
    let mut fdw = scan_loaded(2);
    let columns = scan_names(&["postal_code", "gsi", "nope"]);
    let error = fdw.iter_scan(&columns).unwrap_err();
    assert_eq!(error, FdwError::UnknownColumn { name: "gsi".to_string() });
    assert_eq!(error.message(), "unknown column 'gsi'");
    assert_eq!(fdw.current_row(), 0);
    for name in ["", "Postal_Code", "postal_code ", "forecast_start", "timeStamp"] {
        assert_eq!(
            fdw.cell(name, 0),
            Err(FdwError::UnknownColumn { name: name.to_string() })
        );
    }
}

#[test]
fn exhausted_scan_reports_the_end_before_the_columns() {
    let mut fdw = scan_loaded(0);
    assert_eq!(fdw.iter_scan(&scan_names(&["nope"])), Ok(None));
}

#[test]
fn row_out_of_bounds_is_an_error() {
    let fdw = scan_loaded(2);
    let error = fdw.cell("postal_code", 2).unwrap_err();
    assert_eq!(error, FdwError::RowOutOfBounds);
    assert_eq!(error.message(), "row index out of bounds");
    assert_eq!(fdw.cell("nope", 2), Err(FdwError::RowOutOfBounds));
    assert_eq!(fdw.cell("postal_code", usize::MAX), Err(FdwError::RowOutOfBounds));
}

#[test]
fn get_cell_value_reads_at_the_cursor() {
    let mut fdw = scan_loaded(2);
    assert_eq!(fdw.get_cell_value("renewable_energy_pct"), Ok(Some(Cell::I64(60))));
    fdw.iter_scan(&[]).unwrap();
    assert_eq!(fdw.get_cell_value("renewable_energy_pct"), Ok(Some(Cell::I64(61))));
    assert_eq!(
        fdw.get_cell_value("x"),
        Err(FdwError::UnknownColumn { name: "x".to_string() })
    );
    fdw.iter_scan(&[]).unwrap();
    assert_eq!(fdw.get_cell_value("renewable_energy_pct"), Err(FdwError::RowOutOfBounds));
}

#[test]
fn end_scan_discards_the_cache() {
    let mut fdw = scan_loaded(3);
    fdw.iter_scan(&[]).unwrap();
    assert_eq!(fdw.end_scan(), Ok(()));
    assert_eq!(fdw.row_count(), 0);
    assert_eq!(fdw.current_row(), 0);
    assert_eq!(fdw.end_scan(), Ok(()));
    assert_eq!(fdw.row_count(), 0);
    assert_eq!(fdw.iter_scan(&scan_names(&["postal_code"])), Ok(None));
    assert_eq!(fdw.postal_code(), "69168");
    assert_eq!(fdw.base_url(), "https://api.corrently.io");
}

#[test]
fn clear_data_is_idempotent() {
    let mut fdw = scan_loaded(3);
    fdw.iter_scan(&[]).unwrap();
    fdw.clear_data();
    assert_eq!((fdw.row_count(), fdw.current_row()), (0, 0));
    fdw.clear_data();
    assert_eq!((fdw.row_count(), fdw.current_row()), (0, 0));
}

#[test]
fn scans_can_follow_one_another() {
    let mut fdw = scan_fresh();
    for n in [3i64, 1, 4] {
        fdw.begin_scan(&scan_quals()).unwrap();
        fdw.load_response(200, &scan_body(n)).unwrap();
        assert_eq!(scan_all(&mut fdw, &scan_names(&["sci_is_not_a_column"][..0])).len(), n as usize);
        fdw.end_scan().unwrap();
    }
}

#[test]
fn modifications_are_not_supported() {
    let fdw = scan_loaded(1);
    for result in [fdw.begin_modify(), fdw.insert(), fdw.update(), fdw.delete()] {
        let error = result.unwrap_err();
        assert_eq!(error, FdwError::Unsupported);
        assert_eq!(error.message(), "modify operations on foreign table are not supported");
    }
    assert_eq!(fdw.end_modify(), Ok(()));
    assert_eq!(fdw.row_count(), 1);
}

#[test]
fn import_foreign_schema_generates_nothing() {
    assert!(scan_fresh().import_foreign_schema().is_empty());
}

#[test]
fn url_takes_the_parameters_as_they_are() {
    let mut fdw =
        CorrentlyFdw::init(Some("k\u{e9}y".to_string()), Some("https://h/api".to_string()))
            .unwrap();
    let quals = vec![
        scan_qual("postal_code", "=", QualValue::String("D 69168/\u{e4}".to_string())),
        scan_qual("hours", "=", QualValue::I64(7)),
        scan_qual("hours", "=", QualValue::I64(9)),
    ];
    let request = fdw.begin_scan(&quals).unwrap();
    assert_eq!(
        request.url,
        "https://h/api/v2.0/gsi/prediction?zip=D 69168/\u{e4}&token=k\u{e9}y&hours=7"
    );
    assert_eq!(fdw.hours(), Some(7));
}

#[test]
fn negative_hours_are_neither_stored_nor_sent() {
    for value in [
        QualValue::I64(-5),
        QualValue::I64(-1),
        QualValue::I64(i64::MIN),
        QualValue::Numeric((-1.0f64).to_bits()),
        QualValue::Numeric((-47.9f64).to_bits()),
        QualValue::Numeric(f64::NEG_INFINITY.to_bits()),
    ] {
        let mut fdw = scan_fresh();
        let quals = vec![
            scan_qual("postal_code", "=", QualValue::String("69168".to_string())),
            scan_qual("hours", "=", value),
            scan_qual("hours", "=", QualValue::I64(9)),
        ];
        let request = fdw.begin_scan(&quals).unwrap();
        assert_eq!(
            request.url,
            "https://api.corrently.io/v2.0/gsi/prediction?zip=69168&token=secret"
        );
        assert_eq!(fdw.hours(), None);
        assert_eq!(fdw.postal_code(), "69168");
    }
}

#[test]
fn hours_of_zero_and_fractions_toward_zero_are_kept() {
    for (value, expected) in [
        (QualValue::I64(0), 0i64),
        (QualValue::Numeric((-0.5f64).to_bits()), 0),
        (QualValue::Numeric(0.0f64.to_bits()), 0),
        (QualValue::Numeric(f64::NAN.to_bits()), 0),
        (QualValue::I64(i64::MAX), i64::MAX),
    ] {
        let mut fdw = scan_fresh();
        let quals = vec![
            scan_qual("postal_code", "=", QualValue::String("69168".to_string())),
            scan_qual("hours", "=", value),
        ];
        let request = fdw.begin_scan(&quals).unwrap();
        assert_eq!(
            request.url,
            format!(
                "https://api.corrently.io/v2.0/gsi/prediction?zip=69168&token=secret&hours={}",
                expected
            )
        );
        assert_eq!(fdw.hours(), Some(expected));
    }
}

#[test]
fn begin_scan_passes_over_predicates_of_another_type() {
    let mut fdw = scan_fresh();
    let quals = vec![
        scan_qual("postal_code", "=", QualValue::I64(5)),
        scan_qual("hours", "=", QualValue::String("soon".to_string())),
        scan_qual("postal_code", "=", QualValue::String("69168".to_string())),
        scan_qual("hours", "=", QualValue::I64(12)),
    ];
    let request = fdw.begin_scan(&quals).unwrap();
    assert_eq!(
        request.url,
        "https://api.corrently.io/v2.0/gsi/prediction?zip=69168&token=secret&hours=12"
    );
    assert_eq!(fdw.postal_code(), "69168");
    assert_eq!(fdw.hours(), Some(12));
}

#[test]
fn load_response_puts_the_cursor_at_the_start() {
    let mut fdw = scan_loaded(3);
    fdw.iter_scan(&[]).unwrap();
    fdw.iter_scan(&[]).unwrap();
    assert_eq!(fdw.current_row(), 2);
    fdw.load_response(200, &scan_body(2)).unwrap();
    assert_eq!(fdw.current_row(), 0);
    assert_eq!(fdw.row_count(), 5);
}

#[test]
fn failed_load_keeps_the_cursor() {
    let mut fdw = scan_loaded(3);
    fdw.iter_scan(&[]).unwrap();
    assert!(fdw.load_response(500, "").is_err());
    assert!(fdw.load_response(200, "[").is_err());
    assert!(fdw.parse_forecast_response("{}").is_err());
    assert_eq!(fdw.current_row(), 1);
    assert_eq!(fdw.row_count(), 3);
}

#[test]
fn parse_keeps_the_cursor() {
    let mut fdw = scan_loaded(3);
    fdw.iter_scan(&[]).unwrap();
    fdw.parse_forecast_response(&scan_body(1)).unwrap();
    assert_eq!(fdw.current_row(), 1);
    assert_eq!(fdw.row_count(), 4);
}
