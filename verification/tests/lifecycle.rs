use corrently_fdw::{Cell, CorrentlyFdw, Qual, QualValue};

#[test]
fn scan_from_begin_to_end() {
    let mut fdw = CorrentlyFdw::init(Some("token".to_string()), None).unwrap();

    // The query: WHERE postal_code = '69168'
    let quals = vec![Qual {
        field: "postal_code".to_string(),
        operator: "=".to_string(),
        value: QualValue::String("69168".to_string()),
    }];
    let request = fdw.begin_scan(&quals).unwrap();
    assert_eq!(
        request.url,
        "https://api.corrently.io/v2.0/gsi/prediction?zip=69168&token=token"
    );

    // The host sends the request and hands the answer back.
    let body = r#"{"forecast": [{
        "timeStamp": 1700000000000,
        "timeframe": {"start": 1700000000000, "end": 1700003600000},
        "gsi": 55.5, "eevalue": 60, "ewind": 30, "esolar": 10,
        "enwind": 25, "ensolar": 8, "sci": 70, "energyprice": "0.2891",
        "co2_avg": 350.2, "co2_g_standard": 400, "co2_g_oekostrom": 30,
        "zip": "69168", "iat": 1699999000000
    }]}"#;
    fdw.load_response(200, body).unwrap();

    let columns = vec!["forecast_start_time".to_string(), "renewable_energy_pct".to_string()];
    assert_eq!(
        fdw.iter_scan(&columns).unwrap(),
        Some(vec![Cell::Timestamptz(1700000000000000), Cell::I64(60)])
    );
    assert_eq!(fdw.iter_scan(&columns).unwrap(), None);
    fdw.end_scan().unwrap();
}
