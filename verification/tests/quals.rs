use corrently_fdw::{extract_qual_i64, extract_qual_string, truncate_double, Qual, QualValue};

fn qual(field: &str, operator: &str, value: QualValue) -> Qual {
    Qual { field: field.to_string(), operator: operator.to_string(), value }
}

fn text(value: &str) -> QualValue {
    QualValue::String(value.to_string())
}

#[test]
fn string_is_extracted_from_an_equality() {
    let quals = vec![qual("hours", "=", QualValue::I64(5)), qual("postal_code", "=", text("69168"))];
    assert_eq!(extract_qual_string(&quals, "postal_code"), Some("69168".to_string()));
    assert_eq!(extract_qual_string(&quals, "hours"), None);
    assert_eq!(extract_qual_string(&quals, "other"), None);
    assert_eq!(extract_qual_string(&[], "postal_code"), None);
}

#[test]
fn first_string_match_wins() {
    let quals = vec![
        qual("postal_code", "<", text("00000")),
        qual("postal_code", "=", text("10115")),
        qual("postal_code", "=", text("69168")),
    ];
    assert_eq!(extract_qual_string(&quals, "postal_code"), Some("10115".to_string()));
}

#[test]
fn equality_of_another_type_is_passed_over() {
    let quals = vec![
        qual("postal_code", "=", QualValue::I64(5)),
        qual("postal_code", "=", text("69168")),
    ];
    assert_eq!(extract_qual_string(&quals, "postal_code"), Some("69168".to_string()));
    assert_eq!(extract_qual_i64(&quals, "postal_code"), Some(5));
    let quals = vec![
        qual("hours", "=", text("12")),
        qual("hours", "=", QualValue::Other),
        qual("hours", "=", QualValue::Numeric(7.9f64.to_bits())),
        qual("hours", "=", QualValue::I64(12)),
    ];
    assert_eq!(extract_qual_i64(&quals, "hours"), Some(7));
    assert_eq!(extract_qual_string(&quals, "hours"), Some("12".to_string()));
    let quals = vec![
        qual("postal_code", "=", QualValue::Other),
        qual("postal_code", "=", QualValue::Numeric(1.0f64.to_bits())),
        qual("postal_code", "<", text("00000")),
        qual("zip", "=", text("11111")),
        qual("postal_code", "=", text("10115")),
        qual("postal_code", "=", text("69168")),
    ];
    assert_eq!(extract_qual_string(&quals, "postal_code"), Some("10115".to_string()));
}

#[test]
fn no_equality_of_the_type_gives_nothing() {
    let quals = vec![
        qual("postal_code", "=", QualValue::I64(5)),
        qual("postal_code", "=", QualValue::Numeric(5.0f64.to_bits())),
        qual("postal_code", "=", QualValue::Other),
        qual("postal_code", "<>", text("69168")),
    ];
    assert_eq!(extract_qual_string(&quals, "postal_code"), None);
    let quals = vec![
        qual("hours", "=", text("12")),
        qual("hours", "=", QualValue::Other),
        qual("hours", ">", QualValue::I64(3)),
    ];
    assert_eq!(extract_qual_i64(&quals, "hours"), None);
}

#[test]
fn only_the_equality_operator_matches() {
    for operator in ["<", ">", "<=", ">=", "<>", "!=", "==", "like", "", " =", "= "] {
        let quals = vec![
            qual("postal_code", operator, text("69168")),
            qual("hours", operator, QualValue::I64(3)),
        ];
        assert_eq!(extract_qual_string(&quals, "postal_code"), None);
        assert_eq!(extract_qual_i64(&quals, "hours"), None);
    }
}

#[test]
fn field_names_are_compared_exactly() {
    let quals = vec![qual("Postal_Code", "=", text("69168")), qual("postal_code2", "=", text("1"))];
    assert_eq!(extract_qual_string(&quals, "postal_code"), None);
    assert_eq!(extract_qual_string(&quals, "Postal_Code"), Some("69168".to_string()));
}

#[test]
fn integer_is_extracted_as_it_is() {
    for value in [0i64, 1, -1, 24, i64::MAX, i64::MIN] {
        let quals = vec![qual("hours", "=", QualValue::I64(value))];
        assert_eq!(extract_qual_i64(&quals, "hours"), Some(value));
    }
}

#[test]
fn numeric_is_truncated_toward_zero() {
    for (value, expected) in [
        (0.0f64, 0i64),
        (-0.0, 0),
        (0.9, 0),
        (-0.9, 0),
        (1.0, 1),
        (1.5, 1),
        (-1.5, -1),
        (24.0, 24),
        (47.999, 47),
        (-47.999, -47),
        (1e10, 10_000_000_000),
    ] {
        let quals = vec![qual("hours", "=", QualValue::Numeric(value.to_bits()))];
        assert_eq!(extract_qual_i64(&quals, "hours"), Some(expected));
    }
}

#[test]
fn other_values_are_not_integers() {
    let quals = vec![qual("hours", "=", QualValue::Other)];
    assert_eq!(extract_qual_i64(&quals, "hours"), None);
    assert_eq!(extract_qual_string(&quals, "hours"), None);
}

#[test]
fn truncation_agrees_with_the_cast() {
    let mut samples: Vec<f64> = vec![
        0.0,
        -0.0,
        0.5,
        -0.5,
        1.0,
        -1.0,
        0.999_999_999_999_999_9,
        1.000_000_000_000_000_2,
        2.5,
        -2.5,
        1e15,
        -1e15,
        4503599627370495.5,
        4503599627370496.0,
        9007199254740991.0,
        9007199254740992.0,
        9007199254740993.0,
        -9007199254740993.0,
        9.223372036854775e18,
        9223372036854775807.0,
        9223372036854775808.0,
        9223372036854777856.0,
        -9223372036854775808.0,
        -9223372036854777856.0,
        1e19,
        -1e19,
        1e300,
        -1e300,
        f64::MAX,
        f64::MIN,
        f64::MIN_POSITIVE,
        -f64::MIN_POSITIVE,
        5e-324,
        f64::EPSILON,
        f64::INFINITY,
        f64::NEG_INFINITY,
        f64::NAN,
        -f64::NAN,
    ];
    for exponent in 0..80 {
        let power = 2f64.powi(exponent);
        for factor in [1.0, 1.25, 1.5, 1.999_999_999_999_999_8] {
            samples.push(power * factor);
            samples.push(-power * factor);
            samples.push(power * factor - 0.5);
            samples.push(power * factor + 0.5);
        }
    }
    for value in samples {
        assert_eq!(truncate_double(value.to_bits()), value as i64, "for {:e}", value);
    }
}

#[test]
fn truncation_covers_every_bit_pattern_class() {
    let mut state: u64 = 0x9e37_79b9_7f4a_7c15;
    for _ in 0..200_000 {
        state ^= state << 13;
        state ^= state >> 7;
        state ^= state << 17;
        let value = f64::from_bits(state);
        assert_eq!(truncate_double(state), value as i64, "for bits {:#x}", state);
        let near = (state & 0x800f_ffff_ffff_ffff) | ((1000 + (state >> 52) % 100) << 52);
        assert_eq!(truncate_double(near), f64::from_bits(near) as i64, "for bits {:#x}", near);
    }
    assert_eq!(truncate_double(0x7ff8_0000_0000_0000), 0);
    assert_eq!(truncate_double(0x7ff0_0000_0000_0001), 0);
    assert_eq!(truncate_double(0xfff0_0000_0000_0001), 0);
    assert_eq!(truncate_double(0x7ff0_0000_0000_0000), i64::MAX);
    assert_eq!(truncate_double(0xfff0_0000_0000_0000), i64::MIN);
    assert_eq!(truncate_double(0x43e0_0000_0000_0000), i64::MAX);
    assert_eq!(truncate_double(0xc3e0_0000_0000_0000), i64::MIN);
    assert_eq!(truncate_double(0x43df_ffff_ffff_ffff), 9223372036854774784);
    assert_eq!(truncate_double(0xc3df_ffff_ffff_ffff), -9223372036854774784);
}
