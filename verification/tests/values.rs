use spreadsheet_ods::error::OdsError;
use spreadsheet_ods::refs::cell_ref;
use spreadsheet_ods::strs::{parse_u32, str_eq};
use spreadsheet_ods::value::{
    decode_value_type, parse_datetime, parse_duration, parse_value, Date, DateTime, Time,
    TimeDuration, Value, ValueType,
};

fn s(t: &str) -> Option<String> {
    Some(String::from(t))
}

#[test]
fn duration_literal() {
    let d = parse_duration("PT1H30M0.000000000S").unwrap();
    assert_eq!(d, TimeDuration { seconds: 5400, nanoseconds: 0 });
}

#[test]
fn duration_with_fraction_is_padded() {
    let d = parse_duration("PT0H0M12.5S").unwrap();
    assert_eq!(d, TimeDuration { seconds: 12, nanoseconds: 500_000_000 });
    let d = parse_duration("PT2H3M4.000000007S").unwrap();
    assert_eq!(d, TimeDuration { seconds: 2 * 3600 + 3 * 60 + 4, nanoseconds: 7 });
}

#[test]
fn duration_without_markers_fills_hours() {
    let d = parse_duration("PT30M").unwrap();
    assert_eq!(d, TimeDuration { seconds: 30 * 3600, nanoseconds: 0 });
    let d = parse_duration("").unwrap();
    assert_eq!(d, TimeDuration { seconds: 0, nanoseconds: 0 });
}

#[test]
fn duration_field_too_large() {
    assert!(matches!(parse_duration("PT4294967296H"), Err(OdsError::Duration(t)) if t == "PT4294967296H"));
    assert!(matches!(parse_duration("PT1H1M1.99999999999S"), Err(OdsError::Duration(_))));
    let d = parse_duration("PT4294967295H").unwrap();
    assert_eq!(d.seconds, 4294967295i64 * 3600);
}

#[test]
fn date_of_ten_characters_is_midnight() {
    let d = parse_datetime("2020-02-29").unwrap();
    assert_eq!(
        d,
        DateTime {
            date: Date { year: 2020, month: 2, day: 29 },
            time: Time { hour: 0, minute: 0, second: 0, nanosecond: 0 },
        }
    );
}

#[test]
fn longer_date_is_a_timestamp() {
    let d = parse_datetime("2020-02-29T13:14:15").unwrap();
    assert_eq!(
        d,
        DateTime {
            date: Date { year: 2020, month: 2, day: 29 },
            time: Time { hour: 13, minute: 14, second: 15, nanosecond: 0 },
        }
    );
    let d = parse_datetime("1999-12-31T23:59:58.25").unwrap();
    assert_eq!(d.time, Time { hour: 23, minute: 59, second: 58, nanosecond: 250_000_000 });
}

#[test]
fn bad_dates_fail() {
    assert!(matches!(parse_datetime("2020-02-30"), Err(OdsError::Chrono(_))));
    assert!(matches!(parse_datetime("yesterday"), Err(OdsError::Chrono(_))));
    assert!(matches!(parse_datetime("2020-02-29T25:00:00"), Err(OdsError::Chrono(_))));
}

#[test]
fn value_without_type_is_empty() {
    assert_eq!(parse_value(None, s("1"), s("x"), None, 0, 0).unwrap(), Value::Empty);
    assert_eq!(parse_value(Some(ValueType::Empty), None, None, None, 0, 0).unwrap(), Value::Empty);
}

#[test]
fn text_value_takes_content() {
    assert_eq!(
        parse_value(Some(ValueType::Text), None, s("A"), None, 0, 0).unwrap(),
        Value::Text(String::from("A"))
    );
    assert_eq!(
        parse_value(Some(ValueType::Text), None, None, None, 0, 0).unwrap(),
        Value::Text(String::new())
    );
}

#[test]
fn number_values_keep_their_text() {
    assert_eq!(
        parse_value(Some(ValueType::Number), s("1.5"), s("1,5"), None, 0, 0).unwrap(),
        Value::Number(String::from("1.5"))
    );
    assert_eq!(
        parse_value(Some(ValueType::Percentage), s("0.25"), None, None, 0, 0).unwrap(),
        Value::Percentage(String::from("0.25"))
    );
    assert_eq!(
        parse_value(Some(ValueType::Currency), s("12"), None, s("EUR"), 0, 0).unwrap(),
        Value::Currency(String::from("EUR"), String::from("12"))
    );
}

#[test]
fn numbers_must_be_floats() {
    assert!(matches!(
        parse_value(Some(ValueType::Number), s("1,5"), None, None, 0, 0),
        Err(OdsError::ParseFloat(t)) if t == "1,5"
    ));
    assert!(matches!(
        parse_value(Some(ValueType::Percentage), s(""), None, None, 0, 0),
        Err(OdsError::ParseFloat(t)) if t == ""
    ));
    // the amount is looked at before the currency
    assert!(matches!(
        parse_value(Some(ValueType::Currency), s("12 EUR"), None, None, 0, 0),
        Err(OdsError::ParseFloat(t)) if t == "12 EUR"
    ));
    assert_eq!(
        parse_value(Some(ValueType::Number), s("-1.5e-3"), None, None, 0, 0).unwrap(),
        Value::Number(String::from("-1.5e-3"))
    );
}

#[test]
fn number_without_value_names_the_cell() {
    match parse_value(Some(ValueType::Number), None, s("1"), None, 2, 1) {
        Err(OdsError::Ods(m)) => assert_eq!(m, "B3 has type number, but no value!"),
        other => panic!("unexpected {:?}", other),
    }
}

#[test]
fn missing_values_of_each_type() {
    let kinds = [
        (ValueType::Percentage, "percentage"),
        (ValueType::Currency, "currency"),
        (ValueType::Boolean, "boolean"),
        (ValueType::DateTime, "datetime"),
        (ValueType::TimeDuration, "time-duration"),
    ];
    for (vt, name) in kinds {
        match parse_value(Some(vt), None, None, None, 0, 27) {
            Err(OdsError::Ods(m)) => {
                assert_eq!(m, format!("AB1 has type {}, but no value!", name))
            }
            other => panic!("unexpected {:?}", other),
        }
    }
    assert!(matches!(
        parse_value(Some(ValueType::Currency), s("1"), None, None, 0, 0),
        Err(OdsError::Ods(m)) if m == "A1 has type currency, but no value!"
    ));
}

#[test]
fn boolean_is_true_only_for_true() {
    assert_eq!(
        parse_value(Some(ValueType::Boolean), s("true"), None, None, 0, 0).unwrap(),
        Value::Boolean(true)
    );
    assert_eq!(
        parse_value(Some(ValueType::Boolean), s("false"), None, None, 0, 0).unwrap(),
        Value::Boolean(false)
    );
    assert_eq!(
        parse_value(Some(ValueType::Boolean), s("TRUE"), None, None, 0, 0).unwrap(),
        Value::Boolean(false)
    );
}

#[test]
fn date_and_duration_values() {
    assert_eq!(
        parse_value(Some(ValueType::DateTime), s("2021-03-04"), None, None, 0, 0).unwrap(),
        Value::DateTime(DateTime {
            date: Date { year: 2021, month: 3, day: 4 },
            time: Time { hour: 0, minute: 0, second: 0, nanosecond: 0 },
        })
    );
    assert_eq!(
        parse_value(Some(ValueType::TimeDuration), s("PT1H30M0.000000000S"), None, None, 0, 0)
            .unwrap(),
        Value::TimeDuration(TimeDuration { seconds: 5400, nanoseconds: 0 })
    );
    assert!(matches!(
        parse_value(Some(ValueType::DateTime), s("soon"), None, None, 0, 0),
        Err(OdsError::Chrono(_))
    ));
}

#[test]
fn value_type_tokens() {
    assert_eq!(decode_value_type("string").unwrap(), ValueType::Text);
    assert_eq!(decode_value_type("float").unwrap(), ValueType::Number);
    assert_eq!(decode_value_type("percentage").unwrap(), ValueType::Percentage);
    assert_eq!(decode_value_type("date").unwrap(), ValueType::DateTime);
    assert_eq!(decode_value_type("time").unwrap(), ValueType::TimeDuration);
    assert_eq!(decode_value_type("boolean").unwrap(), ValueType::Boolean);
    assert_eq!(decode_value_type("currency").unwrap(), ValueType::Currency);
    assert!(matches!(
        decode_value_type("complex"),
        Err(OdsError::Ods(m)) if m == "Unknown cell-type complex"
    ));
}

#[test]
fn cell_names() {
    assert_eq!(cell_ref(0, 0), "A1");
    assert_eq!(cell_ref(9, 25), "Z10");
    assert_eq!(cell_ref(0, 26), "AA1");
    assert_eq!(cell_ref(0, 701), "ZZ1");
    assert_eq!(cell_ref(0, 702), "AAA1");
    assert_eq!(cell_ref(4294967295, 0), "A4294967296");
}

#[test]
fn decimal_numbers() {
    assert_eq!(parse_u32("0"), Some(0));
    assert_eq!(parse_u32("+17"), Some(17));
    assert_eq!(parse_u32("007"), Some(7));
    assert_eq!(parse_u32("4294967295"), Some(4294967295));
    assert_eq!(parse_u32("4294967296"), None);
    assert_eq!(parse_u32(""), None);
    assert_eq!(parse_u32("+"), None);
    assert_eq!(parse_u32("-1"), None);
    assert_eq!(parse_u32("1 "), None);
    assert_eq!(parse_u32("١"), None);
}

#[test]
fn string_equality() {
    assert!(str_eq("table:table", "table:table"));
    assert!(!str_eq("table:table", "table:tablé"));
    assert!(!str_eq("a", "ab"));
    assert!(str_eq("", ""));
}

#[test]
fn as_str_or_gives_text_or_default() {
    assert_eq!(Value::Text(String::from("A")).as_str_or(""), "A");
    assert_eq!(Value::Boolean(true).as_str_or("-"), "-");
    assert_eq!(Value::Empty.as_str_or("x"), "x");
}

#[test]
fn float_texts_are_those_that_parse() {
    let samples = [
        "0", "1", "-1", "+1", "1.5", "1.", ".5", "-.5", "+.5", ".", "+", "-", "", "1e5", "1E5",
        "1e+5", "1e-5", "1e", "1e+", "e5", "1.e5", ".5e5", ".e5", "1.5e10", "1.5e1.5", "inf",
        "-inf", "+inf", "INF", "Infinity", "-INFINITY", "infinit", "nan", "NaN", "-nan", "+NAN",
        "nane", " 1", "1 ", "1,5", "0x10", "1_000", "١", "1e5e5", "--1", "+-1", "1..5", "1.5.",
        "00012", "12345678901234567890123456789", "1e400", "1e-400", "0.0000000000001", "é",
        "1é", "infinityy", "i", "n", "1f", "1.0f64", "1d5", "+e5", "-.e1", "5.e-3", "5.E+3",
    ];
    for s in samples {
        assert_eq!(
            spreadsheet_ods::strs::is_float(s),
            s.parse::<f64>().is_ok(),
            "sample {:?}",
            s
        );
    }
    // every text of up to four characters over the characters that matter
    let alphabet = ['0', '7', '.', 'e', 'E', '+', '-', 'i', 'n', 'f', 'a', ' '];
    let mut texts = vec![String::new()];
    for _ in 0..4 {
        let mut longer = Vec::new();
        for t in &texts {
            for c in alphabet {
                let mut u = t.clone();
                u.push(c);
                longer.push(u);
            }
        }
        for t in &longer {
            assert_eq!(
                spreadsheet_ods::strs::is_float(t),
                t.parse::<f64>().is_ok(),
                "text {:?}",
                t
            );
        }
        texts = longer;
    }
}
