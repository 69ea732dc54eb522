use mm_dlp_core::json::{parse_json, parse_u64, parse_u64_checked, u64_to_string, JsonValue};

fn chars(s: &str) -> Vec<char> {
    s.chars().collect()
}

#[test]
fn unsigned_numbers_parse_like_std() {
    for s in ["0", "42", "+7", "007", "18446744073709551615"] {
        assert_eq!(parse_u64(&chars(s)), s.parse::<u64>().ok(), "{}", s);
    }
    for s in ["", "+", "-1", "1a", " 1", "18446744073709551616"] {
        assert_eq!(parse_u64(&chars(s)), None, "{}", s);
    }
}

#[test]
fn parse_errors_have_std_messages() {
    assert_eq!(parse_u64_checked(&chars("")), Err("cannot parse integer from empty string".to_string()));
    assert_eq!(parse_u64_checked(&chars("+")), Err("invalid digit found in string".to_string()));
    assert_eq!(parse_u64_checked(&chars("12x")), Err("invalid digit found in string".to_string()));
    assert_eq!(parse_u64_checked(&chars("99999999999999999999")), Err("number too large to fit in target type".to_string()));
    assert_eq!(parse_u64_checked(&chars("12")), Ok(12));
    for s in ["", "+", "12x", "99999999999999999999"] {
        assert_eq!(parse_u64_checked(&chars(s)).unwrap_err(), s.parse::<u64>().unwrap_err().to_string());
    }
}

#[test]
fn decimal_text() {
    assert_eq!(u64_to_string(0), "0");
    assert_eq!(u64_to_string(1230), "1230");
    assert_eq!(u64_to_string(u64::MAX), u64::MAX.to_string());
}

#[test]
fn documents_are_modelled() {
    match parse_json(r#"{"a":[1,"x",null,true,-3,1.5]}"#) {
        Some(JsonValue::Object(entries)) => {
            assert_eq!(entries.len(), 1);
            assert_eq!(entries[0].0, "a");
            match &entries[0].1 {
                JsonValue::Array(items) => {
                    assert_eq!(items.len(), 6);
                    assert!(matches!(&items[0], JsonValue::Number(n) if n.unsigned == Some(1)));
                    assert!(matches!(&items[1], JsonValue::String(s) if s == "x"));
                    assert!(matches!(&items[2], JsonValue::Null));
                    assert!(matches!(&items[3], JsonValue::Bool(true)));
                    assert!(matches!(&items[4], JsonValue::Number(n) if n.unsigned.is_none()));
                    assert!(matches!(&items[5], JsonValue::Number(n) if n.unsigned.is_none()));
                }
                _ => panic!("array expected"),
            }
        }
        _ => panic!("object expected"),
    }
    assert!(parse_json("{not json").is_none());
}
