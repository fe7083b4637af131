use terra_fusion_pro::api::property_controller::property_id;
use terra_fusion_pro::error::{AppError, ErrorBody, ErrorKind};
use terra_fusion_pro::graphql::property_types::{
    PropertyType as ShownPropertyType, ValuationMethod as ShownValuationMethod,
};
use terra_fusion_pro::graphql::user_types::{MutationRoot, QueryRoot, UpdateUserInput};
use terra_fusion_pro::json::{JsonField, JsonObject};
use terra_fusion_pro::models::property::{PropertyType, ValuationMethod};
use terra_fusion_pro::models::user::UpdateUserRequest;
use terra_fusion_pro::repository::property_repository::{
    find_properties, PropertySearch, PropertyStatement,
};
use terra_fusion_pro::text::{
    chars_of, clone_optional, decimal_text_of, join, parse_unsigned, signed_decimal_text,
    skip_chars, split_at_char, starts_with, str_eq, string_of,
};
use terra_fusion_pro::utils::datetime::{
    calculate_age, calculate_age_on, days_ago, days_before, days_from, days_from_now,
    end_of_day, start_of_day, time_ago, time_ago_at, time_ago_of, CalendarDate,
};
use terra_fusion_pro::utils::format::{
    format_address_single_line, format_name, format_phone, truncate_string,
};
use terra_fusion_pro::utils::jwt::{
    base64_decode, base64_encode, create_token, create_token_at, get_user_id_from_token,
    read_claims, validate_token, validate_token_at, Claims,
};
use terra_fusion_pro::utils::logging::{request_id, LogEntry, LogLevel, Logger, LoggerConfig};
use terra_fusion_pro::utils::validation::{
    validate_email, validate_password, validate_phone, validate_struct, validate_url,
    ValidationError, ValidationErrorResponse,
};
use terra_fusion_pro::models::user::UserRole;

#[test]
fn error_tags_messages_and_statuses() {
    let cases = [
        (AppError::Database("m".to_string()), "database_error", 500, ErrorKind::Database),
        (AppError::Authentication("m".to_string()), "authentication_error", 401, ErrorKind::Authentication),
        (AppError::Authorization("m".to_string()), "authorization_error", 403, ErrorKind::Authorization),
        (AppError::Validation("m".to_string()), "validation_error", 400, ErrorKind::Validation),
        (AppError::NotFound("m".to_string()), "not_found_error", 404, ErrorKind::NotFound),
        (AppError::ExternalService("m".to_string()), "external_service_error", 502, ErrorKind::ExternalService),
        (AppError::Configuration("m".to_string()), "configuration_error", 500, ErrorKind::Configuration),
        (AppError::Deserialization("m".to_string()), "deserialization_error", 400, ErrorKind::Deserialization),
        (AppError::InternalServer("m".to_string()), "internal_server_error", 500, ErrorKind::InternalServer),
        (AppError::General("m".to_string()), "general_error", 500, ErrorKind::General),
    ];
    for (error, tag, status, kind) in cases {
        assert_eq!(error.error_type(), tag);
        assert_eq!(error.message(), "m");
        assert_eq!(error.to_text(), "m");
        assert_eq!(error.status_code(), status);
        assert_eq!(error.error_kind(), kind);
        assert_eq!(
            error.error_response(),
            ErrorBody { error: "m".to_string(), error_type: tag.to_string() }
        );
    }
}

#[test]
fn json_objects() {
    let obj = JsonObject::from_text(
        "{\"a\":\"x\",\"b\":null,\"c\":true,\"d\":-7,\"e\":1.5,\"f\":[1],\"g\":{},\"h\":9223372036854775808,\"a\":\"y\"}",
    )
    .unwrap();
    assert_eq!(obj.get("a"), Some(&JsonField::Text("y".to_string())));
    assert_eq!(obj.get("b"), Some(&JsonField::Null));
    assert_eq!(obj.get("c"), Some(&JsonField::Bool(true)));
    assert_eq!(obj.get("d"), Some(&JsonField::Number(Some(-7))));
    assert_eq!(obj.get("e"), Some(&JsonField::Number(None)));
    assert_eq!(obj.get("f"), Some(&JsonField::Nested("[1]".to_string())));
    assert_eq!(obj.get("g"), Some(&JsonField::Nested("{}".to_string())));
    assert_eq!(obj.nested_of("f"), Some("[1]".to_string()));
    assert_eq!(obj.nested_of("a"), None);
    assert_eq!(obj.nested_of("z"), None);
    assert_eq!(obj.get("h"), Some(&JsonField::Number(None)));
    assert_eq!(obj.get("z"), None);
    assert_eq!(obj.text_of("a"), Some("y".to_string()));
    assert_eq!(obj.text_of("b"), None);
    assert_eq!(obj.optional_text_of("a"), Ok(Some("y".to_string())));
    assert_eq!(obj.optional_text_of("b"), Ok(None));
    assert_eq!(obj.optional_text_of("z"), Ok(None));
    assert_eq!(obj.optional_text_of("c"), Err(()));
    assert_eq!(obj.int_of("d"), Some(-7));
    assert_eq!(obj.int_of("e"), None);
    assert_eq!(obj.int_of("a"), None);
    assert_eq!(JsonObject::from_text("[]"), None);
    assert_eq!(JsonObject::from_text("{"), None);
    assert_eq!(JsonObject::from_text("{} x"), None);
    assert_eq!(JsonObject::from_text(" {} ").unwrap().members.len(), 0);
}

#[test]
fn json_rendering() {
    let mut obj = JsonObject::new();
    obj.put_text("name", "a \"quoted\" \\ \n line");
    obj.put_int("n", i64::MIN);
    obj.put_optional_text("none", &None);
    obj.put_optional_text("some", &Some("s".to_string()));
    obj.put("flag", JsonField::Bool(false));
    obj.put_text("name", "last wins");
    let text = obj.to_text().unwrap();
    let back = JsonObject::from_text(&text).unwrap();
    assert_eq!(back.get("name"), Some(&JsonField::Text("last wins".to_string())));
    assert_eq!(back.get("n"), Some(&JsonField::Number(Some(i64::MIN))));
    assert_eq!(back.get("none"), Some(&JsonField::Null));
    assert_eq!(back.get("some"), Some(&JsonField::Text("s".to_string())));
    assert_eq!(back.get("flag"), Some(&JsonField::Bool(false)));
    assert_eq!(back.members.len(), 5);
    let mut tricky = JsonObject::new();
    tricky.put_text("t", "a \"quoted\" \\ \n \u{1F600} line");
    let round = JsonObject::from_text(&tricky.to_text().unwrap()).unwrap();
    assert_eq!(round.text_of("t"), Some("a \"quoted\" \\ \n \u{1F600} line".to_string()));
    assert_eq!(JsonObject::new().to_text(), Some("{}".to_string()));
    let mut lossy = JsonObject::new();
    lossy.put("n", JsonField::Number(None));
    assert!(!lossy.is_exact());
    assert_eq!(lossy.to_text(), None);
    let mut nested = JsonObject::new();
    nested.put_int("ok", 1);
    nested.put("n", JsonField::Nested("[]".to_string()));
    assert_eq!(nested.to_text(), None);
}

#[test]
fn text_helpers() {
    assert_eq!(chars_of("aé😀"), vec!['a', 'é', '😀']);
    assert_eq!(string_of(&vec!['a', 'b', 'c', 'd'], 1, 3), "bc");
    assert_eq!(string_of(&vec!['a'], 1, 1), "");
    assert!(str_eq("aé", "aé"));
    assert!(!str_eq("a", "b"));
    assert!(!str_eq("a", "ab"));
    assert!(str_eq("", ""));
    assert!(starts_with("Bearer x", "Bearer "));
    assert!(starts_with("abc", ""));
    assert!(!starts_with("ab", "abc"));
    assert!(!starts_with("xbc", "abc"));
    assert_eq!(skip_chars("héllo", 2), "llo");
    assert_eq!(skip_chars("ab", 2), "");
    assert_eq!(split_at_char("a.b.c", '.'), vec!["a", "b", "c"]);
    assert_eq!(split_at_char("", '.'), vec![""]);
    assert_eq!(split_at_char(".", '.'), vec!["", ""]);
    assert_eq!(split_at_char("a..b.", '.'), vec!["a", "", "b", ""]);
    assert_eq!(split_at_char("no dots", '.'), vec!["no dots"]);
    assert_eq!(join(&vec![], ", "), "");
    assert_eq!(join(&vec!["a".to_string()], ", "), "a");
    assert_eq!(join(&vec!["a".to_string(), String::new(), "c".to_string()], ", "), "a, , c");
    assert_eq!(clone_optional(&Some("x".to_string())), Some("x".to_string()));
    assert_eq!(clone_optional(&None), None);
}

#[test]
fn decimal_numbers() {
    assert_eq!(decimal_text_of(0), "0");
    assert_eq!(decimal_text_of(7), "7");
    assert_eq!(decimal_text_of(10), "10");
    assert_eq!(decimal_text_of(1234567890), "1234567890");
    assert_eq!(decimal_text_of(u64::MAX), "18446744073709551615");
    assert_eq!(signed_decimal_text(0), "0");
    assert_eq!(signed_decimal_text(-1), "-1");
    assert_eq!(signed_decimal_text(i64::MAX), "9223372036854775807");
    assert_eq!(signed_decimal_text(i64::MIN), "-9223372036854775808");
    assert_eq!(parse_unsigned("0", 10), Some(0));
    assert_eq!(parse_unsigned("10", 10), Some(10));
    assert_eq!(parse_unsigned("11", 10), None);
    assert_eq!(parse_unsigned("+7", 10), Some(7));
    assert_eq!(parse_unsigned("0007", 10), Some(7));
    assert_eq!(parse_unsigned("", 10), None);
    assert_eq!(parse_unsigned("+", 10), None);
    assert_eq!(parse_unsigned("++1", 10), None);
    assert_eq!(parse_unsigned("-1", 10), None);
    assert_eq!(parse_unsigned("1 ", 10), None);
    assert_eq!(parse_unsigned("١", 10), None);
    assert_eq!(parse_unsigned("18446744073709551615", u64::MAX), Some(u64::MAX));
    assert_eq!(parse_unsigned("18446744073709551616", u64::MAX), None);
    assert_eq!(parse_unsigned("99999999999999999999999", u64::MAX), None);
    for text in ["0", "+5", "65535", "65536", "", "+", "-0", "1x", "০"] {
        assert_eq!(
            parse_unsigned(text, 65535),
            text.parse::<u16>().ok().map(|n| n as u64),
            "text {:?}",
            text
        );
    }
}

#[test]
fn formatting() {
    assert_eq!(
        format_address_single_line("1 Main St", Some("Apt 2"), "Springfield", "IL", "62701"),
        "1 Main St, Apt 2 Springfield, IL 62701"
    );
    assert_eq!(
        format_address_single_line("1 Main St", None, "Springfield", "IL", "62701"),
        "1 Main St, Springfield, IL 62701"
    );
    assert_eq!(format_name("Ada", "Lovelace"), "Ada Lovelace");
    assert_eq!(format_phone("5551234567"), "(555) 123-4567");
    assert_eq!(format_phone("555123456"), "555123456");
    assert_eq!(format_phone("55512345678"), "55512345678");
    assert_eq!(format_phone(""), "");
    assert_eq!(format_phone("a\u{e9}d\u{e9}ghij"), "(a\u{e9}) d\u{e9}-ghij");
    assert_eq!(truncate_string("short", 10), "short");
    assert_eq!(truncate_string("exactly ten", 11), "exactly ten");
    assert_eq!(truncate_string("a long sentence", 10), "a long ...");
    assert_eq!(truncate_string("abcd", 3), "...");
    assert_eq!(truncate_string("", 0), "");
}

#[test]
fn ages() {
    let birth = CalendarDate { year: 1990, month: 6, day: 15 };
    assert_eq!(calculate_age_on(&birth, &CalendarDate { year: 2024, month: 6, day: 14 }), 33);
    assert_eq!(calculate_age_on(&birth, &CalendarDate { year: 2024, month: 6, day: 15 }), 34);
    assert_eq!(calculate_age_on(&birth, &CalendarDate { year: 2024, month: 5, day: 30 }), 33);
    assert_eq!(calculate_age_on(&birth, &CalendarDate { year: 2024, month: 7, day: 1 }), 34);
    assert_eq!(calculate_age_on(&birth, &CalendarDate { year: 1990, month: 1, day: 1 }), -1);
    assert_eq!(
        calculate_age_on(
            &CalendarDate { year: i32::MAX, month: 12, day: 31 },
            &CalendarDate { year: i32::MIN, month: 1, day: 1 }
        ),
        i32::MIN as i64 - i32::MAX as i64 - 1
    );
    let age = calculate_age(&CalendarDate { year: 2000, month: 1, day: 1 });
    assert!(age >= 23);
}

#[test]
fn time_ago_in_words() {
    assert_eq!(time_ago_of(0), "0 seconds ago");
    assert_eq!(time_ago_of(59), "59 seconds ago");
    assert_eq!(time_ago_of(-5), "-5 seconds ago");
    assert_eq!(time_ago_of(60), "1 minutes ago");
    assert_eq!(time_ago_of(3599), "59 minutes ago");
    assert_eq!(time_ago_of(3600), "1 hours ago");
    assert_eq!(time_ago_of(86399), "23 hours ago");
    assert_eq!(time_ago_of(86400), "1 days ago");
    assert_eq!(time_ago_of(30 * 86400 - 1), "29 days ago");
    assert_eq!(time_ago_of(30 * 86400), "1 months ago");
    assert_eq!(time_ago_of(365 * 86400 - 1), "12 months ago");
    assert_eq!(time_ago_of(365 * 86400), "1 years ago");
    assert_eq!(time_ago_of(i64::MAX), "292471208677 years ago");
    assert_eq!(time_ago_at(1000, 1090), "1 minutes ago");
    assert_eq!(time_ago_at(i64::MIN, i64::MAX), "292471208677 years ago");
    assert_eq!(time_ago_at(i64::MAX, i64::MIN), "-9223372036854775808 seconds ago");
    assert!(time_ago(0).ends_with(" years ago"));
}

#[test]
fn days() {
    assert_eq!(start_of_day(0), 0);
    assert_eq!(start_of_day(86399), 0);
    assert_eq!(start_of_day(86400), 86400);
    assert_eq!(start_of_day(1_700_000_000), 1_699_920_000);
    assert_eq!(start_of_day(-1), -86400);
    assert_eq!(start_of_day(-86400), -86400);
    assert_eq!(start_of_day(-86401), -172800);
    assert_eq!(end_of_day(0), 86399);
    assert_eq!(end_of_day(1_700_000_000), 1_700_006_399);
    assert_eq!(end_of_day(-1), -1);
    assert_eq!(days_from(1000, 2), 173_800);
    assert_eq!(days_from(1000, -1), -85_400);
    assert_eq!(days_from(0, i64::MAX), i64::MAX);
    assert_eq!(days_from(0, i64::MIN), i64::MIN);
    assert_eq!(days_before(1000, 2), -171_800);
    assert_eq!(days_before(0, i64::MIN), i64::MAX);
    assert_eq!(days_before(0, i64::MAX), i64::MIN);
    let now = days_from_now(0);
    assert!(now > 1_700_000_000);
    assert!(days_from_now(1) - now >= 86400);
    assert!(now - days_ago(1) >= 86000);
}

#[test]
fn validation_of_input() {
    assert_eq!(validate_email("ada@example.com"), Ok(()));
    assert_eq!(validate_email("a.b+c@sub.example.co"), Ok(()));
    assert_eq!(validate_email("no at sign"), Err(ValidationError { code: "invalid_email" }));
    assert_eq!(validate_email("a@"), Err(ValidationError { code: "invalid_email" }));
    assert_eq!(validate_email(""), Err(ValidationError { code: "invalid_email" }));
    assert_eq!(validate_phone("+15551234567"), Ok(()));
    assert_eq!(validate_phone("15551234567"), Ok(()));
    assert_eq!(validate_phone("05551234567"), Err(ValidationError { code: "invalid_phone" }));
    assert_eq!(validate_phone("1"), Err(ValidationError { code: "invalid_phone" }));
    assert_eq!(validate_phone("+1555123456789012"), Err(ValidationError { code: "invalid_phone" }));
    assert_eq!(validate_url("https://www.example.com/path?x=1"), Ok(()));
    assert_eq!(validate_url("example.com"), Ok(()));
    assert_eq!(validate_url("not a url"), Err(ValidationError { code: "invalid_url" }));
    assert_eq!(validate_url(""), Err(ValidationError { code: "invalid_url" }));
}

#[test]
fn validation_of_passwords() {
    assert_eq!(validate_password("Abcdef1!"), Ok(()));
    assert_eq!(validate_password("Ab1!"), Err(ValidationError { code: "password_too_short" }));
    assert_eq!(validate_password(""), Err(ValidationError { code: "password_too_short" }));
    assert_eq!(validate_password("abcdefg1!"), Err(ValidationError { code: "password_no_uppercase" }));
    assert_eq!(validate_password("ABCDEFG1!"), Err(ValidationError { code: "password_no_lowercase" }));
    assert_eq!(validate_password("Abcdefgh!"), Err(ValidationError { code: "password_no_digit" }));
    assert_eq!(validate_password("Abcdefg12"), Err(ValidationError { code: "password_no_special_char" }));
    assert_eq!(validate_password("Abcdefg1_"), Err(ValidationError { code: "password_no_special_char" }));
    // Four characters of two bytes each are eight bytes.
    assert_eq!(validate_password("éééé"), Err(ValidationError { code: "password_no_uppercase" }));
    assert_eq!(validate_password("Éa1!éé"), Err(ValidationError { code: "password_no_uppercase" }));
    assert_eq!(validate_password("Aa1|éé"), Ok(()));
}

#[test]
fn validation_responses() {
    let fields = vec![
        ("email".to_string(), vec![Some("must be an address".to_string()), None]),
        ("name".to_string(), vec![]),
    ];
    let response = ValidationErrorResponse::from(&fields);
    assert_eq!(
        response,
        ValidationErrorResponse {
            message: "Validation failed".to_string(),
            errors: vec![
                (
                    "email".to_string(),
                    vec!["must be an address".to_string(), "Invalid value".to_string()]
                ),
                ("name".to_string(), vec![]),
            ],
        }
    );
    assert_eq!(
        response.to_text(),
        "Validation failed: email: must be an address, Invalid value; name: "
    );
    assert_eq!(validate_struct(Ok(())), Ok(()));
    assert_eq!(
        validate_struct(Err(response)),
        Err(AppError::Validation(
            "Validation failed: email: must be an address, Invalid value; name: ".to_string()
        ))
    );
    let bare = ValidationErrorResponse::from(&vec![]);
    assert_eq!(bare.to_text(), "Validation failed");
}

fn logger(min_level: LogLevel, json_output: bool) -> Logger {
    Logger::new(LoggerConfig { service_name: "users".to_string(), min_level, json_output })
}

#[test]
fn log_lines() {
    let plain = logger(LogLevel::Info, false);
    assert_eq!(plain.log(LogLevel::Debug, "m", None, None, "t"), None);
    assert_eq!(plain.log(LogLevel::Trace, "m", None, None, "t"), None);
    assert_eq!(
        plain.log(LogLevel::Info, "started", None, None, "2024-01-01T00:00:00+00:00"),
        Some("[2024-01-01T00:00:00+00:00] [users] [INFO] started".to_string())
    );
    assert_eq!(
        plain.log(LogLevel::Error, "boom", Some("req-1"), Some("{\"a\":1}"), "t"),
        Some("[t] [users] [ERROR] request_id=req-1 context={\"a\":1} boom".to_string())
    );
    assert_eq!(
        plain.warn("careful", None, Some("ctx"), "t"),
        Some("[t] [users] [WARN] context=ctx careful".to_string())
    );
    assert_eq!(plain.trace("m", None, None, "t"), None);
    assert_eq!(plain.debug("m", None, None, "t"), None);
    assert_eq!(plain.info("m", Some("r"), None, "t"), Some("[t] [users] [INFO] request_id=r m".to_string()));
    assert_eq!(plain.error("m", None, None, "t"), Some("[t] [users] [ERROR] m".to_string()));
    let all = logger(LogLevel::Trace, false);
    assert_eq!(all.trace("m", None, None, "t"), Some("[t] [users] [TRACE] m".to_string()));
    assert_eq!(all.debug("m", None, None, "t"), Some("[t] [users] [DEBUG] m".to_string()));
}

#[test]
fn log_lines_as_json() {
    let json = logger(LogLevel::Warn, true);
    assert_eq!(json.info("m", None, None, "t"), None);
    let line = json.error("bo\"om", Some("req-1"), None, "t").unwrap();
    let value: serde_json::Value = serde_json::from_str(&line).unwrap();
    assert_eq!(value["service"].as_str(), Some("users"));
    assert_eq!(value["level"].as_str(), Some("Error"));
    assert_eq!(value["message"].as_str(), Some("bo\"om"));
    assert_eq!(value["timestamp"].as_str(), Some("t"));
    assert_eq!(value["request_id"].as_str(), Some("req-1"));
    assert!(value.get("context").is_none());
    assert_eq!(value.as_object().unwrap().len(), 5);
    let entry = LogEntry {
        service: "s".to_string(),
        level: LogLevel::Debug,
        message: "m".to_string(),
        timestamp: "t".to_string(),
        request_id: None,
        context: Some("c".to_string()),
    };
    assert_eq!(entry.to_plain_line(), "[t] [s] [DEBUG] context=c m");
    let value: serde_json::Value = serde_json::from_str(&entry.to_json_line()).unwrap();
    assert_eq!(value["context"].as_str(), Some("c"));
    assert!(value.get("request_id").is_none());
}

#[test]
fn log_levels() {
    let levels = [LogLevel::Trace, LogLevel::Debug, LogLevel::Info, LogLevel::Warn, LogLevel::Error];
    let labels = ["TRACE", "DEBUG", "INFO", "WARN", "ERROR"];
    let names = ["Trace", "Debug", "Info", "Warn", "Error"];
    for (i, level) in levels.iter().enumerate() {
        assert_eq!(level.as_rank() as usize, i);
        assert_eq!(level.to_text(), labels[i]);
        assert_eq!(level.to_name(), names[i]);
    }
    assert_eq!(request_id(Some("given".to_string()), "fresh".to_string()), "given");
    assert_eq!(request_id(None, "fresh".to_string()), "fresh");
}

#[test]
fn stand_in_tokens() {
    assert_eq!(base64_encode("abc"), "encoded_abc");
    assert_eq!(base64_decode("encoded_abc"), Ok("abc".to_string()));
    assert_eq!(base64_decode("encoded_"), Ok(String::new()));
    assert_eq!(base64_decode("abc"), Err("Invalid encoding"));
    let id = "550e8400-e29b-41d4-a716-446655440000";
    let token = create_token_at(id, "ada", "Ada", &UserRole::Appraiser, "secret", 60, 1000);
    assert!(token.starts_with("header.encoded_{"));
    assert!(token.ends_with("}.signature"));
    let claims = Claims {
        sub: id.to_string(),
        iat: 1000,
        exp: 1060,
        role: "appraiser".to_string(),
        email: "ada".to_string(),
        name: "Ada".to_string(),
    };
    assert_eq!(read_claims(&token), Ok(claims.clone()));
    assert_eq!(validate_token_at(&token, "secret", 1060), Ok(claims));
    assert_eq!(
        validate_token_at(&token, "other", 1061),
        Err(AppError::Authentication("Token has expired".to_string()))
    );
    assert_eq!(get_user_id_from_token(&token), Ok(id.to_string()));
    let live = create_token(id, "ada", "Ada", &UserRole::Admin, "secret", 600).unwrap();
    assert_eq!(validate_token(&live, "secret").unwrap().role, "admin");
    let huge = create_token_at(id, "e", "n", &UserRole::Agent, "secret", u64::MAX, 5);
    assert_eq!(read_claims(&huge).unwrap().exp, i64::MAX);
}

#[test]
fn stand_in_token_failures() {
    let format = Err(AppError::Authentication("Invalid token format".to_string()));
    let encoding = Err(AppError::Authentication("Invalid token encoding".to_string()));
    let claims = Err(AppError::Authentication("Invalid token claims".to_string()));
    assert_eq!(read_claims("a.b"), format);
    assert_eq!(read_claims("a.b.c"), encoding);
    assert_eq!(read_claims("a.encoded_zzz.c"), claims);
    assert_eq!(read_claims("a.encoded_{\"sub\":\"s\"}.c"), claims);
    // A dot inside the claims makes a fourth segment.
    let dotted = create_token_at("u", "ada@example.com", "Ada", &UserRole::Admin, "secret", 60, 1000);
    assert_eq!(read_claims(&dotted), format);
    let named = create_token_at("not a uuid", "e", "n", &UserRole::Admin, "secret", 60, 1000);
    assert_eq!(
        get_user_id_from_token(&named),
        Err(AppError::Authentication("Invalid user ID in token".to_string()))
    );
    let upper = create_token_at("550E8400E29B41D4A716446655440000", "e", "n", &UserRole::Admin, "secret", 60, 1000);
    assert_eq!(
        get_user_id_from_token(&upper),
        Ok("550e8400-e29b-41d4-a716-446655440000".to_string())
    );
}

#[test]
fn property_keys() {
    assert_eq!(
        property_id("550E8400-E29B-41D4-A716-446655440000"),
        Ok("550e8400-e29b-41d4-a716-446655440000".to_string())
    );
    let failure = property_id("42").unwrap_err();
    assert_eq!(failure.status, 400);
    assert_eq!(failure.body.error, "Invalid property ID format");
    assert_eq!(failure.body.error_type, "validation_error");
}

#[test]
fn property_search_statements() {
    let none = PropertySearch { city: None, state: None, postal_code: None, page: None, limit: None };
    assert_eq!(
        find_properties(&none),
        PropertyStatement {
            sql: "SELECT * FROM properties WHERE 1=1 LIMIT $1 OFFSET $2".to_string(),
            patterns: vec![],
            limit: 20,
            offset: 0,
        }
    );
    let all = PropertySearch {
        city: Some("Spring".to_string()),
        state: Some("IL".to_string()),
        postal_code: Some("627".to_string()),
        page: Some(3),
        limit: Some(50),
    };
    assert_eq!(
        find_properties(&all),
        PropertyStatement {
            sql: "SELECT * FROM properties WHERE 1=1 AND address->>'city' ILIKE $1 AND address->>'state' ILIKE $2 AND address->>'postal_code' ILIKE $3 LIMIT $4 OFFSET $5".to_string(),
            patterns: vec!["%Spring%".to_string(), "%IL%".to_string(), "%627%".to_string()],
            limit: 50,
            offset: 100,
        }
    );
    let some = PropertySearch {
        city: None,
        state: Some("IL".to_string()),
        postal_code: None,
        page: Some(-4),
        limit: Some(1000),
    };
    assert_eq!(
        find_properties(&some),
        PropertyStatement {
            sql: "SELECT * FROM properties WHERE 1=1 AND address->>'state' ILIKE $1 LIMIT $2 OFFSET $3".to_string(),
            patterns: vec!["%IL%".to_string()],
            limit: 100,
            offset: 0,
        }
    );
    let far = PropertySearch {
        city: None,
        state: None,
        postal_code: None,
        page: Some(i32::MAX),
        limit: Some(0),
    };
    assert_eq!(find_properties(&far).limit, 1);
    assert_eq!(find_properties(&far).offset, i32::MAX as i64 - 1);
}

#[test]
fn graphql_names() {
    let types = [
        (PropertyType::SingleFamily, ShownPropertyType::SingleFamily),
        (PropertyType::Condo, ShownPropertyType::Condo),
        (PropertyType::Townhouse, ShownPropertyType::Townhouse),
        (PropertyType::MultiFamily, ShownPropertyType::MultiFamily),
        (PropertyType::Land, ShownPropertyType::Land),
        (PropertyType::Commercial, ShownPropertyType::Commercial),
        (PropertyType::Industrial, ShownPropertyType::Industrial),
        (PropertyType::Agricultural, ShownPropertyType::Agricultural),
        (PropertyType::Other, ShownPropertyType::Other),
    ];
    for (model, shown) in types {
        assert_eq!(ShownPropertyType::from(model), shown);
        assert_eq!(PropertyType::from(shown), model);
    }
    let methods = [
        (ValuationMethod::SalesComparison, ShownValuationMethod::SalesComparison),
        (ValuationMethod::IncomeApproach, ShownValuationMethod::IncomeApproach),
        (ValuationMethod::CostApproach, ShownValuationMethod::CostApproach),
        (ValuationMethod::Automated, ShownValuationMethod::Automated),
        (ValuationMethod::Combined, ShownValuationMethod::Combined),
    ];
    for (model, shown) in methods {
        assert_eq!(ShownValuationMethod::from(model), shown);
        assert_eq!(ValuationMethod::from(shown), model);
    }
}

#[test]
fn graphql_users() {
    let input = UpdateUserInput { first_name: Some("Ada".to_string()), last_name: None };
    assert_eq!(
        UpdateUserRequest::from(input),
        UpdateUserRequest {
            first_name: Some("Ada".to_string()),
            last_name: None,
            phone: None,
            role: None,
            is_active: None,
        }
    );
    assert_eq!(QueryRoot.user_failure(&AppError::NotFound("x".to_string())), "User not found");
    assert_eq!(
        QueryRoot.user_failure(&AppError::Database("down".to_string())),
        "Error fetching user: down"
    );
    assert_eq!(
        MutationRoot.update_user_failure(&AppError::NotFound("x".to_string())),
        "User not found"
    );
    assert_eq!(
        MutationRoot.update_user_failure(&AppError::Database("down".to_string())),
        "Error finding user: down"
    );
}
