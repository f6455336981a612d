use linkdrop::error::LinkdropError;
use linkdrop::slug::validate_slug;
use linkdrop::ttl::parse_ttl;
use linkdrop::ttl::ttl_in_range;

fn invalid_message(r: Result<(), LinkdropError>) -> String {
    match r {
        Err(LinkdropError::InvalidSlug(m)) => m,
        Err(e) => panic!("unexpected error: {}", e.message()),
        Ok(()) => panic!("slug was accepted"),
    }
}

#[test]
fn slug_accepts_lowercase_digits_and_inner_hyphens() {
    assert!(validate_slug("my-report").is_ok());
    assert!(validate_slug("a").is_ok());
    assert!(validate_slug("7").is_ok());
    assert!(validate_slug("a-b-c-123").is_ok());
    assert!(validate_slug(&"x".repeat(64)).is_ok());
}

#[test]
fn slug_length_limits() {
    assert_eq!(invalid_message(validate_slug("")), "slug must be 1-64 characters");
    assert_eq!(invalid_message(validate_slug(&"x".repeat(65))), "slug must be 1-64 characters");
    // 33 two-byte characters are 66 bytes: over the limit though only 33 characters.
    assert_eq!(invalid_message(validate_slug(&"\u{e9}".repeat(33))), "slug must be 1-64 characters");
}

#[test]
fn slug_shape_rules() {
    let msg = "slug may only contain lowercase letters, digits, and hyphens (no leading/trailing hyphen)";
    assert_eq!(invalid_message(validate_slug("-abc")), msg);
    assert_eq!(invalid_message(validate_slug("abc-")), msg);
    assert_eq!(invalid_message(validate_slug("-")), msg);
    assert_eq!(invalid_message(validate_slug("Report")), msg);
    assert_eq!(invalid_message(validate_slug("my report")), msg);
    assert_eq!(invalid_message(validate_slug("a_b")), msg);
    assert_eq!(invalid_message(validate_slug("abc\n")), msg);
    assert_eq!(invalid_message(validate_slug(&"\u{e9}".repeat(10))), msg);
}

#[test]
fn slug_errors_answer_bad_request() {
    let e = validate_slug("BAD").unwrap_err();
    assert_eq!(e.status_code(), 400);
}

fn ttl(s: &str) -> Result<u64, String> {
    assert!(ttl_in_range(s));
    parse_ttl(s).map_err(|e| match e {
        LinkdropError::InvalidSlug(m) => m,
        other => panic!("unexpected error: {}", other.message()),
    })
}

#[test]
fn ttl_plain_seconds() {
    assert_eq!(ttl("90"), Ok(90));
    assert_eq!(ttl("0"), Ok(0));
    assert_eq!(ttl("+5"), Ok(5));
    assert_eq!(ttl("18446744073709551615"), Ok(u64::MAX));
}

#[test]
fn ttl_units() {
    assert_eq!(ttl("45s"), Ok(45));
    assert_eq!(ttl("45sec"), Ok(45));
    assert_eq!(ttl("45secs"), Ok(45));
    assert_eq!(ttl("15m"), Ok(900));
    assert_eq!(ttl("15min"), Ok(900));
    assert_eq!(ttl("15mins"), Ok(900));
    assert_eq!(ttl("24h"), Ok(86400));
    assert_eq!(ttl("2hr"), Ok(7200));
    assert_eq!(ttl("2hrs"), Ok(7200));
    assert_eq!(ttl("7d"), Ok(604800));
    assert_eq!(ttl("1day"), Ok(86400));
    assert_eq!(ttl("3days"), Ok(259200));
}

#[test]
fn ttl_ignores_surrounding_whitespace_example() {
    assert_eq!(ttl("  24h\n"), Ok(86400));
    assert_eq!(ttl("\t90 "), Ok(90));
    assert_eq!(ttl("\u{3000}5m\u{a0}"), Ok(300));
}

#[test]
fn ttl_errors() {
    assert_eq!(ttl(""), Err("ttl cannot be empty".to_string()));
    assert_eq!(ttl("   "), Err("ttl cannot be empty".to_string()));
    assert_eq!(ttl("abc"), Err("invalid ttl: abc".to_string()));
    assert_eq!(ttl(" h "), Err("invalid ttl:  h ".to_string()));
    assert_eq!(ttl("+5m"), Err("invalid ttl: +5m".to_string()));
    assert_eq!(ttl("5w"), Err("invalid ttl unit in: 5w".to_string()));
    assert_eq!(ttl("5 m"), Err("invalid ttl unit in: 5 m".to_string()));
    assert_eq!(ttl("5M"), Err("invalid ttl unit in: 5M".to_string()));
    assert_eq!(ttl("-5"), Err("invalid ttl: -5".to_string()));
    assert_eq!(ttl("18446744073709551616"), Err("invalid ttl: 18446744073709551616".to_string()));
}

#[test]
fn ttl_range_check() {
    assert!(ttl_in_range("213503982334601d"));
    assert!(!ttl_in_range("213503982334602d"));
    assert!(!ttl_in_range("18446744073709551615m"));
    assert!(ttl_in_range("nonsense"));
    assert_eq!(ttl("213503982334601d"), Ok(213503982334601 * 86400));
}
