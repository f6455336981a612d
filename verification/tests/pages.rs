use linkdrop::slug::slug_from_bits;
use linkdrop::slug::validate_slug;
use linkdrop::server::page_summary;
use linkdrop::error::LinkdropError;
use linkdrop::record::expiry_in_range;
use linkdrop::record::PageRecord;
use linkdrop::record::Timestamp;
use linkdrop::record::MAX_TIMESTAMP;
use linkdrop::server::confirm_deleted;
use linkdrop::server::is_authorized;
use linkdrop::server::listen_port;
use linkdrop::server::page_url;
use linkdrop::server::prepare_push;
use linkdrop::server::public_url;
use linkdrop::server::server_token;
use linkdrop::storage::choose_slug;
use linkdrop::storage::page_filename;
use linkdrop::storage::page_to_delete;
use linkdrop::storage::page_to_serve;
use linkdrop::storage::plan_put;
use linkdrop::storage::MAX_HTML_BYTES;

fn ts(secs: i64, nanos: u32) -> Timestamp {
    Timestamp { secs, nanos }
}

#[test]
fn status_codes_and_messages() {
    let cases = vec![
        (LinkdropError::SlugExists("a".into()), 409, "slug already exists: a"),
        (LinkdropError::NotFound("b".into()), 404, "page not found: b"),
        (LinkdropError::InvalidSlug("bad".into()), 400, "invalid slug: bad"),
        (LinkdropError::TooLarge { max: MAX_HTML_BYTES }, 413, "content exceeds maximum size of 5242880 bytes"),
        (LinkdropError::Expired("c".into()), 404, "page expired: c"),
        (LinkdropError::Other("disk full".into()), 500, "disk full"),
    ];
    for (e, code, msg) in cases {
        assert_eq!(e.status_code(), code);
        assert_eq!(e.message(), msg);
    }
    assert_eq!(LinkdropError::TooLarge { max: 0 }.message(), "content exceeds maximum size of 0 bytes");
}

#[test]
fn record_with_ttl_expires_exactly_after_it() {
    let now = ts(1_700_000_000, 500);
    let r = PageRecord::new_at("demo", "demo.html", 42, Some(60), now);
    assert_eq!(r.slug, "demo");
    assert_eq!(r.filename, "demo.html");
    assert_eq!(r.created_at, now);
    assert_eq!(r.expires_at, Some(ts(1_700_000_060, 500)));
    assert_eq!(r.size_bytes, 42);
    assert!(!r.is_expired(ts(1_700_000_060, 499)));
    assert!(r.is_expired(ts(1_700_000_060, 500)));
    assert!(r.is_expired(ts(1_800_000_000, 0)));
    match r.check_not_expired(ts(1_700_000_061, 0)) {
        Err(LinkdropError::Expired(s)) => assert_eq!(s, "demo"),
        _ => panic!("expired page served"),
    }
    assert!(r.check_not_expired(now).is_ok());
}

#[test]
fn record_without_ttl_never_expires() {
    let r = PageRecord::new_at("p", "p.html", 1, None, ts(0, 0));
    assert_eq!(r.expires_at, None);
    assert!(!r.is_expired(ts(MAX_TIMESTAMP, 999_999_999)));
}

#[test]
fn record_ttl_too_long_for_a_time_delta_adds_nothing() {
    let now = ts(10, 0);
    let r = PageRecord::new_at("p", "p.html", 1, Some(9_223_372_036_854_776), now);
    assert_eq!(r.expires_at, Some(now));
}

#[test]
fn expiry_range_check() {
    assert!(expiry_in_range(ts(1_700_000_000, 0), Some(86400)));
    assert!(expiry_in_range(ts(1_700_000_000, 0), None));
    assert!(!expiry_in_range(ts(1_700_000_000, 0), Some(8_210_266_876_799)));
    assert!(expiry_in_range(ts(0, 0), Some(8_210_266_876_799)));
    assert!(expiry_in_range(ts(0, 0), Some(u64::MAX)));
}

#[test]
fn record_from_row_falls_back_outside_range() {
    let r = PageRecord::from_row("s".into(), "s.html".into(), 1_700_000_000, Some(1_700_000_100), 9);
    assert_eq!(r.created_at, ts(1_700_000_000, 0));
    assert_eq!(r.expires_at, Some(ts(1_700_000_100, 0)));
    assert_eq!(r.size_bytes, 9);
    let r = PageRecord::from_row("s".into(), "s.html".into(), i64::MAX, Some(i64::MIN), 9);
    assert_eq!(r.created_at, ts(0, 0));
    assert_eq!(r.expires_at, None);
    let r = PageRecord::from_row("s".into(), "s.html".into(), 8_210_266_876_799, None, 0);
    assert_eq!(r.created_at, ts(8_210_266_876_799, 0));
    let r = PageRecord::from_row("s".into(), "s.html".into(), -8_334_601_315_200, Some(8_210_266_876_800), 0);
    assert_eq!(r.created_at, ts(-8_334_601_315_200, 0));
    assert_eq!(r.expires_at, None);
}

#[test]
fn put_checks_size_before_slug() {
    match choose_slug(Some("BAD SLUG"), MAX_HTML_BYTES + 1) {
        Err(LinkdropError::TooLarge { max }) => assert_eq!(max, 5 * 1024 * 1024),
        _ => panic!("oversized content accepted"),
    }
    match choose_slug(Some("BAD SLUG"), 10) {
        Err(LinkdropError::InvalidSlug(_)) => {}
        _ => panic!("bad slug accepted"),
    }
    assert_eq!(choose_slug(Some("ok"), MAX_HTML_BYTES).ok(), Some(Some("ok".to_string())));
    assert_eq!(choose_slug(None, 0).ok(), Some(None));
}

#[test]
fn put_refuses_collision_without_force() {
    match plan_put("demo".into(), true, false) {
        Err(LinkdropError::SlugExists(s)) => assert_eq!(s, "demo"),
        _ => panic!("existing page overwritten without force"),
    }
    let p = plan_put("demo".into(), true, true).ok().unwrap();
    assert_eq!((p.slug.as_str(), p.filename.as_str(), p.replace), ("demo", "demo.html", true));
    let p = plan_put("new".into(), false, false).ok().unwrap();
    assert_eq!((p.filename.as_str(), p.replace), ("new.html", false));
    assert_eq!(page_filename("a-b"), "a-b.html");
}

#[test]
fn serving_and_deleting_lookups() {
    let now = ts(100, 0);
    match page_to_serve("gone", None, now) {
        Err(LinkdropError::NotFound(s)) => assert_eq!(s, "gone"),
        _ => panic!(),
    }
    let live = PageRecord::new_at("live", "live.html", 3, Some(50), ts(60, 0));
    assert_eq!(page_to_serve("live", Some(live.clone()), now).ok().map(|r| r.slug), Some("live".to_string()));
    let stale = PageRecord::new_at("stale", "stale.html", 3, Some(10), ts(60, 0));
    match page_to_serve("stale", Some(stale.clone()), now) {
        Err(e) => {
            assert_eq!(e.status_code(), 404);
            assert_eq!(e.message(), "page expired: stale");
        }
        Ok(_) => panic!("expired page served"),
    }
    assert!(page_to_delete("stale", Some(stale)).is_ok());
    match page_to_delete("x", None) {
        Err(LinkdropError::NotFound(s)) => assert_eq!(s, "x"),
        _ => panic!(),
    }
}

#[test]
fn server_settings() {
    assert_eq!(server_token(Some("t".into())).as_deref(), Some("t"));
    assert_eq!(server_token(Some(String::new())), None);
    assert_eq!(server_token(None), None);
    assert_eq!(public_url(None), "http://localhost:8080");
    assert_eq!(public_url(Some(String::new())), "http://localhost:8080");
    assert_eq!(public_url(Some("https://sub.domain.com/".into())), "https://sub.domain.com");
    assert_eq!(listen_port(None), 8080);
    assert_eq!(listen_port(Some("9000")), 9000);
    assert_eq!(listen_port(Some("+443")), 443);
    assert_eq!(listen_port(Some("65535")), 65535);
    assert_eq!(listen_port(Some("65536")), 8080);
    assert_eq!(listen_port(Some("http")), 8080);
    assert_eq!(page_url("https://sub.domain.com", "demo"), "https://sub.domain.com/demo");
}

#[test]
fn authorization_rules() {
    assert!(is_authorized(Some("Bearer s3cret"), None, "s3cret"));
    assert!(is_authorized(None, Some("s3cret"), "s3cret"));
    assert!(is_authorized(Some("Basic abc"), Some("s3cret"), "s3cret"));
    assert!(!is_authorized(Some("Bearer wrong"), Some("s3cret"), "s3cret"));
    assert!(!is_authorized(Some("bearer s3cret"), None, "s3cret"));
    assert!(!is_authorized(None, None, "s3cret"));
    assert!(!is_authorized(Some("Bearer s3cret "), None, "s3cret"));
}

#[test]
fn push_preparation() {
    let o = prepare_push(Some("24h"), None, 10).ok().unwrap();
    assert_eq!((o.ttl, o.force), (Some(86400), false));
    let o = prepare_push(None, Some(true), MAX_HTML_BYTES).ok().unwrap();
    assert_eq!((o.ttl, o.force), (None, true));
    match prepare_push(Some("soon"), None, MAX_HTML_BYTES + 1) {
        Err(LinkdropError::InvalidSlug(m)) => assert_eq!(m, "invalid ttl: soon"),
        _ => panic!("bad ttl accepted"),
    }
    match prepare_push(Some("1h"), Some(false), MAX_HTML_BYTES + 1) {
        Err(e) => assert_eq!(e.status_code(), 413),
        Ok(_) => panic!("oversized content accepted"),
    }
    assert!(confirm_deleted("a".into(), true).is_ok());
    match confirm_deleted("a".into(), false) {
        Err(LinkdropError::NotFound(s)) => assert_eq!(s, "a"),
        _ => panic!(),
    }
}

#[test]
fn distinct_slugs_get_distinct_files() {
    assert_ne!(page_filename("a"), page_filename("a-"));
    assert_ne!(page_filename("report"), page_filename("report2"));
}

#[test]
fn record_survives_a_row_round_trip() {
    let now = ts(1_700_000_000, 123_456_789);
    let written = PageRecord::new_at("keep", "keep.html", 77, Some(3600), now);
    let read = PageRecord::from_row(
        written.slug.clone(),
        written.filename.clone(),
        written.created_at.secs,
        written.expires_at.map(|t| t.secs),
        written.size_bytes,
    );
    assert_eq!(read.slug, "keep");
    assert_eq!(read.filename, "keep.html");
    assert_eq!(read.created_at, ts(1_700_000_000, 0));
    assert_eq!(read.expires_at, Some(ts(1_700_003_600, 0)));
    assert_eq!(read.size_bytes, 77);
}

#[test]
fn generated_slugs_are_valid() {
    assert_eq!(slug_from_bits(0), "aaaaaaaa");
    assert_eq!(slug_from_bits(1), "baaaaaaa");
    assert_eq!(slug_from_bits(35), "9aaaaaaa");
    assert_eq!(slug_from_bits(36), "abaaaaaa");
    for bits in [0u64, 7, 25, 26, 12345, 987654321, u64::MAX] {
        let s = slug_from_bits(bits);
        assert_eq!(s.len(), 8);
        assert!(validate_slug(&s).is_ok());
    }
}

#[test]
fn page_summary_reports_rfc3339_times() {
    let r = PageRecord::new_at("demo", "demo.html", 12, Some(60), ts(1_700_000_000, 0));
    assert!(r.has_valid_times());
    let s = page_summary("https://sub.domain.com", &r);
    assert_eq!(s.slug, "demo");
    assert_eq!(s.url, "https://sub.domain.com/demo");
    assert_eq!(s.created_at, "2023-11-14T22:13:20+00:00");
    assert_eq!(s.expires_at.as_deref(), Some("2023-11-14T22:14:20+00:00"));
    assert_eq!(s.size_bytes, 12);
    let r = PageRecord::new_at("x", "x.html", 0, None, ts(0, 500_000_000));
    let s = page_summary("u", &r);
    assert_eq!(s.created_at, "1970-01-01T00:00:00.500+00:00");
    assert_eq!(s.expires_at, None);
    assert!(!PageRecord::from_row("y".into(), "y.html".into(), 0, None, 0).expires_at.is_some());
    let bad = PageRecord { created_at: ts(i64::MAX, 0), ..r };
    assert!(!bad.has_valid_times());
}

#[test]
fn push_of_exactly_the_limit_is_accepted() {
    let o = prepare_push(None, None, MAX_HTML_BYTES).ok().unwrap();
    assert_eq!((o.ttl, o.force), (None, false));
}
