use websnap::text::text_eq;
use websnap::params::{
    build, Field, ImageFormat, ParameterSet, RawArgs, Reason, ValidationError,
    DEFAULT_HEIGHT, DEFAULT_USER_AGENT, DEFAULT_WIDTH,
};

fn raw(target: Option<&str>) -> RawArgs {
    RawArgs {
        target: target.map(|t| t.to_string()),
        output: None,
        width: None,
        height: None,
        sleep: None,
        user_agent: None,
        format: None,
        debug: false,
    }
}

fn err(field: Field, reason: Reason) -> ValidationError {
    ValidationError { field, reason }
}

fn ok(r: Result<ParameterSet, ValidationError>) -> ParameterSet {
    match r {
        Ok(p) => p,
        Err(e) => panic!("refused: {}", e.message()),
    }
}

#[test]
fn defaults_fill_every_absent_input() {
    let p = ok(build(raw(Some("https://example.com"))));
    assert_eq!(p.url, "https://example.com");
    assert_eq!(p.output_path, None);
    assert_eq!(p.width, 1920);
    assert_eq!(p.height, 1080);
    assert_eq!(p.width, DEFAULT_WIDTH);
    assert_eq!(p.height, DEFAULT_HEIGHT);
    assert_eq!(p.sleep_seconds, 0);
    assert_eq!(p.format, ImageFormat::Png);
    assert_eq!(p.user_agent, DEFAULT_USER_AGENT);
    assert!(p.user_agent.starts_with("Mozilla/5.0"));
    assert!(!p.debug);
}

#[test]
fn given_inputs_are_kept() {
    let mut r = raw(Some("https://example.com/a"));
    r.output = Some("shot.jpg".to_string());
    r.width = Some(800);
    r.height = Some(600);
    r.sleep = Some(3);
    r.user_agent = Some("agent/1".to_string());
    r.format = Some("jpg".to_string());
    r.debug = true;
    let p = ok(build(r));
    assert_eq!(p.output_path, Some("shot.jpg".to_string()));
    assert_eq!((p.width, p.height, p.sleep_seconds), (800, 600, 3));
    assert_eq!(p.user_agent, "agent/1");
    assert_eq!(p.format, ImageFormat::Jpg);
    assert!(p.debug);
}

#[test]
fn valid_inputs_never_refused() {
    for w in [1i64, 2, 800, 1920, i64::MAX] {
        for h in [1i64, 600, 1080] {
            for f in ["png", "jpg", "webp"] {
                let mut r = raw(Some("https://example.com"));
                r.width = Some(w);
                r.height = Some(h);
                r.sleep = Some(0);
                r.format = Some(f.to_string());
                let p = ok(build(r));
                assert_eq!(p.width, w as u64);
                assert_eq!(p.height, h as u64);
            }
        }
    }
}

#[test]
fn missing_target_is_refused() {
    assert_eq!(build(raw(None)), Err(err(Field::Target, Reason::Missing)));
    let mut r = raw(None);
    r.width = Some(800);
    r.format = Some("gif".to_string());
    assert_eq!(build(r), Err(err(Field::Target, Reason::Missing)));
}

#[test]
fn empty_target_is_refused() {
    let e = build(raw(Some(""))).unwrap_err();
    assert_eq!(e, err(Field::Target, Reason::Empty));
    assert_eq!(e.message(), "target URL is required but empty");
}

#[test]
fn unknown_formats_are_refused() {
    for f in ["gif", "PNG", "jpeg", "", "webp "] {
        let mut r = raw(Some("https://example.com"));
        r.format = Some(f.to_string());
        assert_eq!(build(r), Err(err(Field::Format, Reason::Unsupported)));
    }
}

#[test]
fn non_positive_sizes_are_refused() {
    let mut r = raw(Some("https://example.com"));
    r.width = Some(0);
    assert_eq!(build(r), Err(err(Field::Width, Reason::NotPositive)));
    let mut r = raw(Some("https://example.com"));
    r.height = Some(-5);
    assert_eq!(build(r), Err(err(Field::Height, Reason::NotPositive)));
}

#[test]
fn negative_sleep_is_refused() {
    let mut r = raw(Some("https://example.com"));
    r.sleep = Some(-1);
    assert_eq!(build(r), Err(err(Field::Sleep, Reason::Negative)));
}

#[test]
fn first_broken_rule_is_reported() {
    let mut r = raw(Some("https://example.com"));
    r.width = Some(0);
    r.height = Some(0);
    r.sleep = Some(-1);
    r.format = Some("gif".to_string());
    assert_eq!(build(r), Err(err(Field::Width, Reason::NotPositive)));
}

#[test]
fn messages_name_field_and_reason() {
    assert_eq!(err(Field::Target, Reason::Missing).message(), "target URL is required but missing");
    assert_eq!(err(Field::Width, Reason::NotPositive).message(), "width must be greater than zero");
    assert_eq!(err(Field::Height, Reason::NotPositive).message(), "height must be greater than zero");
    assert_eq!(err(Field::Sleep, Reason::Negative).message(), "sleep duration must not be negative");
    assert_eq!(err(Field::Format, Reason::Unsupported).message(), "format must be one of png, jpg, webp");
}

#[test]
fn formats_parse_and_name_their_extension() {
    assert_eq!(ImageFormat::parse("png"), Some(ImageFormat::Png));
    assert_eq!(ImageFormat::parse("jpg"), Some(ImageFormat::Jpg));
    assert_eq!(ImageFormat::parse("webp"), Some(ImageFormat::Webp));
    assert_eq!(ImageFormat::parse("gif"), None);
    assert_eq!(ImageFormat::Png.extension(), "png");
    assert_eq!(ImageFormat::Jpg.extension(), "jpg");
    assert_eq!(ImageFormat::Webp.extension(), "webp");
}

#[test]
fn text_eq_compares_characters() {
    assert!(text_eq("héllo", "héllo"));
    assert!(!text_eq("héllo", "hello"));
    assert!(!text_eq("abc", "ab"));
    assert!(text_eq("", ""));
}
