use help_desk_bot::config::{ack_ttl, connection_timeout, pool_size, timeout, LogsConfig, TimeSpan};
use help_desk_bot::feedback::Feedback;
use help_desk_bot::updates::next_offset;
use help_desk_bot::validate::{
    is_valid_segment_name, validate, validate_child, validate_path_segment_name, ChildReport, Language, Segment,
    ValidateError,
};

#[test]
fn default_settings() {
    assert_eq!(timeout(), TimeSpan { secs: 120, nanos: 0 });
    assert_eq!(ack_ttl(), TimeSpan { secs: 5, nanos: 0 });
    assert_eq!(pool_size(), 10);
    assert_eq!(connection_timeout(), TimeSpan { secs: 3, nanos: 0 });
    assert_eq!(LogsConfig::default(), LogsConfig::Stdout);
}

#[test]
fn languages() {
    assert_eq!(Language::from_str("ru"), Ok(Language::Ru));
    assert_eq!(Language::from_str("en"), Ok(Language::En));
    let e = Language::from_str("de").unwrap_err();
    assert_eq!(e.input, "de");
    assert!(Language::from_str("RU").is_err());
    assert!(Language::from_str("").is_err());
}

#[test]
fn segment_names() {
    for ok in ["a", "7", "abc", "a_b", "1_2", "a__b", "x9"] {
        assert!(is_valid_segment_name(ok), "{:?}", ok);
    }
    for bad in ["", "_", "_a", "a_", "A", "a-b", "a b", "ä", "a/b", "__"] {
        assert!(!is_valid_segment_name(bad), "{:?}", bad);
    }
}

#[test]
fn segment_name_checks() {
    assert_eq!(validate_path_segment_name(Some("abc")), Ok(true));
    assert_eq!(validate_path_segment_name(Some("Abc")), Ok(false));
    assert_eq!(validate_path_segment_name(None), Err(ValidateError::NotUnicode));
}

#[test]
fn root_children_reports() {
    let children = vec![Segment::Name("about".to_string()), Segment::Name("Bad_".to_string())];
    assert_eq!(
        validate(&children),
        Ok(vec![
            ChildReport { name: "about".to_string(), valid: true, path: "/about".to_string() },
            ChildReport { name: "Bad_".to_string(), valid: false, path: "/Bad_".to_string() },
        ])
    );
    assert_eq!(validate(&vec![]), Ok(vec![]));
}

#[test]
fn root_children_errors() {
    let children = vec![Segment::Name("ok".to_string()), Segment::Missing, Segment::NotUnicode];
    assert_eq!(validate(&children), Err(ValidateError::NoFinalSegment));
    let children = vec![Segment::NotUnicode, Segment::Missing];
    assert_eq!(validate(&children), Err(ValidateError::NotUnicode));
}

#[test]
fn node_needs_name_dir() {
    assert!(validate_child(&vec!["_data".to_string(), "_name".to_string()]));
    assert!(!validate_child(&vec!["_data".to_string(), "name".to_string()]));
    assert!(!validate_child(&vec![]));
}

#[test]
fn feedback_pairs() {
    let f = Feedback::new("bob".to_string(), "nice bot".to_string());
    assert_eq!(f.as_pairs(), vec![("username", "bob"), ("text", "nice bot")]);
}

#[test]
fn offsets() {
    assert_eq!(next_offset(0, 10), 11);
    assert_eq!(next_offset(11, 10), 11);
    assert_eq!(next_offset(11, 11), 12);
    assert_eq!(next_offset(-5, -5), -4);
}

#[test]
fn offset_after_a_batch_is_the_greatest_id_plus_one() {
    let fold = |start: i32, ids: &[i32]| ids.iter().fold(start, |o, id| next_offset(o, *id));
    assert_eq!(fold(4, &[5, 3, 9, 7]), 10);
    assert_eq!(fold(20, &[5, 3, 9, 7]), 20);
    assert_eq!(fold(4, &[]), 4);
    assert_eq!(fold(0, &[0, 1, 2]), 3);
}
