use todo_api::config::{Config, DEFAULT_PORT};
use todo_api::id::{IdError, TodoId};
use todo_api::params::{ParamError, UuidParam};

#[test]
fn parse_hyphenated_text() {
    let id = TodoId::parse("a1a2a3a4-b1b2-c1c2-d1d2-d3d4d5d6d7d8").unwrap();
    assert_eq!(id, TodoId(0xa1a2a3a4b1b2c1c2d1d2d3d4d5d6d7d8));
}

#[test]
fn parse_simple_text() {
    let id = TodoId::parse("550e8400e29b41d4a716446655440000").unwrap();
    assert_eq!(id.0, 0x550e8400e29b41d4a716446655440000);
}

#[test]
fn parse_rejects_malformed_text() {
    assert_eq!(TodoId::parse(""), Err(IdError::Invalid));
    assert_eq!(TodoId::parse("a1a2a3a4-b1b2-c1c2-d1d2-d3d4d5d6d7dz"), Err(IdError::Invalid));
    assert_eq!(TodoId::parse("123"), Err(IdError::Invalid));
}

#[test]
fn from_str_matches_parse() {
    let a: TodoId = "a1a2a3a4-b1b2-c1c2-d1d2-d3d4d5d6d7d8".parse().unwrap();
    assert_eq!(a.0, 0xa1a2a3a4b1b2c1c2d1d2d3d4d5d6d7d8);
    assert!("zz".parse::<TodoId>().is_err());
}

#[test]
fn new_ids_differ() {
    let a = TodoId::new();
    let b = TodoId::new();
    assert_ne!(a, b);
}

#[test]
fn segment_missing_valid_and_invalid() {
    assert_eq!(UuidParam::from_segment(None), Err(ParamError::Missing));
    assert_eq!(UuidParam::from_segment(Some("nope")), Err(ParamError::Invalid));
    assert_eq!(
        UuidParam::from_segment(Some("00000000-0000-0000-0000-00000000002a")),
        Ok(UuidParam(TodoId(42)))
    );
    assert_eq!(ParamError::Missing.status_code(), 400);
    assert_eq!(ParamError::Invalid.status_code(), 400);
}

#[test]
fn config_defaults() {
    let c = Config::with_defaults(None, None);
    assert_eq!(c.port, 8080);
    assert_eq!(DEFAULT_PORT, 8080);
    assert_eq!(c.log_level, "info");
}

#[test]
fn config_given_values() {
    let c = Config::with_defaults(Some(3000), Some("debug".to_string()));
    assert_eq!(c.port, 3000);
    assert_eq!(c.log_level, "debug");
}

#[test]
fn new_id_has_random_uuid_layout() {
    for _ in 0..20 {
        let v = TodoId::new().0;
        assert_eq!((v >> 76) & 0xf, 4);
        assert_eq!((v >> 62) & 0x3, 2);
    }
    let d = TodoId::default().0;
    assert_eq!((d >> 76) & 0xf, 4);
    assert_eq!((d >> 62) & 0x3, 2);
}
