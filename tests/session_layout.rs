use hover_rs::session::{
    allocation_id, join_path, new_allocation_id, random_token, BaseDirs, ConfigError,
    SessionConfig, Stamp, SUFFIX_LEN,
};
use std::collections::HashSet;

fn is_alnum(b: u8) -> bool {
    b.is_ascii_alphanumeric()
}

#[test]
fn allocation_id_format() {
    let s = Stamp { year: 2024, month: 3, day: 5, hour: 7, minute: 9 };
    assert_eq!(allocation_id(&s, b"abc1234"), b"2024-03-05-0709-abc1234".to_vec());
    let t = Stamp { year: 987, month: 12, day: 31, hour: 23, minute: 59 };
    assert_eq!(allocation_id(&t, b"ZZZZZZZ"), b"0987-12-31-2359-ZZZZZZZ".to_vec());
    let n = Stamp { year: -44, month: 1, day: 1, hour: 0, minute: 0 };
    assert_eq!(allocation_id(&n, b"0000000"), b"-0044-01-01-0000-0000000".to_vec());
}

#[test]
fn allocation_id_from_clock() {
    let id = new_allocation_id(0).unwrap();
    assert_eq!(id.len(), 16 + SUFFIX_LEN);
    assert_eq!(&id[..16], b"1970-01-01-0000-");
    assert!(id[16..].iter().all(|b| is_alnum(*b)));

    let id2 = new_allocation_id(1_546_300_800 + 13 * 3600 + 7 * 60 + 59).unwrap();
    assert_eq!(&id2[..16], b"2019-01-01-1307-");

    let before_epoch = new_allocation_id(-1).unwrap();
    assert_eq!(&before_epoch[..16], b"1969-12-31-2359-");

    let last = new_allocation_id(253_402_300_799).unwrap();
    assert_eq!(&last[..16], b"9999-12-31-2359-");
    assert!(new_allocation_id(253_402_300_800).is_none());
}

#[test]
fn allocation_ids_unique_over_ten_thousand() {
    let mut seen = HashSet::new();
    for _ in 0..10_000 {
        let id = new_allocation_id(1_700_000_000).unwrap();
        assert!(seen.insert(id));
    }
}

#[test]
fn random_token_is_alphanumeric() {
    let t = random_token(64);
    assert_eq!(t.len(), 64);
    assert!(t.iter().all(|b| is_alnum(*b)));
    assert!(random_token(0).is_empty());
}

#[test]
fn join_inserts_one_separator() {
    assert_eq!(join_path(b"/a", b"b"), b"/a/b".to_vec());
    assert_eq!(join_path(b"/a/", b"b"), b"/a/b".to_vec());
    assert_eq!(join_path(b"", b"b"), b"b".to_vec());
}

fn dirs(home: Option<&[u8]>, cache: Option<&[u8]>, runtime: Option<&[u8]>) -> BaseDirs {
    BaseDirs {
        home: home.map(|h| h.to_vec()),
        cache_root: cache.map(|c| c.to_vec()),
        runtime_root: runtime.map(|r| r.to_vec()),
    }
}

#[test]
fn build_with_roots() {
    let d = dirs(Some(b"/home/u"), Some(b"/var/cache/u"), Some(b"/run/user/1000"));
    let c = SessionConfig::build(&d, b"A", 1000, 1001).unwrap();
    assert_eq!(c.target, b"/home/u".to_vec());
    assert_eq!(c.cache, b"/var/cache/u/hover".to_vec());
    assert_eq!(c.runtime, b"/run/user/1000/hover".to_vec());
    assert_eq!(c.layer, b"/var/cache/u/hover/layer-A".to_vec());
    assert_eq!(c.work, b"/var/cache/u/hover/.work-A".to_vec());
    assert_eq!(c.allocation, b"A".to_vec());
    assert_eq!((c.uid, c.gid), (1000, 1001));
}

#[test]
fn build_falls_back_to_defaults() {
    let d = dirs(Some(b"/home/u/"), None, None);
    let c = SessionConfig::build(&d, b"B", 1, 2).unwrap();
    assert_eq!(c.cache, b"/home/u/.cache/hover".to_vec());
    assert_eq!(c.runtime, b"/tmp/hover-B".to_vec());
    assert_eq!(c.layer, b"/home/u/.cache/hover/layer-B".to_vec());

    let relative = dirs(Some(b"/h"), Some(b"cache"), Some(b""));
    let r = SessionConfig::build(&relative, b"C", 1, 2).unwrap();
    assert_eq!(r.cache, b"/h/.cache/hover".to_vec());
    assert_eq!(r.runtime, b"/tmp/hover-C".to_vec());
}

#[test]
fn build_needs_an_absolute_home() {
    let none = dirs(None, Some(b"/c"), Some(b"/r"));
    assert!(matches!(SessionConfig::build(&none, b"x", 1, 1), Err(ConfigError::NoHome)));
    let rel = dirs(Some(b"home"), None, None);
    assert!(matches!(SessionConfig::build(&rel, b"x", 1, 1), Err(ConfigError::NoHome)));
}
