use std::collections::HashMap;

use url_shortener::grammar::matches_url_grammar;
use url_shortener::short_url::{
    get_request, register_outcome, resolve_in, resolve_outcome, ResolveError, ShortURL, DEFAULT_TTL,
};
use url_shortener::slug::{calculate_short, chars_of, is_valid_url, matches_lowered, slug_from_draw};
use url_shortener::store::{MemoryStore, StoreReply, StoreRequest};

fn grammar(s: &str) -> bool {
    matches_url_grammar(&s.chars().collect())
}

#[test]
fn slug_is_three_url_safe_characters() {
    let id = calculate_short("http://example.com/path");
    assert_eq!(id.chars().count(), 3);
    assert!(id.chars().all(|c| c.is_ascii_alphanumeric() || c == '-' || c == '_'));
}

#[test]
fn slug_is_stable_across_calls() {
    let a = calculate_short("https://example.org/some/page?x=1");
    let b = calculate_short("https://example.org/some/page?x=1");
    assert_eq!(a, b);
}

#[test]
fn slug_ignores_case() {
    let u = "HTTP://Example.COM/Path";
    assert_eq!(calculate_short(u), calculate_short(&u.to_lowercase()));
    assert_eq!(calculate_short(u), calculate_short("http://example.com/path"));
}

#[test]
fn slug_encodes_draw_little_endian() {
    assert_eq!(slug_from_draw(0), "AAA");
    assert_eq!(slug_from_draw(1), "AQA");
    assert_eq!(slug_from_draw(256), "AAE");
    assert_eq!(slug_from_draw(0xFFFF), "__8");
    assert_eq!(slug_from_draw(0x00FB), "-wA");
}

#[test]
fn grammar_accepts_links() {
    assert!(grammar("http://example.com/path"));
    assert!(grammar("https://www.example.org"));
    assert!(grammar("https://sub.domain.co.uk/a?b=c&d=e#f"));
    assert!(grammar("http://a.b"));
}

#[test]
fn grammar_rejects_non_links() {
    assert!(!grammar("not a url"));
    assert!(!grammar("ftp://x.com"));
    assert!(!grammar(""));
    assert!(!grammar("http://localhost"));
    assert!(!grammar("http://.com"));
    assert!(!grammar("http:/example.com"));
}

#[test]
fn grammar_matches_whole_text() {
    assert!(!grammar("see http://a.bc now"));
    assert!(!grammar("xhttps://example.com"));
    assert!(!grammar("x http://a.com"));
    assert!(!grammar("http://a.com/ b"));
    assert!(!grammar("http://a.com/<x>"));
    assert!(grammar("http://a.com/path_(1)!~"));
}

#[test]
fn grammar_www_prefix_outside_host_limit() {
    let host = "a".repeat(256);
    let longer = "a".repeat(257);
    assert!(grammar(&format!("http://{}.com", host)));
    assert!(!grammar(&format!("http://{}.com", longer)));
    assert!(grammar(&format!("http://www.{}.com", host)));
    assert!(!grammar(&format!("http://www.{}.com", longer)));
}

#[test]
fn grammar_top_level_label_length() {
    let thirty = "a".repeat(30);
    let thirty_one = "a".repeat(31);
    assert!(grammar(&format!("http://x.{}", thirty)));
    assert!(grammar(&format!("http://x.{}/p", thirty)));
    assert!(!grammar(&format!("http://x.{}", thirty_one)));
}

#[test]
fn grammar_label_needs_word_boundary() {
    assert!(grammar("http://x.com)"));
    assert!(!grammar("http://x.(("));
    assert!(!grammar("http://x.com_"));
}

#[test]
fn validation_lower_cases_first() {
    assert!(!matches_lowered("HTTP://EXAMPLE.COM"));
    assert!(matches_lowered("http://example.com"));
    assert!(is_valid_url("HTTP://EXAMPLE.COM"));
    assert!(!is_valid_url("not a url"));
}

#[test]
fn chars_of_keeps_order() {
    assert_eq!(chars_of("héllo"), vec!['h', 'é', 'l', 'l', 'o']);
}

#[test]
fn create_rejects_invalid_urls() {
    for bad in ["not a url", "ftp://x.com", "", "see http://a.com now"] {
        match ShortURL::new(bad, None) {
            Ok(_) => panic!("accepted {}", bad),
            Err(e) => {
                assert_eq!(e.input, bad);
                assert_eq!(e.message(), "URL Provided is not valid.");
            }
        }
    }
}

#[test]
fn create_uses_default_ttl() {
    let rec = ShortURL::new("https://example.org", None).unwrap();
    assert_eq!(rec.ttl(), 3600);
    assert_eq!(DEFAULT_TTL, 3600);
}

#[test]
fn create_keeps_given_ttl_and_case() {
    let rec = ShortURL::new_at("https://Example.org/CamelCase", Some(60), 1_700_000_000).unwrap();
    assert_eq!(rec.ttl(), 60);
    assert_eq!(rec.url(), "https://Example.org/CamelCase");
    assert_eq!(rec.created_at(), 1_700_000_000);
    assert_eq!(rec.id(), &calculate_short("https://example.org/camelcase"));
}

#[test]
fn register_then_resolve_returns_url() {
    let mut store = MemoryStore::new();
    let rec = ShortURL::new("http://example.com/path", None).unwrap();
    assert!(rec.register_in(&mut store));
    assert_eq!(resolve_in(&mut store, rec.id()), Ok("http://example.com/path".to_string()));
}

#[test]
fn resolve_after_expire_is_not_found() {
    let mut store = MemoryStore::new();
    let mut rec = ShortURL::new("http://example.com/path", None).unwrap();
    assert!(rec.register_in(&mut store));
    assert!(rec.expire_in(&mut store));
    assert_eq!(rec.ttl(), 0);
    assert_eq!(resolve_in(&mut store, rec.id()), Err(ResolveError::NotFound));
}

#[test]
fn resolve_unknown_is_not_found() {
    let mut store = MemoryStore::new();
    assert_eq!(resolve_in(&mut store, "zzz"), Err(ResolveError::NotFound));
}

#[test]
fn disconnected_store_never_succeeds() {
    let mut store = MemoryStore::new();
    let mut rec = ShortURL::new("http://example.com/path", None).unwrap();
    assert!(rec.register_in(&mut store));
    store.set_connected(false);
    let other = ShortURL::new("http://example.net", None).unwrap();
    assert!(!other.register_in(&mut store));
    assert_eq!(resolve_in(&mut store, rec.id()), Err(ResolveError::StoreUnavailable));
    assert!(!rec.expire_in(&mut store));
    assert_eq!(rec.ttl(), 3600);
    store.set_connected(true);
    assert_eq!(resolve_in(&mut store, rec.id()), Ok("http://example.com/path".to_string()));
}

#[test]
fn zero_ttl_is_refused() {
    let mut store = MemoryStore::new();
    let rec = ShortURL::new("http://example.com/path", Some(0)).unwrap();
    assert!(!rec.register_in(&mut store));
    assert_eq!(resolve_in(&mut store, rec.id()), Err(ResolveError::NotFound));
}

#[test]
fn second_creation_overwrites() {
    let mut store = MemoryStore::new();
    let a = ShortURL::new("http://Example.com/Path", None).unwrap();
    let b = ShortURL::new("http://example.com/path", Some(10)).unwrap();
    assert_eq!(a.id(), b.id());
    assert!(a.register_in(&mut store));
    assert!(b.register_in(&mut store));
    assert_eq!(resolve_in(&mut store, b.id()), Ok("http://example.com/path".to_string()));
}

#[test]
fn colliding_slugs_overwrite() {
    let mut seen: HashMap<String, String> = HashMap::new();
    let mut pair = None;
    for i in 0..5000 {
        let url = format!("http://example.com/{}", i);
        let id = calculate_short(&url);
        if let Some(prev) = seen.get(&id) {
            pair = Some((prev.clone(), url));
            break;
        }
        seen.insert(id, url);
    }
    let (first, second) = pair.expect("no collision among 5000 urls");
    assert_ne!(first, second);
    let mut store = MemoryStore::new();
    let a = ShortURL::new(&first, None).unwrap();
    let b = ShortURL::new(&second, None).unwrap();
    assert_eq!(a.id(), b.id());
    assert!(a.register_in(&mut store));
    assert_eq!(resolve_in(&mut store, a.id()), Ok(first.clone()));
    assert!(b.register_in(&mut store));
    assert_eq!(resolve_in(&mut store, a.id()), Ok(second));
}

#[test]
fn outcomes_follow_replies() {
    assert!(register_outcome(&StoreReply::Done));
    assert!(!register_outcome(&StoreReply::Unavailable("down".to_string())));
    assert!(!register_outcome(&StoreReply::Refused));
    assert_eq!(resolve_outcome(StoreReply::Value("u".to_string())), Ok("u".to_string()));
    assert_eq!(resolve_outcome(StoreReply::Missing), Err(ResolveError::NotFound));
    assert_eq!(resolve_outcome(StoreReply::Unavailable("down".to_string())), Err(ResolveError::StoreUnavailable));
    assert_eq!(resolve_outcome(StoreReply::Refused), Err(ResolveError::StoreUnavailable));
}

#[test]
fn expire_outcome_keeps_record_on_failure() {
    let mut rec = ShortURL::new_at("http://example.com", Some(30), 5).unwrap();
    assert!(!rec.expire_outcome(&StoreReply::Unavailable("down".to_string())));
    assert_eq!(rec.ttl(), 30);
    assert!(rec.expire_outcome(&StoreReply::Done));
    assert_eq!(rec.ttl(), 0);
    assert_eq!(rec.url(), "http://example.com");
    assert_eq!(rec.created_at(), 5);
}

#[test]
fn requests_carry_the_record() {
    let rec = ShortURL::new_at("http://Example.com/A", Some(42), 0).unwrap();
    match rec.set_request() {
        StoreRequest::Write { key, value, seconds } => {
            assert_eq!(&key, rec.id());
            assert_eq!(value, "http://Example.com/A");
            assert_eq!(seconds, 42);
        }
        _ => panic!("not a write"),
    }
    match rec.expire_request() {
        StoreRequest::Expire { key } => assert_eq!(&key, rec.id()),
        _ => panic!("not an expiry"),
    }
    match get_request("abc") {
        StoreRequest::Lookup { key } => assert_eq!(key, "abc"),
        _ => panic!("not a lookup"),
    }
}

#[test]
fn memory_store_runs_requests() {
    let mut store = MemoryStore::new();
    let rec = ShortURL::new_at("http://example.com", Some(5), 0).unwrap();
    assert!(matches!(store.run(&rec.set_request()), StoreReply::Done));
    match store.run(&get_request(rec.id())) {
        StoreReply::Value(v) => assert_eq!(v, "http://example.com"),
        other => panic!("unexpected {:?}", other),
    }
    assert!(matches!(store.run(&rec.expire_request()), StoreReply::Done));
    assert!(matches!(store.run(&get_request(rec.id())), StoreReply::Missing));
    store.set_connected(false);
    assert!(matches!(store.run(&get_request(rec.id())), StoreReply::Unavailable(_)));
}
