use slurm_oddity::envmap::EnvMap;
use slurm_oddity::expand::env_expand;
use slurm_oddity::text::{
    cat, cat3, i32_to_dec, join_path, parse_i32, parse_u32, parse_usize, starts_with, str_eq,
    u32_to_dec, u64_to_dec,
};

fn env(pairs: &[(&str, &str)]) -> EnvMap {
    let mut e = EnvMap::new();
    for (k, v) in pairs {
        e.insert(k.to_string(), v.to_string());
    }
    e
}

#[test]
fn decimal_rendering() {
    assert_eq!(u64_to_dec(0), "0");
    assert_eq!(u64_to_dec(1234567890123), "1234567890123");
    assert_eq!(u32_to_dec(u32::MAX), "4294967295");
    assert_eq!(i32_to_dec(-17), "-17");
    assert_eq!(i32_to_dec(i32::MIN), "-2147483648");
    assert_eq!(i32_to_dec(0), "0");
}

#[test]
fn unsigned_parsing_follows_str_parse() {
    assert_eq!(parse_u32("42"), Some(42));
    assert_eq!(parse_u32("+42"), Some(42));
    assert_eq!(parse_u32("0042"), Some(42));
    assert_eq!(parse_u32("4294967295"), Some(u32::MAX));
    assert_eq!(parse_u32("4294967296"), None);
    assert_eq!(parse_u32(""), None);
    assert_eq!(parse_u32("+"), None);
    assert_eq!(parse_u32("-1"), None);
    assert_eq!(parse_u32(" 1"), None);
    assert_eq!(parse_u32("12a"), None);
    assert_eq!(parse_usize("18446744073709551615"), Some(usize::MAX));
    for s in ["0", "7", "+9", "65536", "99999999999999999999", "x"] {
        assert_eq!(parse_u32(s), s.parse::<u32>().ok(), "{s}");
    }
}

#[test]
fn signed_parsing_follows_str_parse() {
    assert_eq!(parse_i32("-2147483648"), Some(i32::MIN));
    assert_eq!(parse_i32("2147483647"), Some(i32::MAX));
    assert_eq!(parse_i32("2147483648"), None);
    assert_eq!(parse_i32("-2147483649"), None);
    assert_eq!(parse_i32("-"), None);
    assert_eq!(parse_i32("+5"), Some(5));
    for s in ["0", "-0", "-12", "+12", "--1", "1 ", ""] {
        assert_eq!(parse_i32(s), s.parse::<i32>().ok(), "{s}");
    }
}

#[test]
fn path_joining_like_std_path() {
    assert_eq!(join_path("/home/u", "cosmodrome"), "/home/u/cosmodrome");
    assert_eq!(join_path("/home/u/", "cosmodrome"), "/home/u/cosmodrome");
    assert_eq!(join_path("/home/u", "/abs"), "/abs");
    assert_eq!(join_path("", "rel"), "rel");
    for (b, p) in [("/a/b", "c"), ("a", "b/c"), ("/", "x"), ("/a", "/b")] {
        let expected = std::path::Path::new(b).join(p).display().to_string();
        assert_eq!(join_path(b, p), expected);
    }
}

#[test]
fn small_text_helpers() {
    assert_eq!(cat("ab", "cd"), "abcd");
    assert_eq!(cat3("a", "-", "b"), "a-b");
    assert!(str_eq("x", "x"));
    assert!(!str_eq("x", "y"));
    assert!(starts_with("https://a", "http"));
    assert!(!starts_with("ht", "http"));
}

#[test]
fn envmap_insert_get_remove() {
    let mut e = EnvMap::new();
    assert_eq!(e.len(), 0);
    e.insert("A".to_string(), "1".to_string());
    e.insert("B".to_string(), "2".to_string());
    e.insert("A".to_string(), "3".to_string());
    assert_eq!(e.len(), 2);
    assert_eq!(e.get("A"), Some("3".to_string()));
    assert_eq!(e.get("B"), Some("2".to_string()));
    assert_eq!(e.get("C"), None);
    assert!(e.contains_key("B"));
    assert_eq!(e.key_at(0), "A");
    assert_eq!(e.value_at(0), "3");
    e.remove("A");
    assert_eq!(e.len(), 1);
    assert_eq!(e.get("A"), None);
    assert_eq!(e.key_at(0), "B");
    e.remove("missing");
    assert_eq!(e.len(), 1);
    let d = e.duplicate();
    assert_eq!(d.get("B"), Some("2".to_string()));
    assert!(e.lookup_for_expansion("B").is_ok());
    assert!(e.lookup_for_expansion("Z").is_err());
}

#[test]
fn expansion_through_shellexpand() {
    let e = env(&[("HOME", "/home/u"), ("X", "x")]);
    assert_eq!(env_expand("${HOME}/a", &e), Some("/home/u/a".to_string()));
    assert_eq!(env_expand("$X-$X", &e), Some("x-x".to_string()));
    assert_eq!(env_expand("plain text", &e), Some("plain text".to_string()));
    assert_eq!(env_expand("${MISSING}", &e), None);
    assert_eq!(env_expand("${MISSING:-dflt}", &e), Some("dflt".to_string()));
}
