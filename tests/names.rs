use firefox_native_manifests::{validate_name, Error};
use regex::Regex;

#[test]
fn accepts_valid_names() {
    for name in ["abc", "abc.def", "a1_2.b3", "com.example.host", "_", "A.B.C", "é.ü"] {
        assert_eq!(validate_name(name), Ok(()), "{name}");
    }
}

#[test]
fn rejects_invalid_names() {
    for name in ["", ".abc", "abc.", "a..b", "a b", "a/b", ".", "..", "a-b", "abc\n", "a.b/"] {
        assert_eq!(validate_name(name), Err(Error::InvalidName), "{name:?}");
    }
}

#[test]
fn agrees_with_name_regex() {
    let re = Regex::new(r"^\w+(\.\w+)*$").unwrap();
    let samples = [
        "", "a", "ab", "a.b", "a..b", ".a", "a.", "a_b.c1", "a b", "a/b", "a\\b", "αβγ.δ",
        "日本.語", "a\u{301}", "x.y.z.w", "1.2.3", "a.b.", "-", "a\tb", "☃", "a.☃",
    ];
    for s in samples {
        assert_eq!(validate_name(s).is_ok(), re.is_match(s), "{s:?}");
    }
}
