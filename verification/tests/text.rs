use cherino::text::{str_equal, str_equal_ignoring_ascii_case};

#[test]
fn exact_equality() {
    assert!(str_equal("", ""));
    assert!(str_equal("skip", "skip"));
    assert!(!str_equal("skip", "Skip"));
    assert!(!str_equal("skip", "skips"));
    assert!(str_equal("größe", "größe"));
}

#[test]
fn equality_ignoring_ascii_case() {
    assert!(str_equal_ignoring_ascii_case("TRUE", "true"));
    assert!(str_equal_ignoring_ascii_case("Option", "oPTION"));
    assert!(!str_equal_ignoring_ascii_case("true", "tru"));
    assert!(!str_equal_ignoring_ascii_case("GRÖSSE", "grösse"));
    assert!(str_equal_ignoring_ascii_case("Ö-a", "Ö-A"));
    assert!(!str_equal_ignoring_ascii_case("[", "{"));
}
