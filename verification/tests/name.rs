use bairiak::is_camel_case;

#[test]
fn accepts_names_starting_with_an_uppercase_letter() {
    assert!(is_camel_case("Color"));
    assert!(is_camel_case("A"));
    assert!(is_camel_case("TestEnum"));
    assert!(is_camel_case("Var0"));
    assert!(is_camel_case("HTTP_2_server"));
}

#[test]
fn accepts_names_starting_with_an_underscore() {
    assert!(is_camel_case("_"));
    assert!(is_camel_case("_x1"));
    assert!(is_camel_case("__Flag"));
}

#[test]
fn rejects_names_starting_with_a_lowercase_letter() {
    assert!(!is_camel_case("color"));
    assert!(!is_camel_case("a"));
    assert!(!is_camel_case("z9"));
    assert!(!is_camel_case("var1"));
}

#[test]
fn rejects_names_starting_with_a_digit() {
    assert!(!is_camel_case("1"));
    assert!(!is_camel_case("0Flag"));
    assert!(!is_camel_case("9"));
    assert!(!is_camel_case("1var"));
}

#[test]
fn rejects_the_empty_name() {
    assert!(!is_camel_case(""));
}

#[test]
fn rejects_symbols_after_the_first_character() {
    assert!(!is_camel_case("var!"));
    assert!(!is_camel_case("Var!"));
    assert!(!is_camel_case("A b"));
    assert!(!is_camel_case("A-b"));
    assert!(!is_camel_case("Name\n"));
    assert!(!is_camel_case("A.B"));
}

#[test]
fn accepts_any_other_first_character() {
    assert!(is_camel_case("!"));
    assert!(is_camel_case("!x"));
    assert!(is_camel_case(" "));
    assert!(is_camel_case("-Flag"));
    assert!(is_camel_case("\n"));
    assert!(!is_camel_case("!!"));
}

#[test]
fn follows_the_unicode_word_class_beyond_ascii() {
    assert!(is_camel_case("\u{c9}cole"));
    assert!(is_camel_case("Caf\u{e9}"));
    assert!(is_camel_case("\u{e9}"));
    assert!(is_camel_case("A\u{3b4}\u{662}"));
    assert!(!is_camel_case("A\u{20ac}"));
    assert!(!is_camel_case("A\u{2192}B"));
}
