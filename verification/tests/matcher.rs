//! Tests of the case-insensitive suffix matcher.

use labrinth::validate::match_extension_ignore_case;

#[test]
fn matching_extensions_works() {
    assert!(match_extension_ignore_case("quilt.mod.json", &[".json"]));
    assert!(match_extension_ignore_case(
        "quilt.mod.json",
        &[".mod.json"]
    ));
    assert!(match_extension_ignore_case(
        "quilt.mod.json",
        &["quilt.mod.json"]
    ));
}

#[test]
fn wrong_extension() {
    assert!(!match_extension_ignore_case("quilt.mod.json", &[".toml"]));
    assert!(!match_extension_ignore_case("quilt.mod.json", &[".class"]));
    assert!(!match_extension_ignore_case("mods.toml", &[".yaml"]));
    assert!(!match_extension_ignore_case(
        "example.refmap.json",
        &[".class"]
    ));
}

#[test]
fn multiple_extensions() {
    assert!(match_extension_ignore_case(
        "quilt.mod.json",
        &[".not.gonna.match", ".json"]
    ));
    assert!(match_extension_ignore_case(
        "Test$1$2$3.class",
        &[".refmap.json", ".class"]
    ));
}

#[test]
fn multiple_wrong_extensions() {
    assert!(!match_extension_ignore_case(
        "quilt.mod.json",
        &[".neither.of", ".these.matches"]
    ));
    assert!(!match_extension_ignore_case(
        "Test.class",
        &[".java", ".kt", ".scala", ".groovy"]
    ));
}

#[test]
fn matching_is_case_insensitive_and_suffix_exact() {
    assert!(match_extension_ignore_case("Test.CLASS", &[".class"]));
    assert!(!match_extension_ignore_case(
        "example.refmap.json",
        &[".class"]
    ));
    assert!(match_extension_ignore_case(
        "EXAMPLE.ReFMaP.JSon",
        &[".refmap.json"]
    ));
}

#[test]
fn name_shorter_than_candidate_is_rejected() {
    assert!(!match_extension_ignore_case("class", &[".class"]));
    assert!(!match_extension_ignore_case("", &[".class"]));
    assert!(match_extension_ignore_case(".class", &[".class"]));
}
