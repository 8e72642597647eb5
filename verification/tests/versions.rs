use starkli::compiler::{BuiltInCompiler, CompilerBinary, CompilerVersion, UnknownVersion};
use std::path::PathBuf;

#[test]
fn a_version_is_named_by_its_number_with_or_without_a_v() {
    assert_eq!(CompilerVersion::from_str("2.1.0"), Ok(CompilerVersion::V2_1_0));
    assert_eq!(CompilerVersion::from_str("v2.1.0"), Ok(CompilerVersion::V2_1_0));
    assert_eq!(CompilerVersion::from_str("2.4.0"), Ok(CompilerVersion::V2_4_0));
    assert_eq!(CompilerVersion::from_str("v2.4.0"), Ok(CompilerVersion::V2_4_0));
}

#[test]
fn other_names_are_no_version() {
    for name in ["", "2.1", "2.1.0 ", " 2.1.0", "V2.1.0", "2.2.0", "v2.4", "vv2.4.0", "2.4.0.0"] {
        let unknown = UnknownVersion { name: name.to_string() };
        assert_eq!(CompilerVersion::from_str(name), Err(unknown));
    }
}

#[test]
fn a_version_is_shown_as_its_number() {
    assert_eq!(CompilerVersion::V2_1_0.to_string(), "2.1.0");
    assert_eq!(CompilerVersion::V2_4_0.to_string(), "2.4.0");
    assert_eq!(CompilerVersion::V2_1_0.name(), "2.1.0");
    assert_eq!(CompilerVersion::V2_4_0.name(), "2.4.0");
    assert_eq!(CompilerVersion::V2_1_0.alias(), "v2.1.0");
    assert_eq!(CompilerVersion::V2_4_0.alias(), "v2.4.0");
}

#[test]
fn every_version_is_found_again_under_its_names() {
    for version in CompilerVersion::value_variants() {
        assert_eq!(CompilerVersion::from_str(version.name()), Ok(version));
        assert_eq!(CompilerVersion::from_str(version.alias()), Ok(version));
        assert_eq!(CompilerVersion::from_str(&version.to_string()), Ok(version));
    }
}

#[test]
fn the_default_is_the_oldest_version() {
    assert_eq!(CompilerVersion::default(), CompilerVersion::V2_1_0);
    assert_eq!(
        CompilerVersion::value_variants(),
        vec![CompilerVersion::V2_1_0, CompilerVersion::V2_4_0]
    );
    for version in CompilerVersion::value_variants() {
        assert!(!version.older_than(&CompilerVersion::default()));
    }
}

#[test]
fn versions_are_ordered_by_release() {
    assert!(CompilerVersion::V2_1_0.older_than(&CompilerVersion::V2_4_0));
    assert!(!CompilerVersion::V2_4_0.older_than(&CompilerVersion::V2_1_0));
    assert!(!CompilerVersion::V2_4_0.older_than(&CompilerVersion::V2_4_0));
    assert_eq!(CompilerVersion::V2_1_0.rank(), 0);
    assert_eq!(CompilerVersion::V2_4_0.rank(), 1);
}

#[test]
fn compilers_keep_what_they_were_made_from() {
    assert_eq!(BuiltInCompiler::new(CompilerVersion::V2_4_0).version(), CompilerVersion::V2_4_0);
    assert_eq!(BuiltInCompiler::from(CompilerVersion::V2_1_0).version(), CompilerVersion::V2_1_0);
    assert_eq!(
        CompilerBinary::new(PathBuf::from("/opt/cairo/bin/compile")).path(),
        &PathBuf::from("/opt/cairo/bin/compile")
    );
    assert_eq!(CompilerBinary::from(PathBuf::new()).path(), &PathBuf::new());
}

#[test]
fn an_unknown_version_is_named_in_the_error() {
    let unknown = CompilerVersion::from_str("2.2.0").unwrap_err();
    assert_eq!(unknown.name, "2.2.0");
    assert_eq!(unknown.message(), "unknown version: 2.2.0");
    assert_eq!(CompilerVersion::from_str("").unwrap_err().message(), "unknown version: ");
}
