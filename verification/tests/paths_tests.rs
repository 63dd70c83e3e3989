use archaeo::options::OutputFormat;
use archaeo::paths::{
    eq_ignore_ascii_case, extension_of, file_name, has_valid_extension, output_file_name, stem_of,
    valid_extensions,
};

fn b(s: &str) -> Vec<u8> {
    s.as_bytes().to_vec()
}

#[test]
fn file_name_takes_the_final_component() {
    assert_eq!(file_name(&b("sub/dir/a.c")), b("a.c"));
    assert_eq!(file_name(&b("a.c")), b("a.c"));
    assert_eq!(file_name(&b("")), b(""));
    assert_eq!(file_name(&b("dir/")), b(""));
}

#[test]
fn extension_follows_the_last_dot() {
    assert_eq!(extension_of(&b("a.c")), Some(b("c")));
    assert_eq!(extension_of(&b("a.tar.gz")), Some(b("gz")));
    assert_eq!(extension_of(&b("a.")), Some(b("")));
    assert_eq!(extension_of(&b("Makefile")), None);
    // A dot opening the name starts no extension.
    assert_eq!(extension_of(&b(".bashrc")), None);
}

#[test]
fn stem_precedes_the_extension() {
    assert_eq!(stem_of(&b("a.c")), b("a"));
    assert_eq!(stem_of(&b("a.tar.gz")), b("a.tar"));
    assert_eq!(stem_of(&b("Makefile")), b("Makefile"));
    assert_eq!(stem_of(&b(".bashrc")), b(".bashrc"));
}

#[test]
fn extensions_match_case_insensitively() {
    let exts = valid_extensions();
    assert!(has_valid_extension(&b("a.cpp"), &exts));
    assert!(has_valid_extension(&b("dir/a.CPP"), &exts));
    assert!(has_valid_extension(&b("a.HpP"), &exts));
    assert!(has_valid_extension(&b("x.C"), &exts));
    assert!(has_valid_extension(&b("x.cc"), &exts));
    assert!(has_valid_extension(&b("x.h"), &exts));
    assert!(!has_valid_extension(&b("x.txt"), &exts));
    assert!(!has_valid_extension(&b("x.cpp.txt"), &exts));
    assert!(!has_valid_extension(&b("noext"), &exts));
    assert!(!has_valid_extension(&b(".cpp"), &exts));
}

#[test]
fn ascii_case_comparison() {
    assert!(eq_ignore_ascii_case(&b("CpP"), &b("cpp")));
    assert!(!eq_ignore_ascii_case(&b("cp"), &b("cpp")));
    assert!(!eq_ignore_ascii_case(&b("cpq"), &b("cpp")));
}

#[test]
fn output_names_follow_stem_marker_and_format() {
    assert_eq!(output_file_name(&b("a.c"), OutputFormat::Csv, false), b("a.csv"));
    assert_eq!(output_file_name(&b("a.c"), OutputFormat::Json, false), b("a.json"));
    assert_eq!(output_file_name(&b("a.c"), OutputFormat::Csv, true), b("a-extended.csv"));
    assert_eq!(output_file_name(&b("sub/a.cpp"), OutputFormat::Json, true), b("a-extended.json"));
    assert_eq!(output_file_name(&b("dir/b.tar.gz"), OutputFormat::Csv, false), b("b.tar.csv"));
}

#[test]
fn same_stem_in_different_directories_collides() {
    let one = output_file_name(&b("a.cpp"), OutputFormat::Csv, false);
    let two = output_file_name(&b("sub/a.cpp"), OutputFormat::Csv, false);
    assert_eq!(one, two);
    assert_eq!(one, b("a.csv"));
}
