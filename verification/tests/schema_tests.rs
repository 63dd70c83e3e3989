use archaeo::schema::{extended_columns, extended_csv_header, regular_columns, regular_csv_header};

fn regular_names() -> Vec<&'static str> {
    vec![
    "name",
    "source_file",
    "start_line",
    "end_line",
    "kind",
    "parent_name",
    "fn_args",
    "closure_args",
    "nexits",
    "cognitive",
    "cyclomatic",
    "halstead_n1",
    "halstead_N1",
    "halstead_n2",
    "halstead_N2",
    "halstead_length",
    "halstead_estimated_program_length",
    "halstead_purity_ratio",
    "halstead_vocabulary",
    "halstead_volume",
    "halstead_difficulty",
    "halstead_level",
    "halstead_effort",
    "halstead_time",
    "halstead_bugs",
    "loc_sloc",
    "loc_ploc",
    "loc_lloc",
    "loc_cloc",
    "loc_blank",
    "nom_functions",
    "nom_closures",
    "nom_total",
    "mi_original",
    "mi_sei",
    "mi_visual_studio",
    ]
}

#[test]
fn regular_schema_has_exact_columns() {
    let cols = regular_columns();
    assert_eq!(cols.len(), 36);
    assert_eq!(cols, regular_names());
}

#[test]
fn extended_schema_has_exact_columns() {
    let cols = extended_columns();
    assert_eq!(cols.len(), 62);
    // The identity block comes first, as in the regular schema.
    assert_eq!(&cols[..6], &regular_names()[..6]);
    // Every regular column is present, and so is every extended aggregate.
    for c in regular_names() {
        assert!(cols.contains(&c), "missing regular column {c}");
    }
    for c in [
        "nargs_total_functions",
        "nargs_total_closures",
        "nargs_average_functions",
        "nargs_average_closures",
        "nargs_total",
        "nargs_average",
        "nargs_functions_min",
        "nargs_functions_max",
        "nargs_closures_min",
        "nargs_closures_max",
        "nexits_sum",
        "nexits_average",
        "nexits_min",
        "nexits_max",
        "cognitive_sum",
        "cognitive_average",
        "cognitive_min",
        "cognitive_max",
        "cyclomatic_sum",
        "cyclomatic_average",
        "cyclomatic_min",
        "cyclomatic_max",
        "nom_functions_min",
        "nom_functions_max",
        "nom_closures_min",
        "nom_closures_max",
    ] {
        assert!(cols.contains(&c), "missing extended column {c}");
    }
    // The aggregates of a family follow its per-node columns.
    let pos = |n: &str| cols.iter().position(|c| *c == n).unwrap();
    assert!(pos("nexits") < pos("nexits_sum"));
    assert!(pos("nexits_sum") < pos("nexits_average"));
    assert!(pos("cognitive") < pos("cognitive_max"));
}

#[test]
fn headers_join_columns_with_commas() {
    assert_eq!(regular_csv_header(), regular_names().join(","));
    assert_eq!(extended_csv_header(), extended_columns().join(","));
}

#[test]
fn header_matches_csv_writer_output() {
    let mut w = csv::WriterBuilder::new().from_writer(Vec::new());
    w.write_record(regular_columns()).unwrap();
    let bytes = w.into_inner().unwrap();
    let line = String::from_utf8(bytes).unwrap();
    assert_eq!(line.trim_end(), regular_csv_header());
}
