use archaeo::driver::{plan_output, validate_input, FileOutput, PathKind};
use archaeo::errors::CliError;
use archaeo::options::{effective_format, OutputFormat};
use archaeo::paths::output_file_name;
use archaeo::space::{
    CognitiveStats, CyclomaticStats, HalsteadStats, LocStats, Metrics, MiStats, NargsStats,
    NexitsStats, NomStats, Space, SpaceKind,
};

fn metrics_all(v: f64) -> Metrics {
    let b = v.to_bits();
    Metrics {
        nargs: NargsStats {
            fn_args: b,
            closure_args: b,
            fn_args_sum: b,
            closure_args_sum: b,
            fn_args_average: b,
            closure_args_average: b,
            nargs_total: b,
            nargs_average: b,
            fn_args_min: b,
            fn_args_max: b,
            closure_args_min: b,
            closure_args_max: b,
        },
        nexits: NexitsStats { exit: b, exit_sum: b, exit_average: b, exit_min: b, exit_max: b },
        cognitive: CognitiveStats {
            cognitive: b,
            cognitive_sum: b,
            cognitive_average: b,
            cognitive_min: b,
            cognitive_max: b,
        },
        cyclomatic: CyclomaticStats {
            cyclomatic: b,
            cyclomatic_sum: b,
            cyclomatic_average: b,
            cyclomatic_min: b,
            cyclomatic_max: b,
        },
        halstead: HalsteadStats {
            u_operators: b,
            operators: b,
            u_operands: b,
            operands: b,
            length: b,
            estimated_program_length: b,
            purity_ratio: b,
            vocabulary: b,
            volume: b,
            difficulty: b,
            level: b,
            effort: b,
            time: b,
            bugs: b,
        },
        loc: LocStats { sloc: b, ploc: b, lloc: b, cloc: b, blank: b },
        nom: NomStats {
            functions: b,
            closures: b,
            total: b,
            functions_min: b,
            functions_max: b,
            closures_min: b,
            closures_max: b,
        },
        mi: MiStats { mi_original: b, mi_sei: b, mi_visual_studio: b },
    }
}

fn unit_with_one_function() -> Space {
    let foo = Space {
        name: Some("foo".to_string()),
        start_line: 1,
        end_line: 3,
        kind: SpaceKind::Function,
        metrics: metrics_all(1.0),
        spaces: vec![],
    };
    Space {
        name: None,
        start_line: 1,
        end_line: 3,
        kind: SpaceKind::Unit,
        metrics: metrics_all(1.0),
        spaces: vec![foo],
    }
}

// The flattener walks the nested spaces of the root it is given, so a
// root carrying the unit as its one nested space yields the unit row
// and the function row.
fn engine_root() -> Space {
    Space {
        name: None,
        start_line: 1,
        end_line: 3,
        kind: SpaceKind::Unit,
        metrics: metrics_all(1.0),
        spaces: vec![unit_with_one_function()],
    }
}

#[test]
fn missing_path_is_an_invalid_input() {
    let r = validate_input(PathKind::Missing, &"missing.c".to_string());
    match r {
        Err(CliError::InvalidInputPath(p)) => assert_eq!(p, "missing.c"),
        _ => panic!("expected InvalidInputPath"),
    }
}

#[test]
fn file_and_directory_paths_are_accepted() {
    assert!(validate_input(PathKind::File, &"a.c".to_string()).is_ok());
    assert!(validate_input(PathKind::Directory, &"src".to_string()).is_ok());
}

#[test]
fn error_messages_name_their_subject() {
    let e = CliError::InvalidInputPath("missing.c".to_string());
    assert_eq!(e.message(), "The provided path is not a file or a dir: missing.c");
    let e = CliError::FailedProcessing("a.c".to_string());
    assert_eq!(e.message(), "FailedProcessingError: Failed to process: a.c");
    let e = CliError::FailedGuessLang("a.c".to_string());
    assert_eq!(e.message(), "Failed to guess programming lang of a.c");
    let e = CliError::SerdeError("boom".to_string());
    assert_eq!(e.message(), "Failed to create JSON: boom");
    let e = CliError::FileCreationError("denied".to_string());
    assert_eq!(e.message(), "Failed to create file: denied");
    let e = CliError::CSVError("bad row".to_string());
    assert_eq!(e.message(), "Failed to create CSV: bad row");
    let e = CliError::Other("anything".to_string());
    assert_eq!(e.message(), "anything");
}

#[test]
fn csv_with_no_flatten_is_promoted_to_json_with_a_warning() {
    let (fmt, warn) = effective_format(OutputFormat::Csv, true);
    assert_eq!(fmt, OutputFormat::Json);
    assert!(warn);
    let (fmt, warn) = effective_format(OutputFormat::Csv, false);
    assert_eq!(fmt, OutputFormat::Csv);
    assert!(!warn);
    let (fmt, warn) = effective_format(OutputFormat::Json, true);
    assert_eq!(fmt, OutputFormat::Json);
    assert!(!warn);
}

#[test]
fn no_flatten_csv_invocation_writes_the_tree_as_json() {
    // `--no-flatten --fmt csv --path=a.c`: the format is promoted, the
    // output file is `a.json`, and the tree itself is written.
    let (fmt, warn) = effective_format(OutputFormat::Csv, true);
    assert!(warn);
    let name = output_file_name(&"a.c".as_bytes().to_vec(), fmt, false);
    assert_eq!(name, "a.json".as_bytes().to_vec());
    let out = plan_output(unit_with_one_function(), &Some("a.c".to_string()), fmt, true, false);
    assert!(matches!(out, FileOutput::Tree(_)));
}

#[test]
fn flattened_csv_yields_rows() {
    let out = plan_output(engine_root(), &Some("a.c".to_string()), OutputFormat::Csv, false, false);
    match out {
        FileOutput::Regular(rows) => {
            assert_eq!(rows.len(), 2);
            assert_eq!(rows[1].name, Some("foo".to_string()));
        },
        _ => panic!("expected regular rows"),
    }
}

#[test]
fn flattened_extended_csv_yields_extended_rows() {
    let out = plan_output(engine_root(), &Some("a.c".to_string()), OutputFormat::Csv, false, true);
    match out {
        FileOutput::Extended(rows) => assert_eq!(rows.len(), 2),
        _ => panic!("expected extended rows"),
    }
}

#[test]
fn flattened_json_writes_the_tree() {
    let out = plan_output(engine_root(), &Some("a.c".to_string()), OutputFormat::Json, false, false);
    assert!(matches!(out, FileOutput::Tree(_)));
}

fn lone_unit() -> Space {
    Space {
        name: None,
        start_line: 1,
        end_line: 1,
        kind: SpaceKind::Unit,
        metrics: metrics_all(0.0),
        spaces: vec![],
    }
}

#[test]
fn a_file_without_nested_spaces_yields_an_empty_table() {
    // A file with no function definitions still produces its CSV,
    // holding the header line alone.
    let out = plan_output(lone_unit(), &Some("empty.c".to_string()), OutputFormat::Csv, false, false);
    match out {
        FileOutput::Regular(rows) => assert!(rows.is_empty()),
        _ => panic!("expected an empty regular row set"),
    }
    let out = plan_output(lone_unit(), &Some("empty.c".to_string()), OutputFormat::Csv, false, true);
    match out {
        FileOutput::Extended(rows) => assert!(rows.is_empty()),
        _ => panic!("expected an empty extended row set"),
    }
}

#[test]
fn a_file_without_nested_spaces_writes_no_json() {
    let out = plan_output(lone_unit(), &Some("empty.c".to_string()), OutputFormat::Json, false, false);
    assert!(matches!(out, FileOutput::Skip));
}
