use archaeo::flatten::flatten_spaces;
use archaeo::row::FlattenedMetrics;
use archaeo::schema::regular_columns;
use archaeo::space::{
    CognitiveStats, CyclomaticStats, HalsteadStats, LocStats, Metrics, MiStats, NargsStats,
    NexitsStats, NomStats, Space, SpaceKind,
};

fn metrics_all(v: f64) -> Metrics {
    let b = v.to_bits();
    Metrics {
        nargs: NargsStats {
            fn_args: b,
            closure_args: b,
            fn_args_sum: b,
            closure_args_sum: b,
            fn_args_average: b,
            closure_args_average: b,
            nargs_total: b,
            nargs_average: b,
            fn_args_min: b,
            fn_args_max: b,
            closure_args_min: b,
            closure_args_max: b,
        },
        nexits: NexitsStats { exit: b, exit_sum: b, exit_average: b, exit_min: b, exit_max: b },
        cognitive: CognitiveStats {
            cognitive: b,
            cognitive_sum: b,
            cognitive_average: b,
            cognitive_min: b,
            cognitive_max: b,
        },
        cyclomatic: CyclomaticStats {
            cyclomatic: b,
            cyclomatic_sum: b,
            cyclomatic_average: b,
            cyclomatic_min: b,
            cyclomatic_max: b,
        },
        halstead: HalsteadStats {
            u_operators: b,
            operators: b,
            u_operands: b,
            operands: b,
            length: b,
            estimated_program_length: b,
            purity_ratio: b,
            vocabulary: b,
            volume: b,
            difficulty: b,
            level: b,
            effort: b,
            time: b,
            bugs: b,
        },
        loc: LocStats { sloc: b, ploc: b, lloc: b, cloc: b, blank: b },
        nom: NomStats {
            functions: b,
            closures: b,
            total: b,
            functions_min: b,
            functions_max: b,
            closures_min: b,
            closures_max: b,
        },
        mi: MiStats { mi_original: b, mi_sei: b, mi_visual_studio: b },
    }
}

fn sample_rows() -> Vec<FlattenedMetrics> {
    let mut inner = Space {
        name: Some("foo".to_string()),
        start_line: 1,
        end_line: 3,
        kind: SpaceKind::Function,
        metrics: metrics_all(2.5),
        spaces: vec![],
    };
    inner.metrics.halstead.purity_ratio = f64::NAN.to_bits();
    let unit = Space {
        name: None,
        start_line: 1,
        end_line: 3,
        kind: SpaceKind::Unit,
        metrics: metrics_all(1.0),
        spaces: vec![inner],
    };
    let mut rows = Vec::new();
    flatten_spaces(&vec![unit], &Some("a.c".to_string()), &mut rows);
    rows
}

fn cell(bits: u64) -> String {
    format!("{}", f64::from_bits(bits))
}

fn record(r: &FlattenedMetrics) -> Vec<String> {
    vec![
        r.name.clone().unwrap_or_default(),
        r.source_file.clone().unwrap_or_default(),
        r.start_line.to_string(),
        r.end_line.to_string(),
        r.kind.clone(),
        r.parent_name.clone().unwrap_or_default(),
        cell(r.fn_args),
        cell(r.closure_args),
        cell(r.nexits),
        cell(r.cognitive),
        cell(r.cyclomatic),
        cell(r.halstead_n1),
        cell(r.halstead_N1),
        cell(r.halstead_n2),
        cell(r.halstead_N2),
        cell(r.halstead_length),
        cell(r.halstead_estimated_program_length),
        cell(r.halstead_purity_ratio),
        cell(r.halstead_vocabulary),
        cell(r.halstead_volume),
        cell(r.halstead_difficulty),
        cell(r.halstead_level),
        cell(r.halstead_effort),
        cell(r.halstead_time),
        cell(r.halstead_bugs),
        cell(r.loc_sloc),
        cell(r.loc_ploc),
        cell(r.loc_lloc),
        cell(r.loc_cloc),
        cell(r.loc_blank),
        cell(r.nom_functions),
        cell(r.nom_closures),
        cell(r.nom_total),
        cell(r.mi_original),
        cell(r.mi_sei),
        cell(r.mi_visual_studio),
    ]
}

fn render(rows: &[FlattenedMetrics]) -> Vec<u8> {
    let mut w = csv::WriterBuilder::new().from_writer(Vec::new());
    w.write_record(regular_columns()).unwrap();
    for r in rows {
        w.write_record(record(r)).unwrap();
    }
    w.into_inner().unwrap()
}

#[test]
fn rendering_twice_gives_identical_bytes() {
    let rows = sample_rows();
    let one = render(&rows);
    let two = render(&sample_rows());
    assert_eq!(one, two);
}

#[test]
fn csv_reparsed_and_reserialized_gives_identical_bytes() {
    let bytes = render(&sample_rows());
    let mut reader = csv::ReaderBuilder::new().has_headers(false).from_reader(bytes.as_slice());
    let mut w = csv::WriterBuilder::new().from_writer(Vec::new());
    for rec in reader.records() {
        w.write_record(&rec.unwrap()).unwrap();
    }
    let again = w.into_inner().unwrap();
    assert_eq!(bytes, again);
}

#[test]
fn sanitised_nan_cell_is_zero_not_nan() {
    let rows = sample_rows();
    // The function row carried a NaN purity ratio into the builder.
    assert_eq!(rows[1].halstead_purity_ratio, 0u64);
    assert_eq!(cell(rows[1].halstead_purity_ratio), "0");
    let text = String::from_utf8(render(&rows)).unwrap();
    assert!(!text.contains("NaN"));
    assert!(!text.contains("inf"));
}

#[test]
fn row_count_and_header_shape_of_an_empty_flatten() {
    // A file with no function definitions: header only.
    let rows: Vec<FlattenedMetrics> = Vec::new();
    let bytes = render(&rows);
    let text = String::from_utf8(bytes).unwrap();
    assert_eq!(text.lines().count(), 1);
}
