use archaeo::flatten::{flatten_spaces, flatten_spaces_extended};
use archaeo::row::{FlattenedMetrics, FlattenedMetricsExtended};
use archaeo::space::{
    CognitiveStats, CyclomaticStats, HalsteadStats, LocStats, Metrics, MiStats, NargsStats,
    NexitsStats, NomStats, Space, SpaceKind,
};

fn metrics_all(v: f64) -> Metrics {
    let b = v.to_bits();
    Metrics {
        nargs: NargsStats {
            fn_args: b,
            closure_args: b,
            fn_args_sum: b,
            closure_args_sum: b,
            fn_args_average: b,
            closure_args_average: b,
            nargs_total: b,
            nargs_average: b,
            fn_args_min: b,
            fn_args_max: b,
            closure_args_min: b,
            closure_args_max: b,
        },
        nexits: NexitsStats { exit: b, exit_sum: b, exit_average: b, exit_min: b, exit_max: b },
        cognitive: CognitiveStats {
            cognitive: b,
            cognitive_sum: b,
            cognitive_average: b,
            cognitive_min: b,
            cognitive_max: b,
        },
        cyclomatic: CyclomaticStats {
            cyclomatic: b,
            cyclomatic_sum: b,
            cyclomatic_average: b,
            cyclomatic_min: b,
            cyclomatic_max: b,
        },
        halstead: HalsteadStats {
            u_operators: b,
            operators: b,
            u_operands: b,
            operands: b,
            length: b,
            estimated_program_length: b,
            purity_ratio: b,
            vocabulary: b,
            volume: b,
            difficulty: b,
            level: b,
            effort: b,
            time: b,
            bugs: b,
        },
        loc: LocStats { sloc: b, ploc: b, lloc: b, cloc: b, blank: b },
        nom: NomStats {
            functions: b,
            closures: b,
            total: b,
            functions_min: b,
            functions_max: b,
            closures_min: b,
            closures_max: b,
        },
        mi: MiStats { mi_original: b, mi_sei: b, mi_visual_studio: b },
    }
}

fn space(name: Option<&str>, kind: SpaceKind, lines: (usize, usize), children: Vec<Space>) -> Space {
    Space {
        name: name.map(|n| n.to_string()),
        start_line: lines.0,
        end_line: lines.1,
        kind,
        metrics: metrics_all(1.0),
        spaces: children,
    }
}

fn flatten(forest: Vec<Space>, src: &str) -> Vec<FlattenedMetrics> {
    let mut rows = Vec::new();
    flatten_spaces(&forest, &Some(src.to_string()), &mut rows);
    rows
}

#[test]
fn single_function_file_gives_unit_and_function_rows() {
    // One file `a.c` holding one function `foo` at lines 1..=3: the
    // flattened forest holds the unit space with `foo` nested in it.
    let foo = space(Some("foo"), SpaceKind::Function, (1, 3), vec![]);
    let unit = space(None, SpaceKind::Unit, (1, 3), vec![foo]);
    let rows = flatten(vec![unit], "a.c");
    assert_eq!(rows.len(), 2);
    assert_eq!(rows[0].name, None);
    assert_eq!(rows[0].kind, "unit");
    assert_eq!(rows[0].parent_name, Some("no_name_found".to_string()));
    assert_eq!(rows[1].name, Some("foo".to_string()));
    assert_eq!(rows[1].kind, "function");
    // The parent-name hint is the space's own name: a self-reference.
    assert_eq!(rows[1].parent_name, Some("foo".to_string()));
    assert_eq!(rows[1].start_line, 1);
    assert_eq!(rows[1].end_line, 3);
    for r in &rows {
        assert_eq!(r.source_file, Some("a.c".to_string()));
    }
}

#[test]
fn rows_come_in_preorder() {
    let c = space(Some("c"), SpaceKind::Function, (2, 3), vec![]);
    let a = space(Some("a"), SpaceKind::Function, (1, 4), vec![c]);
    let b = space(Some("b"), SpaceKind::Function, (5, 6), vec![]);
    let rows = flatten(vec![a, b], "t.cpp");
    let names: Vec<_> = rows.iter().map(|r| r.name.clone().unwrap()).collect();
    assert_eq!(names, vec!["a", "c", "b"]);
}

#[test]
fn row_count_equals_node_count() {
    let tree = space(
        None,
        SpaceKind::Unit,
        (1, 10),
        vec![
            space(Some("f"), SpaceKind::Function, (1, 4), vec![space(
                Some("g"),
                SpaceKind::Function,
                (2, 3),
                vec![],
            )]),
            space(Some("h"), SpaceKind::Function, (5, 9), vec![]),
        ],
    );
    let rows = flatten(vec![tree], "x.h");
    assert_eq!(rows.len(), 4);
}

#[test]
fn empty_forest_gives_no_rows() {
    let rows = flatten(vec![], "empty.c");
    assert!(rows.is_empty());
}

#[test]
fn empty_forest_needs_no_source_name() {
    let mut rows: Vec<FlattenedMetrics> = Vec::new();
    flatten_spaces(&vec![], &None, &mut rows);
    assert!(rows.is_empty());
    let mut ext: Vec<FlattenedMetricsExtended> = Vec::new();
    flatten_spaces_extended(&vec![], &None, &mut ext);
    assert!(ext.is_empty());
}

#[test]
fn nan_purity_ratio_is_sanitised_to_zero() {
    let mut s = space(Some("f"), SpaceKind::Function, (1, 2), vec![]);
    s.metrics.halstead.purity_ratio = f64::NAN.to_bits();
    s.metrics.halstead.difficulty = f64::INFINITY.to_bits();
    let rows = flatten(vec![s], "nan.c");
    assert_eq!(rows[0].halstead_purity_ratio, 0u64);
    assert_eq!(f64::from_bits(rows[0].halstead_purity_ratio), 0.0);
    assert_eq!(rows[0].halstead_difficulty, 0u64);
    // An untouched finite column passes through.
    assert_eq!(f64::from_bits(rows[0].halstead_volume), 1.0);
}

#[test]
fn every_metric_column_is_finite() {
    let mut s = space(Some("f"), SpaceKind::Function, (1, 2), vec![]);
    s.metrics = metrics_all(f64::NAN);
    let rows = flatten(vec![s], "nan.c");
    let r = &rows[0];
    for v in [
        r.fn_args,
        r.closure_args,
        r.nexits,
        r.cognitive,
        r.cyclomatic,
        r.halstead_n1,
        r.halstead_N1,
        r.halstead_n2,
        r.halstead_N2,
        r.halstead_length,
        r.halstead_estimated_program_length,
        r.halstead_purity_ratio,
        r.halstead_vocabulary,
        r.halstead_volume,
        r.halstead_difficulty,
        r.halstead_level,
        r.halstead_effort,
        r.halstead_time,
        r.halstead_bugs,
        r.loc_sloc,
        r.loc_ploc,
        r.loc_lloc,
        r.loc_cloc,
        r.loc_blank,
        r.nom_functions,
        r.nom_closures,
        r.nom_total,
        r.mi_original,
        r.mi_sei,
        r.mi_visual_studio,
    ] {
        assert!(f64::from_bits(v).is_finite());
    }
}

#[test]
fn lines_stay_ordered_in_rows() {
    let tree = space(Some("f"), SpaceKind::Function, (3, 9), vec![space(
        Some("g"),
        SpaceKind::Function,
        (4, 7),
        vec![],
    )]);
    let rows = flatten(vec![tree], "l.cc");
    for r in &rows {
        assert!(r.start_line <= r.end_line);
    }
}

#[test]
fn extended_rows_carry_aggregates_and_stay_ordered() {
    let mut s = space(Some("f"), SpaceKind::Function, (1, 8), vec![]);
    s.metrics.nexits.exit_min = 1.0f64.to_bits();
    s.metrics.nexits.exit_average = 2.5f64.to_bits();
    s.metrics.nexits.exit_max = 4.0f64.to_bits();
    let mut rows: Vec<FlattenedMetricsExtended> = Vec::new();
    flatten_spaces_extended(&vec![s], &Some("e.cpp".to_string()), &mut rows);
    assert_eq!(rows.len(), 1);
    let r = &rows[0];
    let min = f64::from_bits(r.nexits_min);
    let avg = f64::from_bits(r.nexits_average);
    let max = f64::from_bits(r.nexits_max);
    assert!(min <= avg && avg <= max);
    assert_eq!(r.source_file, Some("e.cpp".to_string()));
}

#[test]
fn extended_rows_sanitise_nan_aggregates() {
    let mut s = space(Some("f"), SpaceKind::Function, (1, 8), vec![]);
    s.metrics.nargs.fn_args_average = f64::NAN.to_bits();
    let mut rows: Vec<FlattenedMetricsExtended> = Vec::new();
    flatten_spaces_extended(&vec![s], &Some("e.cpp".to_string()), &mut rows);
    assert_eq!(rows[0].nargs_average_functions, 0u64);
}
