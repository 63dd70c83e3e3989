//! The two output schemas: the exact column names, in their exact order.
//!
//! Column order and names are part of the tool's external contract: the
//! regular schema opens with the identity block and carries one column per
//! regular metric attribute; the extended schema adds, per family, the
//! aggregates over descendants. Changing either list is a breaking change.

use vstd::prelude::*;

verus! {

/// The names of the regular schema's columns, in order.
pub open spec fn spec_regular_columns() -> Seq<Seq<char>> {
    seq![
        "name"@,
        "source_file"@,
        "start_line"@,
        "end_line"@,
        "kind"@,
        "parent_name"@,
        "fn_args"@,
        "closure_args"@,
        "nexits"@,
        "cognitive"@,
        "cyclomatic"@,
        "halstead_n1"@,
        "halstead_N1"@,
        "halstead_n2"@,
        "halstead_N2"@,
        "halstead_length"@,
        "halstead_estimated_program_length"@,
        "halstead_purity_ratio"@,
        "halstead_vocabulary"@,
        "halstead_volume"@,
        "halstead_difficulty"@,
        "halstead_level"@,
        "halstead_effort"@,
        "halstead_time"@,
        "halstead_bugs"@,
        "loc_sloc"@,
        "loc_ploc"@,
        "loc_lloc"@,
        "loc_cloc"@,
        "loc_blank"@,
        "nom_functions"@,
        "nom_closures"@,
        "nom_total"@,
        "mi_original"@,
        "mi_sei"@,
        "mi_visual_studio"@,
    ]
}

/// The names of the extended schema's columns, in order.
pub open spec fn spec_extended_columns() -> Seq<Seq<char>> {
    seq![
        "name"@,
        "source_file"@,
        "start_line"@,
        "end_line"@,
        "kind"@,
        "parent_name"@,
        "fn_args"@,
        "closure_args"@,
        "nargs_total_functions"@,
        "nargs_total_closures"@,
        "nargs_average_functions"@,
        "nargs_average_closures"@,
        "nargs_total"@,
        "nargs_average"@,
        "nargs_functions_min"@,
        "nargs_functions_max"@,
        "nargs_closures_min"@,
        "nargs_closures_max"@,
        "nexits"@,
        "nexits_sum"@,
        "nexits_average"@,
        "nexits_min"@,
        "nexits_max"@,
        "cognitive"@,
        "cognitive_sum"@,
        "cognitive_average"@,
        "cognitive_min"@,
        "cognitive_max"@,
        "cyclomatic"@,
        "cyclomatic_sum"@,
        "cyclomatic_average"@,
        "cyclomatic_min"@,
        "cyclomatic_max"@,
        "halstead_n1"@,
        "halstead_N1"@,
        "halstead_n2"@,
        "halstead_N2"@,
        "halstead_length"@,
        "halstead_estimated_program_length"@,
        "halstead_purity_ratio"@,
        "halstead_vocabulary"@,
        "halstead_volume"@,
        "halstead_difficulty"@,
        "halstead_level"@,
        "halstead_effort"@,
        "halstead_time"@,
        "halstead_bugs"@,
        "loc_sloc"@,
        "loc_ploc"@,
        "loc_lloc"@,
        "loc_cloc"@,
        "loc_blank"@,
        "nom_functions"@,
        "nom_closures"@,
        "nom_total"@,
        "nom_functions_min"@,
        "nom_functions_max"@,
        "nom_closures_min"@,
        "nom_closures_max"@,
        "mi_original"@,
        "mi_sei"@,
        "mi_visual_studio"@,
    ]
}

/// The regular schema's column names: thirty-six columns, the identity
/// block first, exactly as [`spec_regular_columns`] lists them.
pub fn regular_columns() -> (cols: Vec<&'static str>)
    ensures
        cols@.len() == spec_regular_columns().len(),
        forall|i: int| 0 <= i < cols@.len() ==> cols@[i]@ == #[trigger] spec_regular_columns()[i],
{
    let cols: Vec<&'static str> = vec![
        "name",
        "source_file",
        "start_line",
        "end_line",
        "kind",
        "parent_name",
        "fn_args",
        "closure_args",
        "nexits",
        "cognitive",
        "cyclomatic",
        "halstead_n1",
        "halstead_N1",
        "halstead_n2",
        "halstead_N2",
        "halstead_length",
        "halstead_estimated_program_length",
        "halstead_purity_ratio",
        "halstead_vocabulary",
        "halstead_volume",
        "halstead_difficulty",
        "halstead_level",
        "halstead_effort",
        "halstead_time",
        "halstead_bugs",
        "loc_sloc",
        "loc_ploc",
        "loc_lloc",
        "loc_cloc",
        "loc_blank",
        "nom_functions",
        "nom_closures",
        "nom_total",
        "mi_original",
        "mi_sei",
        "mi_visual_studio",
    ];
    cols
}

/// The extended schema's column names: sixty-two columns, exactly as
/// [`spec_extended_columns`] lists them.
pub fn extended_columns() -> (cols: Vec<&'static str>)
    ensures
        cols@.len() == spec_extended_columns().len(),
        forall|i: int| 0 <= i < cols@.len() ==> cols@[i]@ == #[trigger] spec_extended_columns()[i],
{
    let cols: Vec<&'static str> = vec![
        "name",
        "source_file",
        "start_line",
        "end_line",
        "kind",
        "parent_name",
        "fn_args",
        "closure_args",
        "nargs_total_functions",
        "nargs_total_closures",
        "nargs_average_functions",
        "nargs_average_closures",
        "nargs_total",
        "nargs_average",
        "nargs_functions_min",
        "nargs_functions_max",
        "nargs_closures_min",
        "nargs_closures_max",
        "nexits",
        "nexits_sum",
        "nexits_average",
        "nexits_min",
        "nexits_max",
        "cognitive",
        "cognitive_sum",
        "cognitive_average",
        "cognitive_min",
        "cognitive_max",
        "cyclomatic",
        "cyclomatic_sum",
        "cyclomatic_average",
        "cyclomatic_min",
        "cyclomatic_max",
        "halstead_n1",
        "halstead_N1",
        "halstead_n2",
        "halstead_N2",
        "halstead_length",
        "halstead_estimated_program_length",
        "halstead_purity_ratio",
        "halstead_vocabulary",
        "halstead_volume",
        "halstead_difficulty",
        "halstead_level",
        "halstead_effort",
        "halstead_time",
        "halstead_bugs",
        "loc_sloc",
        "loc_ploc",
        "loc_lloc",
        "loc_cloc",
        "loc_blank",
        "nom_functions",
        "nom_closures",
        "nom_total",
        "nom_functions_min",
        "nom_functions_max",
        "nom_closures_min",
        "nom_closures_max",
        "mi_original",
        "mi_sei",
        "mi_visual_studio",
    ];
    cols
}

/// Column names joined into one header line, a comma between neighbours.
pub open spec fn spec_comma_join(cols: Seq<Seq<char>>) -> Seq<char>
    decreases cols.len(),
{
    if cols.len() == 0 {
        Seq::empty()
    } else if cols.len() == 1 {
        cols[0]
    } else {
        spec_comma_join(cols.drop_last()) + ","@ + cols.last()
    }
}

/// Join column names into a CSV header line, a comma between neighbours.
pub fn comma_join(cols: &Vec<&str>) -> (h: String)
    ensures
        h@ == spec_comma_join(cols@.map_values(|s: &str| s@)),
{
    let ghost views = cols@.map_values(|s: &str| s@);
    let mut h = String::new();
    for i in 0..cols.len()
        invariant
            views == cols@.map_values(|s: &str| s@),
            h@ == spec_comma_join(views.take(i as int)),
        decreases cols@.len() - i,
    {
        if i > 0 {
            h.append(",");
        }
        h.append(cols[i]);
        proof {
            let next = views.take(i as int + 1);
            assert(next.drop_last() =~= views.take(i as int));
            assert(next.last() == views[i as int]);
            if i == 0 {
                assert(next.len() == 1);
                assert(h@ == views[0]);
            }
        }
    }
    proof {
        assert(views.take(cols@.len() as int) =~= views);
    }
    h
}

/// A cell that needs no quoting: free of separators and quotes, so it
/// serialises as itself.
pub open spec fn plain_cell(c: Seq<char>) -> bool {
    forall|i: int|
        0 <= i < c.len() ==> c[i] != ',' && c[i] != '"' && c[i] != '\n' && c[i] != '\r'
}

/// A line cut back into its cells at every comma. The empty line is one
/// empty cell; a trailing comma opens one more empty cell.
pub open spec fn spec_split_commas(s: Seq<char>) -> Seq<Seq<char>>
    decreases s.len(),
{
    if s.len() == 0 {
        seq![Seq::<char>::empty()]
    } else {
        let parts = spec_split_commas(s.drop_last());
        if s.last() == ',' {
            parts.push(Seq::<char>::empty())
        } else {
            parts.update(parts.len() - 1, parts.last().push(s.last()))
        }
    }
}

/// A line never splits into nothing: there is always at least one cell.
proof fn lemma_split_nonempty(s: Seq<char>)
    ensures
        spec_split_commas(s).len() >= 1,
    decreases s.len(),
{
    if s.len() != 0 {
        lemma_split_nonempty(s.drop_last());
    }
}

/// A single comma-free cell splits to itself alone.
proof fn lemma_split_plain(c: Seq<char>)
    requires
        plain_cell(c),
    ensures
        spec_split_commas(c) == seq![c],
    decreases c.len(),
{
    if c.len() == 0 {
        assert(spec_split_commas(c) =~~= seq![c]);
    } else {
        assert(plain_cell(c.drop_last()));
        lemma_split_plain(c.drop_last());
        assert(c.last() != ',');
        assert(seq![c.drop_last()].update(0, c.drop_last().push(c.last())) =~~= seq![c]);
    }
}

/// Appending a comma and a comma-free cell to a line appends one cell to
/// its split.
proof fn lemma_split_append(a: Seq<char>, b: Seq<char>)
    requires
        plain_cell(b),
    ensures
        spec_split_commas(a + seq![','] + b) == spec_split_commas(a).push(b),
    decreases b.len(),
{
    if b.len() == 0 {
        let s = a + seq![','] + b;
        assert(s =~= a.push(','));
        assert(s.drop_last() =~= a);
        assert(spec_split_commas(s) =~~= spec_split_commas(a).push(b));
    } else {
        let s = a + seq![','] + b;
        assert(s.drop_last() =~= a + seq![','] + b.drop_last());
        assert(plain_cell(b.drop_last()));
        lemma_split_append(a, b.drop_last());
        lemma_split_nonempty(a);
        assert(s.last() == b.last());
        assert(s.last() != ',');
        assert(b.drop_last().push(b.last()) =~= b);
        assert(spec_split_commas(s) =~~= spec_split_commas(a).push(b));
    }
}

/// A record line joined from comma-free cells splits back to exactly
/// those cells: parsing a line this writer produced recovers the cells,
/// so serialising them again reproduces the line byte for byte.
pub proof fn lemma_split_comma_join(cells: Seq<Seq<char>>)
    requires
        cells.len() >= 1,
        forall|i: int| 0 <= i < cells.len() ==> plain_cell(#[trigger] cells[i]),
    ensures
        spec_split_commas(spec_comma_join(cells)) == cells,
    decreases cells.len(),
{
    reveal_strlit(",");
    assert(","@ =~= seq![',']);
    if cells.len() == 1 {
        lemma_split_plain(cells[0]);
        assert(spec_split_commas(spec_comma_join(cells)) =~~= cells);
    } else {
        lemma_split_comma_join(cells.drop_last());
        assert(spec_comma_join(cells) == spec_comma_join(cells.drop_last()) + seq![',']
            + cells.last());
        lemma_split_append(spec_comma_join(cells.drop_last()), cells.last());
        assert(cells.drop_last().push(cells.last()) =~~= cells);
    }
}

/// The regular header line parses back to exactly the thirty-six column
/// names: no column name needs quoting, so the header round-trips.
pub proof fn lemma_regular_header_round_trip()
    ensures
        spec_split_commas(spec_comma_join(spec_regular_columns())) == spec_regular_columns(),
{
    reveal_strlit("name");
    reveal_strlit("source_file");
    reveal_strlit("start_line");
    reveal_strlit("end_line");
    reveal_strlit("kind");
    reveal_strlit("parent_name");
    reveal_strlit("fn_args");
    reveal_strlit("closure_args");
    reveal_strlit("nexits");
    reveal_strlit("cognitive");
    reveal_strlit("cyclomatic");
    reveal_strlit("halstead_n1");
    reveal_strlit("halstead_N1");
    reveal_strlit("halstead_n2");
    reveal_strlit("halstead_N2");
    reveal_strlit("halstead_length");
    reveal_strlit("halstead_estimated_program_length");
    reveal_strlit("halstead_purity_ratio");
    reveal_strlit("halstead_vocabulary");
    reveal_strlit("halstead_volume");
    reveal_strlit("halstead_difficulty");
    reveal_strlit("halstead_level");
    reveal_strlit("halstead_effort");
    reveal_strlit("halstead_time");
    reveal_strlit("halstead_bugs");
    reveal_strlit("loc_sloc");
    reveal_strlit("loc_ploc");
    reveal_strlit("loc_lloc");
    reveal_strlit("loc_cloc");
    reveal_strlit("loc_blank");
    reveal_strlit("nom_functions");
    reveal_strlit("nom_closures");
    reveal_strlit("nom_total");
    reveal_strlit("mi_original");
    reveal_strlit("mi_sei");
    reveal_strlit("mi_visual_studio");
    assert(plain_cell("name"@));
    assert(plain_cell("source_file"@));
    assert(plain_cell("start_line"@));
    assert(plain_cell("end_line"@));
    assert(plain_cell("kind"@));
    assert(plain_cell("parent_name"@));
    assert(plain_cell("fn_args"@));
    assert(plain_cell("closure_args"@));
    assert(plain_cell("nexits"@));
    assert(plain_cell("cognitive"@));
    assert(plain_cell("cyclomatic"@));
    assert(plain_cell("halstead_n1"@));
    assert(plain_cell("halstead_N1"@));
    assert(plain_cell("halstead_n2"@));
    assert(plain_cell("halstead_N2"@));
    assert(plain_cell("halstead_length"@));
    assert(plain_cell("halstead_estimated_program_length"@));
    assert(plain_cell("halstead_purity_ratio"@));
    assert(plain_cell("halstead_vocabulary"@));
    assert(plain_cell("halstead_volume"@));
    assert(plain_cell("halstead_difficulty"@));
    assert(plain_cell("halstead_level"@));
    assert(plain_cell("halstead_effort"@));
    assert(plain_cell("halstead_time"@));
    assert(plain_cell("halstead_bugs"@));
    assert(plain_cell("loc_sloc"@));
    assert(plain_cell("loc_ploc"@));
    assert(plain_cell("loc_lloc"@));
    assert(plain_cell("loc_cloc"@));
    assert(plain_cell("loc_blank"@));
    assert(plain_cell("nom_functions"@));
    assert(plain_cell("nom_closures"@));
    assert(plain_cell("nom_total"@));
    assert(plain_cell("mi_original"@));
    assert(plain_cell("mi_sei"@));
    assert(plain_cell("mi_visual_studio"@));
    assert forall|i: int|
        0 <= i < spec_regular_columns().len() implies plain_cell(
        #[trigger] spec_regular_columns()[i],
    ) by {
        assert(spec_regular_columns().len() == 36);
    }
    lemma_split_comma_join(spec_regular_columns());
}

/// The header line of the regular schema.
pub fn regular_csv_header() -> (h: String)
    ensures
        h@ == spec_comma_join(spec_regular_columns()),
{
    let cols = regular_columns();
    let ghost views = cols@.map_values(|s: &str| s@);
    proof {
        assert(views =~= spec_regular_columns());
    }
    comma_join(&cols)
}

/// The header line of the extended schema.
pub fn extended_csv_header() -> (h: String)
    ensures
        h@ == spec_comma_join(spec_extended_columns()),
{
    let cols = extended_columns();
    let ghost views = cols@.map_values(|s: &str| s@);
    proof {
        assert(views =~= spec_extended_columns());
    }
    comma_join(&cols)
}

} // verus!
