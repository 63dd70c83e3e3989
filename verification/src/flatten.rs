//! The tree flattener: a pre-order walk over a forest of spaces that
//! appends one row per node to a growing row sequence.
//!
//! For each visited space the row builder is handed
//! `parent_name = space.name` — or the sentinel `"no_name_found"` when the
//! name is absent — and the one `source_file` string of the file under
//! analysis. Note that this makes a row's `parent_name` its *own* name,
//! not its parent's; the behaviour is kept deliberately, as the tool has
//! always emitted it.

use vstd::prelude::*;

use crate::row::{
    ext_row_finite, ext_row_values_sanitized, is_ext_row_of, is_row_of, row_finite,
    row_values_sanitized, FlattenedMetrics, FlattenedMetricsExtended,
};
use crate::sanitize::lemma_sanitize_finite;
use crate::space::{
    lemma_preorder_concat, lemma_preorder_one, lemma_preorder_wf, opt_str_view, preorder,
    spec_name_or_sentinel, wf_forest, Space,
};

verus! {

/// Append to `flattened` one regular row per node of the forest, in
/// pre-order: each space's row, then its descendants' rows, then its
/// later siblings'. Rows already in `flattened` are untouched.
pub fn flatten_spaces(
    spaces: &Vec<Space>,
    source_name: &Option<String>,
    flattened: &mut Vec<FlattenedMetrics>,
)
    requires
        source_name.is_some() || spaces@.len() == 0,
    ensures
        final(flattened)@.len() == old(flattened)@.len() + preorder(spaces@).len(),
        forall|k: int|
            0 <= k < old(flattened)@.len() ==> final(flattened)@[k] == old(flattened)@[k],
        forall|k: int|
            0 <= k < preorder(spaces@).len() ==> is_row_of(
                final(flattened)@[old(flattened)@.len() + k],
                preorder(spaces@)[k],
                *source_name,
            ),
    decreases spaces@,
{
    let mut rows: Vec<FlattenedMetrics> = Vec::new();
    for i in 0..spaces.len()
        invariant
            source_name.is_some() || spaces@.len() == 0,
            rows@.len() == preorder(spaces@.take(i as int)).len(),
            forall|k: int|
                0 <= k < rows@.len() ==> is_row_of(
                    rows@[k],
                    preorder(spaces@.take(i as int))[k],
                    *source_name,
                ),
        decreases spaces@.len() - i,
    {
        let ghost top = rows@;
        let space = &spaces[i];
        let parent = match &space.name {
            Some(n) => Some(n.clone()),
            None => Some("no_name_found".to_owned()),
        };
        proof {
            assert(opt_str_view(parent) == Some(spec_name_or_sentinel(*space)));
        }
        let src = Some(source_name.as_ref().unwrap().clone());
        proof {
            assert(src == *source_name);
        }
        let row = FlattenedMetrics::from_space(space, parent, src);
        proof {
            assert(is_row_of(row, spaces@[i as int], *source_name));
        }
        rows.push(row);
        let ghost before_children = rows@;
        flatten_spaces(&space.spaces, source_name, &mut rows);
        proof {
            let prefix = spaces@.take(i as int);
            let one = seq![spaces@[i as int]];
            let next = spaces@.take(i as int + 1);
            let children = spaces@[i as int].spaces@;
            assert(next =~= prefix + one);
            lemma_preorder_concat(prefix, one);
            lemma_preorder_one(spaces@[i as int]);
            let pl = preorder(prefix).len() as int;
            assert(preorder(next) =~= preorder(prefix) + one + preorder(children));
            assert(before_children == top.push(row));
            assert forall|k: int| 0 <= k < rows@.len() implies is_row_of(
                rows@[k],
                preorder(next)[k],
                *source_name,
            ) by {
                if k < pl {
                    assert(is_row_of(top[k], preorder(prefix)[k], *source_name));
                    assert(rows@[k] == before_children[k]);
                    assert(before_children[k] == top[k]);
                    assert(preorder(next)[k] == preorder(prefix)[k]);
                } else if k == pl {
                    assert(rows@[k] == before_children[k]);
                    assert(before_children[pl] == row);
                    assert(preorder(next)[k] == spaces@[i as int]);
                } else {
                    assert(is_row_of(
                        rows@[before_children.len() + (k - pl - 1)],
                        preorder(children)[k - pl - 1],
                        *source_name,
                    ));
                    assert(preorder(next)[k] == preorder(children)[k - pl - 1]);
                }
            }
        }
    }
    proof {
        assert(spaces@.take(spaces@.len() as int) =~= spaces@);
    }
    flattened.append(&mut rows);
}

/// The extended counterpart of [`flatten_spaces`]: one extended row per
/// node of the forest, in pre-order.
pub fn flatten_spaces_extended(
    spaces: &Vec<Space>,
    source_name: &Option<String>,
    flattened: &mut Vec<FlattenedMetricsExtended>,
)
    requires
        source_name.is_some() || spaces@.len() == 0,
    ensures
        final(flattened)@.len() == old(flattened)@.len() + preorder(spaces@).len(),
        forall|k: int|
            0 <= k < old(flattened)@.len() ==> final(flattened)@[k] == old(flattened)@[k],
        forall|k: int|
            0 <= k < preorder(spaces@).len() ==> is_ext_row_of(
                final(flattened)@[old(flattened)@.len() + k],
                preorder(spaces@)[k],
                *source_name,
            ),
    decreases spaces@,
{
    let mut rows: Vec<FlattenedMetricsExtended> = Vec::new();
    for i in 0..spaces.len()
        invariant
            source_name.is_some() || spaces@.len() == 0,
            rows@.len() == preorder(spaces@.take(i as int)).len(),
            forall|k: int|
                0 <= k < rows@.len() ==> is_ext_row_of(
                    rows@[k],
                    preorder(spaces@.take(i as int))[k],
                    *source_name,
                ),
        decreases spaces@.len() - i,
    {
        let ghost top = rows@;
        let space = &spaces[i];
        let parent = match &space.name {
            Some(n) => Some(n.clone()),
            None => Some("no_name_found".to_owned()),
        };
        proof {
            assert(opt_str_view(parent) == Some(spec_name_or_sentinel(*space)));
        }
        let src = Some(source_name.as_ref().unwrap().clone());
        proof {
            assert(src == *source_name);
        }
        let row = FlattenedMetricsExtended::from_space(space, parent, src);
        proof {
            assert(is_ext_row_of(row, spaces@[i as int], *source_name));
        }
        rows.push(row);
        let ghost before_children = rows@;
        flatten_spaces_extended(&space.spaces, source_name, &mut rows);
        proof {
            let prefix = spaces@.take(i as int);
            let one = seq![spaces@[i as int]];
            let next = spaces@.take(i as int + 1);
            let children = spaces@[i as int].spaces@;
            assert(next =~= prefix + one);
            lemma_preorder_concat(prefix, one);
            lemma_preorder_one(spaces@[i as int]);
            let pl = preorder(prefix).len() as int;
            assert(preorder(next) =~= preorder(prefix) + one + preorder(children));
            assert(before_children == top.push(row));
            assert forall|k: int| 0 <= k < rows@.len() implies is_ext_row_of(
                rows@[k],
                preorder(next)[k],
                *source_name,
            ) by {
                if k < pl {
                    assert(is_ext_row_of(top[k], preorder(prefix)[k], *source_name));
                    assert(rows@[k] == before_children[k]);
                    assert(before_children[k] == top[k]);
                    assert(preorder(next)[k] == preorder(prefix)[k]);
                } else if k == pl {
                    assert(rows@[k] == before_children[k]);
                    assert(before_children[pl] == row);
                    assert(preorder(next)[k] == spaces@[i as int]);
                } else {
                    assert(is_ext_row_of(
                        rows@[before_children.len() + (k - pl - 1)],
                        preorder(children)[k - pl - 1],
                        *source_name,
                    ));
                    assert(preorder(next)[k] == preorder(children)[k - pl - 1]);
                }
            }
        }
    }
    proof {
        assert(spaces@.take(spaces@.len() as int) =~= spaces@);
    }
    flattened.append(&mut rows);
}

/// Every row of a flattened output is finite in every metric column.
pub proof fn lemma_rows_finite(rows: Seq<FlattenedMetrics>, spaces: Seq<Space>, src: Option<String>)
    requires
        rows.len() == preorder(spaces).len(),
        forall|k: int|
            0 <= k < rows.len() ==> #[trigger] is_row_of(rows[k], preorder(spaces)[k], src),
    ensures
        forall|k: int| 0 <= k < rows.len() ==> #[trigger] row_finite(rows[k]),
{
    broadcast use lemma_sanitize_finite;

    assert forall|k: int| 0 <= k < rows.len() implies #[trigger] row_finite(rows[k]) by {
        assert(is_row_of(rows[k], preorder(spaces)[k], src));
        assert(row_values_sanitized(rows[k], preorder(spaces)[k].metrics));
    }
}

/// In the output for a well-formed forest every row's line span is
/// ordered: `start_line <= end_line`.
pub proof fn lemma_rows_lines_ordered(
    rows: Seq<FlattenedMetrics>,
    spaces: Seq<Space>,
    src: Option<String>,
)
    requires
        wf_forest(spaces),
        rows.len() == preorder(spaces).len(),
        forall|k: int|
            0 <= k < rows.len() ==> #[trigger] is_row_of(rows[k], preorder(spaces)[k], src),
    ensures
        forall|k: int| 0 <= k < rows.len() ==> #[trigger] rows[k].start_line <= rows[k].end_line,
{
    lemma_preorder_wf(spaces);
    assert forall|k: int|
        0 <= k < rows.len() implies #[trigger] rows[k].start_line <= rows[k].end_line by {
        assert(is_row_of(rows[k], preorder(spaces)[k], src));
        assert(preorder(spaces)[k].start_line <= preorder(spaces)[k].end_line);
    }
}

/// All rows of one flattened output name the same source file.
pub proof fn lemma_rows_share_source(
    rows: Seq<FlattenedMetrics>,
    spaces: Seq<Space>,
    src: Option<String>,
)
    requires
        rows.len() == preorder(spaces).len(),
        forall|k: int|
            0 <= k < rows.len() ==> #[trigger] is_row_of(rows[k], preorder(spaces)[k], src),
    ensures
        forall|k: int| 0 <= k < rows.len() ==> (#[trigger] rows[k]).source_file == src,
        forall|j: int, k: int|
            0 <= j < rows.len() && 0 <= k < rows.len() ==> (#[trigger] rows[j]).source_file == (
            #[trigger] rows[k]).source_file,
{
    assert forall|k: int| 0 <= k < rows.len() implies (#[trigger] rows[k]).source_file == src by {
        assert(is_row_of(rows[k], preorder(spaces)[k], src));
    }
}

/// The extended counterpart of [`lemma_rows_lines_ordered`].
pub proof fn lemma_ext_rows_lines_ordered(
    rows: Seq<FlattenedMetricsExtended>,
    spaces: Seq<Space>,
    src: Option<String>,
)
    requires
        wf_forest(spaces),
        rows.len() == preorder(spaces).len(),
        forall|k: int|
            0 <= k < rows.len() ==> #[trigger] is_ext_row_of(rows[k], preorder(spaces)[k], src),
    ensures
        forall|k: int| 0 <= k < rows.len() ==> #[trigger] rows[k].start_line <= rows[k].end_line,
{
    lemma_preorder_wf(spaces);
    assert forall|k: int|
        0 <= k < rows.len() implies #[trigger] rows[k].start_line <= rows[k].end_line by {
        assert(is_ext_row_of(rows[k], preorder(spaces)[k], src));
        assert(preorder(spaces)[k].start_line <= preorder(spaces)[k].end_line);
    }
}

/// The extended counterpart of [`lemma_rows_share_source`].
pub proof fn lemma_ext_rows_share_source(
    rows: Seq<FlattenedMetricsExtended>,
    spaces: Seq<Space>,
    src: Option<String>,
)
    requires
        rows.len() == preorder(spaces).len(),
        forall|k: int|
            0 <= k < rows.len() ==> #[trigger] is_ext_row_of(rows[k], preorder(spaces)[k], src),
    ensures
        forall|k: int| 0 <= k < rows.len() ==> (#[trigger] rows[k]).source_file == src,
        forall|j: int, k: int|
            0 <= j < rows.len() && 0 <= k < rows.len() ==> (#[trigger] rows[j]).source_file == (
            #[trigger] rows[k]).source_file,
{
    assert forall|k: int| 0 <= k < rows.len() implies (#[trigger] rows[k]).source_file == src by {
        assert(is_ext_row_of(rows[k], preorder(spaces)[k], src));
    }
}

/// The extended counterpart of [`lemma_rows_finite`].
pub proof fn lemma_ext_rows_finite(
    rows: Seq<FlattenedMetricsExtended>,
    spaces: Seq<Space>,
    src: Option<String>,
)
    requires
        rows.len() == preorder(spaces).len(),
        forall|k: int|
            0 <= k < rows.len() ==> #[trigger] is_ext_row_of(rows[k], preorder(spaces)[k], src),
    ensures
        forall|k: int| 0 <= k < rows.len() ==> #[trigger] ext_row_finite(rows[k]),
{
    broadcast use lemma_sanitize_finite;

    assert forall|k: int| 0 <= k < rows.len() implies #[trigger] ext_row_finite(rows[k]) by {
        assert(is_ext_row_of(rows[k], preorder(spaces)[k], src));
        assert(ext_row_values_sanitized(rows[k], preorder(spaces)[k].metrics));
    }
}

} // verus!
