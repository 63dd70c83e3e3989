//! The space tree reported by the analysis engine.
//!
//! A *space* is a lexical scope of a source file — the translation unit,
//! a function, a closure, a class, ... — together with its metric bundle
//! and its nested spaces, in the order the engine reports them. The tree
//! is read-only to this library; every metric value is held as the bit
//! pattern of an IEEE 754 binary64 number (see [`crate::sanitize`]).

use vstd::prelude::*;

verus! {

/// The kind of a lexical space, as the engine tags it.
#[derive(Clone, Copy, Debug, PartialEq, Eq, Structural)]
pub enum SpaceKind {
    Unknown,
    Function,
    Class,
    Struct,
    Trait,
    Impl,
    Unit,
    Namespace,
    Interface,
}

/// The short human label of a space kind, as it appears in a row.
pub open spec fn spec_kind_label(k: SpaceKind) -> Seq<char> {
    match k {
        SpaceKind::Unknown => "unknown"@,
        SpaceKind::Function => "function"@,
        SpaceKind::Class => "class"@,
        SpaceKind::Struct => "struct"@,
        SpaceKind::Trait => "trait"@,
        SpaceKind::Impl => "impl"@,
        SpaceKind::Unit => "unit"@,
        SpaceKind::Namespace => "namespace"@,
        SpaceKind::Interface => "interface"@,
    }
}

/// Render a space kind as its short human label.
pub fn kind_label(k: SpaceKind) -> (r: &'static str)
    ensures
        r@ == spec_kind_label(k),
{
    match k {
        SpaceKind::Unknown => "unknown",
        SpaceKind::Function => "function",
        SpaceKind::Class => "class",
        SpaceKind::Struct => "struct",
        SpaceKind::Trait => "trait",
        SpaceKind::Impl => "impl",
        SpaceKind::Unit => "unit",
        SpaceKind::Namespace => "namespace",
        SpaceKind::Interface => "interface",
    }
}

/// Number-of-arguments measurements of one space.
#[derive(Clone, Copy, Debug, PartialEq, Eq, Structural)]
pub struct NargsStats {
    pub fn_args: u64,
    pub closure_args: u64,
    pub fn_args_sum: u64,
    pub closure_args_sum: u64,
    pub fn_args_average: u64,
    pub closure_args_average: u64,
    pub nargs_total: u64,
    pub nargs_average: u64,
    pub fn_args_min: u64,
    pub fn_args_max: u64,
    pub closure_args_min: u64,
    pub closure_args_max: u64,
}

/// Number-of-exits measurements of one space.
#[derive(Clone, Copy, Debug, PartialEq, Eq, Structural)]
pub struct NexitsStats {
    pub exit: u64,
    pub exit_sum: u64,
    pub exit_average: u64,
    pub exit_min: u64,
    pub exit_max: u64,
}

/// Cognitive-complexity measurements of one space.
#[derive(Clone, Copy, Debug, PartialEq, Eq, Structural)]
pub struct CognitiveStats {
    pub cognitive: u64,
    pub cognitive_sum: u64,
    pub cognitive_average: u64,
    pub cognitive_min: u64,
    pub cognitive_max: u64,
}

/// Cyclomatic-complexity measurements of one space.
#[derive(Clone, Copy, Debug, PartialEq, Eq, Structural)]
pub struct CyclomaticStats {
    pub cyclomatic: u64,
    pub cyclomatic_sum: u64,
    pub cyclomatic_average: u64,
    pub cyclomatic_min: u64,
    pub cyclomatic_max: u64,
}

/// Halstead measurements of one space.
#[derive(Clone, Copy, Debug, PartialEq, Eq, Structural)]
pub struct HalsteadStats {
    pub u_operators: u64,
    pub operators: u64,
    pub u_operands: u64,
    pub operands: u64,
    pub length: u64,
    pub estimated_program_length: u64,
    pub purity_ratio: u64,
    pub vocabulary: u64,
    pub volume: u64,
    pub difficulty: u64,
    pub level: u64,
    pub effort: u64,
    pub time: u64,
    pub bugs: u64,
}

/// Lines-of-code measurements of one space.
#[derive(Clone, Copy, Debug, PartialEq, Eq, Structural)]
pub struct LocStats {
    pub sloc: u64,
    pub ploc: u64,
    pub lloc: u64,
    pub cloc: u64,
    pub blank: u64,
}

/// Number-of-methods measurements of one space.
#[derive(Clone, Copy, Debug, PartialEq, Eq, Structural)]
pub struct NomStats {
    pub functions: u64,
    pub closures: u64,
    pub total: u64,
    pub functions_min: u64,
    pub functions_max: u64,
    pub closures_min: u64,
    pub closures_max: u64,
}

/// Maintainability-index measurements of one space.
#[derive(Clone, Copy, Debug, PartialEq, Eq, Structural)]
pub struct MiStats {
    pub mi_original: u64,
    pub mi_sei: u64,
    pub mi_visual_studio: u64,
}

/// The metric bundle of one space: one value per attribute of each of the
/// seven metric families, aggregates over descendants included.
#[derive(Clone, Copy, Debug, PartialEq, Eq, Structural)]
pub struct Metrics {
    pub nargs: NargsStats,
    pub nexits: NexitsStats,
    pub cognitive: CognitiveStats,
    pub cyclomatic: CyclomaticStats,
    pub halstead: HalsteadStats,
    pub loc: LocStats,
    pub nom: NomStats,
    pub mi: MiStats,
}

/// One node of the engine's space tree.
pub struct Space {
    pub name: Option<String>,
    pub start_line: usize,
    pub end_line: usize,
    pub kind: SpaceKind,
    pub metrics: Metrics,
    pub spaces: Vec<Space>,
}

/// The view of an optional identity string.
pub open spec fn opt_str_view(o: Option<String>) -> Option<Seq<char>> {
    match o {
        Some(s) => Some(s@),
        None => None,
    }
}

/// The name a space passes on as the `parent_name` hint of the row built
/// for it: its own name, or the sentinel when it has none.
pub open spec fn spec_name_or_sentinel(s: Space) -> Seq<char> {
    match s.name {
        Some(n) => n@,
        None => "no_name_found"@,
    }
}

/// A forest is well formed when every node's line span is ordered:
/// `start_line <= end_line`, a guarantee the engine gives for real trees.
pub open spec fn wf_forest(spaces: Seq<Space>) -> bool
    decreases spaces,
{
    spaces.len() == 0 || {
        &&& spaces[0].start_line <= spaces[0].end_line
        &&& wf_forest(spaces[0].spaces@)
        &&& wf_forest(spaces.drop_first())
    }
}

/// The nodes of a forest in pre-order: each space, then its descendants,
/// then its later siblings.
pub open spec fn preorder(spaces: Seq<Space>) -> Seq<Space>
    decreases spaces,
{
    if spaces.len() == 0 {
        Seq::empty()
    } else {
        seq![spaces[0]] + preorder(spaces[0].spaces@) + preorder(spaces.drop_first())
    }
}

/// The number of nodes in a forest.
pub open spec fn node_count(spaces: Seq<Space>) -> nat
    decreases spaces,
{
    if spaces.len() == 0 {
        0
    } else {
        1 + node_count(spaces[0].spaces@) + node_count(spaces.drop_first())
    }
}

/// Pre-order listings are built sibling by sibling: the listing of a
/// forest split anywhere is the two listings, one after the other.
pub proof fn lemma_preorder_concat(a: Seq<Space>, b: Seq<Space>)
    ensures
        preorder(a + b) == preorder(a) + preorder(b),
    decreases a,
{
    if a.len() == 0 {
        assert(a + b =~= b);
        assert(preorder(a) + preorder(b) =~= preorder(b));
    } else {
        assert((a + b)[0] == a[0]);
        assert((a + b).drop_first() =~= a.drop_first() + b);
        lemma_preorder_concat(a.drop_first(), b);
        assert(preorder(a + b) =~= preorder(a) + preorder(b));
    }
}

/// A space stands at the head of its own pre-order listing, directly
/// followed by the listing of its children: parents precede children.
pub proof fn lemma_preorder_one(s: Space)
    ensures
        preorder(seq![s]) == seq![s] + preorder(s.spaces@),
{
    let one = seq![s];
    assert(one.len() == 1);
    assert(one[0] == s);
    let rest = one.drop_first();
    assert(rest =~= Seq::<Space>::empty());
    assert(preorder(rest) =~= Seq::<Space>::empty());
    assert(preorder(one) =~= seq![one[0]] + preorder(one[0].spaces@) + preorder(rest));
    assert(preorder(one) =~= one + preorder(s.spaces@));
}

/// A forest holds as many nodes as its pre-order listing has entries.
pub proof fn lemma_preorder_len(spaces: Seq<Space>)
    ensures
        preorder(spaces).len() == node_count(spaces),
    decreases spaces,
{
    if spaces.len() != 0 {
        lemma_preorder_len(spaces[0].spaces@);
        lemma_preorder_len(spaces.drop_first());
    }
}

/// In a well-formed forest every node of the pre-order listing has an
/// ordered line span.
pub proof fn lemma_preorder_wf(spaces: Seq<Space>)
    requires
        wf_forest(spaces),
    ensures
        forall|i: int|
            0 <= i < preorder(spaces).len() ==> #[trigger] preorder(spaces)[i].start_line
                <= preorder(spaces)[i].end_line,
    decreases spaces,
{
    if spaces.len() != 0 {
        lemma_preorder_wf(spaces[0].spaces@);
        lemma_preorder_wf(spaces.drop_first());
    }
}

} // verus!
