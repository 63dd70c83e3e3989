//! File-name logic: extension matching and output-name derivation.
//!
//! Paths are handled as byte strings with `/` as the separator, and are
//! expected to name a file: the final component (after the last `/`) is
//! the file name. Within a file name the split into stem and extension
//! follows the usual rule: the extension is what follows the last dot,
//! except that a dot opening the name (a hidden file) starts no
//! extension.

use vstd::prelude::*;

use crate::options::OutputFormat;

verus! {

/// The path separator.
pub const SLASH: u8 = 47;

/// The extension separator.
pub const DOT: u8 = 46;

/// The final component of a path: everything after the last `/`, the
/// whole path when it has none.
pub open spec fn spec_file_name(p: Seq<u8>) -> Seq<u8>
    decreases p.len(),
{
    if p.len() == 0 {
        Seq::empty()
    } else if p.last() == SLASH {
        Seq::empty()
    } else {
        spec_file_name(p.drop_last()).push(p.last())
    }
}

/// The index of the dot opening a file name's extension: the last dot of
/// the name, except that a dot at the start counts for nothing. Negative
/// when the name has no extension.
pub open spec fn spec_last_dot(n: Seq<u8>) -> int
    decreases n.len(),
{
    if n.len() <= 1 {
        -1
    } else if n.last() == DOT {
        n.len() - 1
    } else {
        spec_last_dot(n.drop_last())
    }
}

/// The extension of a file name, `None` when it has no dot past its
/// first byte. `"a.c"` gives `Some("c")`, `".bashrc"` gives `None`,
/// `"a."` gives `Some("")`.
pub open spec fn spec_extension(n: Seq<u8>) -> Option<Seq<u8>> {
    let d = spec_last_dot(n);
    if d < 0 {
        None
    } else {
        Some(n.subrange(d + 1, n.len() as int))
    }
}

/// The stem of a file name: what precedes its extension, the whole name
/// when it has none.
pub open spec fn spec_stem(n: Seq<u8>) -> Seq<u8> {
    let d = spec_last_dot(n);
    if d < 0 {
        n
    } else {
        n.subrange(0, d)
    }
}

/// An ASCII byte lowered: letters `A..Z` shifted to `a..z`, the rest
/// untouched.
pub open spec fn spec_lower(b: u8) -> u8 {
    if 65 <= b <= 90 {
        (b + 32) as u8
    } else {
        b
    }
}

/// Byte strings equal up to ASCII case.
pub open spec fn spec_eq_ignore_case(a: Seq<u8>, b: Seq<u8>) -> bool {
    a.map_values(|x: u8| spec_lower(x)) == b.map_values(|x: u8| spec_lower(x))
}

/// Whether a path's extension matches one of the given extensions, up to
/// ASCII case. A path without an extension matches nothing.
pub open spec fn spec_has_valid_extension(p: Seq<u8>, exts: Seq<Seq<u8>>) -> bool {
    match spec_extension(spec_file_name(p)) {
        Some(e) => exists|m: int| 0 <= m < exts.len() && spec_eq_ignore_case(e, exts[m]),
        None => false,
    }
}

/// The name of the output file for one input path: the input's stem,
/// `-extended` when the extended schema is selected, and the format's
/// extension — whatever directory the input came from.
pub open spec fn spec_fmt_extension(fmt: OutputFormat) -> Seq<u8> {
    match fmt {
        OutputFormat::Csv => seq![99u8, 115u8, 118u8],
        OutputFormat::Json => seq![106u8, 115u8, 111u8, 110u8],
    }
}

/// The `-extended` marker inserted before the output extension.
pub open spec fn spec_extended_marker() -> Seq<u8> {
    seq![45u8, 101u8, 120u8, 116u8, 101u8, 110u8, 100u8, 101u8, 100u8]
}

/// See [`spec_fmt_extension`] and [`spec_extended_marker`]:
/// `<stem>[-extended].<fmt>`.
pub open spec fn spec_output_file_name(p: Seq<u8>, fmt: OutputFormat, extended: bool) -> Seq<u8> {
    spec_stem(spec_file_name(p)) + (if extended {
        spec_extended_marker()
    } else {
        Seq::empty()
    }) + seq![DOT] + spec_fmt_extension(fmt)
}

/// The output name depends on the input's file name alone: inputs that
/// share a name collide in the output directory whatever directories
/// they came from, and the last writer wins.
pub proof fn lemma_output_name_ignores_directories(
    p: Seq<u8>,
    q: Seq<u8>,
    fmt: OutputFormat,
    extended: bool,
)
    requires
        spec_file_name(p) == spec_file_name(q),
    ensures
        spec_output_file_name(p, fmt, extended) == spec_output_file_name(q, fmt, extended),
{
}

/// A suffix of `p` that holds no slash and starts at the beginning or
/// right after a slash is exactly the file name of `p`.
proof fn lemma_file_name_at(p: Seq<u8>, j: int)
    requires
        0 <= j <= p.len(),
        forall|m: int| j <= m < p.len() ==> p[m] != SLASH,
        j > 0 ==> p[j - 1] == SLASH,
    ensures
        spec_file_name(p) == p.subrange(j, p.len() as int),
    decreases p.len(),
{
    if p.len() == 0 {
        assert(p.subrange(0, 0) =~= Seq::<u8>::empty());
    } else if j == p.len() {
        assert(p.last() == SLASH);
        assert(p.subrange(j, p.len() as int) =~= Seq::<u8>::empty());
    } else {
        assert(p.last() != SLASH);
        lemma_file_name_at(p.drop_last(), j);
        assert(p.drop_last().subrange(j, p.len() - 1) =~= p.subrange(j, p.len() - 1));
        assert(p.subrange(j, p.len() as int) =~= p.subrange(j, p.len() - 1).push(p.last()));
    }
}

/// The final component of a path: everything after the last `/`.
pub fn file_name(path: &Vec<u8>) -> (r: Vec<u8>)
    ensures
        r@ == spec_file_name(path@),
{
    let mut j: usize = path.len();
    while j > 0 && path[j - 1] != SLASH
        invariant
            j <= path.len(),
            forall|m: int| j <= m < path@.len() ==> path@[m] != SLASH,
        decreases j,
    {
        j = j - 1;
    }
    proof {
        lemma_file_name_at(path@, j as int);
    }
    let mut out: Vec<u8> = Vec::new();
    for m in j..path.len()
        invariant
            j <= m <= path.len(),
            out@ == path@.subrange(j as int, m as int),
        decreases path@.len() - m,
    {
        out.push(path[m]);
        proof {
            assert(path@.subrange(j as int, m as int + 1) =~= path@.subrange(
                j as int,
                m as int,
            ).push(path@[m as int]));
        }
    }
    out
}

/// The index of the dot opening the extension, `None` when the name
/// has none (see [`spec_last_dot`]).
fn last_dot(name: &Vec<u8>) -> (r: Option<usize>)
    ensures
        r is None ==> spec_last_dot(name@) < 0,
        r matches Some(d) ==> 1 <= d < name@.len() && spec_last_dot(name@) == d,
{
    let mut k: usize = name.len();
    proof {
        assert(name@.take(name@.len() as int) =~= name@);
    }
    while k > 1
        invariant
            k <= name.len(),
            spec_last_dot(name@) == spec_last_dot(name@.take(k as int)),
        decreases k,
    {
        if name[k - 1] == DOT {
            proof {
                assert(name@.take(k as int).last() == name@[k - 1]);
            }
            return Some(k - 1);
        }
        proof {
            assert(name@.take(k as int).drop_last() =~= name@.take(k as int - 1));
        }
        k = k - 1;
    }
    None
}

/// The stem of a file name: what precedes its extension.
pub fn stem_of(name: &Vec<u8>) -> (r: Vec<u8>)
    ensures
        r@ == spec_stem(name@),
{
    let d = match last_dot(name) {
        Some(d) => d,
        None => name.len(),
    };
    proof {
        if spec_last_dot(name@) < 0 {
            assert(name@.subrange(0, name@.len() as int) =~= name@);
        }
    }
    let mut out: Vec<u8> = Vec::new();
    for m in 0..d
        invariant
            d <= name@.len(),
            out@ == name@.subrange(0, m as int),
        decreases d - m,
    {
        out.push(name[m]);
        proof {
            assert(name@.subrange(0, m as int + 1) =~= name@.subrange(0, m as int).push(
                name@[m as int],
            ));
        }
    }
    out
}

/// The extension of a file name, `None` when it has none.
pub fn extension_of(name: &Vec<u8>) -> (r: Option<Vec<u8>>)
    ensures
        r is None <==> spec_extension(name@) is None,
        r matches Some(e) ==> spec_extension(name@) == Some(e@),
{
    let d = match last_dot(name) {
        Some(d) => d,
        None => {
            return None;
        },
    };
    let mut out: Vec<u8> = Vec::new();
    for m in (d + 1)..name.len()
        invariant
            d + 1 <= name@.len(),
            out@ == name@.subrange(d as int + 1, m as int),
        decreases name@.len() - m,
    {
        out.push(name[m]);
        proof {
            assert(name@.subrange(d as int + 1, m as int + 1) =~= name@.subrange(
                d as int + 1,
                m as int,
            ).push(name@[m as int]));
        }
    }
    Some(out)
}

/// Compare two byte strings up to ASCII case, as extensions are matched.
pub fn eq_ignore_ascii_case(a: &Vec<u8>, b: &Vec<u8>) -> (r: bool)
    ensures
        r == spec_eq_ignore_case(a@, b@),
{
    let ghost la = a@.map_values(|x: u8| spec_lower(x));
    let ghost lb = b@.map_values(|x: u8| spec_lower(x));
    if a.len() != b.len() {
        proof {
            assert(la.len() != lb.len());
        }
        return false;
    }
    for i in 0..a.len()
        invariant
            a@.len() == b@.len(),
            la == a@.map_values(|x: u8| spec_lower(x)),
            lb == b@.map_values(|x: u8| spec_lower(x)),
            forall|m: int| 0 <= m < i ==> la[m] == lb[m],
        decreases a@.len() - i,
    {
        let mut x = a[i];
        let mut y = b[i];
        if 65 <= x && x <= 90 {
            x = x + 32;
        }
        if 65 <= y && y <= 90 {
            y = y + 32;
        }
        if x != y {
            proof {
                assert(la[i as int] == spec_lower(a@[i as int]));
                assert(lb[i as int] == spec_lower(b@[i as int]));
            }
            return false;
        }
        proof {
            assert(la[i as int] == spec_lower(a@[i as int]));
            assert(lb[i as int] == spec_lower(b@[i as int]));
        }
    }
    proof {
        assert(la =~= lb);
    }
    true
}

/// The extensions the tool accepts, as the driver lists them:
/// `cpp cc hpp c h`.
pub open spec fn spec_valid_extensions() -> Seq<Seq<u8>> {
    seq![
        seq![99u8, 112u8, 112u8],
        seq![99u8, 99u8],
        seq![104u8, 112u8, 112u8],
        seq![99u8],
        seq![104u8],
    ]
}

/// The extensions the tool accepts: `cpp cc hpp c h`.
pub fn valid_extensions() -> (r: Vec<Vec<u8>>)
    ensures
        r@.len() == spec_valid_extensions().len(),
        forall|m: int| 0 <= m < r@.len() ==> r@[m]@ == #[trigger] spec_valid_extensions()[m],
{
    let r: Vec<Vec<u8>> = vec![
        vec![99u8, 112u8, 112u8],
        vec![99u8, 99u8],
        vec![104u8, 112u8, 112u8],
        vec![99u8],
        vec![104u8],
    ];
    r
}

/// Whether a path's extension, matched up to ASCII case, is one of the
/// given extensions. `.CPP` is as acceptable as `.cpp`.
pub fn has_valid_extension(path: &Vec<u8>, extensions: &Vec<Vec<u8>>) -> (r: bool)
    ensures
        r == spec_has_valid_extension(path@, extensions@.map_values(|e: Vec<u8>| e@)),
{
    let ghost exts = extensions@.map_values(|e: Vec<u8>| e@);
    let name = file_name(path);
    let ext = match extension_of(&name) {
        Some(e) => e,
        None => {
            return false;
        },
    };
    for m in 0..extensions.len()
        invariant
            exts == extensions@.map_values(|e: Vec<u8>| e@),
            spec_extension(spec_file_name(path@)) == Some(ext@),
            forall|k: int| 0 <= k < m ==> !spec_eq_ignore_case(ext@, exts[k]),
        decreases extensions@.len() - m,
    {
        if eq_ignore_ascii_case(&ext, &extensions[m]) {
            proof {
                assert(exts[m as int] == extensions@[m as int]@);
            }
            return true;
        }
        proof {
            assert(exts[m as int] == extensions@[m as int]@);
        }
    }
    false
}

/// Derive the output file name for one input path:
/// `<stem>[-extended].<fmt>`, whatever directory the input came from.
/// The path must name a file: a nonempty final component that is neither
/// `.` nor `..`.
pub fn output_file_name(path: &Vec<u8>, fmt: OutputFormat, extended: bool) -> (r: Vec<u8>)
    requires
        spec_file_name(path@).len() > 0,
        spec_file_name(path@) != seq![DOT],
        spec_file_name(path@) != seq![DOT, DOT],
    ensures
        r@ == spec_output_file_name(path@, fmt, extended),
{
    let name = file_name(path);
    let mut out = stem_of(&name);
    if extended {
        let marker: Vec<u8> = vec![45u8, 101u8, 120u8, 116u8, 101u8, 110u8, 100u8, 101u8, 100u8];
        let ghost before = out@;
        for m in 0..marker.len()
            invariant
                marker@ == spec_extended_marker(),
                out@ == before + marker@.take(m as int),
            decreases marker@.len() - m,
        {
            out.push(marker[m]);
            proof {
                assert(marker@.take(m as int + 1) =~= marker@.take(m as int).push(
                    marker@[m as int],
                ));
            }
        }
        proof {
            assert(marker@.take(marker@.len() as int) =~= marker@);
        }
    }
    out.push(DOT);
    match fmt {
        OutputFormat::Csv => {
            out.push(99);
            out.push(115);
            out.push(118);
        },
        OutputFormat::Json => {
            out.push(106);
            out.push(115);
            out.push(111);
            out.push(110);
        },
    }
    proof {
        assert(out@ =~= spec_output_file_name(path@, fmt, extended));
    }
    out
}

} // verus!
