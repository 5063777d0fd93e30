//! Compilation units: which entries of the source directory are compiled,
//! and to which object path each one goes.

use vstd::prelude::*;
use vstd::string::{StringExecFns, StrSliceExecFns};
use crate::paths::{spec_path_join, path_join};

verus! {

/// One C source file paired with the object file it compiles to.
#[derive(Debug)]
pub struct CompilationUnit {
    pub source: String,
    pub object: String,
}

impl View for CompilationUnit {
    type V = (Seq<char>, Seq<char>);

    open spec fn view(&self) -> (Seq<char>, Seq<char>) {
        (self.source@, self.object@)
    }
}

/// Whether a file name has the extension `c`: it ends in `.c` and that
/// suffix is not the whole name, so a bare `.c` entry does not count.
pub open spec fn spec_is_c_source(name: Seq<char>) -> bool {
    name.len() >= 3 && name.subrange(name.len() - 2, name.len() as int) == ".c"@
}

/// The object file name of a C source: the extension `c` replaced by `o`.
pub open spec fn spec_object_name(name: Seq<char>) -> Seq<char> {
    name.take(name.len() - 2) + ".o"@
}

/// The unit a source file name yields, at the view level: the full source
/// path and the full object path.
pub open spec fn spec_unit_of(
    name: Seq<char>,
    src_dir: Seq<char>,
    out_dir: Seq<char>,
) -> (Seq<char>, Seq<char>) {
    (spec_path_join(src_dir, name), spec_path_join(out_dir, spec_object_name(name)))
}

/// The compilation units of a directory listing, in listing order: one per
/// name with extension `c`, none for any other name.
pub open spec fn spec_units(
    names: Seq<Seq<char>>,
    src_dir: Seq<char>,
    out_dir: Seq<char>,
) -> Seq<(Seq<char>, Seq<char>)>
    decreases names.len(),
{
    if names.len() == 0 {
        Seq::empty()
    } else {
        spec_units(names.drop_last(), src_dir, out_dir) + if spec_is_c_source(names.last()) {
            seq![spec_unit_of(names.last(), src_dir, out_dir)]
        } else {
            Seq::empty()
        }
    }
}

/// Tests whether a file name has the extension `c`.
pub fn is_c_source(name: &str) -> (r: bool)
    ensures
        r == spec_is_c_source(name@),
{
    let n = name.unicode_len();
    if n < 3 {
        proof {
            reveal_strlit(".c");
        }
        return false;
    }
    let dot = name.get_char(n - 2);
    let c = name.get_char(n - 1);
    proof {
        reveal_strlit(".c");
        let sub = name@.subrange(name@.len() - 2, name@.len() as int);
        assert(sub[0] == name@[name@.len() - 2]);
        assert(sub[1] == name@[name@.len() - 1]);
        if name@[name@.len() - 2] == '.' && name@[name@.len() - 1] == 'c' {
            assert(sub =~= ".c"@);
        }
    }
    dot == '.' && c == 'c'
}

/// The object file name of a C source.
pub fn object_name(name: &str) -> (r: String)
    requires
        spec_is_c_source(name@),
    ensures
        r@ == spec_object_name(name@),
{
    let n = name.unicode_len();
    let stem = name.substring_char(0, n - 2);
    stem.to_owned().concat(".o")
}

/// Selects the compilation units from a directory listing: exactly the
/// names with extension `c`, in listing order, each paired with its object
/// path in the output directory.
pub fn compilation_units(names: &Vec<String>, src_dir: &str, out_dir: &str) -> (r: Vec<
    CompilationUnit,
>)
    ensures
        r@.map_values(|u: CompilationUnit| u@) == spec_units(names.deep_view(), src_dir@, out_dir@),
{
    let ghost all = names.deep_view();
    let mut r: Vec<CompilationUnit> = Vec::new();
    let mut i: usize = 0;
    proof {
        assert(r@.map_values(|u: CompilationUnit| u@) =~= spec_units(
            all.take(0),
            src_dir@,
            out_dir@,
        ));
    }
    while i < names.len()
        invariant
            i <= names.len(),
            all == names.deep_view(),
            r@.map_values(|u: CompilationUnit| u@) == spec_units(all.take(i as int), src_dir@, out_dir@),
        decreases names.len() - i,
    {
        let name = &names[i];
        if is_c_source(name.as_str()) {
            let source = path_join(src_dir, name.as_str());
            let object = path_join(out_dir, object_name(name.as_str()).as_str());
            r.push(CompilationUnit { source, object });
        }
        proof {
            assert(all.take(i + 1).drop_last() =~= all.take(i as int));
            assert(all.take(i + 1).last() == name@);
            assert(r@.map_values(|u: CompilationUnit| u@) =~= spec_units(
                all.take(i + 1),
                src_dir@,
                out_dir@,
            ));
        }
        i = i + 1;
    }
    proof {
        assert(all.take(names@.len() as int) =~= all);
    }
    r
}

/// The selection law: for a listing holding some names with extension `c`
/// and some without, the units are exactly the filter of the listing to
/// the `c` names, mapped to their paths — one unit per `c` name, in order,
/// and none for any other name.
pub proof fn lemma_units_are_exactly_c_sources(
    names: Seq<Seq<char>>,
    src_dir: Seq<char>,
    out_dir: Seq<char>,
)
    ensures
        spec_units(names, src_dir, out_dir) == names.filter(|n: Seq<char>| spec_is_c_source(n)).map_values(
            |n: Seq<char>| spec_unit_of(n, src_dir, out_dir),
        ),
        spec_units(names, src_dir, out_dir).len() == names.filter(
            |n: Seq<char>| spec_is_c_source(n),
        ).len(),
    decreases names.len(),
{
    reveal(Seq::filter);
    let pred = |n: Seq<char>| spec_is_c_source(n);
    let f = |n: Seq<char>| spec_unit_of(n, src_dir, out_dir);
    if names.len() == 0 {
        assert(spec_units(names, src_dir, out_dir) =~= names.filter(pred).map_values(f));
    } else {
        lemma_units_are_exactly_c_sources(names.drop_last(), src_dir, out_dir);
        if pred(names.last()) {
            assert(names.filter(pred) == names.drop_last().filter(pred).push(names.last()));
            assert(names.filter(pred).map_values(f) =~= names.drop_last().filter(pred).map_values(
                f,
            ).push(f(names.last())));
            assert(spec_units(names, src_dir, out_dir) =~= names.filter(pred).map_values(f));
        } else {
            assert(names.filter(pred) == names.drop_last().filter(pred));
            assert(spec_units(names, src_dir, out_dir) =~= names.filter(pred).map_values(f));
        }
    }
}

} // verus!
