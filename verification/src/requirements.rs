//! The requirements list: a text file with one dependency declaration,
//! `name/version`, per line. Blank lines and lines that start with `#` are
//! skipped, and the whitespace around a declaration is not part of it.

use crate::text::{
    is_space, lemma_trim, lines, scan_until, span_until, split_lines, to_chars, to_text, trim,
    trim_bounds,
};
use vstd::prelude::*;

verus! {

/// Whether a line, taken without the whitespace around it, declares a
/// dependency: an empty line does not, nor does a comment.
pub open spec fn is_declaration(line: Seq<char>) -> bool {
    line.len() > 0 && line.first() != '#'
}

/// The declarations among `ls`, each without the whitespace around it, in
/// the order of `ls`.
pub open spec fn select(ls: Seq<Seq<char>>) -> Seq<Seq<char>> {
    ls.map_values(|l: Seq<char>| trim(l)).filter(|l: Seq<char>| is_declaration(l))
}

/// The declarations of a requirements list.
pub open spec fn declarations(text: Seq<char>) -> Seq<Seq<char>> {
    select(lines(text))
}

/// What one more line adds to the selection.
proof fn lemma_select_next(ls: Seq<Seq<char>>, i: int)
    requires
        0 <= i < ls.len(),
    ensures
        select(ls.take(i + 1)) == if is_declaration(trim(ls[i])) {
            select(ls.take(i)).push(trim(ls[i]))
        } else {
            select(ls.take(i))
        },
{
    let f = |l: Seq<char>| trim(l);
    let more = ls.take(i + 1).map_values(f);
    assert(more.drop_last() =~= ls.take(i).map_values(f));
    assert(more.last() == trim(ls[i]));
    reveal_with_fuel(Seq::filter, 2);
}

/// The indices of the lines among `ls` that declare something, in
/// increasing order.
pub open spec fn declaring(ls: Seq<Seq<char>>) -> Seq<int>
    decreases ls.len(),
{
    if ls.len() == 0 {
        Seq::empty()
    } else if is_declaration(trim(ls.last())) {
        declaring(ls.drop_last()).push(ls.len() - 1)
    } else {
        declaring(ls.drop_last())
    }
}

/// The selection is made of the declaring lines, one for one.
proof fn lemma_select(ls: Seq<Seq<char>>)
    ensures
        select(ls).len() == declaring(ls).len(),
        forall|k: int|
            0 <= k < declaring(ls).len() ==> 0 <= #[trigger] declaring(ls)[k] < ls.len()
                && select(ls)[k] == trim(ls[declaring(ls)[k]]),
        forall|k1: int, k2: int|
            0 <= k1 < k2 < declaring(ls).len() ==> declaring(ls)[k1] < declaring(ls)[k2],
        forall|j: int|
            0 <= j < ls.len() ==> (declaring(ls).contains(j) <==> is_declaration(
                #[trigger] trim(ls[j]),
            )),
    decreases ls.len(),
{
    if ls.len() > 0 {
        let rest = ls.drop_last();
        let n = ls.len() - 1;
        lemma_select(rest);
        lemma_select_next(ls, n);
        assert(ls.take(n + 1) =~= ls);
        assert(ls.take(n) =~= rest);
        let at = declaring(ls);
        let before = declaring(rest);
        assert forall|j: int| 0 <= j < ls.len() implies (at.contains(j) <==> is_declaration(
            #[trigger] trim(ls[j]),
        )) by {
            if j < n {
                assert(ls[j] == rest[j]);
                if before.contains(j) {
                    let k = choose|k: int| 0 <= k < before.len() && before[k] == j;
                    assert(at[k] == j);
                }
                if at.contains(j) {
                    let k = choose|k: int| 0 <= k < at.len() && at[k] == j;
                    assert(before[k] == j);
                }
            } else {
                if is_declaration(trim(ls[j])) {
                    assert(at[at.len() - 1] == j);
                }
                if at.contains(j) {
                    let k = choose|k: int| 0 <= k < at.len() && at[k] == j;
                    if k < before.len() {
                        assert(before[k] == j);
                    }
                }
            }
        }
    }
}

/// What the declarations of a requirements list are. Each is a line of
/// the list without the whitespace around it; the lines that are blank or
/// start with `#` are left out, and no others; the declarations stand in the
/// order of their lines; and none is empty, starts with `#`, or starts or
/// ends with whitespace.
pub proof fn lemma_declarations(text: Seq<char>)
    ensures
        ({
            let ls = lines(text);
            let ds = declarations(text);
            let at = declaring(ls);
            &&& ds.len() == at.len()
            &&& forall|k: int|
                0 <= k < ds.len() ==> 0 <= #[trigger] at[k] < ls.len() && ds[k] == trim(ls[at[k]])
            &&& forall|k1: int, k2: int| 0 <= k1 < k2 < at.len() ==> at[k1] < at[k2]
            &&& forall|j: int|
                0 <= j < ls.len() ==> (at.contains(j) <==> is_declaration(#[trigger] trim(ls[j])))
            &&& forall|k: int|
                0 <= k < ds.len() ==> is_declaration(#[trigger] ds[k]) && !is_space(ds[k].first())
                    && !is_space(ds[k].last())
        }),
{
    let ls = lines(text);
    let ds = declarations(text);
    let at = declaring(ls);
    lemma_select(ls);
    assert forall|k: int| 0 <= k < ds.len() implies is_declaration(#[trigger] ds[k]) && !is_space(
        ds[k].first(),
    ) && !is_space(ds[k].last()) by {
        let j = at[k];
        assert(at.contains(j));
        assert(is_declaration(trim(ls[j])));
        let (a, b) = lemma_trim(ls[j]);
    }
}

/// Reads a requirements list.
pub fn parse_requirements(text: &str) -> (deps: Vec<String>)
    ensures
        deps.deep_view() == declarations(text@),
{
    let v = to_chars(text);
    let bounds = split_lines(&v);
    let mut deps: Vec<String> = Vec::new();
    let mut i: usize = 0;
    assert(lines(v@).take(0) =~= Seq::empty());
    while i < bounds.len()
        invariant
            i <= bounds.len(),
            bounds@.len() == lines(v@).len(),
            forall|k: int|
                0 <= k < bounds@.len() ==> {
                    &&& (#[trigger] bounds@[k]).0 <= bounds@[k].1 <= v.len()
                    &&& v@.subrange(bounds@[k].0 as int, bounds@[k].1 as int) == lines(v@)[k]
                },
            deps.deep_view() == select(lines(v@).take(i as int)),
        decreases bounds.len() - i,
    {
        let (from, to) = bounds[i];
        let (a, b) = trim_bounds(&v, from, to);
        proof {
            lemma_select_next(lines(v@), i as int);
        }
        if a < b && v[a] != '#' {
            let ghost before = deps.deep_view();
            let line = to_text(&v, a, b);
            deps.push(line);
            assert(deps.deep_view() =~= before.push(line@));
        }
        i += 1;
    }
    assert(lines(v@).take(i as int) =~= lines(v@));
    deps
}

/// The package that a declaration names: what stands before its first `/`.
pub open spec fn package_name(declaration: Seq<char>) -> Seq<char> {
    declaration.take(span_until(declaration, '/') as int)
}

/// The number of characters of the package name at the start of
/// `declaration`.
pub fn package_name_len(declaration: &Vec<char>) -> (n: usize)
    ensures
        n <= declaration.len(),
        declaration@.take(n as int) == package_name(declaration@),
{
    assert(declaration@.subrange(0, declaration.len() as int) =~= declaration@);
    scan_until(declaration, 0, declaration.len(), '/')
}

} // verus!
