//! The dependency section of a build file: what stands between the start
//! marker and the end marker is the tool's, and is written anew from the
//! declarations each time; what stands outside is never touched.

use crate::error::Error;
use crate::requirements::{package_name, package_name_len};
use crate::text::{
    extend_range, extend_str, find, first_occurrence, is_first_occurrence, lacks,
    lemma_first_occurrence, lemma_first_occurrence_unique, lemma_no_occurrence_across_end,
    lemma_no_occurrence_across_start, lemma_no_occurrence_in_prefix,
    lemma_no_occurrence_without_first, never_before, never_behind, occurs, occurs_at, span_until,
    to_chars, to_text,
};
use vstd::prelude::*;

verus! {

/// The line that opens the dependency section.
pub const START_MARKER: &'static str = "# cppsage:dependencies_start";

/// The line that closes the dependency section.
pub const END_MARKER: &'static str = "# cppsage:dependencies_end";

/// The two directives for one declaration: the package is looked up, and the
/// target `owner` is linked with it.
pub open spec fn directives(declaration: Seq<char>, owner: Seq<char>) -> Seq<char> {
    let name = package_name(declaration);
    "find_package("@ + name + ")\n"@ + "target_link_libraries("@ + owner + " PRIVATE "@ + name
        + "::"@ + name + ")\n"@
}

/// The directives for each of `deps`, in order.
pub open spec fn linkage_block(deps: Seq<Seq<char>>, owner: Seq<char>) -> Seq<char>
    decreases deps.len(),
{
    if deps.len() == 0 {
        Seq::empty()
    } else {
        linkage_block(deps.drop_last(), owner) + directives(deps.last(), owner)
    }
}

/// The bounds of the section's interior: from just behind the first start
/// marker to the first end marker. There is none where a marker is missing,
/// or where the end marker comes first.
pub open spec fn section(contents: Seq<char>) -> Option<(int, int)> {
    match (first_occurrence(contents, START_MARKER@), first_occurrence(contents, END_MARKER@)) {
        (Some(start), Some(end)) => if start + START_MARKER@.len() <= end {
            Some((start + START_MARKER@.len(), end))
        } else {
            None
        },
        _ => None,
    }
}

/// The build file with the interior of its section replaced by a line feed,
/// the directives for `deps`, and a line feed.
pub open spec fn patched(contents: Seq<char>, deps: Seq<Seq<char>>, owner: Seq<char>) -> Option<
    Seq<char>,
> {
    match section(contents) {
        Some((from, to)) => Some(
            contents.take(from) + seq!['\n'] + linkage_block(deps, owner) + seq!['\n']
                + contents.skip(to),
        ),
        None => None,
    }
}

/// Adds the directives for each of `deps` at the end of `out`.
fn extend_linkage_block(out: &mut Vec<char>, deps: &Vec<String>, owner: &str)
    ensures
        final(out)@ == old(out)@ + linkage_block(deps.deep_view(), owner@),
{
    let mut i: usize = 0;
    assert(deps.deep_view().take(0) =~= Seq::empty());
    assert(out@ =~= old(out)@ + Seq::<char>::empty());
    while i < deps.len()
        invariant
            i <= deps.len(),
            out@ == old(out)@ + linkage_block(deps.deep_view().take(i as int), owner@),
        decreases deps.len() - i,
    {
        let ghost more = deps.deep_view().take(i + 1);
        let ghost before = out@;
        assert(more.drop_last() =~= deps.deep_view().take(i as int));
        assert(more.last() == deps[i as int]@);
        let d = to_chars(deps[i].as_str());
        let n = package_name_len(&d);
        assert(d@.subrange(0, n as int) =~= d@.take(n as int));
        extend_str(out, "find_package(");
        extend_range(out, &d, 0, n);
        extend_str(out, ")\n");
        extend_str(out, "target_link_libraries(");
        extend_str(out, owner);
        extend_str(out, " PRIVATE ");
        extend_range(out, &d, 0, n);
        extend_str(out, "::");
        extend_range(out, &d, 0, n);
        extend_str(out, ")\n");
        assert(out@ =~= before + directives(d@, owner@));
        assert(out@ =~= old(out)@ + linkage_block(more, owner@));
        i += 1;
    }
    assert(deps.deep_view().take(i as int) =~= deps.deep_view());
}

/// The directives that link the target `owner` with each of `deps`.
pub fn render_linkage_block(deps: &Vec<String>, owner: &str) -> (block: String)
    ensures
        block@ == linkage_block(deps.deep_view(), owner@),
{
    let mut out: Vec<char> = Vec::new();
    extend_linkage_block(&mut out, deps, owner);
    assert(out@ =~= linkage_block(deps.deep_view(), owner@));
    assert(out@.subrange(0, out.len() as int) =~= out@);
    to_text(&out, 0, out.len())
}

/// Writes the directives for `deps` into the dependency section of a build
/// file. A build file without its two markers in order is refused.
pub fn patch_dependency_section(contents: &str, deps: &Vec<String>, owner: &str) -> (r: Result<
    String,
    Error,
>)
    ensures
        match r {
            Ok(text) => patched(contents@, deps.deep_view(), owner@) == Some(text@),
            Err(e) => e == Error::MarkerNotFound && patched(contents@, deps.deep_view(), owner@)
                is None,
        },
{
    let c = to_chars(contents);
    let start_marker = to_chars(START_MARKER);
    let end_marker = to_chars(END_MARKER);
    let start = match find(&c, &start_marker) {
        Some(i) => i,
        None => {
            return Err(Error::MarkerNotFound);
        },
    };
    let end = match find(&c, &end_marker) {
        Some(i) => i,
        None => {
            return Err(Error::MarkerNotFound);
        },
    };
    let n = c.len();
    assert(occurs_at(c@, start_marker@, start as int));
    let from = start + start_marker.len();
    if from > end {
        return Err(Error::MarkerNotFound);
    }
    let mut out: Vec<char> = Vec::new();
    extend_range(&mut out, &c, 0, from);
    out.push('\n');
    extend_linkage_block(&mut out, deps, owner);
    out.push('\n');
    assert(occurs_at(c@, end_marker@, end as int));
    extend_range(&mut out, &c, end, n);
    assert(c@.subrange(0, from as int) =~= c@.take(from as int));
    assert(c@.subrange(end as int, n as int) =~= c@.skip(end as int));
    assert(out@ =~= c@.take(from as int) + seq!['\n'] + linkage_block(deps.deep_view(), owner@)
        + seq!['\n'] + c@.skip(end as int));
    assert(out@.subrange(0, out.len() as int) =~= out@);
    Ok(to_text(&out, 0, out.len()))
}

/// A build file that lacks a marker is refused: where the start marker or
/// the end marker does not occur, there is nothing to patch.
pub proof fn lemma_missing_marker_is_refused(
    contents: Seq<char>,
    deps: Seq<Seq<char>>,
    owner: Seq<char>,
)
    requires
        !occurs(contents, START_MARKER@) || !occurs(contents, END_MARKER@),
    ensures
        patched(contents, deps, owner) is None,
{
}

/// Patching touches the section's interior only: what stands before it, the
/// start marker included, and what stands behind it, from the end marker on,
/// is in the patched file as it was; between them stand a line feed, the
/// directives and a line feed.
pub proof fn lemma_patch_keeps_the_rest(
    contents: Seq<char>,
    deps: Seq<Seq<char>>,
    owner: Seq<char>,
)
    requires
        patched(contents, deps, owner) is Some,
    ensures
        ({
            let out = patched(contents, deps, owner).unwrap();
            let (from, to) = section(contents).unwrap();
            let end = out.len() - (contents.len() - to);
            &&& 0 <= from <= to <= contents.len()
            &&& from <= end <= out.len()
            &&& out.take(from) == contents.take(from)
            &&& out.skip(end) == contents.skip(to)
            &&& out.subrange(from, end) == seq!['\n'] + linkage_block(deps, owner) + seq!['\n']
        }),
{
    lemma_first_occurrence(contents, START_MARKER@);
    lemma_first_occurrence(contents, END_MARKER@);
    let out = patched(contents, deps, owner).unwrap();
    let (from, to) = section(contents).unwrap();
    let end = out.len() - (contents.len() - to);
    assert(out.take(from) =~= contents.take(from));
    assert(out.skip(end) =~= contents.skip(to));
    assert(out.subrange(from, end) =~= seq!['\n'] + linkage_block(deps, owner) + seq!['\n']);
}

/// The shape of the two markers: each opens with `#`, the start marker
/// holds no other `#`, the end marker holds no line feed, and they differ
/// where their last words begin.
pub proof fn lemma_marker_shapes()
    ensures
        START_MARKER@.len() == 28,
        END_MARKER@.len() == 26,
        START_MARKER@[0] == '#',
        END_MARKER@[0] == '#',
        forall|k: int| 1 <= k < 28 ==> START_MARKER@[k] != '#',
        forall|k: int| 0 <= k < 26 ==> END_MARKER@[k] != '\n',
        START_MARKER@[23] != END_MARKER@[23],
{
    reveal_strlit("# cppsage:dependencies_start");
    reveal_strlit("# cppsage:dependencies_end");
}

/// What stands next to what in the two markers, as far as it matters where
/// a marker could run from a name into the text around it: neither marker
/// holds `(`, `)`, `t` before `a`, `f` or a line feed; the only blank stands
/// before `c`, behind `#`; and the colon of the end marker stands between
/// `e` and `d`.
pub proof fn lemma_marker_neighbours()
    ensures
        never_before(END_MARKER@, ')', '\n'),
        never_before(END_MARKER@, 't', 'a'),
        never_before(END_MARKER@, 'f', 'i'),
        never_before(END_MARKER@, ' ', 'P'),
        never_before(END_MARKER@, ':', ':'),
        never_before(END_MARKER@, '\n', ' '),
        never_behind(END_MARKER@, '(', 'e'),
        never_behind(END_MARKER@, '(', 's'),
        never_behind(END_MARKER@, ' ', 'E'),
        never_behind(END_MARKER@, ':', ':'),
        never_before(START_MARKER@, ' ', 'P'),
        never_before(START_MARKER@, '\n', ' '),
        never_behind(START_MARKER@, '(', 'e'),
        never_behind(START_MARKER@, '(', 's'),
        lacks(START_MARKER@, '\n'),
        lacks(END_MARKER@, '\n'),
{
    reveal_strlit("# cppsage:dependencies_start");
    reveal_strlit("# cppsage:dependencies_end");
}

/// How the words of the directives begin and end, and that they hold no
/// `#`.
proof fn lemma_directive_words()
    ensures
        ({
            let w = "find_package("@;
            w.len() >= 2 && w[0] == 'f' && w[1] == 'i' && w[w.len() - 1] == '(' && w[w.len() - 2]
                == 'e' && lacks(w, '#')
        }),
        ({
            let w = ")\n"@;
            w.len() >= 2 && w[0] == ')' && w[1] == '\n' && lacks(w, '#')
        }),
        ({
            let w = "target_link_libraries("@;
            w.len() >= 2 && w[0] == 't' && w[1] == 'a' && w[w.len() - 1] == '(' && w[w.len() - 2]
                == 's' && lacks(w, '#')
        }),
        ({
            let w = " PRIVATE "@;
            w.len() >= 2 && w[0] == ' ' && w[1] == 'P' && w[w.len() - 1] == ' ' && w[w.len() - 2]
                == 'E' && lacks(w, '#')
        }),
        ({
            let w = "::"@;
            w.len() == 2 && w[0] == ':' && w[1] == ':' && lacks(w, '#')
        }),
{
    reveal_strlit("find_package(");
    reveal_strlit(")\n");
    reveal_strlit("target_link_libraries(");
    reveal_strlit(" PRIVATE ");
    reveal_strlit("::");
}

/// The directives for a declaration hold no end marker where neither the
/// declaration nor the owner holds one.
proof fn lemma_directives_hold_no_end_marker(declaration: Seq<char>, owner: Seq<char>)
    requires
        !occurs(declaration, END_MARKER@),
        !occurs(owner, END_MARKER@),
    ensures
        !occurs(directives(declaration, owner), END_MARKER@),
        directives(declaration, owner).len() >= 2,
        directives(declaration, owner)[0] == 'f',
        directives(declaration, owner)[1] == 'i',
{
    let em = END_MARKER@;
    let name = package_name(declaration);
    let find = "find_package("@;
    let close = ")\n"@;
    let link = "target_link_libraries("@;
    let private = " PRIVATE "@;
    let colons = "::"@;
    lemma_marker_shapes();
    lemma_marker_neighbours();
    lemma_directive_words();
    lemma_no_occurrence_without_first(find, em);
    lemma_no_occurrence_without_first(close, em);
    lemma_no_occurrence_without_first(link, em);
    lemma_no_occurrence_without_first(private, em);
    lemma_no_occurrence_without_first(colons, em);
    crate::text::lemma_span_until_stops(declaration, '/');
    lemma_no_occurrence_in_prefix(declaration, span_until(declaration, '/') as int, em);
    let s1 = find + name;
    lemma_no_occurrence_across_end(find, name, em);
    let s2 = s1 + close;
    lemma_no_occurrence_across_start(s1, close, em);
    let s3 = s2 + link;
    lemma_no_occurrence_across_start(s2, link, em);
    let s4 = s3 + owner;
    assert(s3[s3.len() - 1] == '(' && s3[s3.len() - 2] == 's');
    lemma_no_occurrence_across_end(s3, owner, em);
    let s5 = s4 + private;
    lemma_no_occurrence_across_start(s4, private, em);
    let s6 = s5 + name;
    assert(s5[s5.len() - 1] == ' ' && s5[s5.len() - 2] == 'E');
    lemma_no_occurrence_across_end(s5, name, em);
    let s7 = s6 + colons;
    lemma_no_occurrence_across_start(s6, colons, em);
    let s8 = s7 + name;
    assert(s7[s7.len() - 1] == ':' && s7[s7.len() - 2] == ':');
    lemma_no_occurrence_across_end(s7, name, em);
    lemma_no_occurrence_across_start(s8, close, em);
    assert(directives(declaration, owner) == s8 + close);
    assert(directives(declaration, owner)[0] == find[0]);
    assert(directives(declaration, owner)[1] == find[1]);
}

/// The directives hold no end marker where no declaration holds one and
/// the owner holds none: a name that holds part of a marker cannot make one
/// up with the words around it.
pub proof fn lemma_block_holds_no_end_marker(deps: Seq<Seq<char>>, owner: Seq<char>)
    requires
        forall|i: int| 0 <= i < deps.len() ==> !occurs(#[trigger] deps[i], END_MARKER@),
        !occurs(owner, END_MARKER@),
    ensures
        !occurs(linkage_block(deps, owner), END_MARKER@),
    decreases deps.len(),
{
    let em = END_MARKER@;
    lemma_marker_shapes();
    if deps.len() == 0 {
        if occurs(linkage_block(deps, owner), em) {
            let i = choose|i: int| occurs_at(linkage_block(deps, owner), em, i);
            assert(false);
        }
    } else {
        let rest = deps.drop_last();
        assert forall|i: int| 0 <= i < rest.len() implies !occurs(#[trigger] rest[i], em) by {
            assert(rest[i] == deps[i]);
        }
        lemma_block_holds_no_end_marker(rest, owner);
        lemma_directives_hold_no_end_marker(deps.last(), owner);
        lemma_marker_neighbours();
        lemma_no_occurrence_across_start(
            linkage_block(rest, owner),
            directives(deps.last(), owner),
            em,
        );
    }
}

/// Patching is idempotent for declarations and an owner that hold no end
/// marker: where a build file was patched with them, patching the result
/// again with them gives that result again.
pub proof fn lemma_patch_idempotent_without_markers(
    contents: Seq<char>,
    deps: Seq<Seq<char>>,
    owner: Seq<char>,
)
    requires
        forall|i: int| 0 <= i < deps.len() ==> !occurs(#[trigger] deps[i], END_MARKER@),
        !occurs(owner, END_MARKER@),
    ensures
        patched(contents, deps, owner) matches Some(once) ==> patched(once, deps, owner) == Some(
            once,
        ),
{
    lemma_block_holds_no_end_marker(deps, owner);
    lemma_patch_idempotent(contents, deps, owner);
}

/// Patching is idempotent: where a build file was patched, patching the
/// result again with the same declarations and the same owner gives that
/// result again. This holds wherever the directives do not hold the end
/// marker themselves, and so for all declarations and owners that hold
/// none; with an end marker in its directives the second patch would take
/// that one for the section's end.
pub proof fn lemma_patch_idempotent(contents: Seq<char>, deps: Seq<Seq<char>>, owner: Seq<char>)
    requires
        !occurs(linkage_block(deps, owner), END_MARKER@),
    ensures
        patched(contents, deps, owner) matches Some(once) ==> patched(once, deps, owner) == Some(
            once,
        ),
{
    if let Some(once) = patched(contents, deps, owner) {
        let sm = START_MARKER@;
        let em = END_MARKER@;
        let block = linkage_block(deps, owner);
        let start = first_occurrence(contents, sm).unwrap();
        let end = first_occurrence(contents, em).unwrap();
        let from = start + sm.len();
        let to = from + 1 + block.len() + 1;
        lemma_marker_shapes();
        lemma_first_occurrence(contents, sm);
        lemma_first_occurrence(contents, em);
        assert(once =~= contents.take(from) + seq!['\n'] + block + seq!['\n'] + contents.skip(end));
        assert forall|k: int| 0 <= k < from implies once[k] == contents[k] by {}
        assert(once[from] == '\n');
        assert forall|k: int| from < k < to - 1 implies #[trigger] once[k] == block[k - from - 1] by {}
        assert(once[to - 1] == '\n');
        assert forall|k: int| to <= k < once.len() implies #[trigger] once[k] == contents[k - to
            + end] by {}
        assert(is_first_occurrence(once, sm, start)) by {
            assert(once.subrange(start, from) =~= contents.subrange(start, from));
            assert forall|j: int| 0 <= j < start implies !occurs_at(once, sm, j) by {
                if occurs_at(once, sm, j) {
                    assert(contents.subrange(j, j + sm.len()) =~= once.subrange(j, j + sm.len()));
                    assert(occurs_at(contents, sm, j));
                }
            }
        }
        lemma_first_occurrence_unique(once, sm, start);
        assert(is_first_occurrence(once, em, to)) by {
            assert(once.subrange(to, to + em.len()) =~= contents.subrange(end, end + em.len()));
            assert forall|j: int| 0 <= j < to implies !occurs_at(once, em, j) by {
                if occurs_at(once, em, j) {
                    let w = once.subrange(j, j + em.len());
                    if j + em.len() <= from {
                        assert(contents.subrange(j, j + em.len()) =~= w);
                        assert(occurs_at(contents, em, j));
                    } else if j <= from {
                        assert(w[from - j] == '\n');
                    } else if j + em.len() <= to - 1 {
                        assert(block.subrange(j - from - 1, j - from - 1 + em.len()) =~= w);
                        assert(occurs_at(block, em, j - from - 1));
                    } else {
                        assert(w[to - 1 - j] == '\n');
                    }
                }
            }
        }
        lemma_first_occurrence_unique(once, em, to);
        assert(once.take(from) =~= contents.take(from));
        assert(once.skip(to) =~= contents.skip(end));
    }
}

} // verus!
