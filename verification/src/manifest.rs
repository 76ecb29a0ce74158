//! The transient manifest handed to the package manager: the declarations
//! under `[requires]`, and the two generators under `[generators]`.

use vstd::prelude::*;

verus! {

/// The lines `ls`, each closed by a line feed, one after the other.
pub open spec fn join_lines(ls: Seq<Seq<char>>) -> Seq<char>
    decreases ls.len(),
{
    if ls.len() == 0 {
        Seq::empty()
    } else {
        join_lines(ls.drop_last()) + ls.last() + seq!['\n']
    }
}

/// The text of the manifest for the declarations `deps`.
pub open spec fn manifest_text(deps: Seq<Seq<char>>) -> Seq<char> {
    "[requires]\n"@ + join_lines(deps) + "\n[generators]\nCMakeDeps\nCMakeToolchain\n"@
}

/// Writes out the manifest for the declarations `deps`.
pub fn render_manifest(deps: &Vec<String>) -> (text: String)
    ensures
        text@ == manifest_text(deps.deep_view()),
{
    let mut text = String::from_str("[requires]\n");
    let mut i: usize = 0;
    assert(deps.deep_view().take(0) =~= Seq::empty());
    while i < deps.len()
        invariant
            i <= deps.len(),
            text@ == "[requires]\n"@ + join_lines(deps.deep_view().take(i as int)),
        decreases deps.len() - i,
    {
        let ghost more = deps.deep_view().take(i + 1);
        assert(more.drop_last() =~= deps.deep_view().take(i as int));
        assert(more.last() == deps[i as int]@);
        proof {
            reveal_strlit("\n");
        }
        assert("\n"@ =~= seq!['\n']);
        text.append(deps[i].as_str());
        text.append("\n");
        assert(text@ =~= "[requires]\n"@ + join_lines(more));
        i += 1;
    }
    assert(deps.deep_view().take(i as int) =~= deps.deep_view());
    text.append("\n[generators]\nCMakeDeps\nCMakeToolchain\n");
    text
}

} // verus!
