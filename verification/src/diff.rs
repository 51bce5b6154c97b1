//! Comparing the text of a source with the text of its target.

use vstd::prelude::*;

verus! {

/// The line-based patch that `diffy::create_patch` makes from `before` to
/// `after`, in unified format and coloured for a terminal, as
/// `diffy::PatchFormatter` writes it.
pub uninterp spec fn patch_text(before: Seq<char>, after: Seq<char>) -> Seq<char>;

/// What comparing a source with its target shows: nothing where the two texts
/// are the same, else the rendered patch that turns the source into the target.
pub open spec fn differences(source: Seq<char>, target: Seq<char>) -> Option<Seq<char>> {
    if source == target {
        None
    } else {
        Some(patch_text(source, target))
    }
}

/// `diffy::create_patch` and `Patch::hunks`: how many hunks the patch from
/// `before` to `after` has. Claimed is only when there is none: exactly
/// when the two texts are equal. The patch is made from the lines of the
/// texts, each line with its line end, so the lines of a text make up the
/// text. Equal lines are taken off as one common run and leave no edit;
/// whatever else remains becomes a deletion or an insertion, none of which is
/// dropped later, and each of which opens a hunk or joins the one before it.
#[verifier::external_body]
fn count_hunks(before: &str, after: &str) -> (n: usize)
    ensures
        n == 0 <==> before@ == after@,
{
    diffy::create_patch(before, after).hunks().len()
}

/// `diffy::PatchFormatter::fmt_patch` with colour, on the patch from
/// `before` to `after`. The text is never empty: it begins with the two
/// header lines that name the sides.
#[verifier::external_body]
fn render_patch(before: &str, after: &str) -> (text: String)
    ensures
        text@ == patch_text(before@, after@),
        text@.len() > 0,
{
    let patch = diffy::create_patch(before, after);
    let formatter = diffy::PatchFormatter::new().with_color();
    let text = formatter.fmt_patch(&patch).to_string();
    text
}

/// Compares `source`, the text before, with `target`, the text after. Equal
/// texts give nothing; any other pair gives the rendered patch, which is not
/// empty.
pub fn diff_texts(source: &str, target: &str) -> (r: Option<String>)
    ensures
        match r {
            Some(text) => differences(source@, target@) == Some(text@) && text@.len() > 0,
            None => differences(source@, target@) is None,
        },
{
    if count_hunks(source, target) > 0 {
        Some(render_patch(source, target))
    } else {
        None
    }
}

/// Texts that are the same show no difference.
pub proof fn lemma_same_text_no_difference(text: Seq<char>)
    ensures
        differences(text, text) is None,
{
}

/// Texts that are not the same show one.
pub proof fn lemma_other_text_some_difference(source: Seq<char>, target: Seq<char>)
    requires
        source != target,
    ensures
        differences(source, target) is Some,
{
}

} // verus!
