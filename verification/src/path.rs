//! Paths of the platform, and how a requested directory is placed under the workspace.
use std::path::PathBuf;
use vstd::prelude::*;

verus! {

/// `std::path::PathBuf`: a path of the platform it lives on, known by what is named below.
#[verifier::external_type_specification]
#[verifier::external_body]
pub struct ExPathBuf(PathBuf);

/// The text of a path, as it is shown to a reader. Of a path that is made from text, it is that
/// text.
pub uninterp spec fn path_text(p: PathBuf) -> Seq<char>;

/// The path that is made from a text.
pub uninterp spec fn path_of(text: Seq<char>) -> PathBuf;

/// Whether a path stands on its own, independent of a current directory.
pub uninterp spec fn path_is_absolute(p: PathBuf) -> bool;

/// The components of a path from the first on, each by the bytes by which it compares.
pub uninterp spec fn path_components(p: PathBuf) -> Seq<Seq<u8>>;

/// The path that adjoins `rest` to `base`, as the platform writes it.
pub uninterp spec fn path_joined(base: PathBuf, rest: PathBuf) -> PathBuf;

/// `PathBuf::from` on a string: the path that holds this text and nothing else, and that shows as
/// it. How the platform takes the text apart is not said.
#[verifier::external_body]
pub(crate) fn path_from_text(text: &str) -> (r: PathBuf)
    ensures
        r == path_of(text@),
        path_text(r) == text@,
{
    PathBuf::from(text)
}

/// `Path::display`, written out: the text of the path.
#[verifier::external_body]
pub(crate) fn show_path(p: &PathBuf) -> (r: String)
    ensures
        r@ == path_text(*p),
{
    p.display().to_string()
}

/// `Path::is_relative`: the opposite of being absolute.
#[verifier::external_body]
pub(crate) fn is_relative(p: &PathBuf) -> (r: bool)
    ensures
        r == !path_is_absolute(*p),
{
    p.is_relative()
}

/// `Path::join`. What the joined path looks like rests on the platform and is not said.
#[verifier::external_body]
pub(crate) fn join(base: &PathBuf, rest: &PathBuf) -> (r: PathBuf)
    ensures
        r == path_joined(*base, *rest),
{
    base.join(rest)
}

/// `Path::starts_with`: whether the components of `base` are the first components of `p`. Only
/// whole components count.
#[verifier::external_body]
pub(crate) fn starts_with(p: &PathBuf, base: &PathBuf) -> (r: bool)
    ensures
        r == path_components(*base).is_prefix_of(path_components(*p)),
{
    p.starts_with(base)
}

/// `PathBuf::clone`: the same path once more.
pub assume_specification[ <PathBuf as Clone>::clone ](p: &PathBuf) -> (r: PathBuf)
    ensures
        r == *p,
;

/// Whether `p` is `base` or lies below it, component by component.
pub open spec fn lies_within(p: PathBuf, base: PathBuf) -> bool {
    path_components(base).is_prefix_of(path_components(p))
}

/// Where a requested directory is looked for: an absolute one where it says, a relative one
/// under the workspace.
pub open spec fn placed(workspace: PathBuf, requested: PathBuf) -> PathBuf {
    if path_is_absolute(requested) {
        requested
    } else {
        path_joined(workspace, requested)
    }
}

/// The path under which a requested directory is looked for.
pub fn place(workspace: &PathBuf, requested: PathBuf) -> (r: PathBuf)
    ensures
        r == placed(*workspace, requested),
{
    if is_relative(&requested) {
        join(workspace, &requested)
    } else {
        requested
    }
}

} // verus!
