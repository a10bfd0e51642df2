//! Labels of device buffers, as graphics debuggers show them.

use vstd::prelude::*;

verus! {

/// What follows the name of a mesh in the label of its vertex buffer.
pub const VERTEX_BUFFER_SUFFIX: &'static str = " Vertex Buffer";

/// What follows the name of a mesh in the label of its index buffer.
pub const INDEX_BUFFER_SUFFIX: &'static str = " Index Buffer";

// How std's `Debug` writes a string: between double quotes, with quotes,
// backslashes and unprintable characters escaped.
pub uninterp spec fn debug_text(text: Seq<char>) -> Seq<char>;

/// `format!("{:?}", text)`, that is std's `Debug` for `str`: the text between
/// double quotes, with quotes, backslashes and unprintable characters
/// escaped. What comes out depends on the text alone, and formatting into a
/// `String` does not fail.
#[verifier::external_body]
pub(crate) fn debug_format(text: &str) -> (quoted: String)
    ensures
        quoted@ == debug_text(text@),
{
    format!("{:?}", text)
}

/// The label made of a quoted name and what follows it.
pub fn label(quoted: String, suffix: &str) -> (label: String)
    ensures
        label@ == quoted@ + suffix@,
{
    quoted.concat(suffix)
}

} // verus!
