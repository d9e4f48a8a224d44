//! The default name of the output file.

use vstd::prelude::*;

verus! {

/// The output file name used when the caller gives none: the original stem,
/// the marker `-edited.`, and the extension.
pub fn default_output_name(stem: &str, ext: &str) -> (r: String)
    ensures
        r@ == stem@ + "-edited."@ + ext@,
{
    let mut s = String::from_str(stem);
    s.append("-edited.");
    s.append(ext);
    s
}

} // verus!
