use vstd::prelude::*;
use vstd::string::StringExecFns;

verus! {

/// Return the input text prefixed with the literal tag `"rust:"`.
///
/// The result is exactly the tag followed by every character of `url`,
/// for every input string.
pub fn respond(url: String) -> (r: String)
    ensures
        r@ == "rust:"@ + url@,
{
    let mut r = "rust:".to_owned();
    r.append(url.as_str());
    r
}

} // verus!
