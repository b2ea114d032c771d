use vstd::prelude::*;
use vstd::string::*;

verus! {

/// Character-wise equality of two string slices, proved from the views.
pub fn str_eq(a: &str, b: &str) -> (r: bool)
    ensures
        r == (a@ == b@),
{
    let x: String = a.to_owned();
    let y: String = b.to_owned();
    x == y
}

/// `base` with `tail` appended.
pub fn concat_str(base: &str, tail: &str) -> (r: String)
    ensures
        r@ == base@ + tail@,
{
    let mut out: String = base.to_owned();
    out.append(tail);
    out
}

} // verus!
