//! Small helpers over strings that the rest of the crate shares.

use vstd::prelude::*;

verus! {

/// Relies on str's `PartialEq`: two string slices compare equal exactly when
/// their character sequences are equal.
#[verifier::external_body]
pub(crate) fn str_eq(a: &str, b: &str) -> (r: bool)
    ensures
        r == (a@ == b@),
{
    a == b
}

/// The character sequences of a list of string slices.
pub open spec fn views_of_strs(parts: Seq<&str>) -> Seq<Seq<char>> {
    parts.map_values(|p: &str| p@)
}

/// The parts joined, with the separator between consecutive parts and
/// nowhere else.
pub open spec fn spec_join(parts: Seq<Seq<char>>, sep: Seq<char>) -> Seq<char>
    decreases parts.len(),
{
    if parts.len() == 0 {
        Seq::<char>::empty()
    } else if parts.len() == 1 {
        parts.last()
    } else {
        spec_join(parts.drop_last(), sep) + sep + parts.last()
    }
}

/// Join string slices, with the separator between consecutive parts and
/// nowhere else.
pub fn join_strs(parts: &Vec<&str>, sep: &str) -> (r: String)
    ensures
        r@ == spec_join(views_of_strs(parts@), sep@),
{
    let mut r = String::new();
    let mut i: usize = 0;
    while i < parts.len()
        invariant
            i <= parts@.len(),
            r@ == spec_join(views_of_strs(parts@).take(i as int), sep@),
        decreases parts@.len() - i,
    {
        if i > 0 {
            r.append(sep);
        }
        r.append(parts[i]);
        i += 1;
        proof {
            let vs = views_of_strs(parts@);
            let k = i as int;
            if k == 1 {
                assert(r@ =~= spec_join(vs.take(k), sep@));
            } else {
                assert(vs.take(k).drop_last() =~= vs.take(k - 1));
                assert(r@ =~= spec_join(vs.take(k), sep@));
            }
        }
    }
    proof {
        assert(views_of_strs(parts@).take(parts@.len() as int) =~= views_of_strs(parts@));
    }
    r
}

} // verus!
