//! Dense tables indexed by a small integer, whose slots may be empty.
use vstd::prelude::*;

verus! {

/// `s` extended with empty slots up to length `n`; unchanged if it is
/// already that long.
pub open spec fn padded<T>(s: Seq<Option<T>>, n: nat) -> Seq<Option<T>> {
    if s.len() >= n {
        s
    } else {
        s + Seq::new((n - s.len()) as nat, |i: int| None::<T>)
    }
}

/// Grows `v` with empty slots until it has at least `n` of them.
pub fn grow_to<T>(v: &mut Vec<Option<T>>, n: usize)
    ensures
        final(v)@ == padded(old(v)@, n as nat),
{
    let ghost start = v@;
    while v.len() < n
        invariant
            start.len() <= v@.len(),
            v@.len() <= n || v@ == start,
            v@ =~= start + Seq::new((v@.len() - start.len()) as nat, |i: int| None::<T>),
        decreases n - v@.len(),
    {
        v.push(None);
    }
    proof {
        if start.len() >= n {
            assert(v@ =~= start);
        } else {
            assert(v@ =~= padded(start, n as nat));
        }
    }
}

} // verus!
