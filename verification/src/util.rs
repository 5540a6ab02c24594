use vstd::prelude::*;

verus! {

/// An element-for-element copy of a vector of plain values.
pub fn copy_vec<T: Copy>(v: &Vec<T>) -> (r: Vec<T>)
    ensures
        r@ =~= v@,
{
    copy_suffix(v, 0)
}

/// A copy of a vector's tail, from the given position to the end.
pub fn copy_suffix<T: Copy>(v: &Vec<T>, from: usize) -> (r: Vec<T>)
    requires
        from <= v@.len(),
    ensures
        r@ =~= v@.skip(from as int),
{
    let mut r: Vec<T> = Vec::new();
    let mut i: usize = from;
    while i < v.len()
        invariant
            from <= i <= v@.len(),
            r@ =~= v@.subrange(from as int, i as int),
        decreases v@.len() - i,
    {
        r.push(v[i]);
        i = i + 1;
    }
    proof {
        assert(v@.subrange(from as int, v@.len() as int) =~= v@.skip(from as int));
    }
    r
}

/// A vector holding `a`'s elements followed by `b`'s.
pub fn concat_vec<T: Copy>(a: &Vec<T>, b: &Vec<T>) -> (r: Vec<T>)
    ensures
        r@ =~= a@ + b@,
{
    let mut r: Vec<T> = copy_suffix(a, 0);
    let mut i: usize = 0;
    while i < b.len()
        invariant
            i <= b@.len(),
            r@ =~= a@ + b@.subrange(0, i as int),
        decreases b@.len() - i,
    {
        r.push(b[i]);
        i = i + 1;
    }
    proof {
        assert(b@.subrange(0, b@.len() as int) =~= b@);
    }
    r
}

} // verus!
