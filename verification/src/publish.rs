use vstd::prelude::*;

verus! {

/// The result of splicing `data` into `region` at `offset`: the bytes
/// before the fragment, the fragment, and the bytes after it.
pub open spec fn splice(region: Seq<u8>, offset: int, data: Seq<u8>) -> Seq<u8> {
    region.take(offset) + data + region.skip(offset + data.len())
}

/// Splices one fragment into the proof region in place.
pub fn write_fragment(region: &mut Vec<u8>, offset: usize, data: &[u8])
    requires
        offset + data@.len() <= old(region)@.len(),
    ensures
        final(region)@ =~= splice(old(region)@, offset as int, data@),
{
    let cap: usize = region.len();
    let mut i: usize = 0;
    while i < data.len()
        invariant
            i <= data@.len(),
            offset + data@.len() <= cap,
            offset + data@.len() <= region@.len(),
            region@.len() == old(region)@.len(),
            forall|j: int| 0 <= j < i ==> region@[offset + j] == data@[j],
            forall|j: int|
                0 <= j < region@.len() && !(offset <= j < offset + i) ==> region@[j] == old(
                    region,
                )@[j],
        decreases data@.len() - i,
    {
        let idx = offset + i;
        region.set(idx, data[i]);
        i = i + 1;
    }
}

/// Splicing is idempotent: writing the same fragment twice leaves the
/// region as one write does.
pub proof fn lemma_splice_idempotent(region: Seq<u8>, offset: int, data: Seq<u8>)
    requires
        0 <= offset,
        offset + data.len() <= region.len(),
    ensures
        splice(splice(region, offset, data), offset, data) =~= splice(region, offset, data),
{
}

/// What one byte of the region holds after a splice: the fragment's byte
/// where the fragment covers the position, the old byte elsewhere.
pub proof fn lemma_splice_byte(region: Seq<u8>, offset: int, data: Seq<u8>, j: int)
    requires
        0 <= offset,
        offset + data.len() <= region.len(),
        0 <= j < region.len(),
    ensures
        splice(region, offset, data).len() == region.len(),
        offset <= j < offset + data.len() ==> splice(region, offset, data)[j] == data[j - offset],
        !(offset <= j < offset + data.len()) ==> splice(region, offset, data)[j] == region[j],
{
}

/// A list of fragments, each an offset paired with its bytes.
pub type Fragments = Seq<(int, Seq<u8>)>;

/// Every fragment lies inside a region of the given length.
pub open spec fn fragments_in_bounds(frags: Fragments, len: int) -> bool {
    forall|i: int|
        0 <= i < frags.len() ==> 0 <= #[trigger] frags[i].0 && frags[i].0 + frags[i].1.len() <= len
}

/// No two distinct fragments overlap.
pub open spec fn fragments_disjoint(frags: Fragments) -> bool {
    forall|i: int, j: int|
        0 <= i < frags.len() && 0 <= j < frags.len() && i != j ==> (#[trigger] frags[i].0
            + frags[i].1.len() <= #[trigger] frags[j].0 || frags[j].0 + frags[j].1.len()
            <= frags[i].0)
}

/// The region after publishing the fragments in list order.
pub open spec fn apply_fragments(region: Seq<u8>, frags: Fragments) -> Seq<u8>
    decreases frags.len(),
{
    if frags.len() == 0 {
        region
    } else {
        apply_fragments(splice(region, frags[0].0, frags[0].1), frags.drop_first())
    }
}

/// Position `p` is covered by fragment `i`, which assigns it this byte.
pub open spec fn fragment_covers(frags: Fragments, i: int, p: int) -> bool {
    0 <= i < frags.len() && frags[i].0 <= p < frags[i].0 + frags[i].1.len()
}

/// Some fragment covers position `p`.
pub open spec fn position_covered(frags: Fragments, p: int) -> bool {
    exists|i: int| #[trigger] fragment_covers(frags, i, p)
}

/// Publishing fragments never changes the region's length.
pub proof fn lemma_apply_fragments_len(region: Seq<u8>, frags: Fragments)
    requires
        fragments_in_bounds(frags, region.len() as int),
    ensures
        apply_fragments(region, frags).len() == region.len(),
    decreases frags.len(),
{
    if frags.len() > 0 {
        let first = frags[0];
        let rest = frags.drop_first();
        let region1 = splice(region, first.0, first.1);
        assert(region1.len() == region.len());
        assert(fragments_in_bounds(rest, region1.len() as int)) by {
            assert(forall|i: int| 0 <= i < rest.len() ==> rest[i] == #[trigger] frags[i + 1]);
        }
        lemma_apply_fragments_len(region1, rest);
    }
}

/// What publishing disjoint fragments leaves at each position: the byte
/// of the fragment covering it, or the original byte where no fragment
/// does. The outcome is determined position by position, with no regard
/// to the order in which the fragments arrived.
pub proof fn lemma_apply_fragments_pointwise(region: Seq<u8>, frags: Fragments, p: int)
    requires
        fragments_in_bounds(frags, region.len() as int),
        fragments_disjoint(frags),
        0 <= p < region.len(),
    ensures
        apply_fragments(region, frags).len() == region.len(),
        forall|i: int|
            #[trigger] fragment_covers(frags, i, p) ==> apply_fragments(region, frags)[p]
                == frags[i].1[p - frags[i].0],
        (forall|i: int| !(#[trigger] fragment_covers(frags, i, p))) ==> apply_fragments(
            region,
            frags,
        )[p] == region[p],
    decreases frags.len(),
{
    if frags.len() == 0 {
    } else {
        let first = frags[0];
        let rest = frags.drop_first();
        let region1 = splice(region, first.0, first.1);
        lemma_splice_byte(region, first.0, first.1, p);
        assert(fragments_in_bounds(rest, region1.len() as int)) by {
            assert(forall|i: int|
                0 <= i < rest.len() ==> rest[i] == #[trigger] frags[i + 1]);
        }
        assert(fragments_disjoint(rest)) by {
            assert(forall|i: int|
                0 <= i < rest.len() ==> rest[i] == #[trigger] frags[i + 1]);
        }
        lemma_apply_fragments_pointwise(region1, rest, p);
        assert forall|i: int| #[trigger] fragment_covers(frags, i, p) implies apply_fragments(
            region,
            frags,
        )[p] == frags[i].1[p - frags[i].0] by {
            if i == 0 {
                // No later fragment covers p, so the first fragment's byte
                // survives the remaining splices: every later fragment is
                // disjoint from the first.
                assert forall|j: int| !(#[trigger] fragment_covers(rest, j, p)) by {
                    if fragment_covers(rest, j, p) {
                        assert(rest[j] == frags[j + 1]);
                        assert(fragment_covers(frags, j + 1, p));
                        assert(frags[0].0 + frags[0].1.len() <= frags[j + 1].0 || frags[j + 1].0
                            + frags[j + 1].1.len() <= frags[0].0);
                    }
                }
            } else {
                assert(fragment_covers(rest, i - 1, p));
                assert(rest[i - 1] == frags[i]);
            }
        }
        if forall|i: int| !(#[trigger] fragment_covers(frags, i, p)) {
            assert(!fragment_covers(frags, 0, p));
            assert forall|j: int| !(#[trigger] fragment_covers(rest, j, p)) by {
                if fragment_covers(rest, j, p) {
                    assert(rest[j] == frags[j + 1]);
                    assert(fragment_covers(frags, j + 1, p));
                }
            }
        }
    }
}

/// Publishing disjoint fragments is order-independent: any two arrival
/// orders of the same fragments leave the same region, byte for byte.
pub proof fn lemma_apply_fragments_any_order(region: Seq<u8>, a: Fragments, b: Fragments)
    requires
        fragments_in_bounds(a, region.len() as int),
        fragments_disjoint(a),
        fragments_in_bounds(b, region.len() as int),
        fragments_disjoint(b),
        a.to_multiset() == b.to_multiset(),
    ensures
        apply_fragments(region, a) =~= apply_fragments(region, b),
{
    let ra = apply_fragments(region, a);
    let rb = apply_fragments(region, b);
    assert forall|p: int| 0 <= p < region.len() implies ra[p] == rb[p] by {
        lemma_apply_fragments_pointwise(region, a, p);
        lemma_apply_fragments_pointwise(region, b, p);
        if exists|i: int| #[trigger] fragment_covers(a, i, p) {
            let i = choose|i: int| #[trigger] fragment_covers(a, i, p);
            a.to_multiset_ensures();
            b.to_multiset_ensures();
            assert(a.to_multiset().contains(a[i]));
            assert(b.to_multiset().contains(a[i]));
            assert(b.contains(a[i]));
            let j = choose|j: int| 0 <= j < b.len() && b[j] == a[i];
            assert(fragment_covers(b, j, p));
        } else {
            if exists|j: int| #[trigger] fragment_covers(b, j, p) {
                let j = choose|j: int| #[trigger] fragment_covers(b, j, p);
                a.to_multiset_ensures();
                b.to_multiset_ensures();
                assert(b.to_multiset().contains(b[j]));
                assert(a.to_multiset().contains(b[j]));
                assert(a.contains(b[j]));
                let i = choose|i: int| 0 <= i < a.len() && a[i] == b[j];
                assert(fragment_covers(a, i, p));
            }
        }
        lemma_apply_fragments_pointwise(region, a, p);
        lemma_apply_fragments_pointwise(region, b, p);
    }
    lemma_apply_fragments_len(region, a);
    lemma_apply_fragments_len(region, b);
}

/// A partition that covers the whole region with disjoint fragments
/// reproduces the published byte string exactly: after publishing, every
/// position holds the byte its fragment carries, whatever the order.
pub proof fn lemma_apply_fragments_covering(region: Seq<u8>, frags: Fragments, target: Seq<u8>)
    requires
        region.len() == target.len(),
        fragments_in_bounds(frags, region.len() as int),
        fragments_disjoint(frags),
        // every position is covered, and each fragment carries the
        // target's bytes for its range
        forall|p: int| 0 <= p < region.len() ==> #[trigger] position_covered(frags, p),
        forall|i: int, p: int|
            #[trigger] fragment_covers(frags, i, p) ==> frags[i].1[p - frags[i].0] == target[p],
    ensures
        apply_fragments(region, frags) =~= target,
{
    assert forall|p: int| 0 <= p < region.len() implies apply_fragments(region, frags)[p]
        == target[p] by {
        lemma_apply_fragments_pointwise(region, frags, p);
        assert(position_covered(frags, p));
        let i = choose|i: int| #[trigger] fragment_covers(frags, i, p);
        assert(frags[i].1[p - frags[i].0] == target[p]);
        assert(apply_fragments(region, frags)[p] == frags[i].1[p - frags[i].0]);
    }
    lemma_apply_fragments_len(region, frags);
}

} // verus!
