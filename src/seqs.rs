//! Concatenation of sequences of sequences, and the facts about it that the
//! buffer layout relies on.

use vstd::prelude::*;

verus! {

/// The parts laid end to end, first part first.
pub open spec fn concat<A>(parts: Seq<Seq<A>>) -> Seq<A>
    decreases parts.len(),
{
    if parts.len() == 0 {
        Seq::empty()
    } else {
        concat(parts.drop_last()) + parts.last()
    }
}

/// Where part `k` starts in `concat(parts)`: the summed lengths of the parts before it.
pub open spec fn part_start<A>(parts: Seq<Seq<A>>, k: int) -> nat
    decreases k,
{
    if k <= 0 {
        0
    } else {
        part_start(parts, k - 1) + parts[k - 1].len()
    }
}

/// Every value of the sequence shifted up by `d`.
pub open spec fn shifted(s: Seq<u32>, d: int) -> Seq<u32> {
    s.map_values(|e: u32| (e + d) as u32)
}

/// Taking one more part appends that part.
pub proof fn lemma_concat_take_step<A>(parts: Seq<Seq<A>>, k: int)
    requires
        0 <= k < parts.len(),
    ensures
        concat(parts.take(k + 1)) == concat(parts.take(k)) + parts[k],
{
    assert(parts.take(k + 1).drop_last() =~= parts.take(k));
}

/// Part starts only look at the parts before them.
pub proof fn lemma_part_start_take<A>(parts: Seq<Seq<A>>, n: int, k: int)
    requires
        0 <= k <= n <= parts.len(),
    ensures
        part_start(parts.take(n), k) == part_start(parts, k),
    decreases k,
{
    if k > 0 {
        lemma_part_start_take(parts, n, k - 1);
    }
}

/// Part starts never decrease.
pub proof fn lemma_part_start_mono<A>(parts: Seq<Seq<A>>, j: int, k: int)
    requires
        0 <= j <= k,
    ensures
        part_start(parts, j) <= part_start(parts, k),
    decreases k - j,
{
    if j < k {
        lemma_part_start_mono(parts, j, k - 1);
    }
}

/// The concatenation is as long as all the parts together.
pub proof fn lemma_concat_len<A>(parts: Seq<Seq<A>>)
    ensures
        concat(parts).len() == part_start(parts, parts.len() as int),
    decreases parts.len(),
{
    if parts.len() > 0 {
        let init = parts.drop_last();
        lemma_concat_len(init);
        lemma_part_start_take(parts, parts.len() - 1, parts.len() - 1);
        assert(init =~= parts.take(parts.len() - 1));
    }
}

/// Element `j` of part `k` sits at `part_start(parts, k) + j`.
pub proof fn lemma_concat_index<A>(parts: Seq<Seq<A>>, k: int, j: int)
    requires
        0 <= k < parts.len(),
        0 <= j < parts[k].len(),
    ensures
        part_start(parts, k) + j < concat(parts).len(),
        concat(parts)[part_start(parts, k) + j] == parts[k][j],
    decreases parts.len(),
{
    let init = parts.drop_last();
    lemma_concat_len(init);
    lemma_part_start_take(parts, parts.len() - 1, k);
    assert(init =~= parts.take(parts.len() - 1));
    if k == parts.len() - 1 {
        lemma_part_start_take(parts, parts.len() - 1, parts.len() - 1);
    } else {
        lemma_concat_index(init, k, j);
        lemma_part_start_mono(init, k + 1, init.len() as int);
    }
}

/// What holds of every element of every part holds of every element of the
/// concatenation.
pub proof fn lemma_concat_all<A>(parts: Seq<Seq<A>>, p: spec_fn(A) -> bool)
    requires
        forall|k: int, j: int| 0 <= k < parts.len() && 0 <= j < parts[k].len() ==> p(#[trigger] parts[k][j]),
    ensures
        forall|i: int| 0 <= i < concat(parts).len() ==> p(#[trigger] concat(parts)[i]),
    decreases parts.len(),
{
    if parts.len() > 0 {
        let init = parts.drop_last();
        assert forall|k: int, j: int| 0 <= k < init.len() && 0 <= j < init[k].len() implies p(#[trigger] init[k][j]) by {
            assert(init[k] == parts[k]);
        }
        lemma_concat_all(init, p);
        let c = concat(parts);
        assert forall|i: int| 0 <= i < c.len() implies p(#[trigger] c[i]) by {
            if i < concat(init).len() {
                assert(c[i] == concat(init)[i]);
            } else {
                assert(c[i] == parts.last()[i - concat(init).len()]);
            }
        }
    }
}

/// Part starts depend only on the lengths of the parts.
pub proof fn lemma_part_start_same_lens<A, B>(a: Seq<Seq<A>>, b: Seq<Seq<B>>, k: int)
    requires
        0 <= k <= a.len(),
        a.len() == b.len(),
        forall|i: int| 0 <= i < a.len() ==> #[trigger] a[i].len() == b[i].len(),
    ensures
        part_start(a, k) == part_start(b, k),
    decreases k,
{
    if k > 0 {
        lemma_part_start_same_lens(a, b, k - 1);
        assert(a[k - 1].len() == b[k - 1].len());
    }
}

} // verus!
