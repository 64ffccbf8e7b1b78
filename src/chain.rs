use vstd::prelude::*;

verus! {

/// The state left by feeding `blocks`, left to right, through the
/// compression function `step`, starting from `s`.
pub open spec fn fold_blocks<W, B>(
    step: spec_fn(Seq<W>, B) -> Seq<W>,
    s: Seq<W>,
    blocks: Seq<B>,
) -> Seq<W>
    decreases blocks.len(),
{
    if blocks.len() == 0 {
        s
    } else {
        step(fold_blocks(step, s, blocks.drop_last()), blocks.last())
    }
}

/// An empty block sequence leaves the state as it was.
pub proof fn lemma_fold_empty<W, B>(step: spec_fn(Seq<W>, B) -> Seq<W>, s: Seq<W>, blocks: Seq<B>)
    requires
        blocks.len() == 0,
    ensures
        fold_blocks(step, s, blocks) == s,
{
}

/// One block is one application of the compression function.
pub proof fn lemma_fold_single<W, B>(step: spec_fn(Seq<W>, B) -> Seq<W>, s: Seq<W>, b: B)
    ensures
        fold_blocks(step, s, seq![b]) == step(s, b),
{
    assert(seq![b].drop_last() =~= Seq::<B>::empty());
    assert(fold_blocks(step, s, seq![b].drop_last()) == s);
    assert(seq![b].last() == b);
}

/// Feeding `a` and then `b` in two calls gives the state that feeding `a + b`
/// in one call gives.
pub proof fn lemma_fold_chain<W, B>(
    step: spec_fn(Seq<W>, B) -> Seq<W>,
    s: Seq<W>,
    a: Seq<B>,
    b: Seq<B>,
)
    ensures
        fold_blocks(step, s, a + b) == fold_blocks(step, fold_blocks(step, s, a), b),
    decreases b.len(),
{
    if b.len() == 0 {
        assert(a + b =~= a);
    } else {
        assert((a + b).drop_last() =~= a + b.drop_last());
        assert((a + b).last() == b.last());
        lemma_fold_chain(step, s, a, b.drop_last());
    }
}

/// Three blocks in one call give the state that three calls of one block
/// each give, in the same order.
pub proof fn lemma_fold_three<W, B>(step: spec_fn(Seq<W>, B) -> Seq<W>, s: Seq<W>, b1: B, b2: B, b3: B)
    ensures
        fold_blocks(step, s, seq![b1, b2, b3]) == fold_blocks(
            step,
            fold_blocks(step, fold_blocks(step, s, seq![b1]), seq![b2]),
            seq![b3],
        ),
{
    lemma_fold_chain(step, s, seq![b1, b2], seq![b3]);
    lemma_fold_chain(step, s, seq![b1], seq![b2]);
    assert(seq![b1, b2] + seq![b3] =~= seq![b1, b2, b3]);
    assert(seq![b1] + seq![b2] =~= seq![b1, b2]);
}

} // verus!
