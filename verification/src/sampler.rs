use vstd::prelude::*;
use vstd::seq_lib::group_to_multiset_ensures;

verus! {

/// The requested sample size exceeds the number of available corpus words.
#[derive(Clone, Copy, Debug, PartialEq, Eq, Structural)]
pub struct InsufficientCorpus;

/// Relies on rand: `RngExt::random_range` on the thread-local generator
/// generates a random value in the given range, here `0..bound`.  rand
/// documents that the call panics only on an empty range, which `bound > 0`
/// rules out.
#[verifier::external_body]
fn random_below(bound: usize) -> (r: usize)
    requires
        bound > 0,
    ensures
        r < bound,
{
    rand::RngExt::random_range(&mut rand::rng(), 0..bound)
}

/// The character sequences of a sequence of strings, in order.
pub open spec fn texts(words: Seq<String>) -> Seq<Seq<char>> {
    Seq::new(words.len(), |i: int| words[i]@)
}

proof fn lemma_texts_remove(words: Seq<String>, j: int)
    requires
        0 <= j < words.len(),
    ensures
        texts(words.remove(j)) =~= texts(words).remove(j),
{
}

proof fn lemma_texts_push(words: Seq<String>, w: String)
    ensures
        texts(words.push(w)) =~= texts(words).push(w@),
{
}

/// Draw `count` words from `corpus` without replacement, in a randomized
/// order.  Fails with [`InsufficientCorpus`] exactly when `count` exceeds the
/// corpus length.  The texts of a successful sample form a submultiset of the
/// corpus texts: every drawn word occurs in the corpus, and no corpus entry is
/// drawn more often than it occurs there.
pub fn sample(corpus: &Vec<String>, count: usize) -> (r: Result<Vec<String>, InsufficientCorpus>)
    ensures
        r is Ok <==> count <= corpus@.len(),
        r is Ok ==> r->Ok_0@.len() == count,
        r is Ok ==> texts(r->Ok_0@).to_multiset().subset_of(texts(corpus@).to_multiset()),
        r is Ok ==> forall|i: int|
            0 <= i < count ==> texts(corpus@).contains(#[trigger] texts(r->Ok_0@)[i]),
{
    broadcast use group_to_multiset_ensures;

    if count > corpus.len() {
        return Err(InsufficientCorpus);
    }
    let mut pool: Vec<String> = corpus.clone();
    proof {
        assert(pool@ =~= corpus@);
    }
    let mut out: Vec<String> = Vec::new();
    while out.len() < count
        invariant
            count <= corpus@.len(),
            out@.len() <= count,
            pool@.len() + out@.len() == corpus@.len(),
            texts(pool@).to_multiset().add(texts(out@).to_multiset()) =~= texts(
                corpus@,
            ).to_multiset(),
        decreases count - out@.len(),
    {
        let j = random_below(pool.len());
        let ghost old_pool = pool@;
        let ghost old_out = out@;
        let picked = pool.remove(j);
        out.push(picked);
        proof {
            broadcast use vstd::multiset::group_multiset_axioms;

            lemma_texts_remove(old_pool, j as int);
            lemma_texts_push(old_out, picked);
            texts(old_pool).to_multiset_ensures();
            texts(old_out).to_multiset_ensures();
            let x = picked@;
            let mp = texts(old_pool).to_multiset();
            let mo = texts(old_out).to_multiset();
            assert(texts(old_pool)[j as int] == x);
            assert(texts(old_pool).contains(x));
            assert(mp.count(x) > 0);
            assert(texts(pool@).to_multiset() =~= mp.remove(x));
            assert(texts(out@).to_multiset() =~= mo.insert(x));
            assert forall|y: Seq<char>| mp.remove(x).add(mo.insert(x)).count(y) == mp.add(mo).count(
                y,
            ) by {
                if y == x {
                    assert(mp.remove(x).count(x) == mp.count(x) - 1);
                    assert(mo.insert(x).count(x) == mo.count(x) + 1);
                }
            }
            assert(mp.remove(x).add(mo.insert(x)) =~= mp.add(mo));
            assert(texts(pool@).to_multiset().add(texts(out@).to_multiset()) =~= texts(
                corpus@,
            ).to_multiset());
        }
    }
    proof {
        assert forall|i: int| 0 <= i < count implies texts(corpus@).contains(
            #[trigger] texts(out@)[i],
        ) by {
            assert(texts(out@).contains(texts(out@)[i]));
            assert(texts(out@).to_multiset().count(texts(out@)[i]) > 0);
            assert(texts(corpus@).to_multiset().count(texts(out@)[i]) > 0);
        }
    }
    Ok(out)
}

/// Sampling without replacement keeps entries distinct: when the sample's
/// texts form a submultiset of the corpus texts and the corpus holds no
/// duplicate entries, the sample holds no duplicate entries either.
pub proof fn lemma_sample_no_duplicates(sampled: Seq<Seq<char>>, corpus: Seq<Seq<char>>)
    requires
        sampled.to_multiset().subset_of(corpus.to_multiset()),
        corpus.no_duplicates(),
    ensures
        sampled.no_duplicates(),
{
    broadcast use group_to_multiset_ensures;

    corpus.lemma_multiset_has_no_duplicates();
    assert forall|x: Seq<char>| sampled.to_multiset().contains(x) implies sampled.to_multiset()
        .count(x) == 1 by {
        assert(corpus.to_multiset().count(x) >= sampled.to_multiset().count(x));
        assert(corpus.to_multiset().contains(x));
    }
    sampled.lemma_multiset_has_no_duplicates_conv();
}

} // verus!
