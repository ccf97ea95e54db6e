use vstd::prelude::*;

verus! {

/// `a + b`, capped at the largest `usize` value.
pub open spec fn spec_saturating_add(a: int, b: int) -> int {
    if a + b <= usize::MAX as int {
        a + b
    } else {
        usize::MAX as int
    }
}

pub(crate) fn saturating_add_usize(a: usize, b: usize) -> (r: usize)
    ensures
        r == spec_saturating_add(a as int, b as int),
{
    if a <= usize::MAX - b {
        a + b
    } else {
        usize::MAX
    }
}

/// The words-per-minute figure after a submit: the submitted characters make
/// `chars / 5` whole words (the five-characters-per-word convention), spread
/// over `elapsed_ms` milliseconds; the result is capped at the largest
/// `usize` value.  When no time has elapsed the previous figure is kept, so
/// the computation never divides by zero.
pub open spec fn spec_wpm(chars: int, elapsed_ms: int, prev: int) -> int {
    if elapsed_ms <= 0 {
        prev
    } else if (chars / 5) * 60000 / elapsed_ms <= usize::MAX as int {
        (chars / 5) * 60000 / elapsed_ms
    } else {
        usize::MAX as int
    }
}

/// No time elapsed leaves the words-per-minute figure unchanged.
pub proof fn lemma_wpm_zero_elapsed(chars: int, prev: int)
    ensures
        spec_wpm(chars, 0, prev) == prev,
{
}

pub(crate) fn compute_wpm(chars: usize, elapsed_ms: u128, prev: usize) -> (r: usize)
    ensures
        r == spec_wpm(chars as int, elapsed_ms as int, prev as int),
{
    if elapsed_ms == 0 {
        prev
    } else {
        let words: u128 = (chars / 5) as u128;
        proof {
            assert(words * 60000 <= u128::MAX) by (nonlinear_arith)
                requires
                    words <= usize::MAX as u128,
            ;
        }
        let scaled: u128 = words * 60000;
        let q: u128 = scaled / elapsed_ms;
        if q <= usize::MAX as u128 {
            q as usize
        } else {
            usize::MAX
        }
    }
}

/// The accuracy percentage: one hundred times the exactly-matched words over
/// the attempted words, with an attempt count of zero treated as one.
pub open spec fn spec_accuracy(correct_words: int, cursor: int) -> int {
    100 * correct_words / (if cursor == 0 {
        1int
    } else {
        cursor
    })
}

/// The accuracy percentage lies between 0 and 100 whenever no more words
/// matched than were attempted.
pub proof fn lemma_accuracy_bounds(correct_words: int, cursor: int)
    requires
        0 <= correct_words <= cursor,
    ensures
        0 <= spec_accuracy(correct_words, cursor) <= 100,
{
    if cursor == 0 {
    } else {
        assert(100 * correct_words <= 100 * cursor) by (nonlinear_arith)
            requires
                correct_words <= cursor,
        ;
        assert(100 * correct_words / cursor <= 100 * cursor / cursor) by (nonlinear_arith)
            requires
                0 <= 100 * correct_words <= 100 * cursor,
                cursor > 0,
        ;
        assert(100 * cursor / cursor == 100) by (nonlinear_arith)
            requires
                cursor > 0,
        ;
        assert(100 * correct_words / cursor >= 0) by (nonlinear_arith)
            requires
                correct_words >= 0,
                cursor > 0,
        ;
    }
}

pub(crate) fn compute_accuracy(correct_words: usize, cursor: usize) -> (r: usize)
    requires
        correct_words <= cursor,
    ensures
        r == spec_accuracy(correct_words as int, cursor as int),
        0 <= r <= 100,
{
    proof {
        lemma_accuracy_bounds(correct_words as int, cursor as int);
    }
    let den: u128 = if cursor == 0 {
        1
    } else {
        cursor as u128
    };
    let num: u128 = 100 * (correct_words as u128);
    let q: u128 = num / den;
    q as usize
}

} // verus!
