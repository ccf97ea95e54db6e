use vstd::prelude::*;
use crate::clock::monotonic_now;
use crate::clock::elapsed_millis;
use crate::metrics::spec_saturating_add;
use crate::metrics::saturating_add_usize;
use crate::metrics::spec_wpm;
use crate::metrics::compute_wpm;
use crate::metrics::spec_accuracy;
use crate::metrics::compute_accuracy;
use crate::sampler::sample;
use crate::sampler::texts;
use crate::sampler::InsufficientCorpus;
use vstd::string::StrSliceExecFns;

verus! {

/// Completion state of one target word within the current run.
#[derive(Clone, Copy, Debug, PartialEq, Eq, Structural)]
pub enum WordStatus {
    /// Not reached yet.
    Pending,
    /// The word the cursor rests on, with nothing typed for it so far.
    Next,
    /// The word the cursor rests on; the typed text is a prefix of it.
    TypingCorrectPrefix,
    /// The word the cursor rests on; the typed text is not a prefix of it.
    TypingTypo,
    /// Submitted as an exact match.
    Correct,
    /// Submitted, but not an exact match.
    Incorrect,
}

impl WordStatus {
    /// A status that marks the word the user is working on right now.
    pub open spec fn is_current(self) -> bool {
        self is Next || self is TypingCorrectPrefix || self is TypingTypo
    }

    /// A status of a word that has already been submitted.
    pub open spec fn is_settled(self) -> bool {
        self is Correct || self is Incorrect
    }
}

/// One target word together with its status.
pub struct WordSlot {
    pub text: String,
    pub status: WordStatus,
}

/// Mathematical model of a [`WordSlot`].
pub ghost struct SlotModel {
    pub text: Seq<char>,
    pub status: WordStatus,
}

impl View for WordSlot {
    type V = SlotModel;

    open spec fn view(&self) -> SlotModel {
        SlotModel { text: self.text@, status: self.status }
    }
}

/// The committed text of a submit: the typed text with its trailing
/// delimiter character removed.
pub open spec fn submitted_text(input: Seq<char>) -> Seq<char> {
    if input.len() > 0 {
        input.drop_last()
    } else {
        input
    }
}

/// The texts of a sequence of slots, in order.
pub open spec fn slot_texts(slots: Seq<SlotModel>) -> Seq<Seq<char>> {
    Seq::new(slots.len(), |i: int| slots[i].text)
}

/// Mathematical model of the engine state.
pub ghost struct TypingsModel {
    /// The texts of the full corpus the runs are drawn from.
    pub corpus: Seq<Seq<char>>,
    /// How many words every run holds.
    pub sample_size: int,
    /// The words of the current run, each with its status.
    pub words: Seq<SlotModel>,
    /// The text typed for the current word so far.
    pub input: Seq<char>,
    /// The index of the current word; equal to `words.len()` once the run is
    /// complete.
    pub cursor: int,
    /// The summed character count of every submitted word's target text.
    pub correct_characters: int,
    /// How many words were submitted as an exact match.
    pub correct_words: int,
    /// Whether the run has begun and is not yet complete.
    pub started: bool,
    /// The words-per-minute figure of the latest submit.
    pub wpm: int,
}

impl TypingsModel {
    /// The engine's internal invariant: the cursor stays within the run, the
    /// counters stay consistent, every word before the cursor is settled,
    /// every word after it is pending, the word under the cursor is the
    /// current one, and a complete run is no longer started.
    pub open spec fn wf(self) -> bool {
        &&& 0 <= self.cursor <= self.words.len()
        &&& self.words.len() == self.sample_size
        &&& 1 <= self.sample_size <= self.corpus.len()
        &&& 0 <= self.correct_words <= self.cursor
        &&& 0 <= self.correct_characters <= usize::MAX as int
        &&& 0 <= self.wpm <= usize::MAX as int
        &&& forall|i: int| 0 <= i < self.cursor ==> (#[trigger] self.words[i].status).is_settled()
        &&& forall|i: int|
            self.cursor < i < self.words.len() ==> (#[trigger] self.words[i].status) is Pending
        &&& (self.cursor < self.words.len() ==> self.words[self.cursor].status.is_current())
        &&& (self.cursor == self.words.len() ==> !self.started)
    }

    /// A freshly sampled run over the given corpus: the cursor is at the
    /// first word, which is marked next, every other word is pending, every
    /// counter and metric is zero, and the run's texts are drawn from the
    /// corpus without replacement.
    pub open spec fn is_fresh_run(self, corpus: Seq<Seq<char>>, sample_size: int) -> bool {
        &&& self.corpus == corpus
        &&& self.sample_size == sample_size
        &&& self.words.len() == sample_size
        &&& self.cursor == 0
        &&& self.input.len() == 0
        &&& self.correct_characters == 0
        &&& self.correct_words == 0
        &&& self.wpm == 0
        &&& !self.started
        &&& (self.words.len() > 0 ==> self.words[0].status is Next)
        &&& forall|i: int| 1 <= i < self.words.len() ==> (#[trigger] self.words[i].status) is Pending
        &&& slot_texts(self.words).to_multiset().subset_of(corpus.to_multiset())
    }
}

/// The typing-test engine: the sampled run, the cursor, the text typed for
/// the current word, and the running metrics.
pub struct Typings {
    corpus: Vec<String>,
    sample_size: usize,
    words: Vec<WordSlot>,
    input_buffer: String,
    cursor: usize,
    correct_characters: usize,
    correct_words: usize,
    started: bool,
    start_time: std::time::Instant,
    wpm: usize,
}

impl View for Typings {
    type V = TypingsModel;

    closed spec fn view(&self) -> TypingsModel {
        TypingsModel {
            corpus: texts(self.corpus@),
            sample_size: self.sample_size as int,
            words: self.words@.map_values(|w: WordSlot| w@),
            input: self.input_buffer@,
            cursor: self.cursor as int,
            correct_characters: self.correct_characters as int,
            correct_words: self.correct_words as int,
            started: self.started,
            wpm: self.wpm as int,
        }
    }
}

/// Turn freshly sampled words into slots: the first marked next, the rest
/// pending.
fn build_slots(sampled: Vec<String>) -> (r: Vec<WordSlot>)
    ensures
        r@.len() == sampled@.len(),
        forall|i: int| 0 <= i < r@.len() ==> (#[trigger] r@[i]).text@ == texts(sampled@)[i],
        r@.len() > 0 ==> r@[0].status is Next,
        forall|i: int| 1 <= i < r@.len() ==> (#[trigger] r@[i]).status is Pending,
{
    let ghost orig = sampled@;
    let mut rest = sampled;
    let mut slots: Vec<WordSlot> = Vec::new();
    while rest.len() > 0
        invariant
            slots@.len() + rest@.len() == orig.len(),
            rest@ =~= orig.subrange(slots@.len() as int, orig.len() as int),
            forall|i: int| 0 <= i < slots@.len() ==> (#[trigger] slots@[i]).text@ == orig[i]@,
            slots@.len() > 0 ==> slots@[0].status is Next,
            forall|i: int| 1 <= i < slots@.len() ==> (#[trigger] slots@[i]).status is Pending,
        decreases rest@.len(),
    {
        let word = rest.remove(0);
        let status = if slots.len() == 0 {
            WordStatus::Next
        } else {
            WordStatus::Pending
        };
        slots.push(WordSlot { text: word, status });
    }
    slots
}

/// Whether `p` is a character-wise prefix of `s`.
fn str_is_prefix(p: &str, s: &str) -> (r: bool)
    ensures
        r == p@.is_prefix_of(s@),
{
    let plen = p.unicode_len();
    let slen = s.unicode_len();
    if plen > slen {
        return false;
    }
    let mut i: usize = 0;
    while i < plen
        invariant
            i <= plen,
            plen <= slen,
            plen == p@.len(),
            slen == s@.len(),
            forall|k: int| 0 <= k < i ==> p@[k] == s@[k],
        decreases plen - i,
    {
        if p.get_char(i) != s.get_char(i) {
            proof {
                assert(p@ != s@.subrange(0, plen as int)) by {
                    assert(s@.subrange(0, plen as int)[i as int] == s@[i as int]);
                }
            }
            return false;
        }
        i += 1;
    }
    proof {
        assert(p@ =~= s@.subrange(0, plen as int));
    }
    true
}

impl Typings {
    /// Build a fresh engine over `corpus`: draw `sample_size` words without
    /// replacement, mark the first as the word to type, and zero every
    /// counter and metric.  Fails with [`InsufficientCorpus`] exactly when
    /// `sample_size` exceeds the corpus length.
    pub fn new(corpus: Vec<String>, sample_size: usize) -> (r: Result<Typings, InsufficientCorpus>)
        requires
            sample_size >= 1,
        ensures
            r is Ok <==> sample_size <= corpus@.len(),
            r is Ok ==> r->Ok_0@.wf(),
            r is Ok ==> r->Ok_0@.is_fresh_run(texts(corpus@), sample_size as int),
    {
        let sampled = match sample(&corpus, sample_size) {
            Ok(s) => s,
            Err(e) => {
                return Err(e);
            },
        };
        let words = build_slots(sampled);
        let ghost sampled_view = sampled@;
        let engine = Typings {
            corpus,
            sample_size,
            words,
            input_buffer: String::new(),
            cursor: 0,
            correct_characters: 0,
            correct_words: 0,
            started: false,
            start_time: monotonic_now(),
            wpm: 0,
        };
        proof {
            assert(slot_texts(engine@.words) =~= texts(sampled_view));
        }
        Ok(engine)
    }

    /// Replace the text typed for the current word and recompute that word's
    /// status: on track while the text is a prefix of the target, a typo
    /// otherwise.  The first non-empty text of a run starts the clock.  Once
    /// the run is complete the call has no effect.
    pub fn on_input_changed(&mut self, new_buffer: String)
        requires
            old(self)@.wf(),
        ensures
            final(self)@.wf(),
            old(self)@.cursor == old(self)@.words.len() ==> final(self)@ == old(self)@,
            old(self)@.cursor < old(self)@.words.len() ==> ({
                let m = old(self)@;
                let target = m.words[m.cursor].text;
                &&& final(self)@.corpus == m.corpus
                &&& final(self)@.sample_size == m.sample_size
                &&& final(self)@.cursor == m.cursor
                &&& final(self)@.correct_characters == m.correct_characters
                &&& final(self)@.correct_words == m.correct_words
                &&& final(self)@.wpm == m.wpm
                &&& final(self)@.input == new_buffer@
                &&& final(self)@.started == (m.started || new_buffer@.len() > 0)
                &&& final(self)@.words.len() == m.words.len()
                &&& forall|i: int|
                    0 <= i < m.words.len() && i != m.cursor ==> #[trigger] final(self)@.words[i]
                        == m.words[i]
                &&& final(self)@.words[m.cursor].text == target
                &&& final(self)@.words[m.cursor].status == (if new_buffer@.is_prefix_of(target) {
                    WordStatus::TypingCorrectPrefix
                } else {
                    WordStatus::TypingTypo
                })
            }),
    {
        if self.cursor >= self.words.len() {
            return;
        }
        if !self.started && !new_buffer.as_str().is_empty() {
            self.started = true;
            self.start_time = monotonic_now();
        }
        let cursor = self.cursor;
        let on_track = str_is_prefix(new_buffer.as_str(), self.words[cursor].text.as_str());
        self.input_buffer = new_buffer;
        self.words[cursor].status = if on_track {
            WordStatus::TypingCorrectPrefix
        } else {
            WordStatus::TypingTypo
        };
        proof {
            assert(self@.words =~= old(self)@.words.update(
                old(self)@.cursor,
                self@.words[old(self)@.cursor],
            ));
        }
    }

    /// Commit the current word: compare the typed text (without its trailing
    /// delimiter) against the target, settle the slot as correct or
    /// incorrect, count the target's characters, advance the cursor,
    /// recompute the words-per-minute figure from the elapsed time, and mark
    /// the next word — or, after the last word, finish the run.  Before the
    /// run has started the call only clears the typed text, and a submit
    /// with nothing typed is a benign no-op.
    pub fn on_submit_word(&mut self)
        requires
            old(self)@.wf(),
        ensures
            final(self)@.wf(),
            !old(self)@.started ==> final(self)@ == (TypingsModel {
                input: Seq::<char>::empty(),
                ..old(self)@
            }),
            old(self)@.started && old(self)@.input.len() == 0 ==> final(self)@ == old(self)@,
            old(self)@.started && old(self)@.input.len() > 0 ==> ({
                let m = old(self)@;
                let target = m.words[m.cursor].text;
                let matched = submitted_text(m.input) == target;
                let new_chars = spec_saturating_add(m.correct_characters, target.len() as int);
                &&& final(self)@.corpus == m.corpus
                &&& final(self)@.sample_size == m.sample_size
                &&& final(self)@.cursor == m.cursor + 1
                &&& final(self)@.input.len() == 0
                &&& final(self)@.correct_words == m.correct_words + (if matched {
                    1int
                } else {
                    0int
                })
                &&& final(self)@.correct_characters == new_chars
                &&& final(self)@.started == (m.cursor + 1 < m.words.len())
                &&& final(self)@.words.len() == m.words.len()
                &&& forall|i: int|
                    0 <= i < m.words.len() && i != m.cursor && i != m.cursor + 1
                        ==> #[trigger] final(self)@.words[i] == m.words[i]
                &&& final(self)@.words[m.cursor].text == target
                &&& final(self)@.words[m.cursor].status == (if matched {
                    WordStatus::Correct
                } else {
                    WordStatus::Incorrect
                })
                &&& (m.cursor + 1 < m.words.len() ==> final(self)@.words[m.cursor + 1].text
                    == m.words[m.cursor + 1].text && final(self)@.words[m.cursor + 1].status
                    is Next)
                &&& (exists|ms: u128| final(self)@.wpm == spec_wpm(new_chars, ms as int, m.wpm))
            }),
    {
        if !self.started {
            self.input_buffer = String::new();
            return;
        }
        let cursor = self.cursor;
        let blen = self.input_buffer.as_str().unicode_len();
        if blen == 0 {
            return;
        }
        let submitted: String = self.input_buffer.as_str().substring_char(0, blen - 1).to_owned();
        let matched = submitted == self.words[cursor].text;
        proof {
            assert(submitted@ == submitted_text(old(self)@.input));
            assert(matched == (submitted_text(old(self)@.input)
                == old(self)@.words[old(self)@.cursor].text));
        }
        self.words[cursor].status = if matched {
            WordStatus::Correct
        } else {
            WordStatus::Incorrect
        };
        if matched {
            self.correct_words = self.correct_words + 1;
        }
        let target_len = self.words[cursor].text.as_str().unicode_len();
        self.correct_characters = saturating_add_usize(self.correct_characters, target_len);
        self.input_buffer = String::new();
        self.cursor = cursor + 1;
        let ms = elapsed_millis(&self.start_time);
        self.wpm = compute_wpm(self.correct_characters, ms, self.wpm);
        proof {
            assert(self@.correct_characters == spec_saturating_add(
                old(self)@.correct_characters,
                old(self)@.words[old(self)@.cursor].text.len() as int,
            ));
            assert(self@.wpm == spec_wpm(
                spec_saturating_add(
                    old(self)@.correct_characters,
                    old(self)@.words[old(self)@.cursor].text.len() as int,
                ),
                ms as int,
                old(self)@.wpm,
            ));
        }
        if self.cursor < self.words.len() {
            let next = self.cursor;
            self.words[next].status = WordStatus::Next;
        } else {
            self.started = false;
        }
        proof {
            let m = old(self)@;
            assert forall|i: int|
                0 <= i < m.words.len() && i != m.cursor && i != m.cursor + 1
                    implies #[trigger] self@.words[i] == m.words[i] by {
                assert(self@.words[i].text == m.words[i].text);
                assert(self@.words[i].status == m.words[i].status);
            }
        }
    }

    /// Start a fresh run: draw a new sample of the same size from the stored
    /// corpus, move the cursor back to the first word, and zero every
    /// counter and metric.  The corpus and the sample size were validated at
    /// construction, so the draw always succeeds.
    pub fn reset(&mut self)
        requires
            old(self)@.wf(),
        ensures
            final(self)@.wf(),
            final(self)@.is_fresh_run(old(self)@.corpus, old(self)@.sample_size),
    {
        let sampled = match sample(&self.corpus, self.sample_size) {
            Ok(s) => s,
            Err(_) => {
                proof {
                    assert(false);
                }
                return;
            },
        };
        let ghost sampled_view = sampled@;
        self.words = build_slots(sampled);
        self.input_buffer = String::new();
        self.cursor = 0;
        self.correct_characters = 0;
        self.correct_words = 0;
        self.started = false;
        self.wpm = 0;
        proof {
            assert(slot_texts(self@.words) =~= texts(sampled_view));
        }
    }

    /// The accuracy percentage: one hundred times the exactly-matched words
    /// over the attempted words, an attempt count of zero counting as one.
    /// Always between 0 and 100.
    pub fn accuracy(&self) -> (r: usize)
        requires
            self@.wf(),
        ensures
            r == spec_accuracy(self@.correct_words, self@.cursor),
            0 <= r <= 100,
    {
        compute_accuracy(self.correct_words, self.cursor)
    }

    /// The words-per-minute figure of the latest submit.
    pub fn words_per_minute(&self) -> (r: usize)
        ensures
            r == self@.wpm,
    {
        self.wpm
    }

    /// The "words typed" display figure: the submitted characters at five
    /// characters per word.
    pub fn word_count_metric(&self) -> (r: usize)
        ensures
            r == self@.correct_characters / 5,
    {
        self.correct_characters / 5
    }

    /// How many words the current run holds.
    pub fn word_count(&self) -> (r: usize)
        ensures
            r == self@.words.len(),
    {
        self.words.len()
    }

    /// The target text of the word at `index`.
    pub fn word_text(&self, index: usize) -> (r: &String)
        requires
            index < self@.words.len(),
        ensures
            r@ == self@.words[index as int].text,
    {
        &self.words[index].text
    }

    /// The status of the word at `index`.
    pub fn word_status(&self, index: usize) -> (r: WordStatus)
        requires
            index < self@.words.len(),
        ensures
            r == self@.words[index as int].status,
    {
        self.words[index].status
    }

    /// The index of the current word; equal to [`Self::word_count`] once the
    /// run is complete.
    pub fn cursor(&self) -> (r: usize)
        ensures
            r == self@.cursor,
    {
        self.cursor
    }

    /// The text typed for the current word so far.
    pub fn input_text(&self) -> (r: &String)
        ensures
            r@ == self@.input,
    {
        &self.input_buffer
    }

    /// Whether the run has begun and is not yet complete.
    pub fn is_started(&self) -> (r: bool)
        ensures
            r == self@.started,
    {
        self.started
    }

    /// Whether every word of the run has been submitted.
    pub fn is_complete(&self) -> (r: bool)
        ensures
            r == (self@.cursor == self@.words.len()),
    {
        self.cursor == self.words.len()
    }

    /// How many words were submitted as an exact match.
    pub fn correct_word_count(&self) -> (r: usize)
        ensures
            r == self@.correct_words,
    {
        self.correct_words
    }

    /// The summed character count of every submitted word's target text.
    pub fn submitted_character_count(&self) -> (r: usize)
        ensures
            r == self@.correct_characters,
    {
        self.correct_characters
    }
}

/// While a run is incomplete, exactly the word under the cursor carries a
/// current status; once it is complete, no word does.
pub proof fn lemma_slot_status_invariant(m: TypingsModel)
    requires
        m.wf(),
    ensures
        m.cursor < m.words.len() ==> forall|i: int|
            0 <= i < m.words.len() ==> ((#[trigger] m.words[i].status).is_current() <==> i
                == m.cursor),
        m.cursor == m.words.len() ==> forall|i: int|
            0 <= i < m.words.len() ==> !(#[trigger] m.words[i].status).is_current(),
{
}

} // verus!
